use barter_execution::balance::AssetBalance;
use barter_execution::cerebrum::AccountUpdater;
use barter_execution::cerebrum::Cerebrum;
use barter_execution::cerebrum::Engine;
use barter_execution::error::PortfolioError;
use barter_execution::event::AccountEvent;
use barter_execution::ids::AssetNameExchange;
use barter_execution::ids::ExchangeId;
use barter_execution::portfolio::Balance;
use barter_execution::portfolio::Decision;
use barter_execution::portfolio::Exchange;
use barter_execution::portfolio::Instrument;
use barter_execution::portfolio::MarketMeta;
use barter_execution::portfolio::OrderEvent;
use barter_execution::portfolio::OrderType;

fn full_builder() -> barter_execution::portfolio::OrderEventBuilder {
    OrderEvent::builder()
        .time(1_700_000_000_000)
        .exchange(Exchange { name: String::from("binance") })
        .instrument(Instrument { base: String::from("btc"), quote: String::from("usdt") })
        .market_meta(MarketMeta { close: 50_000, time: 1_700_000_000_000 })
        .decision(Decision::Long)
        .quantity(10)
        .order_type(OrderType::Market)
}

#[test]
fn builder_with_every_field_builds_exactly_that_event() {
    let event = full_builder().build().expect("complete builder");
    assert_eq!(event.time, 1_700_000_000_000);
    assert_eq!(event.exchange.name, "binance");
    assert_eq!(event.instrument.base, "btc");
    assert_eq!(event.instrument.quote, "usdt");
    assert_eq!(event.market_meta, MarketMeta { close: 50_000, time: 1_700_000_000_000 });
    assert_eq!(event.decision, Decision::Long);
    assert_eq!(event.quantity, 10);
    assert_eq!(event.order_type, OrderType::Market);
}

fn missing_field(result: Result<OrderEvent, PortfolioError>) -> String {
    match result {
        Err(PortfolioError::BuilderIncomplete(name)) => name,
        Ok(_) => panic!("expected an incomplete builder"),
    }
}

#[test]
fn builder_names_the_first_missing_field() {
    assert_eq!(missing_field(OrderEvent::builder().build()), "time");

    let only_time = OrderEvent::builder().time(1);
    assert_eq!(missing_field(only_time.build()), "exchange");

    let up_to_exchange = OrderEvent::builder()
        .time(1)
        .exchange(Exchange { name: String::from("binance") });
    assert_eq!(missing_field(up_to_exchange.build()), "instrument");

    let up_to_instrument = up_to_exchange_and(|b| b);
    assert_eq!(missing_field(up_to_instrument.build()), "market_meta");

    let up_to_meta = up_to_exchange_and(|b| b.market_meta(MarketMeta { close: 1, time: 1 }));
    assert_eq!(missing_field(up_to_meta.build()), "decision");

    let up_to_decision = up_to_exchange_and(|b| {
        b.market_meta(MarketMeta { close: 1, time: 1 }).decision(Decision::Short)
    });
    assert_eq!(missing_field(up_to_decision.build()), "quantity");

    let up_to_quantity = up_to_exchange_and(|b| {
        b.market_meta(MarketMeta { close: 1, time: 1 }).decision(Decision::Short).quantity(-3)
    });
    assert_eq!(missing_field(up_to_quantity.build()), "order_type");
}

fn up_to_exchange_and(
    extend: impl FnOnce(
        barter_execution::portfolio::OrderEventBuilder,
    ) -> barter_execution::portfolio::OrderEventBuilder,
) -> barter_execution::portfolio::OrderEventBuilder {
    extend(
        OrderEvent::builder()
            .time(1)
            .exchange(Exchange { name: String::from("binance") })
            .instrument(Instrument { base: String::from("btc"), quote: String::from("usdt") }),
    )
}

#[test]
fn order_type_defaults_to_market() {
    assert_eq!(OrderType::default(), OrderType::Market);
}

#[test]
fn balance_new_sets_the_fields() {
    let balance = Balance::new(7, 1000, 800);
    assert_eq!(balance.time, 7);
    assert_eq!(balance.total, 1000);
    assert_eq!(balance.available, 800);
}

#[test]
fn balance_default_is_empty() {
    let balance = Balance::default();
    assert_eq!(balance.total, 0);
    assert_eq!(balance.available, 0);
}

#[test]
fn balance_id_is_the_engine_uuid_text_plus_suffix() {
    assert_eq!(Balance::balance_id(0), "00000000-0000-0000-0000-000000000000_balance");
    assert_eq!(Balance::balance_id(1), "00000000-0000-0000-0000-000000000001_balance");
    let engine_id = uuid::Uuid::from_u128(0xDEADBEEF_0123_4567_89AB_CDEF01234567);
    assert_eq!(Balance::balance_id(engine_id.as_u128()), format!("{engine_id}_balance"));
}

#[test]
fn asset_balance_new_refuses_over_available() {
    let asset = AssetNameExchange { name: String::from("usdt") };
    assert!(AssetBalance::new(asset, 100, 101, 0).is_none());
    let asset = AssetNameExchange { name: String::from("usdt") };
    let balance = AssetBalance::new(asset, 100, 100, 0).expect("well-formed");
    assert_eq!(balance.available, 100);
}

#[test]
fn consuming_an_account_event_returns_to_the_feed() {
    let engine = Cerebrum {
        state: AccountUpdater {
            account: AccountEvent::ConnectionStatus {
                exchange: ExchangeId::Mock,
                status: barter_execution::event::ConnectionStatus::Disconnected,
            },
        },
        strategy: 17u32,
    };
    let Engine::Consumer(consumer) = engine.update_from_account_event();
    assert_eq!(consumer.strategy, 17);
}

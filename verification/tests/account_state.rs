use barter_execution::balance::AssetBalance;
use barter_execution::client::snapshot_then_replay;
use barter_execution::client::ExecutionClient;
use barter_execution::error::ClientError;
use barter_execution::event::AccountEvent;
use barter_execution::event::AccountSnapshot;
use barter_execution::event::ConnectionStatus;
use barter_execution::ids::AssetNameExchange;
use barter_execution::ids::ClientOrderId;
use barter_execution::ids::ExchangeId;
use barter_execution::ids::InstrumentNameExchange;
use barter_execution::ids::QuoteAsset;
use barter_execution::mock::MockConfig;
use barter_execution::mock::MockExecution;
use barter_execution::order::Cancelled;
use barter_execution::order::Open;
use barter_execution::order::Order;
use barter_execution::order::Side;
use barter_execution::trade::Trade;

fn balance(asset: &str, total: u64, available: u64) -> AssetBalance {
    AssetBalance {
        asset: AssetNameExchange { name: String::from(asset) },
        total,
        available,
        time_exchange: 1_700_000_000_000,
    }
}

fn open_order(instrument: &str, cid: &str) -> Order<Open> {
    Order {
        exchange: ExchangeId::Mock,
        instrument: InstrumentNameExchange { name: String::from(instrument) },
        cid: ClientOrderId { id: String::from(cid) },
        state: Open { time_exchange: 1, filled_quantity: 0 },
    }
}

fn trade_at(time: i64, cid: &str) -> Trade {
    Trade {
        instrument: InstrumentNameExchange { name: String::from("btc_usdt") },
        order_cid: ClientOrderId { id: String::from(cid) },
        side: Side::Buy,
        price: 100,
        quantity: 2,
        fees_quote: 1,
        fees_asset: QuoteAsset,
        time_exchange: time,
    }
}

fn config() -> MockConfig {
    MockConfig {
        balances: vec![balance("usdt", 1000, 800)],
        open_orders: vec![open_order("btc_usdt", "a")],
        trades: Vec::new(),
        events: Vec::new(),
        rejected: Vec::new(),
        reject_reason: String::from("unknown order"),
        open_time: 5,
        failure: None,
    }
}

#[test]
fn fetch_balances_returns_the_scripted_values_exactly() {
    let client = MockExecution::new(config());
    let balances = client.fetch_balances().expect("scripted success");
    assert_eq!(balances.len(), 1);
    assert_eq!(balances[0].asset.name, "usdt");
    assert_eq!(balances[0].total, 1000);
    assert_eq!(balances[0].available, 800);
    assert!(balances[0].available <= balances[0].total);
}

#[test]
fn scripted_failure_fails_the_whole_call() {
    let mut config = config();
    config.failure = Some(ClientError::Timeout);
    let client = MockExecution::new(config);
    assert!(matches!(client.fetch_balances(), Err(ClientError::Timeout)));
    assert!(matches!(client.fetch_open_orders(), Err(ClientError::Timeout)));
    assert!(matches!(client.account_snapshot(&Vec::new(), &Vec::new()), Err(ClientError::Timeout)));
    assert!(matches!(client.account_stream(&Vec::new(), &Vec::new()), Err(ClientError::Timeout)));
    assert!(matches!(client.fetch_trades(0), Err(ClientError::Timeout)));
}

#[test]
fn fetch_trades_keeps_only_fills_since_the_bound() {
    let mut config = config();
    config.trades = vec![trade_at(5, "a"), trade_at(15, "b"), trade_at(25, "c")];
    let client = MockExecution::new(config);
    let trades = client.fetch_trades(10).expect("scripted success");
    assert_eq!(trades.len(), 2);
    assert_eq!(trades[0].time_exchange, 15);
    assert_eq!(trades[1].time_exchange, 25);
}

#[test]
fn snapshot_replay_reconciles_with_the_feed() {
    let mut config = config();
    config.events = vec![
        AccountEvent::BalanceUpdate {
            exchange: ExchangeId::Mock,
            balance: balance("usdt", 900, 700),
        },
        AccountEvent::OrderOpened(open_order("eth_usdt", "b")),
        AccountEvent::OrderCancelled(Order {
            exchange: ExchangeId::Mock,
            instrument: InstrumentNameExchange { name: String::from("btc_usdt") },
            cid: ClientOrderId { id: String::from("a") },
            state: Cancelled,
        }),
        AccountEvent::ConnectionStatus {
            exchange: ExchangeId::Mock,
            status: ConnectionStatus::Connected,
        },
    ];
    let client = MockExecution::new(config);
    let state = snapshot_then_replay(&client, &Vec::new(), &Vec::new()).expect("both calls succeed");
    assert_eq!(state.exchange, ExchangeId::Mock);
    assert_eq!(state.balances.len(), 1);
    assert_eq!(state.balances[0].total, 900);
    assert_eq!(state.balances[0].available, 700);
    assert!(state.balances[0].available <= state.balances[0].total);
    assert_eq!(state.open_orders.len(), 1);
    assert_eq!(state.open_orders[0].cid.id, "b");
    assert_eq!(state.open_orders[0].instrument.name, "eth_usdt");
}

#[test]
fn balance_update_replaces_only_its_own_asset() {
    let mut state = AccountSnapshot::empty(ExchangeId::Mock);
    state.apply_balance_update(balance("usdt", 1000, 800));
    state.apply_balance_update(balance("btc", 3, 3));
    state.apply_balance_update(balance("usdt", 500, 100));
    assert_eq!(state.balances.len(), 2);
    assert_eq!(state.balances[0].asset.name, "usdt");
    assert_eq!(state.balances[0].total, 500);
    assert_eq!(state.balances[0].available, 100);
    assert_eq!(state.balances[1].asset.name, "btc");
    assert_eq!(state.balances[1].total, 3);
}

#[test]
fn cancelling_an_unknown_order_changes_nothing() {
    let mut state = AccountSnapshot::empty(ExchangeId::Mock);
    state.apply_order_opened(open_order("btc_usdt", "a"));
    state.apply_order_cancelled(&Order {
        exchange: ExchangeId::Mock,
        instrument: InstrumentNameExchange { name: String::from("btc_usdt") },
        cid: ClientOrderId { id: String::from("ghost") },
        state: Cancelled,
    });
    assert_eq!(state.open_orders.len(), 1);
    assert_eq!(state.open_orders[0].cid.id, "a");
}

#[test]
fn reacknowledged_order_replaces_its_record() {
    let mut state = AccountSnapshot::empty(ExchangeId::Mock);
    state.apply_order_opened(open_order("btc_usdt", "a"));
    let mut again = open_order("btc_usdt", "a");
    again.state.filled_quantity = 4;
    state.apply_order_opened(again);
    assert_eq!(state.open_orders.len(), 1);
    assert_eq!(state.open_orders[0].state.filled_quantity, 4);
}

#[test]
fn duplicated_handle_serves_the_same_exchange() {
    let client = MockExecution::new(config());
    let twin = client.duplicate();
    assert_eq!(client.exchange(), twin.exchange());
    let balances = twin.fetch_balances().expect("scripted success");
    assert_eq!(balances[0].total, 1000);
}

#[test]
fn account_stream_delivers_the_scripted_feed_in_order() {
    let mut config = config();
    config.events = vec![
        AccountEvent::ConnectionStatus {
            exchange: ExchangeId::Mock,
            status: ConnectionStatus::Connected,
        },
        AccountEvent::BalanceUpdate {
            exchange: ExchangeId::Mock,
            balance: balance("usdt", 1, 1),
        },
    ];
    let client = MockExecution::new(config);
    let events = client.account_stream(&Vec::new(), &Vec::new()).expect("scripted success");
    assert_eq!(events.len(), 2);
    assert!(matches!(
        events[0],
        AccountEvent::ConnectionStatus { status: ConnectionStatus::Connected, .. }
    ));
    assert!(matches!(events[1], AccountEvent::BalanceUpdate { .. }));
}

#[test]
fn wholesale_failures_carry_each_client_error_kind() {
    for failure in [
        ClientError::Connectivity(String::from("socket closed")),
        ClientError::Auth(String::from("bad key")),
        ClientError::RateLimited,
        ClientError::BadConfig(String::from("missing endpoint")),
        ClientError::Timeout,
    ] {
        let mut config = config();
        config.failure = Some(failure);
        let client = MockExecution::new(config);
        assert!(client.fetch_balances().is_err());
    }
}

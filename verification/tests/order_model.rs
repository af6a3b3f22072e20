use barter_execution::error::OrderError;
use barter_execution::ids::ClientOrderId;
use barter_execution::ids::ExchangeId;
use barter_execution::ids::InstrumentNameExchange;
use barter_execution::order::Cancelled;
use barter_execution::order::Open;
use barter_execution::order::Order;
use barter_execution::order::OrderKind;
use barter_execution::order::RequestCancel;
use barter_execution::order::RequestOpen;
use barter_execution::order::Side;

fn open_request() -> Order<RequestOpen> {
    Order {
        exchange: ExchangeId::BinanceSpot,
        instrument: InstrumentNameExchange { name: String::from("btc_usdt") },
        cid: ClientOrderId { id: String::from("order-1") },
        state: RequestOpen { side: Side::Sell, price: 42, quantity: 7, kind: OrderKind::Market },
    }
}

#[test]
fn accepting_an_open_keeps_identity() {
    let request = open_request();
    let result = request.accept_open(99);
    assert_eq!(result.exchange, ExchangeId::BinanceSpot);
    assert_eq!(result.instrument.name, "btc_usdt");
    assert_eq!(result.cid.id, "order-1");
    assert!(matches!(result.state, Ok(Open { time_exchange: 99, filled_quantity: 0 })));
}

#[test]
fn rejecting_an_open_keeps_identity() {
    let request = open_request();
    let result = request.reject_open(OrderError::Rejected(String::from("price out of bounds")));
    assert_eq!(result.exchange, ExchangeId::BinanceSpot);
    assert_eq!(result.instrument.name, "btc_usdt");
    assert_eq!(result.cid.id, "order-1");
    match result.state {
        Err(OrderError::Rejected(reason)) => assert_eq!(reason, "price out of bounds"),
        other => panic!("expected a rejection, got {other:?}"),
    }
}

#[test]
fn cancel_transitions_keep_identity() {
    let request = Order {
        exchange: ExchangeId::Kraken,
        instrument: InstrumentNameExchange { name: String::from("eth_usd") },
        cid: ClientOrderId { id: String::from("order-2") },
        state: RequestCancel,
    };
    let accepted = request.accept_cancel();
    assert_eq!(accepted.exchange, ExchangeId::Kraken);
    assert_eq!(accepted.instrument.name, "eth_usd");
    assert_eq!(accepted.cid.id, "order-2");
    assert!(matches!(accepted.state, Ok(Cancelled)));

    let request = Order {
        exchange: ExchangeId::Kraken,
        instrument: InstrumentNameExchange { name: String::from("eth_usd") },
        cid: ClientOrderId { id: String::from("order-3") },
        state: RequestCancel,
    };
    let rejected = request.reject_cancel(OrderError::Timeout);
    assert_eq!(rejected.cid.id, "order-3");
    assert!(matches!(rejected.state, Err(OrderError::Timeout)));
}

#[test]
fn with_state_copies_identity_without_consuming() {
    let request = open_request();
    let probe: Order<u8> = request.with_state(3);
    assert_eq!(probe.exchange, request.exchange);
    assert_eq!(probe.instrument.name, request.instrument.name);
    assert_eq!(probe.cid.id, request.cid.id);
    assert_eq!(probe.state, 3);
}

#[test]
fn client_order_ids_compare_by_text() {
    let a = ClientOrderId { id: String::from("abc") };
    let b = ClientOrderId { id: String::from("abc") };
    let c = ClientOrderId { id: String::from("abd") };
    assert!(a.same(&b));
    assert!(!a.same(&c));
    let d = a.duplicate();
    assert!(d.same(&a));
}

#[test]
fn constructors_wrap_the_given_names() {
    let instrument = InstrumentNameExchange::new(String::from("btc_usdt"));
    let cid = ClientOrderId::new(String::from("order-9"));
    let order = Order::new(ExchangeId::Coinbase, instrument, cid, RequestCancel);
    assert_eq!(order.exchange, ExchangeId::Coinbase);
    assert_eq!(order.instrument.name, "btc_usdt");
    assert_eq!(order.cid.id, "order-9");
}

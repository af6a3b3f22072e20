use barter_execution::client::ExecutionClient;
use barter_execution::dispatch::BatchDispatch;
use barter_execution::error::OrderError;
use barter_execution::ids::ClientOrderId;
use barter_execution::ids::ExchangeId;
use barter_execution::ids::InstrumentNameExchange;
use barter_execution::mock::MockConfig;
use barter_execution::mock::MockExecution;
use barter_execution::order::Cancelled;
use barter_execution::order::Open;
use barter_execution::order::Order;
use barter_execution::order::OrderKind;
use barter_execution::order::RequestCancel;
use barter_execution::order::RequestOpen;
use barter_execution::order::Side;

fn empty_config() -> MockConfig {
    MockConfig {
        balances: Vec::new(),
        open_orders: Vec::new(),
        trades: Vec::new(),
        events: Vec::new(),
        rejected: Vec::new(),
        reject_reason: String::from("unknown order"),
        open_time: 1_700_000_000_000,
        failure: None,
    }
}

fn cancel_request(instrument: &str, cid: &str) -> Order<RequestCancel> {
    Order {
        exchange: ExchangeId::Mock,
        instrument: InstrumentNameExchange { name: String::from(instrument) },
        cid: ClientOrderId { id: String::from(cid) },
        state: RequestCancel,
    }
}

fn open_request(instrument: &str, cid: &str) -> Order<RequestOpen> {
    Order {
        exchange: ExchangeId::Mock,
        instrument: InstrumentNameExchange { name: String::from(instrument) },
        cid: ClientOrderId { id: String::from(cid) },
        state: RequestOpen { side: Side::Buy, price: 100, quantity: 5, kind: OrderKind::Limit },
    }
}

#[test]
fn batch_open_yields_one_result_per_request_with_identity() {
    let client = MockExecution::new(empty_config());
    let requests = vec![
        open_request("btc_usdt", "a"),
        open_request("eth_usdt", "b"),
        open_request("sol_usdt", "c"),
    ];
    let results = client.open_orders(&requests);
    assert_eq!(results.len(), 3);
    for (request, result) in requests.iter().zip(results.iter()) {
        assert_eq!(result.exchange, request.exchange);
        assert_eq!(result.instrument.name, request.instrument.name);
        assert_eq!(result.cid.id, request.cid.id);
        assert!(result.state.is_ok());
    }
}

#[test]
fn batch_cancel_yields_one_result_per_request_with_identity() {
    let client = MockExecution::new(empty_config());
    let requests = vec![cancel_request("btc_usdt", "a"), cancel_request("eth_usdt", "b")];
    let results = client.cancel_orders(&requests);
    assert_eq!(results.len(), 2);
    for (request, result) in requests.iter().zip(results.iter()) {
        assert_eq!(result.exchange, request.exchange);
        assert_eq!(result.instrument.name, request.instrument.name);
        assert_eq!(result.cid.id, request.cid.id);
        assert!(matches!(result.state, Ok(Cancelled)));
    }
}

#[test]
fn scripted_failure_is_isolated_to_its_own_record() {
    let mut config = empty_config();
    config.rejected.push(ClientOrderId { id: String::from("bad") });
    config.reject_reason = String::from("insufficient balance");
    let client = MockExecution::new(config);
    let requests = vec![
        open_request("btc_usdt", "good"),
        open_request("eth_usdt", "bad"),
        open_request("sol_usdt", "also_good"),
    ];
    let results = client.open_orders(&requests);
    assert_eq!(results.len(), 3);
    assert!(results[0].state.is_ok());
    match &results[1].state {
        Err(OrderError::Rejected(reason)) => assert_eq!(reason, "insufficient balance"),
        other => panic!("expected a rejection, got {other:?}"),
    }
    assert!(results[2].state.is_ok());
}

#[test]
fn cancel_three_with_one_unknown_order() {
    let mut config = empty_config();
    config.rejected.push(ClientOrderId { id: String::from("B") });
    config.reject_reason = String::from("unknown order");
    let client = MockExecution::new(config);
    let requests = vec![
        cancel_request("btc_usdt", "A"),
        cancel_request("btc_usdt", "B"),
        cancel_request("btc_usdt", "C"),
    ];
    let results = client.cancel_orders(&requests);
    assert_eq!(results.len(), 3);
    let a = results.iter().find(|r| r.cid.id == "A").expect("record for A");
    let b = results.iter().find(|r| r.cid.id == "B").expect("record for B");
    let c = results.iter().find(|r| r.cid.id == "C").expect("record for C");
    assert!(matches!(a.state, Ok(Cancelled)));
    assert!(matches!(c.state, Ok(Cancelled)));
    match &b.state {
        Err(OrderError::NotFound(reason)) => assert_eq!(reason, "unknown order"),
        other => panic!("expected unknown order, got {other:?}"),
    }
}

#[test]
fn dispatch_completes_out_of_order_and_preserves_identity() {
    let requests = vec![
        open_request("btc_usdt", "a"),
        open_request("eth_usdt", "b"),
        open_request("sol_usdt", "c"),
    ];
    let mut batch: BatchDispatch<RequestOpen, Open> = BatchDispatch::new(requests);
    assert_eq!(batch.len(), 3);
    assert!(!batch.is_done());
    batch.complete(2, Ok(Open { time_exchange: 7, filled_quantity: 0 }));
    batch.complete(0, Err(OrderError::Timeout));
    batch.complete(1, Ok(Open { time_exchange: 9, filled_quantity: 0 }));
    assert!(batch.is_done());
    let results = batch.results();
    assert_eq!(results.len(), 3);
    assert_eq!(results[0].cid.id, "c");
    assert_eq!(results[1].cid.id, "a");
    assert_eq!(results[2].cid.id, "b");
    assert_eq!(results[0].instrument.name, "sol_usdt");
    assert!(matches!(results[1].state, Err(OrderError::Timeout)));
    assert!(matches!(results[2].state, Ok(Open { time_exchange: 9, filled_quantity: 0 })));
}

#[test]
fn abandoning_a_batch_midway_keeps_delivered_results() {
    let requests = vec![
        cancel_request("btc_usdt", "a"),
        cancel_request("eth_usdt", "b"),
        cancel_request("sol_usdt", "c"),
    ];
    let mut batch: BatchDispatch<RequestCancel, Cancelled> = BatchDispatch::new(requests);
    batch.complete(1, Ok(Cancelled));
    batch.complete(0, Err(OrderError::Transport(String::from("reset"))));
    // the consumer walks away here: nothing more is completed or delivered
    assert!(!batch.is_done());
    let results = batch.results();
    assert_eq!(results.len(), 2);
    assert_eq!(results[0].cid.id, "b");
    assert_eq!(results[1].cid.id, "a");
    assert!(!batch.is_completed(2));
}

#[test]
fn empty_batch_yields_no_results() {
    let client = MockExecution::new(empty_config());
    let results = client.cancel_orders(&Vec::new());
    assert!(results.is_empty());
}

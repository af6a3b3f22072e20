//! A scripted in-memory adapter satisfying the `ExecutionClient` contract.
//!
//! Interchangeable with a real exchange adapter from a caller's point of
//! view: its answers come from its configuration instead of the network.
//! One-shot reads fail wholesale exactly when a call-level failure is
//! scripted; an open or cancel is refused exactly when its client order id
//! is scripted as rejected, and that refusal stays inside the one record it
//! belongs to.

use vstd::prelude::*;

use crate::balance::AssetBalance;
use crate::client::ExecutionClient;
use crate::dup::duplicate_vec;
use crate::error::ClientError;
use crate::error::OrderError;
use crate::event::assets_unique;
use crate::event::balances_wf;
use crate::event::cids_unique;
use crate::event::orders_exchange;
use crate::event::AccountEvent;
use crate::event::AccountSnapshot;
use crate::ids::AssetNameExchange;
use crate::ids::ClientOrderId;
use crate::ids::ExchangeId;
use crate::ids::InstrumentNameExchange;
use crate::order::same_identity;
use crate::order::Cancelled;
use crate::order::Open;
use crate::order::Order;
use crate::order::RequestCancel;
use crate::order::RequestOpen;
use crate::trade::Trade;

verus! {

/// Some id in the list spells the given client order id.
pub open spec fn cid_listed(list: Seq<ClientOrderId>, cid: Seq<char>) -> bool {
    exists|k: int| 0 <= k < list.len() && (#[trigger] list[k])@ == cid
}

/// Whether the list holds the given client order id.
fn cid_in(list: &Vec<ClientOrderId>, cid: &ClientOrderId) -> (b: bool)
    ensures
        b == cid_listed(list@, cid@),
{
    let n = list.len();
    let mut i: usize = 0;
    while i < n
        invariant
            i <= n,
            n == list@.len(),
            forall|k: int| 0 <= k < i ==> (#[trigger] list@[k])@ != cid@,
        decreases n - i,
    {
        if list[i].same(cid) {
            return true;
        }
        i += 1;
    }
    false
}

/// The terminal state a scripted venue gives one cancel: refused exactly
/// when the client order id is scripted as rejected; decided by the script
/// and that one id alone, never by sibling requests.
pub open spec fn mock_cancel_outcome(config: MockConfig, cid: Seq<char>) -> Result<
    Cancelled,
    OrderError,
> {
    if cid_listed(config.rejected@, cid) {
        Err(OrderError::NotFound(config.reject_reason))
    } else {
        Ok(Cancelled)
    }
}

/// The terminal state a scripted venue gives one open: refused exactly when
/// the client order id is scripted as rejected; decided by the script and
/// that one id alone, never by sibling requests.
pub open spec fn mock_open_outcome(config: MockConfig, cid: Seq<char>) -> Result<
    Open,
    OrderError,
> {
    if cid_listed(config.rejected@, cid) {
        Err(OrderError::Rejected(config.reject_reason))
    } else {
        Ok(Open { time_exchange: config.open_time, filled_quantity: 0 })
    }
}

/// Script of a mock venue: the account it reports, the event feed it
/// delivers, which client order ids it refuses, and an optional wholesale
/// failure for call-level reads.
#[derive(Clone, Debug)]
pub struct MockConfig {
    /// Balances reported by snapshots and `fetch_balances`.
    pub balances: Vec<AssetBalance>,
    /// Open orders reported by snapshots and `fetch_open_orders`.
    pub open_orders: Vec<Order<Open>>,
    /// Fills reported by `fetch_trades`.
    pub trades: Vec<Trade>,
    /// The feed `account_stream` delivers, in emission order.
    pub events: Vec<AccountEvent>,
    /// Open or cancel requests with these client order ids are refused.
    pub rejected: Vec<ClientOrderId>,
    /// The reason attached to each refusal.
    pub reject_reason: String,
    /// Acknowledgment time stamped on accepted opens.
    pub open_time: i64,
    /// If scripted, every call-level read fails wholesale with this error.
    pub failure: Option<ClientError>,
}

impl MockConfig {
    /// A valid script: the reported account state and feed are well-formed
    /// for the mock venue.
    pub open spec fn wf(&self) -> bool {
        &&& balances_wf(self.balances@)
        &&& assets_unique(self.balances@)
        &&& orders_exchange(self.open_orders@, ExchangeId::Mock)
        &&& cids_unique(self.open_orders@)
        &&& forall|i: int|
            0 <= i < self.events@.len() ==> (#[trigger] self.events@[i]).wf_for(ExchangeId::Mock)
    }

    /// Copies the script; every scripted answer reads the same.
    pub fn duplicate(&self) -> (r: Self)
        ensures
            r.balances@ == self.balances@,
            r.open_orders@ == self.open_orders@,
            r.trades@ == self.trades@,
            r.events@ == self.events@,
            r.rejected@ == self.rejected@,
            r.reject_reason == self.reject_reason,
            r.open_time == self.open_time,
            r.failure == self.failure,
    {
        MockConfig {
            balances: duplicate_vec(&self.balances),
            open_orders: duplicate_vec(&self.open_orders),
            trades: duplicate_vec(&self.trades),
            events: duplicate_vec(&self.events),
            rejected: duplicate_vec(&self.rejected),
            reject_reason: self.reject_reason.clone(),
            open_time: self.open_time,
            failure: match &self.failure {
                Some(e) => Some(e.duplicate()),
                None => None,
            },
        }
    }
}

/// The scripted client handle.
#[derive(Clone, Debug)]
pub struct MockExecution {
    pub config: MockConfig,
}

impl ExecutionClient for MockExecution {
    type Config = MockConfig;

    open spec fn config_wf(config: &MockConfig) -> bool {
        config.wf()
    }

    open spec fn inv(&self) -> bool {
        self.config.wf()
    }

    open spec fn exchange_spec(&self) -> ExchangeId {
        ExchangeId::Mock
    }

    fn exchange(&self) -> (e: ExchangeId)
        ensures
            e == self.exchange_spec(),
    {
        ExchangeId::Mock
    }

    fn new(config: MockConfig) -> (r: Self)
        ensures
            r.inv(),
            r.config == config,
    {
        MockExecution { config }
    }

    fn duplicate(&self) -> (r: Self)
        ensures
            r.inv(),
            r.exchange_spec() == self.exchange_spec(),
    {
        MockExecution { config: self.config.duplicate() }
    }

    fn account_snapshot(
        &self,
        assets: &Vec<AssetNameExchange>,
        instruments: &Vec<InstrumentNameExchange>,
    ) -> (r: Result<AccountSnapshot, ClientError>)
        ensures
            self.config.failure is Some ==> (r matches Err(e) && Some(e)
                == self.config.failure),
            self.config.failure is None ==> (r matches Ok(snapshot) && snapshot.exchange
                == ExchangeId::Mock && snapshot.balances@ == self.config.balances@
                && snapshot.open_orders@ == self.config.open_orders@),
    {
        match &self.config.failure {
            Some(e) => Err(e.duplicate()),
            None => Ok(
                AccountSnapshot {
                    exchange: ExchangeId::Mock,
                    balances: duplicate_vec(&self.config.balances),
                    open_orders: duplicate_vec(&self.config.open_orders),
                },
            ),
        }
    }

    fn account_stream(
        &self,
        assets: &Vec<AssetNameExchange>,
        instruments: &Vec<InstrumentNameExchange>,
    ) -> (r: Result<Vec<AccountEvent>, ClientError>)
        ensures
            self.config.failure is Some ==> (r matches Err(e) && Some(e)
                == self.config.failure),
            self.config.failure is None ==> (r matches Ok(events) && events@
                == self.config.events@),
    {
        match &self.config.failure {
            Some(e) => Err(e.duplicate()),
            None => Ok(duplicate_vec(&self.config.events)),
        }
    }

    fn cancel_order(&self, request: &Order<RequestCancel>) -> (r: Order<
        Result<Cancelled, OrderError>,
    >)
        ensures
            r.exchange == request.exchange,
            r.instrument == request.instrument,
            r.cid == request.cid,
            r.state == mock_cancel_outcome(self.config, request.cid@),
    {
        if cid_in(&self.config.rejected, &request.cid) {
            request.with_state(Err(OrderError::NotFound(self.config.reject_reason.clone())))
        } else {
            request.with_state(Ok(Cancelled))
        }
    }

    fn open_order(&self, request: &Order<RequestOpen>) -> (r: Order<Result<Open, OrderError>>)
        ensures
            r.exchange == request.exchange,
            r.instrument == request.instrument,
            r.cid == request.cid,
            r.state == mock_open_outcome(self.config, request.cid@),
    {
        if cid_in(&self.config.rejected, &request.cid) {
            request.with_state(Err(OrderError::Rejected(self.config.reject_reason.clone())))
        } else {
            request.with_state(
                Ok(Open { time_exchange: self.config.open_time, filled_quantity: 0 }),
            )
        }
    }

    /// The scripted venue's batched cancel: beyond the contract every
    /// adapter gives (one record per request, identity preserved), each
    /// record's terminal state is pinned to the scripted outcome of its own
    /// request — one scripted refusal never touches a sibling's record.
    fn cancel_orders(&self, requests: &Vec<Order<RequestCancel>>) -> (results: Vec<
        Order<Result<Cancelled, OrderError>>,
    >)
        ensures
            results@.len() == requests@.len(),
            forall|i: int|
                0 <= i < requests@.len() ==> same_identity(#[trigger] results@[i], requests@[i])
                    && results@[i].state == mock_cancel_outcome(self.config, requests@[i].cid@),
    {
        let n = requests.len();
        let mut results: Vec<Order<Result<Cancelled, OrderError>>> = Vec::new();
        let mut i: usize = 0;
        while i < n
            invariant
                self.inv(),
                i <= n,
                n == requests@.len(),
                results@.len() == i,
                forall|k: int|
                    0 <= k < i ==> same_identity(#[trigger] results@[k], requests@[k])
                        && results@[k].state == mock_cancel_outcome(self.config, requests@[k].cid@),
            decreases n - i,
        {
            let record = self.cancel_order(&requests[i]);
            results.push(record);
            i += 1;
        }
        results
    }

    /// The scripted venue's batched open; the same per-record pinning as
    /// `cancel_orders`.
    fn open_orders(&self, requests: &Vec<Order<RequestOpen>>) -> (results: Vec<
        Order<Result<Open, OrderError>>,
    >)
        ensures
            results@.len() == requests@.len(),
            forall|i: int|
                0 <= i < requests@.len() ==> same_identity(#[trigger] results@[i], requests@[i])
                    && results@[i].state == mock_open_outcome(self.config, requests@[i].cid@),
    {
        let n = requests.len();
        let mut results: Vec<Order<Result<Open, OrderError>>> = Vec::new();
        let mut i: usize = 0;
        while i < n
            invariant
                self.inv(),
                i <= n,
                n == requests@.len(),
                results@.len() == i,
                forall|k: int|
                    0 <= k < i ==> same_identity(#[trigger] results@[k], requests@[k])
                        && results@[k].state == mock_open_outcome(self.config, requests@[k].cid@),
            decreases n - i,
        {
            let record = self.open_order(&requests[i]);
            results.push(record);
            i += 1;
        }
        results
    }

    fn fetch_balances(&self) -> (r: Result<Vec<AssetBalance>, ClientError>)
        ensures
            self.config.failure is Some ==> (r matches Err(e) && Some(e)
                == self.config.failure),
            self.config.failure is None ==> (r matches Ok(balances) && balances@
                == self.config.balances@),
    {
        match &self.config.failure {
            Some(e) => Err(e.duplicate()),
            None => Ok(duplicate_vec(&self.config.balances)),
        }
    }

    fn fetch_open_orders(&self) -> (r: Result<Vec<Order<Open>>, ClientError>)
        ensures
            self.config.failure is Some ==> (r matches Err(e) && Some(e)
                == self.config.failure),
            self.config.failure is None ==> (r matches Ok(orders) && orders@
                == self.config.open_orders@),
    {
        match &self.config.failure {
            Some(e) => Err(e.duplicate()),
            None => Ok(duplicate_vec(&self.config.open_orders)),
        }
    }

    fn fetch_trades(&self, time_since: i64) -> (r: Result<Vec<Trade>, ClientError>)
        ensures
            self.config.failure is Some ==> (r matches Err(e) && Some(e)
                == self.config.failure),
            self.config.failure is None ==> (r matches Ok(trades) && trades@
                == self.config.trades@.filter(|t: Trade| t.time_exchange >= time_since)),
    {
        match &self.config.failure {
            Some(e) => Err(e.duplicate()),
            None => {
                let source = &self.config.trades;
                let n = source.len();
                let mut out: Vec<Trade> = Vec::new();
                let mut i: usize = 0;
                proof {
                    assert(source@.subrange(0, 0) =~= Seq::<Trade>::empty());
                    reveal(Seq::filter);
                }
                while i < n
                    invariant
                        i <= n,
                        n == source@.len(),
                        out@ == source@.subrange(0, i as int).filter(
                            |t: Trade| t.time_exchange >= time_since,
                        ),
                        forall|k: int|
                            0 <= k < out@.len() ==> (#[trigger] out@[k]).time_exchange
                                >= time_since,
                    decreases n - i,
                {
                    let ghost pred = |t: Trade| t.time_exchange >= time_since;
                    let ghost prefix = source@.subrange(0, i as int);
                    let trade = &source[i];
                    if trade.time_exchange >= time_since {
                        out.push(trade.duplicate());
                    }
                    proof {
                        let longer = source@.subrange(0, i + 1 as int);
                        assert(longer.drop_last() =~= prefix);
                        assert(longer.last() == source@[i as int]);
                        reveal(Seq::filter);
                        assert(longer.filter(pred) == if pred(source@[i as int]) {
                            prefix.filter(pred).push(source@[i as int])
                        } else {
                            prefix.filter(pred)
                        });
                    }
                    i += 1;
                }
                proof {
                    assert(source@.subrange(0, n as int) =~= source@);
                }
                Ok(out)
            },
        }
    }
}

} // verus!

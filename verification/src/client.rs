//! The execution-client contract: the one abstraction every exchange
//! adapter implements, and the only interface callers depend on.
//!
//! Single-order calls always resolve to exactly one terminal result record —
//! transport or auth trouble specific to one order is embedded in that
//! record as an order-level error, never raised as a call-level failure.
//! One-shot reads (snapshot, balances, open orders, trades) fail wholesale
//! with a call-level error instead. The batched entry points are provided
//! for free on top of the single-order primitives: an adapter may override
//! them with a genuinely batched wire call, but the contract stays the
//! same — exactly one result per request, each tagged with the identity of
//! its originating request.

use vstd::prelude::*;

use crate::balance::AssetBalance;
use crate::error::ClientError;
use crate::event::AccountEvent;
use crate::event::AccountSnapshot;
use crate::event::cids_unique;
use crate::event::orders_exchange;
use crate::ids::AssetNameExchange;
use crate::ids::ExchangeId;
use crate::ids::InstrumentNameExchange;
use crate::order::same_identity;
use crate::order::Cancelled;
use crate::order::Open;
use crate::order::Order;
use crate::order::RequestCancel;
use crate::order::RequestOpen;
use crate::error::OrderError;
use crate::trade::Trade;

verus! {

/// Contract of one exchange adapter. A caller holds one client per
/// exchange; handles are cheap to duplicate and every duplicate speaks for
/// the same exchange. Every method except `new` and `duplicate` reaches the
/// network in a real adapter.
pub trait ExecutionClient: Sized + Clone {
    /// Adapter-specific configuration (credentials, endpoints, budgets).
    type Config;

    /// What the adapter accepts as a valid configuration.
    spec fn config_wf(config: &Self::Config) -> bool;

    /// A correctly constructed client handle; established by `new`,
    /// preserved by `duplicate`, assumed by every call.
    spec fn inv(&self) -> bool;

    /// The exchange this adapter serves, as an abstract value.
    spec fn exchange_spec(&self) -> ExchangeId;

    /// The exchange this adapter serves.
    fn exchange(&self) -> (e: ExchangeId)
        requires
            self.inv(),
        ensures
            e == self.exchange_spec(),
    ;

    /// Pure construction from configuration: no network contact.
    fn new(config: Self::Config) -> (r: Self)
        requires
            Self::config_wf(&config),
        ensures
            r.inv(),
    ;

    /// A second handle onto the same underlying session, equally valid and
    /// serving the same exchange.
    fn duplicate(&self) -> (r: Self)
        requires
            self.inv(),
        ensures
            r.inv(),
            r.exchange_spec() == self.exchange_spec(),
    ;

    /// One-shot authoritative read of balances and open orders. Fails
    /// wholesale on any call-level error: no partial snapshot. A successful
    /// snapshot is well-formed and scoped to this adapter's exchange.
    fn account_snapshot(
        &self,
        assets: &Vec<AssetNameExchange>,
        instruments: &Vec<InstrumentNameExchange>,
    ) -> (r: Result<AccountSnapshot, ClientError>)
        requires
            self.inv(),
        ensures
            r matches Ok(snapshot) ==> snapshot.wf() && snapshot.exchange
                == self.exchange_spec(),
    ;

    /// Establishes the live account-event subscription; failing to establish
    /// it is a call-level error. Once established, connectivity loss is
    /// surfaced as a `ConnectionStatus` event inside the feed, never as an
    /// error value. Every delivered event is well-formed for this exchange,
    /// in the order the exchange emitted them.
    fn account_stream(
        &self,
        assets: &Vec<AssetNameExchange>,
        instruments: &Vec<InstrumentNameExchange>,
    ) -> (r: Result<Vec<AccountEvent>, ClientError>)
        requires
            self.inv(),
        ensures
            r matches Ok(events) ==> forall|i: int|
                0 <= i < events@.len() ==> (#[trigger] events@[i]).wf_for(self.exchange_spec()),
    ;

    /// Cancels one order. Always resolves to exactly one terminal record
    /// carrying the identity of the request: a failure specific to this
    /// order arrives as the record's error payload, never as a call-level
    /// error.
    fn cancel_order(&self, request: &Order<RequestCancel>) -> (r: Order<
        Result<Cancelled, OrderError>,
    >)
        requires
            self.inv(),
        ensures
            same_identity(r, *request),
    ;

    /// Opens one order; same resolution shape as `cancel_order`.
    fn open_order(&self, request: &Order<RequestOpen>) -> (r: Order<Result<Open, OrderError>>)
        requires
            self.inv(),
        ensures
            same_identity(r, *request),
    ;

    /// One-shot authoritative read of all balances; wholesale failure. No
    /// returned balance has more available than total.
    fn fetch_balances(&self) -> (r: Result<Vec<AssetBalance>, ClientError>)
        requires
            self.inv(),
        ensures
            r matches Ok(balances) ==> forall|i: int|
                0 <= i < balances@.len() ==> (#[trigger] balances@[i]).wf(),
    ;

    /// One-shot authoritative read of the open orders; wholesale failure.
    /// Every returned order belongs to this exchange, one per client order
    /// id.
    fn fetch_open_orders(&self) -> (r: Result<Vec<Order<Open>>, ClientError>)
        requires
            self.inv(),
        ensures
            r matches Ok(orders) ==> orders_exchange(orders@, self.exchange_spec())
                && cids_unique(orders@),
    ;

    /// One-shot authoritative read of fills since the given time
    /// (milliseconds since the epoch); wholesale failure. No returned trade
    /// predates the bound.
    fn fetch_trades(&self, time_since: i64) -> (r: Result<Vec<Trade>, ClientError>)
        requires
            self.inv(),
        ensures
            r matches Ok(trades) ==> forall|i: int|
                0 <= i < trades@.len() ==> (#[trigger] trades@[i]).time_exchange >= time_since,
    ;

    /// Cancels a whole batch through the single-order primitive: exactly one
    /// result per request, each tagged with the identity of its originating
    /// request, and one order's failure contained in its own record.
    fn cancel_orders(&self, requests: &Vec<Order<RequestCancel>>) -> (results: Vec<
        Order<Result<Cancelled, OrderError>>,
    >)
        requires
            self.inv(),
        ensures
            results@.len() == requests@.len(),
            forall|i: int|
                0 <= i < requests@.len() ==> same_identity(
                    #[trigger] results@[i],
                    requests@[i],
                ),
    {
        let n = requests.len();
        let mut results: Vec<Order<Result<Cancelled, OrderError>>> = Vec::new();
        let mut i: usize = 0;
        while i < n
            invariant
                self.inv(),
                i <= n,
                n == requests@.len(),
                results@.len() == i,
                forall|k: int|
                    0 <= k < i ==> same_identity(#[trigger] results@[k], requests@[k]),
            decreases n - i,
        {
            let record = self.cancel_order(&requests[i]);
            results.push(record);
            i += 1;
        }
        results
    }

    /// Opens a whole batch through the single-order primitive; the same
    /// guarantees as `cancel_orders`.
    fn open_orders(&self, requests: &Vec<Order<RequestOpen>>) -> (results: Vec<
        Order<Result<Open, OrderError>>,
    >)
        requires
            self.inv(),
        ensures
            results@.len() == requests@.len(),
            forall|i: int|
                0 <= i < requests@.len() ==> same_identity(
                    #[trigger] results@[i],
                    requests@[i],
                ),
    {
        let n = requests.len();
        let mut results: Vec<Order<Result<Open, OrderError>>> = Vec::new();
        let mut i: usize = 0;
        while i < n
            invariant
                self.inv(),
                i <= n,
                n == requests@.len(),
                results@.len() == i,
                forall|k: int|
                    0 <= k < i ==> same_identity(#[trigger] results@[k], requests@[k]),
            decreases n - i,
        {
            let record = self.open_order(&requests[i]);
            results.push(record);
            i += 1;
        }
        results
    }
}

/// Takes an authoritative snapshot, establishes the event feed, and replays
/// every delivered event on top of the snapshot, as a consumer reconciling
/// the two would. What the replay produces is pinned by `apply_events`: the
/// exact fold of the single-event application over the feed. Whenever both
/// calls succeed the reconciled account state is consistent: well-formed and
/// scoped to this client's exchange, however the feed interleaved balance
/// changes, acknowledgments and cancellations.
pub fn snapshot_then_replay<C: ExecutionClient>(
    client: &C,
    assets: &Vec<AssetNameExchange>,
    instruments: &Vec<InstrumentNameExchange>,
) -> (r: Result<AccountSnapshot, ClientError>)
    requires
        client.inv(),
    ensures
        r matches Ok(state) ==> state.wf() && state.exchange == client.exchange_spec(),
{
    let snapshot = client.account_snapshot(assets, instruments);
    let mut state = match snapshot {
        Ok(s) => s,
        Err(e) => {
            return Err(e);
        },
    };
    let events = match client.account_stream(assets, instruments) {
        Ok(events) => events,
        Err(e) => {
            return Err(e);
        },
    };
    state.apply_events(&events);
    Ok(state)
}

} // verus!

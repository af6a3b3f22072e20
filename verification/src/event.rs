//! Account state: point-in-time snapshots, the live account-event feed, and
//! how a consumer replays events on top of a snapshot.
//!
//! A snapshot is authoritative at the moment it is taken; afterwards the
//! consumer keeps it current by applying each streamed event in delivery
//! order. Applying any well-formed event to a well-formed snapshot yields a
//! well-formed snapshot again: balances never show more available than
//! total, open orders stay unique per client order id, and no record from a
//! foreign exchange creeps in.

use vstd::prelude::*;

use crate::balance::AssetBalance;
use crate::ids::AssetNameExchange;
use crate::ids::ClientOrderId;
use crate::ids::ExchangeId;
use crate::order::Cancelled;
use crate::order::Open;
use crate::order::Order;
use crate::trade::Trade;

verus! {

/// Lifecycle of the connection carrying the account-event stream. Loss of
/// connectivity is surfaced as an event, not as a terminated stream, so a
/// consumer must treat these as first-class lifecycle signals.
#[derive(Clone, Copy, PartialEq, Eq, Structural, Debug)]
pub enum ConnectionStatus {
    Connected,
    Disconnected,
    Reconnecting,
}

/// One account-affecting event. Each variant carries enough identity
/// (exchange, instrument, order id) for a consumer to correlate it without
/// further lookups.
#[derive(Clone, Debug)]
pub enum AccountEvent {
    /// The exchange acknowledged a new order.
    OrderOpened(Order<Open>),
    /// The exchange acknowledged a cancellation.
    OrderCancelled(Order<Cancelled>),
    /// An executed fill.
    TradeFill { exchange: ExchangeId, trade: Trade },
    /// The balance of one asset changed.
    BalanceUpdate { exchange: ExchangeId, balance: AssetBalance },
    /// The stream's connection changed state.
    ConnectionStatus { exchange: ExchangeId, status: ConnectionStatus },
}

impl AccountEvent {
    /// Exchange the event originates from.
    pub open spec fn spec_exchange(&self) -> ExchangeId {
        match self {
            AccountEvent::OrderOpened(order) => order.exchange,
            AccountEvent::OrderCancelled(order) => order.exchange,
            AccountEvent::TradeFill { exchange, .. } => *exchange,
            AccountEvent::BalanceUpdate { exchange, .. } => *exchange,
            AccountEvent::ConnectionStatus { exchange, .. } => *exchange,
        }
    }

    /// A well-formed event from the given exchange: identity matches and a
    /// balance update never claims more available than total.
    pub open spec fn wf_for(&self, exchange: ExchangeId) -> bool {
        &&& self.spec_exchange() == exchange
        &&& match self {
            AccountEvent::BalanceUpdate { balance, .. } => balance.wf(),
            _ => true,
        }
    }

    /// Copies this event into a fresh, equal value.
    pub fn duplicate(&self) -> (r: Self)
        ensures
            r == *self,
    {
        match self {
            AccountEvent::OrderOpened(order) => AccountEvent::OrderOpened(
                order.with_state(order.state),
            ),
            AccountEvent::OrderCancelled(order) => AccountEvent::OrderCancelled(
                order.with_state(order.state),
            ),
            AccountEvent::TradeFill { exchange, trade } => AccountEvent::TradeFill {
                exchange: *exchange,
                trade: trade.duplicate(),
            },
            AccountEvent::BalanceUpdate { exchange, balance } => AccountEvent::BalanceUpdate {
                exchange: *exchange,
                balance: balance.duplicate(),
            },
            AccountEvent::ConnectionStatus { exchange, status } => AccountEvent::ConnectionStatus {
                exchange: *exchange,
                status: *status,
            },
        }
    }
}

/// Every balance in the sequence is well-formed.
pub open spec fn balances_wf(bs: Seq<AssetBalance>) -> bool {
    forall|i: int| 0 <= i < bs.len() ==> (#[trigger] bs[i]).wf()
}

/// No two balances describe the same asset.
pub open spec fn assets_unique(bs: Seq<AssetBalance>) -> bool {
    forall|i: int, j: int|
        0 <= i < j < bs.len() ==> (#[trigger] bs[i]).asset@ != (#[trigger] bs[j]).asset@
}

/// Some balance in the sequence describes the given asset.
pub open spec fn has_asset(bs: Seq<AssetBalance>, asset: Seq<char>) -> bool {
    exists|i: int| 0 <= i < bs.len() && (#[trigger] bs[i]).asset@ == asset
}

/// Index of the balance describing the given asset; meaningful only where
/// `has_asset` holds and the assets are unique.
pub open spec fn asset_index(bs: Seq<AssetBalance>, asset: Seq<char>) -> int {
    choose|i: int| 0 <= i < bs.len() && (#[trigger] bs[i]).asset@ == asset
}

/// Every open order in the sequence belongs to the given exchange.
pub open spec fn orders_exchange(os: Seq<Order<Open>>, exchange: ExchangeId) -> bool {
    forall|i: int| 0 <= i < os.len() ==> (#[trigger] os[i]).exchange == exchange
}

/// No two open orders carry the same client order id.
pub open spec fn cids_unique(os: Seq<Order<Open>>) -> bool {
    forall|i: int, j: int|
        0 <= i < j < os.len() ==> (#[trigger] os[i]).cid@ != (#[trigger] os[j]).cid@
}

/// Some open order in the sequence carries the given client order id.
pub open spec fn has_cid(os: Seq<Order<Open>>, cid: Seq<char>) -> bool {
    exists|i: int| 0 <= i < os.len() && (#[trigger] os[i]).cid@ == cid
}

/// Index of the open order carrying the given client order id; meaningful
/// only where `has_cid` holds and the ids are unique.
pub open spec fn cid_index(os: Seq<Order<Open>>, cid: Seq<char>) -> int {
    choose|i: int| 0 <= i < os.len() && (#[trigger] os[i]).cid@ == cid
}

/// Position of the balance describing the given asset, if any is recorded.
fn find_asset(bs: &Vec<AssetBalance>, asset: &AssetNameExchange) -> (r: Option<usize>)
    ensures
        match r {
            Some(i) => 0 <= i < bs@.len() && bs@[i as int].asset@ == asset@,
            None => !has_asset(bs@, asset@),
        },
{
    let mut i: usize = 0;
    let n = bs.len();
    while i < n
        invariant
            i <= n,
            n == bs@.len(),
            forall|k: int| 0 <= k < i ==> (#[trigger] bs@[k]).asset@ != asset@,
        decreases n - i,
    {
        if bs[i].asset.name == asset.name {
            return Some(i);
        }
        i += 1;
    }
    None
}

/// Position of the open order carrying the given client order id, if any.
fn find_cid(os: &Vec<Order<Open>>, cid: &ClientOrderId) -> (r: Option<usize>)
    ensures
        match r {
            Some(i) => 0 <= i < os@.len() && os@[i as int].cid@ == cid@,
            None => !has_cid(os@, cid@),
        },
{
    let mut i: usize = 0;
    let n = os.len();
    while i < n
        invariant
            i <= n,
            n == os@.len(),
            forall|k: int| 0 <= k < i ==> (#[trigger] os@[k]).cid@ != cid@,
        decreases n - i,
    {
        if os[i].cid.same(cid) {
            return Some(i);
        }
        i += 1;
    }
    None
}

/// What a balance update does to the recorded balances: replaces the entry
/// of its asset where one exists, else records the balance anew at the end.
pub open spec fn spec_apply_balance(balances: Seq<AssetBalance>, balance: AssetBalance) -> Seq<
    AssetBalance,
> {
    if has_asset(balances, balance.asset@) {
        balances.update(asset_index(balances, balance.asset@), balance)
    } else {
        balances.push(balance)
    }
}

/// What an open acknowledgment does to the recorded open orders: replaces
/// the record of its client order id where one exists, else appends it.
pub open spec fn spec_apply_opened(orders: Seq<Order<Open>>, order: Order<Open>) -> Seq<
    Order<Open>,
> {
    if has_cid(orders, order.cid@) {
        orders.update(cid_index(orders, order.cid@), order)
    } else {
        orders.push(order)
    }
}

/// What a cancel acknowledgment does to the recorded open orders: removes
/// the record of its client order id where one exists, else changes nothing.
pub open spec fn spec_apply_cancelled(orders: Seq<Order<Open>>, cid: Seq<char>) -> Seq<
    Order<Open>,
> {
    if has_cid(orders, cid) {
        orders.remove(cid_index(orders, cid))
    } else {
        orders
    }
}

/// What one streamed event does to an account state, as a pair of the
/// balances and the open orders after it. Fills and connection-status
/// changes touch neither: a fill's monetary effect arrives as its own
/// balance-update event.
pub open spec fn spec_apply_event(
    balances: Seq<AssetBalance>,
    orders: Seq<Order<Open>>,
    event: AccountEvent,
) -> (Seq<AssetBalance>, Seq<Order<Open>>) {
    match event {
        AccountEvent::OrderOpened(order) => (balances, spec_apply_opened(orders, order)),
        AccountEvent::OrderCancelled(order) => (balances, spec_apply_cancelled(orders, order.cid@)),
        AccountEvent::BalanceUpdate { balance, .. } => (
            spec_apply_balance(balances, balance),
            orders,
        ),
        AccountEvent::TradeFill { .. } => (balances, orders),
        AccountEvent::ConnectionStatus { .. } => (balances, orders),
    }
}

/// What a whole feed does to an account state: the events applied one after
/// the other, in delivery order (first delivered, first applied).
pub open spec fn spec_apply_events(
    balances: Seq<AssetBalance>,
    orders: Seq<Order<Open>>,
    events: Seq<AccountEvent>,
) -> (Seq<AssetBalance>, Seq<Order<Open>>)
    decreases events.len(),
{
    if events.len() == 0 {
        (balances, orders)
    } else {
        let earlier = spec_apply_events(balances, orders, events.drop_last());
        spec_apply_event(earlier.0, earlier.1, events.last())
    }
}

/// Point-in-time read of balances and open orders, scoped to one exchange.
#[derive(Clone, Debug)]
pub struct AccountSnapshot {
    pub exchange: ExchangeId,
    pub balances: Vec<AssetBalance>,
    pub open_orders: Vec<Order<Open>>,
}

impl AccountSnapshot {
    /// Consistency of an account state: balances are well-formed and one per
    /// asset; open orders belong to this exchange, one per client order id.
    pub open spec fn wf(&self) -> bool {
        &&& balances_wf(self.balances@)
        &&& assets_unique(self.balances@)
        &&& orders_exchange(self.open_orders@, self.exchange)
        &&& cids_unique(self.open_orders@)
    }

    /// An empty, trivially consistent account state for one exchange.
    pub fn empty(exchange: ExchangeId) -> (r: AccountSnapshot)
        ensures
            r.wf(),
            r.exchange == exchange,
            r.balances@.len() == 0,
            r.open_orders@.len() == 0,
    {
        AccountSnapshot { exchange, balances: Vec::new(), open_orders: Vec::new() }
    }

    /// Replaces the balance of one asset, or records it for the first time.
    /// Every other asset reads exactly as before.
    pub fn apply_balance_update(&mut self, balance: AssetBalance)
        requires
            old(self).wf(),
            balance.wf(),
        ensures
            final(self).wf(),
            final(self).exchange == old(self).exchange,
            final(self).open_orders@ == old(self).open_orders@,
            final(self).balances@ == spec_apply_balance(old(self).balances@, balance),
    {
        let ghost bs0 = self.balances@;
        match find_asset(&self.balances, &balance.asset) {
            Some(i) => {
                proof {
                    assert(has_asset(bs0, balance.asset@));
                    let j = asset_index(bs0, balance.asset@);
                    assert(0 <= j < bs0.len() && bs0[j].asset@ == balance.asset@);
                    if i < j {
                        assert(bs0[i as int].asset@ != bs0[j].asset@);
                    } else if j < i {
                        assert(bs0[j].asset@ != bs0[i as int].asset@);
                    }
                    assert(j == i as int);
                }
                self.balances.remove(i);
                self.balances.insert(i, balance);
                proof {
                    assert(self.balances@ =~= bs0.update(i as int, balance));
                }
            },
            None => {
                self.balances.push(balance);
            },
        }
    }

    /// Records an acknowledged order as open. A re-acknowledgment of a known
    /// client order id replaces that record; every other order stays as is.
    pub fn apply_order_opened(&mut self, order: Order<Open>)
        requires
            old(self).wf(),
            order.exchange == old(self).exchange,
        ensures
            final(self).wf(),
            final(self).exchange == old(self).exchange,
            final(self).balances@ == old(self).balances@,
            final(self).open_orders@ == spec_apply_opened(old(self).open_orders@, order),
    {
        let ghost os0 = self.open_orders@;
        match find_cid(&self.open_orders, &order.cid) {
            Some(i) => {
                proof {
                    assert(has_cid(os0, order.cid@));
                    let j = cid_index(os0, order.cid@);
                    assert(0 <= j < os0.len() && os0[j].cid@ == order.cid@);
                    if i < j {
                        assert(os0[i as int].cid@ != os0[j].cid@);
                    } else if j < i {
                        assert(os0[j].cid@ != os0[i as int].cid@);
                    }
                    assert(j == i as int);
                }
                self.open_orders.remove(i);
                self.open_orders.insert(i, order);
                proof {
                    assert(self.open_orders@ =~= os0.update(i as int, order));
                }
            },
            None => {
                self.open_orders.push(order);
            },
        }
    }

    /// Removes the open order a cancellation acknowledges. An unknown client
    /// order id (already removed, or never snapshotted) changes nothing.
    pub fn apply_order_cancelled(&mut self, order: &Order<Cancelled>)
        requires
            old(self).wf(),
        ensures
            final(self).wf(),
            final(self).exchange == old(self).exchange,
            final(self).balances@ == old(self).balances@,
            final(self).open_orders@ == spec_apply_cancelled(old(self).open_orders@, order.cid@),
    {
        let ghost os0 = self.open_orders@;
        match find_cid(&self.open_orders, &order.cid) {
            Some(i) => {
                proof {
                    assert(has_cid(os0, order.cid@));
                    let j = cid_index(os0, order.cid@);
                    assert(0 <= j < os0.len() && os0[j].cid@ == order.cid@);
                    if i < j {
                        assert(os0[i as int].cid@ != os0[j].cid@);
                    } else if j < i {
                        assert(os0[j].cid@ != os0[i as int].cid@);
                    }
                    assert(j == i as int);
                }
                self.open_orders.remove(i);
                proof {
                    let removed = os0.remove(i as int);
                    assert forall|a: int, b: int| 0 <= a < b < removed.len() implies (
                    #[trigger] removed[a]).cid@ != (#[trigger] removed[b]).cid@ by {
                        if b < i as int {
                            assert(removed[a] == os0[a] && removed[b] == os0[b]);
                        } else if a < i as int {
                            assert(removed[a] == os0[a] && removed[b] == os0[b + 1]);
                        } else {
                            assert(removed[a] == os0[a + 1] && removed[b] == os0[b + 1]);
                        }
                    }
                }
            },
            None => {},
        }
    }

    /// Applies one streamed event: the new state is exactly what
    /// `spec_apply_event` says of the old one. The precondition keeps a
    /// foreign exchange's event out of this state altogether — the feed is
    /// per-connection, and a consumer multiplexing several clients keeps one
    /// account state per exchange rather than conflating them.
    pub fn apply_event(&mut self, event: &AccountEvent)
        requires
            old(self).wf(),
            event.wf_for(old(self).exchange),
        ensures
            final(self).wf(),
            final(self).exchange == old(self).exchange,
            final(self).balances@ == spec_apply_event(
                old(self).balances@,
                old(self).open_orders@,
                *event,
            ).0,
            final(self).open_orders@ == spec_apply_event(
                old(self).balances@,
                old(self).open_orders@,
                *event,
            ).1,
    {
        match event {
            AccountEvent::OrderOpened(order) => {
                let duplicated = order.with_state(order.state);
                self.apply_order_opened(duplicated);
            },
            AccountEvent::OrderCancelled(order) => {
                self.apply_order_cancelled(order);
            },
            AccountEvent::BalanceUpdate { balance, .. } => {
                self.apply_balance_update(balance.duplicate());
            },
            AccountEvent::TradeFill { .. } => {},
            AccountEvent::ConnectionStatus { .. } => {},
        }
    }

    /// Replays a whole stream of events in delivery order on top of this
    /// snapshot: the final state is exactly the fold of `spec_apply_event`
    /// over the sequence. Consistency is preserved throughout: no
    /// intermediate or terminal state shows an over-available balance, a
    /// duplicated open order, or a foreign exchange's record.
    pub fn apply_events(&mut self, events: &Vec<AccountEvent>)
        requires
            old(self).wf(),
            forall|i: int|
                0 <= i < events@.len() ==> (#[trigger] events@[i]).wf_for(old(self).exchange),
        ensures
            final(self).wf(),
            final(self).exchange == old(self).exchange,
            final(self).balances@ == spec_apply_events(
                old(self).balances@,
                old(self).open_orders@,
                events@,
            ).0,
            final(self).open_orders@ == spec_apply_events(
                old(self).balances@,
                old(self).open_orders@,
                events@,
            ).1,
    {
        let n = events.len();
        let mut i: usize = 0;
        proof {
            assert(events@.subrange(0, 0) =~= Seq::<AccountEvent>::empty());
        }
        while i < n
            invariant
                n == events@.len(),
                i <= n,
                self.wf(),
                self.exchange == old(self).exchange,
                forall|k: int|
                    0 <= k < events@.len() ==> (#[trigger] events@[k]).wf_for(old(self).exchange),
                self.balances@ == spec_apply_events(
                    old(self).balances@,
                    old(self).open_orders@,
                    events@.subrange(0, i as int),
                ).0,
                self.open_orders@ == spec_apply_events(
                    old(self).balances@,
                    old(self).open_orders@,
                    events@.subrange(0, i as int),
                ).1,
            decreases n - i,
        {
            proof {
                let prefix = events@.subrange(0, i as int);
                let longer = events@.subrange(0, i + 1 as int);
                assert(longer.drop_last() =~= prefix);
                assert(longer.last() == events@[i as int]);
            }
            self.apply_event(&events[i]);
            i += 1;
        }
        proof {
            assert(events@.subrange(0, n as int) =~= events@);
        }
    }
}

} // verus!

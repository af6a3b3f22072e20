//! The typestate order model: one order's identity plus its lifecycle stage.
//!
//! The request and result stages are distinct types, so an acknowledged
//! `Open` or `Cancelled` value can only be produced by the transition
//! constructors here (or by an adapter resolving a request): a record cannot
//! be both a request and acknowledged. A transition consumes the request and
//! produces a new record; identity (exchange, instrument, client order id)
//! is preserved by every transition, stated in each constructor's contract.

use vstd::prelude::*;

use crate::error::OrderError;
use crate::ids::ClientOrderId;
use crate::ids::ExchangeId;
use crate::ids::InstrumentNameExchange;

verus! {

/// Side of an order or a fill.
#[derive(Clone, Copy, PartialEq, Eq, Structural, Debug)]
pub enum Side {
    Buy,
    Sell,
}

/// How the exchange should execute an open request.
#[derive(Clone, Copy, PartialEq, Eq, Structural, Debug)]
pub enum OrderKind {
    Market,
    Limit,
}

/// Intent to open an order: the caller constructs this stage directly.
/// Prices and quantities are in fixed-point exchange units.
#[derive(Clone, Copy, PartialEq, Eq, Structural, Debug)]
pub struct RequestOpen {
    pub side: Side,
    pub price: u64,
    pub quantity: u64,
    pub kind: OrderKind,
}

/// Intent to cancel a previously opened order, identified by the client
/// order id carried on the enclosing record.
#[derive(Clone, Copy, PartialEq, Eq, Structural, Debug)]
pub struct RequestCancel;

/// Terminal acknowledgment of an open request.
#[derive(Clone, Copy, PartialEq, Eq, Structural, Debug)]
pub struct Open {
    /// Exchange-reported acknowledgment time, milliseconds since the epoch.
    pub time_exchange: i64,
    /// Quantity already filled at acknowledgment time, fixed-point units.
    pub filled_quantity: u64,
}

/// Terminal acknowledgment of a cancel request.
#[derive(Clone, Copy, PartialEq, Eq, Structural, Debug)]
pub struct Cancelled;

/// One order: immutable identity plus the payload of its lifecycle stage.
/// Only the stage changes over the order's life, and only by a transition
/// that replaces the whole record.
#[derive(Clone, Debug)]
pub struct Order<State> {
    pub exchange: ExchangeId,
    pub instrument: InstrumentNameExchange,
    pub cid: ClientOrderId,
    pub state: State,
}

/// Two records carry the same order identity: same exchange, same
/// exchange-local instrument name, same client order id.
pub open spec fn same_identity<A, B>(a: Order<A>, b: Order<B>) -> bool {
    &&& a.exchange == b.exchange
    &&& a.instrument@ == b.instrument@
    &&& a.cid@ == b.cid@
}

impl<State> Order<State> {
    /// Assembles a record in the given stage.
    pub fn new(
        exchange: ExchangeId,
        instrument: InstrumentNameExchange,
        cid: ClientOrderId,
        state: State,
    ) -> (r: Order<State>)
        ensures
            r == (Order { exchange, instrument, cid, state }),
    {
        Order { exchange, instrument, cid, state }
    }

    /// Copies identity onto a record in another stage, consuming nothing.
    pub fn with_state<Next>(&self, state: Next) -> (r: Order<Next>)
        ensures
            r == (Order {
                exchange: self.exchange,
                instrument: self.instrument,
                cid: self.cid,
                state,
            }),
    {
        Order {
            exchange: self.exchange,
            instrument: self.instrument.duplicate(),
            cid: self.cid.duplicate(),
            state,
        }
    }
}

impl Order<RequestOpen> {
    /// The exchange acknowledged the open: resolve to a terminal `Open`
    /// result record with this order's identity.
    pub fn accept_open(self, time_exchange: i64) -> (r: Order<Result<Open, OrderError>>)
        ensures
            r == (Order {
                exchange: self.exchange,
                instrument: self.instrument,
                cid: self.cid,
                state: Ok::<Open, OrderError>(Open { time_exchange, filled_quantity: 0 }),
            }),
    {
        Order {
            exchange: self.exchange,
            instrument: self.instrument,
            cid: self.cid,
            state: Ok(Open { time_exchange, filled_quantity: 0 }),
        }
    }

    /// The open failed for this order alone: resolve to a terminal error
    /// record with this order's identity.
    pub fn reject_open(self, error: OrderError) -> (r: Order<Result<Open, OrderError>>)
        ensures
            r == (Order {
                exchange: self.exchange,
                instrument: self.instrument,
                cid: self.cid,
                state: Err::<Open, OrderError>(error),
            }),
    {
        Order { exchange: self.exchange, instrument: self.instrument, cid: self.cid, state: Err(error) }
    }
}

impl Order<RequestCancel> {
    /// The exchange acknowledged the cancel: resolve to a terminal
    /// `Cancelled` result record with this order's identity.
    pub fn accept_cancel(self) -> (r: Order<Result<Cancelled, OrderError>>)
        ensures
            r == (Order {
                exchange: self.exchange,
                instrument: self.instrument,
                cid: self.cid,
                state: Ok::<Cancelled, OrderError>(Cancelled),
            }),
    {
        Order { exchange: self.exchange, instrument: self.instrument, cid: self.cid, state: Ok(Cancelled) }
    }

    /// The cancel failed for this order alone: resolve to a terminal error
    /// record with this order's identity.
    pub fn reject_cancel(self, error: OrderError) -> (r: Order<Result<Cancelled, OrderError>>)
        ensures
            r == (Order {
                exchange: self.exchange,
                instrument: self.instrument,
                cid: self.cid,
                state: Err::<Cancelled, OrderError>(error),
            }),
    {
        Order { exchange: self.exchange, instrument: self.instrument, cid: self.cid, state: Err(error) }
    }
}

} // verus!

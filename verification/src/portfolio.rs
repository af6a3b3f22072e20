//! Portfolio-facing order intents and balances.
//!
//! An `OrderEvent` is generated by a portfolio and details the work an
//! execution handler is asked to do; it is assembled through a builder that
//! refuses to finalise while any field is missing, naming the first missing
//! field. Canonical exchange/instrument naming is used here, distinct from
//! the exchange-local names on the execution path. Monetary quantities are
//! in fixed-point units, signed where a direction is encoded.

use vstd::prelude::*;
use vstd::string::StringExecFns;

use crate::error::PortfolioError;

verus! {

/// Canonical (engine-internal) name of an exchange, distinct from the
/// exchange-local naming used on the execution path.
#[derive(Clone, Debug)]
pub struct Exchange {
    pub name: String,
}

/// Canonical (engine-internal) instrument: base and quote asset names.
#[derive(Clone, Debug)]
pub struct Instrument {
    pub base: String,
    pub quote: String,
}

/// Advisory direction a portfolio decides on.
#[derive(Clone, Copy, PartialEq, Eq, Structural, Debug)]
pub enum Decision {
    Long,
    CloseLong,
    Short,
    CloseShort,
}

/// Market metadata propagated from the source market event: the close price
/// in fixed-point units and its time in milliseconds since the epoch.
#[derive(Clone, Copy, PartialEq, Eq, Structural, Debug)]
pub struct MarketMeta {
    pub close: u64,
    pub time: i64,
}

/// Kind of order the portfolio wants the execution handler to place.
#[derive(Clone, Copy, PartialEq, Eq, Structural, Debug, Hash)]
pub enum OrderType {
    Market,
    Limit,
    Bracket,
}

impl Default for OrderType {
    /// A portfolio places market orders unless it asks otherwise.
    fn default() -> (r: Self)
        ensures
            r == OrderType::Market,
    {
        OrderType::Market
    }
}

/// Work for an execution handler: open a trade on this instrument, in this
/// direction, with this quantity (signed by direction) and order type.
#[derive(Clone, Debug)]
pub struct OrderEvent {
    pub time: i64,
    pub exchange: Exchange,
    pub instrument: Instrument,
    /// Metadata propagated from the source market event.
    pub market_meta: MarketMeta,
    pub decision: Decision,
    /// Positive or negative quantity depending on the decision.
    pub quantity: i64,
    pub order_type: OrderType,
}

impl OrderEvent {
    /// Starts assembling an order event field by field.
    pub fn builder() -> (r: OrderEventBuilder)
        ensures
            r == OrderEventBuilder::empty_spec(),
    {
        OrderEventBuilder::new()
    }
}

/// Accumulates the fields of an `OrderEvent`; `build` finalises and refuses
/// while any field is missing.
#[derive(Clone, Debug)]
pub struct OrderEventBuilder {
    pub time: Option<i64>,
    pub exchange: Option<Exchange>,
    pub instrument: Option<Instrument>,
    pub market_meta: Option<MarketMeta>,
    pub decision: Option<Decision>,
    pub quantity: Option<i64>,
    pub order_type: Option<OrderType>,
}

impl Default for OrderEventBuilder {
    /// A builder with every field still missing.
    fn default() -> (r: Self)
        ensures
            r == Self::empty_spec(),
    {
        OrderEventBuilder {
            time: None,
            exchange: None,
            instrument: None,
            market_meta: None,
            decision: None,
            quantity: None,
            order_type: None,
        }
    }
}

impl OrderEventBuilder {
    /// The builder with every field missing.
    pub open spec fn empty_spec() -> Self {
        OrderEventBuilder {
            time: None,
            exchange: None,
            instrument: None,
            market_meta: None,
            decision: None,
            quantity: None,
            order_type: None,
        }
    }

    /// Every field has been supplied, so `build` is owed an order event.
    pub open spec fn complete(&self) -> bool {
        &&& self.time is Some
        &&& self.exchange is Some
        &&& self.instrument is Some
        &&& self.market_meta is Some
        &&& self.decision is Some
        &&& self.quantity is Some
        &&& self.order_type is Some
    }

    /// Starts with every field missing.
    pub fn new() -> (r: Self)
        ensures
            r == Self::empty_spec(),
    {
        Self::default()
    }

    /// Supplies the time; everything else is untouched.
    pub fn time(self, value: i64) -> (r: Self)
        ensures
            r == (OrderEventBuilder { time: Some(value), ..self }),
    {
        OrderEventBuilder { time: Some(value), ..self }
    }

    /// Supplies the exchange; everything else is untouched.
    pub fn exchange(self, value: Exchange) -> (r: Self)
        ensures
            r == (OrderEventBuilder { exchange: Some(value), ..self }),
    {
        OrderEventBuilder { exchange: Some(value), ..self }
    }

    /// Supplies the instrument; everything else is untouched.
    pub fn instrument(self, value: Instrument) -> (r: Self)
        ensures
            r == (OrderEventBuilder { instrument: Some(value), ..self }),
    {
        OrderEventBuilder { instrument: Some(value), ..self }
    }

    /// Supplies the market metadata; everything else is untouched.
    pub fn market_meta(self, value: MarketMeta) -> (r: Self)
        ensures
            r == (OrderEventBuilder { market_meta: Some(value), ..self }),
    {
        OrderEventBuilder { market_meta: Some(value), ..self }
    }

    /// Supplies the decision; everything else is untouched.
    pub fn decision(self, value: Decision) -> (r: Self)
        ensures
            r == (OrderEventBuilder { decision: Some(value), ..self }),
    {
        OrderEventBuilder { decision: Some(value), ..self }
    }

    /// Supplies the quantity; everything else is untouched.
    pub fn quantity(self, value: i64) -> (r: Self)
        ensures
            r == (OrderEventBuilder { quantity: Some(value), ..self }),
    {
        OrderEventBuilder { quantity: Some(value), ..self }
    }

    /// Supplies the order type; everything else is untouched.
    pub fn order_type(self, value: OrderType) -> (r: Self)
        ensures
            r == (OrderEventBuilder { order_type: Some(value), ..self }),
    {
        OrderEventBuilder { order_type: Some(value), ..self }
    }

    /// Finalises: an order event with exactly the supplied fields when all
    /// are present, else a refusal naming the first missing field, checked
    /// in declaration order.
    pub fn build(self) -> (r: Result<OrderEvent, PortfolioError>)
        ensures
            self.complete() <==> r is Ok,
            r matches Ok(event) ==> {
                &&& self.time == Some(event.time)
                &&& self.exchange == Some(event.exchange)
                &&& self.instrument == Some(event.instrument)
                &&& self.market_meta == Some(event.market_meta)
                &&& self.decision == Some(event.decision)
                &&& self.quantity == Some(event.quantity)
                &&& self.order_type == Some(event.order_type)
            },
            self.time is None ==> (r matches Err(PortfolioError::BuilderIncomplete(m)) && m@
                == "time"@),
            self.time is Some && self.exchange is None ==> (r matches Err(
                PortfolioError::BuilderIncomplete(m),
            ) && m@ == "exchange"@),
            self.time is Some && self.exchange is Some && self.instrument is None ==> (r
                matches Err(PortfolioError::BuilderIncomplete(m)) && m@ == "instrument"@),
            self.time is Some && self.exchange is Some && self.instrument is Some
                && self.market_meta is None ==> (r matches Err(
                PortfolioError::BuilderIncomplete(m),
            ) && m@ == "market_meta"@),
            self.time is Some && self.exchange is Some && self.instrument is Some
                && self.market_meta is Some && self.decision is None ==> (r matches Err(
                PortfolioError::BuilderIncomplete(m),
            ) && m@ == "decision"@),
            self.time is Some && self.exchange is Some && self.instrument is Some
                && self.market_meta is Some && self.decision is Some && self.quantity is None
                ==> (r matches Err(PortfolioError::BuilderIncomplete(m)) && m@ == "quantity"@),
            self.time is Some && self.exchange is Some && self.instrument is Some
                && self.market_meta is Some && self.decision is Some && self.quantity is Some
                && self.order_type is None ==> (r matches Err(
                PortfolioError::BuilderIncomplete(m),
            ) && m@ == "order_type"@),
    {
        let time = match self.time {
            Some(v) => v,
            None => {
                return Err(PortfolioError::BuilderIncomplete("time".to_owned()));
            },
        };
        let exchange = match self.exchange {
            Some(v) => v,
            None => {
                return Err(PortfolioError::BuilderIncomplete("exchange".to_owned()));
            },
        };
        let instrument = match self.instrument {
            Some(v) => v,
            None => {
                return Err(PortfolioError::BuilderIncomplete("instrument".to_owned()));
            },
        };
        let market_meta = match self.market_meta {
            Some(v) => v,
            None => {
                return Err(PortfolioError::BuilderIncomplete("market_meta".to_owned()));
            },
        };
        let decision = match self.decision {
            Some(v) => v,
            None => {
                return Err(PortfolioError::BuilderIncomplete("decision".to_owned()));
            },
        };
        let quantity = match self.quantity {
            Some(v) => v,
            None => {
                return Err(PortfolioError::BuilderIncomplete("quantity".to_owned()));
            },
        };
        let order_type = match self.order_type {
            Some(v) => v,
            None => {
                return Err(PortfolioError::BuilderIncomplete("order_type".to_owned()));
            },
        };
        Ok(OrderEvent { time, exchange, instrument, market_meta, decision, quantity, order_type })
    }
}

/// Unique identifier of an engine's portfolio balance.
pub type BalanceId = String;

/// Total and available portfolio balance at a point in time, in fixed-point
/// units; the time is milliseconds since the epoch.
#[derive(Clone, Copy, PartialEq, Eq, Structural, Debug)]
pub struct Balance {
    pub time: i64,
    pub total: u64,
    pub available: u64,
}

/// Names the hyphenated text of the UUID with the given 128 bits: 32
/// lower-case hexadecimal digits and 4 hyphens, a function of the bits
/// alone.
pub uninterp spec fn uuid_hyphenated_of(bits: u128) -> Seq<char>;

/// Relies on uuid::Uuid's `Display` (reached through `Uuid::from_u128`):
/// the hyphenated 36-character text of the identifier, determined by the
/// 128 bits alone.
#[verifier::external_body]
fn uuid_hyphenated(bits: u128) -> (r: String)
    ensures
        r@ == uuid_hyphenated_of(bits),
        r@.len() == 36,
{
    uuid::Uuid::from_u128(bits).to_string()
}

/// Relies on chrono's `Utc::now` (read out through
/// `DateTime::timestamp_millis`): the current wall-clock time; nothing is
/// promised of the value.
#[verifier::external_body]
fn now_millis() -> i64 {
    chrono::Utc::now().timestamp_millis()
}

impl Default for Balance {
    /// An empty balance stamped with the current wall-clock time.
    fn default() -> (r: Self)
        ensures
            r.total == 0,
            r.available == 0,
    {
        Balance { time: now_millis(), total: 0, available: 0 }
    }
}

impl Balance {
    /// Assembles a balance from its parts.
    pub fn new(time: i64, total: u64, available: u64) -> (r: Self)
        ensures
            r == (Balance { time, total, available }),
    {
        Balance { time, total, available }
    }

    /// The unique identifier of the portfolio balance belonging to the
    /// engine with the given id (the 128 bits of its UUID): the engine id's
    /// hyphenated text followed by a fixed suffix.
    pub fn balance_id(engine_id: u128) -> (r: BalanceId)
        ensures
            r@ == uuid_hyphenated_of(engine_id) + "_balance"@,
    {
        uuid_hyphenated(engine_id).concat("_balance")
    }
}

/// One fill as reported to the portfolio, in canonical naming.
#[derive(Clone, Debug)]
pub struct FillEvent {
    pub time: i64,
    pub exchange: Exchange,
    pub instrument: Instrument,
    pub decision: Decision,
    /// Signed by direction, fixed-point units.
    pub quantity: i64,
    /// Gross value exchanged, fixed-point units of the quote asset.
    pub fill_value_gross: u64,
}

/// An event a portfolio update raises for the wider engine.
#[derive(Clone, Debug)]
pub enum Event {
    OrderNew(OrderEvent),
    Balance(Balance),
}

/// Updates portfolio state from an input fill: a fill triggers a position
/// entry or exit and adjusts cash and value, raising the corresponding
/// events. Implemented by a concrete portfolio outside this crate.
pub trait FillUpdater {
    fn update_from_fill(&mut self, fill: &FillEvent) -> Result<Vec<Event>, PortfolioError>;
}

} // verus!

//! Executed fills reported by an exchange.

use vstd::prelude::*;

use crate::ids::ClientOrderId;
use crate::ids::InstrumentNameExchange;
use crate::ids::QuoteAsset;
use crate::order::Side;

verus! {

/// One executed fill: the instrument, the order it fills, side, price and
/// quantity in fixed-point exchange units, fees denominated in the quote
/// asset, and the exchange-reported time in milliseconds since the epoch.
#[derive(Clone, Debug)]
pub struct Trade {
    pub instrument: InstrumentNameExchange,
    /// Client order id of the order this fill belongs to.
    pub order_cid: ClientOrderId,
    pub side: Side,
    pub price: u64,
    pub quantity: u64,
    pub fees_quote: u64,
    pub fees_asset: QuoteAsset,
    pub time_exchange: i64,
}

impl Trade {
    /// Copies this trade into a fresh, equal value.
    pub fn duplicate(&self) -> (r: Self)
        ensures
            r == *self,
    {
        Trade {
            instrument: self.instrument.duplicate(),
            order_cid: self.order_cid.duplicate(),
            side: self.side,
            price: self.price,
            quantity: self.quantity,
            fees_quote: self.fees_quote,
            fees_asset: self.fees_asset,
            time_exchange: self.time_exchange,
        }
    }
}

} // verus!

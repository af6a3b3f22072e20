//! Identity value types: exchange, instrument, asset, and client order ids.
//!
//! Instruments and assets carry exchange-local names (as issued by the
//! exchange), kept distinct from any canonical naming a larger system uses.

use vstd::prelude::*;

verus! {

/// Identifier of a supported exchange venue.
#[derive(Clone, Copy, PartialEq, Eq, Structural, Debug, Hash)]
pub enum ExchangeId {
    BinanceSpot,
    Coinbase,
    Kraken,
    Mock,
}

/// Exchange-local name of an asset (for example "usdt").
#[derive(Clone, Debug)]
pub struct AssetNameExchange {
    pub name: String,
}

impl View for AssetNameExchange {
    type V = Seq<char>;

    open spec fn view(&self) -> Seq<char> {
        self.name@
    }
}

impl AssetNameExchange {
    /// Wraps an exchange-issued asset name.
    pub fn new(name: String) -> (r: Self)
        ensures
            r@ == name@,
    {
        AssetNameExchange { name }
    }

    /// Copies this name into a fresh, equal value.
    pub fn duplicate(&self) -> (r: Self)
        ensures
            r == *self,
    {
        AssetNameExchange { name: self.name.clone() }
    }
}

/// Exchange-local name of an instrument (for example "btc_usdt").
#[derive(Clone, Debug)]
pub struct InstrumentNameExchange {
    pub name: String,
}

impl View for InstrumentNameExchange {
    type V = Seq<char>;

    open spec fn view(&self) -> Seq<char> {
        self.name@
    }
}

impl InstrumentNameExchange {
    /// Wraps an exchange-issued instrument name.
    pub fn new(name: String) -> (r: Self)
        ensures
            r@ == name@,
    {
        InstrumentNameExchange { name }
    }

    /// Copies this name into a fresh, equal value.
    pub fn duplicate(&self) -> (r: Self)
        ensures
            r == *self,
    {
        InstrumentNameExchange { name: self.name.clone() }
    }
}

/// Client-assigned order identifier, chosen by the caller when a request is
/// constructed and carried unchanged onto the terminal result record.
#[derive(Clone, Debug)]
pub struct ClientOrderId {
    pub id: String,
}

impl View for ClientOrderId {
    type V = Seq<char>;

    open spec fn view(&self) -> Seq<char> {
        self.id@
    }
}

impl ClientOrderId {
    /// Wraps a caller-chosen order id.
    pub fn new(id: String) -> (r: Self)
        ensures
            r@ == id@,
    {
        ClientOrderId { id }
    }

    /// Copies this id into a fresh, equal value.
    pub fn duplicate(&self) -> (r: Self)
        ensures
            r == *self,
    {
        ClientOrderId { id: self.id.clone() }
    }

    /// True exactly when both ids spell the same exchange-local text.
    pub fn same(&self, other: &ClientOrderId) -> (r: bool)
        ensures
            r == (self@ == other@),
    {
        self.id == other.id
    }
}

/// Marker for the quote asset of an instrument, used to denominate trades.
#[derive(Clone, Copy, PartialEq, Eq, Structural, Debug)]
pub struct QuoteAsset;

} // verus!

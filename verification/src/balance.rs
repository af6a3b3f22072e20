//! Asset balances as reported by an exchange.

use vstd::prelude::*;

use crate::ids::AssetNameExchange;

verus! {

/// Total and available balance of one asset at a point in time, in
/// fixed-point exchange units. Both amounts are non-negative by type;
/// a well-formed balance never has more available than it holds in total.
#[derive(Clone, Debug)]
pub struct AssetBalance {
    pub asset: AssetNameExchange,
    pub total: u64,
    pub available: u64,
    /// Exchange-reported time, milliseconds since the epoch.
    pub time_exchange: i64,
}

impl AssetBalance {
    /// What can be withdrawn or placed never exceeds what is held.
    pub open spec fn wf(&self) -> bool {
        self.available <= self.total
    }

    /// Assembles a balance; rejects one that claims more available than
    /// total, exactly when `available > total`.
    pub fn new(asset: AssetNameExchange, total: u64, available: u64, time_exchange: i64) -> (r:
        Option<AssetBalance>)
        ensures
            available <= total ==> r == Some(AssetBalance { asset, total, available, time_exchange }),
            available > total ==> r is None,
    {
        if available <= total {
            Some(AssetBalance { asset, total, available, time_exchange })
        } else {
            None
        }
    }

    /// Copies this balance into a fresh, equal value.
    pub fn duplicate(&self) -> (r: Self)
        ensures
            r == *self,
    {
        AssetBalance {
            asset: self.asset.duplicate(),
            total: self.total,
            available: self.available,
            time_exchange: self.time_exchange,
        }
    }
}

} // verus!

//! Value duplication with an exact contract.
//!
//! Derived `Clone` carries no specification, so types whose copies the
//! contracts reason about implement `Duplicate` instead: the copy is equal
//! to the original, value for value.

use vstd::prelude::*;

use crate::balance::AssetBalance;
use crate::event::AccountEvent;
use crate::ids::ClientOrderId;
use crate::order::Open;
use crate::order::Order;
use crate::trade::Trade;

verus! {

/// A copy that is provably equal to the original.
pub trait Duplicate: Sized {
    fn duplicate_value(&self) -> (r: Self)
        ensures
            r == *self,
    ;
}

impl Duplicate for AssetBalance {
    fn duplicate_value(&self) -> (r: Self)
        ensures
            r == *self,
    {
        self.duplicate()
    }
}

impl Duplicate for Trade {
    fn duplicate_value(&self) -> (r: Self)
        ensures
            r == *self,
    {
        self.duplicate()
    }
}

impl Duplicate for AccountEvent {
    fn duplicate_value(&self) -> (r: Self)
        ensures
            r == *self,
    {
        self.duplicate()
    }
}

impl Duplicate for ClientOrderId {
    fn duplicate_value(&self) -> (r: Self)
        ensures
            r == *self,
    {
        self.duplicate()
    }
}

impl Duplicate for Order<Open> {
    fn duplicate_value(&self) -> (r: Self)
        ensures
            r == *self,
    {
        self.with_state(self.state)
    }
}

/// Copies a whole vector, element for element.
pub fn duplicate_vec<T: Duplicate>(v: &Vec<T>) -> (r: Vec<T>)
    ensures
        r@ == v@,
{
    let n = v.len();
    let mut r: Vec<T> = Vec::new();
    let mut i: usize = 0;
    while i < n
        invariant
            i <= n,
            n == v@.len(),
            r@ == v@.subrange(0, i as int),
        decreases n - i,
    {
        r.push(v[i].duplicate_value());
        proof {
            assert(r@ =~= v@.subrange(0, i + 1 as int));
        }
        i += 1;
    }
    proof {
        assert(v@.subrange(0, n as int) =~= v@);
    }
    r
}

} // verus!

//! The engine-side consumer of account events, as a typestate machine.
//!
//! While the engine holds a pending account event it sits in the
//! `AccountUpdater` stage; consuming that event always hands control back to
//! the feed consumer. What each event variant means for positions and
//! statistics is the downstream engine's concern, outside this crate.

use vstd::prelude::*;

use crate::event::AccountEvent;

verus! {

/// Engine stage: one account event is pending and must be consumed next.
pub struct AccountUpdater {
    pub account: AccountEvent,
}

/// Engine stage: waiting on the next item of the event feed.
#[derive(Clone, Copy, PartialEq, Eq, Structural, Debug)]
pub struct Consumer;

/// The trading engine in one of its stages, generic over the strategy it
/// carries across transitions.
pub struct Cerebrum<State, Strategy> {
    pub state: State,
    pub strategy: Strategy,
}

/// The engine, tagged by its current stage.
pub enum Engine<Strategy> {
    Consumer(Cerebrum<Consumer, Strategy>),
}

impl<Strategy> Cerebrum<AccountUpdater, Strategy> {
    /// Consumes the pending account event and returns to consuming the
    /// feed; the strategy is carried over unchanged. Position and statistic
    /// updates per event variant belong to the downstream engine.
    pub fn update_from_account_event(self) -> (r: Engine<Strategy>)
        ensures
            r matches Engine::Consumer(c) && c.strategy == self.strategy && c.state == Consumer,
    {
        Engine::Consumer(Cerebrum::from(self))
    }
}

/// The one transition out of the account-updater stage: the pending event is
/// dropped as consumed, everything else is carried over.
impl<Strategy> From<Cerebrum<AccountUpdater, Strategy>> for Cerebrum<Consumer, Strategy> {
    fn from(cerebrum: Cerebrum<AccountUpdater, Strategy>) -> (r: Self)
        ensures
            r.strategy == cerebrum.strategy,
            r.state == Consumer,
    {
        Cerebrum { state: Consumer, strategy: cerebrum.strategy }
    }
}

impl<Strategy> vstd::std_specs::convert::FromSpecImpl<Cerebrum<AccountUpdater, Strategy>> for Cerebrum<Consumer, Strategy> {
    open spec fn obeys_from_spec() -> bool {
        true
    }

    open spec fn from_spec(cerebrum: Cerebrum<AccountUpdater, Strategy>) -> Self {
        Cerebrum { state: Consumer, strategy: cerebrum.strategy }
    }
}

} // verus!

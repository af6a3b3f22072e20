//! Error taxonomy: call-level failures that abort a whole operation, and
//! per-order failures that are contained inside one order's result record.

use vstd::prelude::*;

verus! {

/// Call-level, wholesale failure: any of these fails the entire enclosing
/// call (snapshot, stream establishment, or a one-shot fetch). Never used to
/// describe the fate of a single order inside a batch.
#[derive(Clone, Debug)]
pub enum ClientError {
    /// Connectivity to the exchange was lost or could not be established.
    Connectivity(String),
    /// The exchange refused the credentials.
    Auth(String),
    /// The exchange rejected the call for exceeding a rate limit.
    RateLimited,
    /// The adapter configuration is malformed.
    BadConfig(String),
    /// Establishing a connection or a one-shot request timed out.
    Timeout,
}

impl ClientError {
    /// Copies this error into a fresh, equal value.
    pub fn duplicate(&self) -> (r: Self)
        ensures
            r == *self,
    {
        match self {
            ClientError::Connectivity(m) => ClientError::Connectivity(m.clone()),
            ClientError::Auth(m) => ClientError::Auth(m.clone()),
            ClientError::RateLimited => ClientError::RateLimited,
            ClientError::BadConfig(m) => ClientError::BadConfig(m.clone()),
            ClientError::Timeout => ClientError::Timeout,
        }
    }
}

/// Per-order, isolated failure: embedded as the payload of exactly one
/// order's result record, never failing an enclosing batch call.
#[derive(Clone, Debug)]
pub enum OrderError {
    /// The exchange rejected the order (invalid instrument, insufficient
    /// balance, price or quantity out of bounds, ...).
    Rejected(String),
    /// The cancel target is unknown to the exchange or already terminal.
    NotFound(String),
    /// A transport failure specific to this one request.
    Transport(String),
    /// This one request timed out.
    Timeout,
}

impl OrderError {
    /// Copies this error into a fresh, equal value.
    pub fn duplicate(&self) -> (r: Self)
        ensures
            r == *self,
    {
        match self {
            OrderError::Rejected(m) => OrderError::Rejected(m.clone()),
            OrderError::NotFound(m) => OrderError::NotFound(m.clone()),
            OrderError::Transport(m) => OrderError::Transport(m.clone()),
            OrderError::Timeout => OrderError::Timeout,
        }
    }
}

/// Portfolio-side error: an order-event builder was finalised with a
/// required field missing; the payload names that field.
#[derive(Clone, Debug)]
pub enum PortfolioError {
    BuilderIncomplete(String),
}

} // verus!

//! A per-identity usage ledger.
//!
//! Each identity owns at most one "latest usage record". A write is
//! authorized and validated before it replaces the identity's record and
//! emits a `stored` notification; a read returns the record or `NotFound`.

pub mod errors;
pub mod record;
pub mod store;
pub mod laws;

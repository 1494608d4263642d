use vstd::prelude::*;

verus! {

/// The store's flat error taxonomy.
///
/// `ContractError` is the catch-all default and is never intentionally
/// returned by the store's operations.
#[derive(Copy, Clone, Debug, PartialEq, Eq, Structural, PartialOrd, Ord)]
pub enum Error {
    ContractError,
    InvalidInput,
    Unauthorized,
    NotFound,
}

impl Default for Error {
    fn default() -> (e: Error)
        ensures
            e == Error::ContractError,
    {
        Error::ContractError
    }
}

} // verus!

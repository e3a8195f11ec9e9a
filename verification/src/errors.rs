use vstd::prelude::*;

verus! {

/// Every way a registry call can fail. Each precondition violation is
/// reported as its own variant so that callers can branch on the cause;
/// no call ever mutates state when it returns one of these.
#[derive(Clone, Copy, Debug, PartialEq, Eq, Structural)]
pub enum Error {
    /// `initialize` was called on a registry that already has metadata.
    AlreadyInitialized,
    /// `mint` was called for a seat number that already has an owner.
    SeatAlreadyOwned,
    /// `owner_of` was called for a seat number that has never been minted.
    SeatNotFound,
    /// `transfer` was called without a valid authorization proof for `from`.
    Unauthorized,
    /// `transfer` was called for a seat number that has never been minted.
    TokenNotFound,
    /// `transfer` was called by an identity that is not the current owner.
    NotOwner,
    /// `transfer` was called with a receiver that already holds a seat
    /// according to its back-reference.
    ReceiverAlreadyHasSeat,
}

} // verus!

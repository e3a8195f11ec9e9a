use vstd::prelude::*;

verus! {

/// Typed keys for the singleton registry metadata: the display name, the
/// short symbol, and the admin identity. All three are written together by
/// `initialize`, so one is present exactly when the others are.
#[derive(Clone, Debug, PartialEq, Eq, Structural)]
pub enum DataKey {
    Name,
    Symbol,
    Admin,
}

/// Typed keys for the per-seat and per-owner records: the ownership record
/// of a seat number, and the back-reference from an owner identity to the
/// seat it currently holds.
#[derive(Clone, Debug, PartialEq, Eq, Structural)]
pub enum UserDataKey {
    TokenOwner(u32),
    Seat(u64),
}

} // verus!

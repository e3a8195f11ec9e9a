use vstd::prelude::*;

use crate::errors::Error;
use crate::keys::{DataKey, UserDataKey};
use std::collections::HashMap;

verus! {

/// The singleton metadata written once by a successful `initialize`.
struct Metadata {
    name: String,
    symbol: String,
    admin: u64,
}

/// The seat registry: a state machine over three groups of records.
///
/// - the registry metadata (`name`, `symbol`, `admin`), a singleton created
///   exactly once by `initialize` and immutable afterwards;
/// - the seat ownership records, one per minted seat number, created by
///   `mint` and updated only by a successful `transfer`;
/// - the owner-to-seat back-references, a derived index used by `transfer`
///   to enforce that a receiver holds at most one seat.
///
/// The registry is an explicit state object: a host embeds it (or drives the
/// `decide_*` functions against its own durable store) and serializes calls,
/// so every operation here is a plain sequential method. Each operation
/// performs all of its checks before any write, so a failing call returns a
/// distinct [`Error`] and leaves the state exactly as it was.
///
/// Two asymmetries of the rules are deliberate and documented where they
/// bite: `mint` neither checks nor writes a back-reference, and `transfer`
/// never clears the previous owner's back-reference.
pub struct Eras {
    meta: Option<Metadata>,
    owners: HashMap<u32, u64>,
    seats: HashMap<u64, u32>,
}

impl Eras {
    /// The display name, if the registry has been initialized.
    pub closed spec fn name_of(self) -> Option<Seq<char>> {
        match self.meta {
            Some(m) => Some(m.name@),
            None => None,
        }
    }

    /// The short symbol, if the registry has been initialized.
    pub closed spec fn symbol_of(self) -> Option<Seq<char>> {
        match self.meta {
            Some(m) => Some(m.symbol@),
            None => None,
        }
    }

    /// The admin identity, if the registry has been initialized.
    pub closed spec fn admin_of(self) -> Option<u64> {
        match self.meta {
            Some(m) => Some(m.admin),
            None => None,
        }
    }

    /// Whether `initialize` has succeeded: the admin record exists.
    pub open spec fn initialized(self) -> bool {
        self.admin_of() is Some
    }

    /// The seat ownership records: each minted seat number maps to the
    /// identity that currently owns it.
    pub closed spec fn owner_records(self) -> Map<u32, u64> {
        self.owners@
    }

    /// The owner-to-seat back-references: each identity that has *received*
    /// a seat through `transfer` maps to the seat number it received most
    /// recently. `mint` does not write this index, and `transfer` does not
    /// clear the sender's entry, so it can lag behind the ownership records.
    pub closed spec fn back_refs(self) -> Map<u64, u32> {
        self.seats@
    }
}

/// What `initialize` returns, given whether metadata already exists.
pub open spec fn initialize_decision(already_initialized: bool) -> Result<(), Error> {
    if already_initialized {
        Err(Error::AlreadyInitialized)
    } else {
        Ok(())
    }
}

/// What `mint` returns, given whether the seat already has an owner.
pub open spec fn mint_decision(seat_taken: bool) -> Result<(), Error> {
    if seat_taken {
        Err(Error::SeatAlreadyOwned)
    } else {
        Ok(())
    }
}

/// What `transfer` returns. The checks are ordered: authorization first,
/// then existence of the seat, then the ownership match, then the
/// receiver-collision check; the first failing check names the error.
pub open spec fn transfer_decision(
    from_authorized: bool,
    seat_exists: bool,
    from_is_owner: bool,
    receiver_has_seat: bool,
) -> Result<(), Error> {
    if !from_authorized {
        Err(Error::Unauthorized)
    } else if !seat_exists {
        Err(Error::TokenNotFound)
    } else if !from_is_owner {
        Err(Error::NotOwner)
    } else if receiver_has_seat {
        Err(Error::ReceiverAlreadyHasSeat)
    } else {
        Ok(())
    }
}

/// The full effect of one `initialize` call: the result follows
/// [`initialize_decision`]; on success the metadata is exactly the three
/// arguments and the seat records are untouched; on failure nothing changes.
pub open spec fn initialize_transition(
    pre: Eras,
    post: Eras,
    name: Seq<char>,
    symbol: Seq<char>,
    admin: u64,
    r: Result<(), Error>,
) -> bool {
    &&& r == initialize_decision(pre.initialized())
    &&& if r == Ok::<(), Error>(()) {
        &&& post.name_of() == Some(name)
        &&& post.symbol_of() == Some(symbol)
        &&& post.admin_of() == Some(admin)
        &&& post.owner_records() == pre.owner_records()
        &&& post.back_refs() == pre.back_refs()
    } else {
        post == pre
    }
}

/// The full effect of one `mint` call: the result follows [`mint_decision`];
/// on success the seat's ownership record is created and nothing else
/// changes — in particular no back-reference is written for `to`; on
/// failure nothing changes.
pub open spec fn mint_transition(
    pre: Eras,
    post: Eras,
    to: u64,
    seat_num: u32,
    r: Result<(), Error>,
) -> bool {
    &&& r == mint_decision(pre.owner_records().contains_key(seat_num))
    &&& if r == Ok::<(), Error>(()) {
        &&& post.owner_records() == pre.owner_records().insert(seat_num, to)
        &&& post.back_refs() == pre.back_refs()
        &&& post.name_of() == pre.name_of()
        &&& post.symbol_of() == pre.symbol_of()
        &&& post.admin_of() == pre.admin_of()
    } else {
        post == pre
    }
}

/// The full effect of one `transfer` call: the result follows
/// [`transfer_decision`] applied to the state; on success the seat's
/// ownership record moves to `to` and `to`'s back-reference is written —
/// the sender's back-reference, if any, is left in place; on failure
/// nothing changes.
pub open spec fn transfer_transition(
    pre: Eras,
    post: Eras,
    from: u64,
    to: u64,
    seat_num: u32,
    from_authorized: bool,
    r: Result<(), Error>,
) -> bool {
    let seat_exists = pre.owner_records().contains_key(seat_num);
    let from_is_owner = seat_exists && pre.owner_records()[seat_num] == from;
    let receiver_has_seat = pre.back_refs().contains_key(to);
    &&& r == transfer_decision(from_authorized, seat_exists, from_is_owner, receiver_has_seat)
    &&& if r == Ok::<(), Error>(()) {
        &&& post.owner_records() == pre.owner_records().insert(seat_num, to)
        &&& post.back_refs() == pre.back_refs().insert(to, seat_num)
        &&& post.name_of() == pre.name_of()
        &&& post.symbol_of() == pre.symbol_of()
        &&& post.admin_of() == pre.admin_of()
    } else {
        post == pre
    }
}

/// Decides an `initialize` call for a host that keeps its own durable
/// store: the host reads whether the metadata exists, and writes the three
/// records only when the decision is `Ok`.
pub fn decide_initialize(already_initialized: bool) -> (r: Result<(), Error>)
    ensures
        r == initialize_decision(already_initialized),
{
    if already_initialized {
        Err(Error::AlreadyInitialized)
    } else {
        Ok(())
    }
}

/// Decides a `mint` call for a host that keeps its own durable store: the
/// host reads whether the seat's ownership record exists, and creates it
/// only when the decision is `Ok`.
pub fn decide_mint(seat_taken: bool) -> (r: Result<(), Error>)
    ensures
        r == mint_decision(seat_taken),
{
    if seat_taken {
        Err(Error::SeatAlreadyOwned)
    } else {
        Ok(())
    }
}

/// Decides a `transfer` call for a host that keeps its own durable store:
/// the host asserts authorization, reads the seat's current owner and the
/// receiver's back-reference, and performs the two writes only when the
/// decision is `Ok`. The error ordering is that of [`transfer_decision`].
pub fn decide_transfer(
    from_authorized: bool,
    seat_exists: bool,
    from_is_owner: bool,
    receiver_has_seat: bool,
) -> (r: Result<(), Error>)
    ensures
        r == transfer_decision(from_authorized, seat_exists, from_is_owner, receiver_has_seat),
{
    if !from_authorized {
        Err(Error::Unauthorized)
    } else if !seat_exists {
        Err(Error::TokenNotFound)
    } else if !from_is_owner {
        Err(Error::NotOwner)
    } else if receiver_has_seat {
        Err(Error::ReceiverAlreadyHasSeat)
    } else {
        Ok(())
    }
}

/// Turns an optional ownership record into the result of `owner_of`: the
/// recorded owner if the seat exists, `SeatNotFound` otherwise.
pub fn resolve_owner<T>(owner: Option<T>) -> (r: Result<T, Error>)
    ensures
        (match owner {
            Some(o) => r == Ok::<T, Error>(o),
            None => r == Err::<T, Error>(Error::SeatNotFound),
        }),
{
    match owner {
        Some(o) => Ok(o),
        None => Err(Error::SeatNotFound),
    }
}

impl Eras {
    /// A fresh registry: not initialized, no seats minted, no
    /// back-references.
    pub fn new() -> (r: Eras)
        ensures
            !r.initialized(),
            r.name_of() is None,
            r.symbol_of() is None,
            r.admin_of() is None,
            r.owner_records() == Map::<u32, u64>::empty(),
            r.back_refs() == Map::<u64, u32>::empty(),
    {
        Eras { meta: None, owners: HashMap::new(), seats: HashMap::new() }
    }

    /// Writes the registry metadata, exactly once. Fails with
    /// `AlreadyInitialized` on every call after the first successful one,
    /// leaving the stored metadata untouched.
    pub fn initialize(&mut self, name: String, symbol: String, admin: u64) -> (r: Result<
        (),
        Error,
    >)
        ensures
            initialize_transition(*old(self), *final(self), name@, symbol@, admin, r),
    {
        let already: bool = self.meta.is_some();
        match decide_initialize(already) {
            Ok(()) => {
                self.meta = Some(Metadata { name, symbol, admin });
                Ok(())
            },
            Err(e) => Err(e),
        }
    }

    /// Creates the ownership record for a seat number that has none yet;
    /// fails with `SeatAlreadyOwned` if the seat was ever minted, and the
    /// first owner is preserved. No authorization is demanded and no
    /// back-reference is written for `to`: only `transfer` maintains that
    /// index.
    pub fn mint(&mut self, to: u64, seat_num: u32) -> (r: Result<(), Error>)
        ensures
            mint_transition(*old(self), *final(self), to, seat_num, r),
    {
        let seat_taken: bool = self.owners.contains_key(&seat_num);
        match decide_mint(seat_taken) {
            Ok(()) => {
                self.owners.insert(seat_num, to);
                Ok(())
            },
            Err(e) => Err(e),
        }
    }

    /// The identity currently recorded as the owner of `seat_num`, or
    /// `SeatNotFound` if the seat has never been minted. A pure read.
    pub fn owner_of(&self, seat_num: u32) -> (r: Result<u64, Error>)
        ensures
            self.owner_records().contains_key(seat_num) ==> r == Ok::<u64, Error>(
                self.owner_records()[seat_num],
            ),
            !self.owner_records().contains_key(seat_num) ==> r == Err::<u64, Error>(
                Error::SeatNotFound,
            ),
    {
        let owner: Option<u64> = match self.owners.get(&seat_num) {
            Some(o) => Some(*o),
            None => None,
        };
        resolve_owner(owner)
    }

    /// Moves the ownership record of `seat_num` from `from` to `to` and
    /// records `to`'s back-reference. `from_authorized` is the verdict of
    /// the host's authorization primitive for `from`; the checks run in the
    /// order of [`transfer_decision`], and a failing check leaves the state
    /// unchanged. The sender's own back-reference, if one exists, stays in
    /// place.
    pub fn transfer(&mut self, from: u64, to: u64, seat_num: u32, from_authorized: bool) -> (r:
        Result<(), Error>)
        ensures
            transfer_transition(*old(self), *final(self), from, to, seat_num, from_authorized, r),
    {
        let seat_exists: bool = self.owners.contains_key(&seat_num);
        let from_is_owner: bool = match self.owners.get(&seat_num) {
            Some(o) => *o == from,
            None => false,
        };
        let receiver_has_seat: bool = self.seats.contains_key(&to);
        match decide_transfer(from_authorized, seat_exists, from_is_owner, receiver_has_seat) {
            Ok(()) => {
                self.owners.insert(seat_num, to);
                self.seats.insert(to, seat_num);
                Ok(())
            },
            Err(e) => Err(e),
        }
    }

    /// The stored display name, if initialized.
    pub fn name(&self) -> (r: Option<&String>)
        ensures
            (match r {
                Some(n) => self.name_of() == Some(n@),
                None => self.name_of() is None,
            }),
    {
        match &self.meta {
            Some(m) => Some(&m.name),
            None => None,
        }
    }

    /// The stored symbol, if initialized.
    pub fn symbol(&self) -> (r: Option<&String>)
        ensures
            (match r {
                Some(n) => self.symbol_of() == Some(n@),
                None => self.symbol_of() is None,
            }),
    {
        match &self.meta {
            Some(m) => Some(&m.symbol),
            None => None,
        }
    }

    /// The stored admin identity, if initialized.
    pub fn admin(&self) -> (r: Option<u64>)
        ensures
            r == self.admin_of(),
    {
        match &self.meta {
            Some(m) => Some(m.admin),
            None => None,
        }
    }

    /// Whether a metadata record exists. All three metadata entries are
    /// written together by `initialize`, so each exists exactly when the
    /// registry is initialized.
    pub fn has_data(&self, key: &DataKey) -> (r: bool)
        ensures
            r == self.initialized(),
    {
        match key {
            DataKey::Name => self.meta.is_some(),
            DataKey::Symbol => self.meta.is_some(),
            DataKey::Admin => self.meta.is_some(),
        }
    }

    /// Whether a per-seat or per-owner record exists: the ownership record
    /// of a seat number, or the back-reference of an identity.
    pub fn has_user_data(&self, key: &UserDataKey) -> (r: bool)
        ensures
            (match key {
                UserDataKey::TokenOwner(s) => r == self.owner_records().contains_key(*s),
                UserDataKey::Seat(a) => r == self.back_refs().contains_key(*a),
            }),
    {
        match key {
            UserDataKey::TokenOwner(s) => self.owners.contains_key(s),
            UserDataKey::Seat(a) => self.seats.contains_key(a),
        }
    }

    /// The seat recorded in an identity's back-reference, if any. Because
    /// `mint` never writes this index and `transfer` never clears the
    /// sender's entry, this is the seat most recently *received* through
    /// `transfer`, not necessarily a seat the identity still owns.
    pub fn seat_of(&self, owner: u64) -> (r: Option<u32>)
        ensures
            self.back_refs().contains_key(owner) ==> r == Some(self.back_refs()[owner]),
            !self.back_refs().contains_key(owner) ==> r is None,
    {
        match self.seats.get(&owner) {
            Some(s) => Some(*s),
            None => None,
        }
    }
}

} // verus!

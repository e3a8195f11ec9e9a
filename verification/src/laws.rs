use vstd::prelude::*;

use crate::errors::Error;
use crate::registry::{
    Eras, initialize_transition, mint_transition, transfer_transition,
};

verus! {

/// Law: `initialize` succeeds at most once. After one successful call,
/// every further call — whatever arguments it carries — fails with
/// `AlreadyInitialized` and leaves the metadata exactly as the first call
/// wrote it.
pub proof fn lemma_initialize_at_most_once(
    s0: Eras,
    s1: Eras,
    s2: Eras,
    name1: Seq<char>,
    symbol1: Seq<char>,
    admin1: u64,
    name2: Seq<char>,
    symbol2: Seq<char>,
    admin2: u64,
    r2: Result<(), Error>,
)
    requires
        initialize_transition(s0, s1, name1, symbol1, admin1, Ok(())),
        initialize_transition(s1, s2, name2, symbol2, admin2, r2),
    ensures
        r2 == Err::<(), Error>(Error::AlreadyInitialized),
        s2 == s1,
        s2.name_of() == Some(name1),
        s2.symbol_of() == Some(symbol1),
        s2.admin_of() == Some(admin1),
{
}

/// Law: `initialize` never touches a seat: the ownership record of any
/// seat number, and any back-reference, read the same before and after,
/// whether the call succeeded or failed.
pub proof fn lemma_initialize_preserves_seats(
    pre: Eras,
    post: Eras,
    name: Seq<char>,
    symbol: Seq<char>,
    admin: u64,
    r: Result<(), Error>,
    s: u32,
    who: u64,
)
    requires
        initialize_transition(pre, post, name, symbol, admin, r),
    ensures
        post.owner_records().contains_key(s) == pre.owner_records().contains_key(s),
        pre.owner_records().contains_key(s) ==> post.owner_records()[s]
            == pre.owner_records()[s],
        post.back_refs().contains_key(who) == pre.back_refs().contains_key(who),
        pre.back_refs().contains_key(who) ==> post.back_refs()[who] == pre.back_refs()[who],
{
}

/// Law: what `mint` does to any seat `s`. A seat's ownership record is
/// created by a successful `mint` of that very seat — and only for a seat
/// that had no record — and every other seat's record reads the same
/// before and after. A failed `mint` changes nothing. `mint` never writes
/// a back-reference.
pub proof fn lemma_mint_owner_tracking(
    pre: Eras,
    post: Eras,
    to: u64,
    seat_num: u32,
    r: Result<(), Error>,
    s: u32,
)
    requires
        mint_transition(pre, post, to, seat_num, r),
    ensures
        r == Ok::<(), Error>(()) ==> !pre.owner_records().contains_key(seat_num),
        r == Ok::<(), Error>(()) ==> post.owner_records().contains_key(seat_num)
            && post.owner_records()[seat_num] == to,
        s != seat_num ==> post.owner_records().contains_key(s)
            == pre.owner_records().contains_key(s),
        s != seat_num && pre.owner_records().contains_key(s) ==> post.owner_records()[s]
            == pre.owner_records()[s],
        r is Err ==> post == pre,
        post.back_refs() == pre.back_refs(),
{
}

/// Law: minting the same seat twice fails. If a `mint` of `seat_num`
/// succeeded, a second `mint` of the same seat — to whatever receiver —
/// fails with `SeatAlreadyOwned`, changes nothing, and the first owner is
/// preserved.
pub proof fn lemma_mint_same_seat_twice(
    s0: Eras,
    s1: Eras,
    s2: Eras,
    to1: u64,
    to2: u64,
    seat_num: u32,
    r2: Result<(), Error>,
)
    requires
        mint_transition(s0, s1, to1, seat_num, Ok(())),
        mint_transition(s1, s2, to2, seat_num, r2),
    ensures
        r2 == Err::<(), Error>(Error::SeatAlreadyOwned),
        s2 == s1,
        s2.owner_records()[seat_num] == to1,
{
}

/// Law: what `transfer` does to any seat `s`. A successful `transfer`
/// moves exactly the transferred seat's record from `from` to `to`;
/// every other seat's record, and the set of minted seats, read the same
/// before and after. A failed `transfer` changes nothing.
pub proof fn lemma_transfer_owner_tracking(
    pre: Eras,
    post: Eras,
    from: u64,
    to: u64,
    seat_num: u32,
    from_authorized: bool,
    r: Result<(), Error>,
    s: u32,
)
    requires
        transfer_transition(pre, post, from, to, seat_num, from_authorized, r),
    ensures
        r == Ok::<(), Error>(()) ==> pre.owner_records().contains_key(seat_num)
            && pre.owner_records()[seat_num] == from,
        r == Ok::<(), Error>(()) ==> post.owner_records().contains_key(seat_num)
            && post.owner_records()[seat_num] == to,
        post.owner_records().contains_key(s) == pre.owner_records().contains_key(s),
        s != seat_num && pre.owner_records().contains_key(s) ==> post.owner_records()[s]
            == pre.owner_records()[s],
        r is Err ==> post == pre,
{
}

/// Law: an unauthorized `transfer` fails with `Unauthorized` — before any
/// other check is consulted — and leaves the whole state unchanged.
pub proof fn lemma_transfer_unauthorized(
    pre: Eras,
    post: Eras,
    from: u64,
    to: u64,
    seat_num: u32,
    r: Result<(), Error>,
)
    requires
        transfer_transition(pre, post, from, to, seat_num, false, r),
    ensures
        r == Err::<(), Error>(Error::Unauthorized),
        post == pre,
{
}

/// Law: a `transfer` by an identity that is not the recorded owner of the
/// seat fails with `NotOwner` and leaves the whole state unchanged.
pub proof fn lemma_transfer_not_owner(
    pre: Eras,
    post: Eras,
    from: u64,
    to: u64,
    seat_num: u32,
    r: Result<(), Error>,
)
    requires
        transfer_transition(pre, post, from, to, seat_num, true, r),
        pre.owner_records().contains_key(seat_num),
        pre.owner_records()[seat_num] != from,
    ensures
        r == Err::<(), Error>(Error::NotOwner),
        post == pre,
{
}

/// Law: a `transfer` to a receiver whose back-reference exists — the
/// receiver already holds some seat `t` — fails with
/// `ReceiverAlreadyHasSeat` and leaves the whole state unchanged: both the
/// transferred seat and the receiver's seat `t` keep their records.
pub proof fn lemma_transfer_receiver_collision(
    pre: Eras,
    post: Eras,
    from: u64,
    to: u64,
    seat_num: u32,
    r: Result<(), Error>,
)
    requires
        transfer_transition(pre, post, from, to, seat_num, true, r),
        pre.owner_records().contains_key(seat_num),
        pre.owner_records()[seat_num] == from,
        pre.back_refs().contains_key(to),
    ensures
        r == Err::<(), Error>(Error::ReceiverAlreadyHasSeat),
        post == pre,
        post.owner_records()[seat_num] == from,
        post.back_refs()[to] == pre.back_refs()[to],
        pre.owner_records().contains_key(pre.back_refs()[to])
            ==> post.owner_records()[pre.back_refs()[to]]
                == pre.owner_records()[pre.back_refs()[to]],
{
}

} // verus!

use eras::errors::Error;
use eras::registry::{decide_initialize, decide_mint, decide_transfer, resolve_owner};

#[test]
fn decide_initialize_rejects_second_call() {
    assert_eq!(decide_initialize(false), Ok(()));
    assert_eq!(decide_initialize(true), Err(Error::AlreadyInitialized));
}

#[test]
fn decide_mint_rejects_taken_seat() {
    assert_eq!(decide_mint(false), Ok(()));
    assert_eq!(decide_mint(true), Err(Error::SeatAlreadyOwned));
}

#[test]
fn decide_transfer_orders_its_checks() {
    // authorization comes first, whatever else holds
    assert_eq!(decide_transfer(false, false, false, false), Err(Error::Unauthorized));
    assert_eq!(decide_transfer(false, true, true, true), Err(Error::Unauthorized));
    // then existence of the seat
    assert_eq!(decide_transfer(true, false, false, false), Err(Error::TokenNotFound));
    assert_eq!(decide_transfer(true, false, true, true), Err(Error::TokenNotFound));
    // then the ownership match
    assert_eq!(decide_transfer(true, true, false, false), Err(Error::NotOwner));
    assert_eq!(decide_transfer(true, true, false, true), Err(Error::NotOwner));
    // then the receiver-collision check
    assert_eq!(decide_transfer(true, true, true, true), Err(Error::ReceiverAlreadyHasSeat));
    // all checks pass
    assert_eq!(decide_transfer(true, true, true, false), Ok(()));
}

#[test]
fn resolve_owner_reports_missing_seat() {
    assert_eq!(resolve_owner(Some(7u64)), Ok(7u64));
    assert_eq!(resolve_owner(None::<u64>), Err(Error::SeatNotFound));
}

use shaga::checks::{check_can_start_rental, check_client_already_in_affair, check_sufficient_funds_in_escrow};
use shaga::errors::ShagaErrorCode;
use shaga::pubkey::Pubkey;
use shaga::states::affair::{Affair, AffairState};
use shaga::states::escrow::Escrow;
use shaga::states::rental::Rental;

#[test]
fn error_codes_follow_anchor_offset() {
    let base = anchor_lang::error::ERROR_CODE_OFFSET;
    assert_eq!(ShagaErrorCode::InvalidAffair.code(), base);
    assert_eq!(ShagaErrorCode::AffairAlreadyJoined.code(), base + 8);
    assert_eq!(ShagaErrorCode::ThreadInitializationFailed.code(), base + 9);
    assert_eq!(ShagaErrorCode::ClientAlreadyInSession.code(), base + 15);
}

#[test]
fn can_start_rental_only_when_available() {
    let mut a = Affair::default();
    assert_eq!(check_can_start_rental(&a), Ok(()));
    a.affair_state = AffairState::Unavailable;
    assert_eq!(check_can_start_rental(&a), Err(ShagaErrorCode::AffairAlreadyJoined));
}

#[test]
fn client_already_in_affair() {
    let mut a = Affair::default();
    let c = Pubkey::new_from_array([4u8; 32]);
    let mut r = Rental::default();
    assert_eq!(check_client_already_in_affair(&a, &r, &c), Ok(()));
    r.client = c;
    assert_eq!(check_client_already_in_affair(&a, &r, &c), Err(ShagaErrorCode::ClientAlreadyInAffair));
    assert_eq!(
        check_client_already_in_affair(&a, &r, &Pubkey::new_from_array([5u8; 32])),
        Ok(())
    );
    a.rental = None;
    assert_eq!(check_client_already_in_affair(&a, &r, &c), Ok(()));
}

#[test]
fn sufficient_funds_in_escrow() {
    let e = Escrow { locked_amount: 100 };
    assert_eq!(check_sufficient_funds_in_escrow(&e, 100), Ok(()));
    assert_eq!(check_sufficient_funds_in_escrow(&e, 101), Err(ShagaErrorCode::InsufficientFunds));
}

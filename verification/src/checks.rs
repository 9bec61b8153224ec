//! Reusable preconditions of the rental instructions.
use crate::errors::ShagaErrorCode;
use crate::pubkey::Pubkey;
use crate::states::affair::Affair;
use crate::states::escrow::Escrow;
use crate::states::rental::Rental;
use vstd::prelude::*;

verus! {

/// Refuses with `AffairAlreadyJoined` an affair that can not take a rental.
pub fn check_can_start_rental(affair: &Affair) -> (r: Result<(), ShagaErrorCode>)
    ensures
        r is Ok <==> affair.spec_can_join(),
        r is Err ==> r == Err::<(), ShagaErrorCode>(ShagaErrorCode::AffairAlreadyJoined),
{
    if !affair.can_join() {
        return Err(ShagaErrorCode::AffairAlreadyJoined);
    } else {
        Ok(())
    }
}

/// Refuses with `ClientAlreadyInAffair` the client that already rents the
/// affair: the affair has a rental and `active_rental`, its rental account,
/// names that client.
pub fn check_client_already_in_affair(
    affair: &Affair,
    active_rental: &Rental,
    client_key: &Pubkey,
) -> (r: Result<(), ShagaErrorCode>)
    ensures
        r is Ok <==> !(affair.rental is Some && active_rental.client@ == client_key@),
        r is Err ==> r == Err::<(), ShagaErrorCode>(ShagaErrorCode::ClientAlreadyInAffair),
{
    if affair.rental.is_some() && active_rental.client.key_eq(client_key) {
        return Err(ShagaErrorCode::ClientAlreadyInAffair);
    } else {
        Ok(())
    }
}

/// Refuses with `InsufficientFunds` an escrow that holds less than `rent_amount`.
pub fn check_sufficient_funds_in_escrow(escrow: &Escrow, rent_amount: u64) -> (r: Result<
    (),
    ShagaErrorCode,
>)
    ensures
        r is Ok <==> escrow.locked_amount >= rent_amount,
        r is Err ==> r == Err::<(), ShagaErrorCode>(ShagaErrorCode::InsufficientFunds),
{
    if escrow.locked_amount < rent_amount {
        return Err(ShagaErrorCode::InsufficientFunds);
    } else {
        Ok(())
    }
}

} // verus!

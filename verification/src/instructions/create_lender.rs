//! Registering a lender.
use crate::errors::ShagaErrorCode;
use crate::pubkey::{zero_key, Pubkey};
use crate::states::lender::Lender;
use vstd::prelude::*;

verus! {

/// The lender account of a newly registered wallet.
pub open spec fn new_lender(l: Lender, payer: Pubkey) -> bool {
    &&& l.authority == payer
    &&& l.affairs == 0
    &&& l.karma == 0
}

/// Registers `payer` as the lender of the account; refuses with `InvalidLender`,
/// changing nothing, an account that already has an authority.
pub fn handler(lender: &mut Lender, payer: Pubkey) -> (r: Result<(), ShagaErrorCode>)
    ensures
        r is Err <==> old(lender).authority@ != zero_key(),
        r is Err ==> r == Err::<(), ShagaErrorCode>(ShagaErrorCode::InvalidLender),
        r is Err ==> *final(lender) == *old(lender),
        r is Ok ==> new_lender(*final(lender), payer),
{
    if !lender.authority.is_default() {
        return Err(ShagaErrorCode::InvalidLender);
    }
    let lender_object = Lender::default();
    *lender = lender_object;
    lender.authority = payer;
    Ok(())
}

/// A lender account is registered once: after a wallet other than the default
/// address registers it, every further registration is refused.
pub proof fn law_lender_registered_once(l: Lender, payer: Pubkey)
    requires
        new_lender(l, payer),
        payer@ != zero_key(),
    ensures
        l.authority@ != zero_key(),
{
}

} // verus!

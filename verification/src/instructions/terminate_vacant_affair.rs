//! Withdrawing an affair that has no rental, by its lender or by its
//! termination thread when the affair's time is up.
use crate::errors::ShagaErrorCode;
use crate::pubkey::Pubkey;
use crate::states::affair::Affair;
use crate::states::affair_list::{removed, AffairsList};
use crate::thread::{deserialize_thread_authority, key_option_view, thread_authority};
use vstd::prelude::*;

verus! {

/// What the instruction reads and writes.
#[derive(Debug)]
pub struct TerminateVacantAffairAccounts {
    /// Who signed: the lender, or the affair's termination thread.
    pub signer: Pubkey,
    /// The signer's account data, read as a thread where the signer is not the lender.
    pub signer_data: Vec<u8>,
    pub affair: Affair,
    pub affair_key: Pubkey,
    pub affairs_list: AffairsList,
    /// The program's account that owns its threads.
    pub thread_authority: Pubkey,
}

/// The first reason to refuse the withdrawal, given the authority of the signer
/// read as a thread.
pub open spec fn vacant_termination_error(
    a: TerminateVacantAffairAccounts,
    signer_thread: Option<Seq<u8>>,
) -> Option<ShagaErrorCode> {
    if a.affair.lender@ != a.signer@ && signer_thread is None {
        Some(ShagaErrorCode::InvalidSigner)
    } else if a.affair.lender@ != a.signer@ && signer_thread->0 != a.thread_authority@ {
        Some(ShagaErrorCode::InvalidSigner)
    } else if a.affair.rental is Some {
        Some(ShagaErrorCode::InvalidTerminationInstruction)
    } else {
        None
    }
}

/// The authority of the signer read as a thread where the instruction reads it.
pub open spec fn read_vacant_signer_thread(a: TerminateVacantAffairAccounts) -> Option<Seq<u8>> {
    if a.affair.lender@ != a.signer@ {
        thread_authority(a.signer_data@)
    } else {
        None
    }
}

/// The accounts are as they were, but for the list of open affairs.
pub open spec fn same_but_list(a: TerminateVacantAffairAccounts, b: TerminateVacantAffairAccounts) -> bool {
    &&& b.signer == a.signer
    &&& b.signer_data@ == a.signer_data@
    &&& b.affair == a.affair
    &&& b.affair_key == a.affair_key
    &&& b.thread_authority == a.thread_authority
}

/// Withdraws the vacant affair from the list of open affairs, given the
/// authority of the signer read as a thread (`None` where its data is no
/// thread; not read where the lender signs). Closing the affair account is left
/// to the caller. A refusal gives the first failing check and changes nothing.
pub fn vacant_termination_with_signer(
    accounts: &mut TerminateVacantAffairAccounts,
    signer_thread: Option<Pubkey>,
) -> (r: Result<(), ShagaErrorCode>)
    ensures
        ({
            let e = vacant_termination_error(*old(accounts), key_option_view(signer_thread));
            &&& e matches Some(err) ==> r == Err::<(), ShagaErrorCode>(err)
            &&& e is None ==> r is Ok
        }),
        same_but_list(*old(accounts), *final(accounts)),
        r is Ok ==> final(accounts).affairs_list.active_affairs@ == removed(
            old(accounts).affairs_list.active_affairs@,
            old(accounts).affair_key,
        ),
        r is Err ==> final(accounts).affairs_list.active_affairs@ == old(
            accounts,
        ).affairs_list.active_affairs@,
{
    if !accounts.affair.lender.key_eq(&accounts.signer) {
        let thread_signer = match signer_thread {
            Some(t) => t,
            None => {
                return Err(ShagaErrorCode::InvalidSigner);
            },
        };
        if !thread_signer.key_eq(&accounts.thread_authority) {
            return Err(ShagaErrorCode::InvalidSigner);
        }
    }
    if accounts.affair.rental.is_some() {
        return Err(ShagaErrorCode::InvalidTerminationInstruction);
    }
    let affair_key = accounts.affair_key;
    accounts.affairs_list.remove_affair(affair_key);
    Ok(())
}

/// Withdraws a vacant affair: reads the signer's data as a thread where the
/// signer is not the lender, and decides as `vacant_termination_with_signer`
/// does.
pub fn handle_vacant_affair_termination(accounts: &mut TerminateVacantAffairAccounts) -> (r: Result<
    (),
    ShagaErrorCode,
>)
    ensures
        ({
            let e = vacant_termination_error(*old(accounts), read_vacant_signer_thread(*old(accounts)));
            &&& e matches Some(err) ==> r == Err::<(), ShagaErrorCode>(err)
            &&& e is None ==> r is Ok
        }),
        same_but_list(*old(accounts), *final(accounts)),
        r is Ok ==> final(accounts).affairs_list.active_affairs@ == removed(
            old(accounts).affairs_list.active_affairs@,
            old(accounts).affair_key,
        ),
        r is Err ==> final(accounts).affairs_list.active_affairs@ == old(
            accounts,
        ).affairs_list.active_affairs@,
{
    let signer_thread = if !accounts.affair.lender.key_eq(&accounts.signer) {
        deserialize_thread_authority(&accounts.signer_data)
    } else {
        None
    };
    vacant_termination_with_signer(accounts, signer_thread)
}

} // verus!

//! Ending a rental, by its client, by its scheduler thread or by the affair's
//! lender: the escrow pays
//! the lender for the time used and refunds the client, and the affair is
//! listed again.
use crate::errors::ShagaErrorCode;
use crate::pubkey::Pubkey;
use crate::settlement::{move_lamports, settled, settlement_fits, Balances, Settlement};
use crate::states::affair::{Affair, AffairState};
use crate::states::affair_list::{registered, AffairsList};
use crate::states::escrow::Escrow;
use crate::states::lender::{thumbed_up, Lender};
use crate::states::rental::Rental;
use crate::thread::{deserialize_thread_authority, key_option_view, thread_authority};
use vstd::prelude::*;

verus! {

/// Who ends a rental.
#[derive(Clone, Copy, Debug, PartialEq, Eq, Structural)]
pub enum RentalTerminationAuthority {
    Clockwork,
    Client,
}

/// The Borsh form of a termination authority: the variant's index as one byte.
pub open spec fn termination_authority_bytes(a: RentalTerminationAuthority) -> Seq<u8> {
    match a {
        RentalTerminationAuthority::Clockwork => seq![0u8],
        RentalTerminationAuthority::Client => seq![1u8],
    }
}

impl RentalTerminationAuthority {
    /// The instruction argument in Borsh form, as the scheduler thread sends it.
    pub fn to_instruction_data(&self) -> (v: Vec<u8>)
        ensures
            v@ == termination_authority_bytes(*self),
    {
        let b: u8 = match self {
            RentalTerminationAuthority::Clockwork => 0,
            RentalTerminationAuthority::Client => 1,
        };
        let v = vec![b];
        assert(v@ =~= termination_authority_bytes(*self));
        v
    }
}

/// Scale of the rental duration that the payment is computed from: hundredths
/// of an hour.
pub const SCALING_FACTOR: u64 = 100;

/// What the instruction reads and writes.
#[derive(Debug)]
pub struct EndRentalAccounts {
    /// Who signed: the client, the affair's lender, or the rental's scheduler thread.
    pub signer: Pubkey,
    /// The signer's account data, read as a thread where the signer is not the client.
    pub signer_data: Vec<u8>,
    pub client: Pubkey,
    /// The program's account that owns its threads.
    pub thread_authority: Pubkey,
    pub lender: Lender,
    pub affair: Affair,
    pub affair_key: Pubkey,
    pub affairs_list: AffairsList,
    pub escrow: Escrow,
    pub rental: Rental,
    /// Lamports of the escrow, lender and client accounts.
    pub balances: Balances,
}

/// Whether the signer has to be shown to be a thread: it is neither the client
/// nor the affair's lender, or the thread is named as the terminator.
pub open spec fn needs_thread_signer(
    a: EndRentalAccounts,
    termination_by: RentalTerminationAuthority,
) -> bool {
    (a.client@ != a.signer@ && a.affair.lender@ != a.signer@) || termination_by
        == RentalTerminationAuthority::Clockwork
}

/// The lender's payment: the scaled duration at the hourly rate, unscaled.
pub open spec fn due_payment(affair: Affair, scaled_rental_duration: u64) -> int {
    (scaled_rental_duration * affair.usdc_per_hour) / (SCALING_FACTOR as int)
}

/// The client's refund: what is left of the escrowed rent, divided by the scale.
pub open spec fn due_refund(affair: Affair, scaled_rental_duration: u64) -> int {
    (affair.due_rent_amount - due_payment(affair, scaled_rental_duration)) / (SCALING_FACTOR as int)
}

/// The settlement of the rental.
pub open spec fn rental_settlement(affair: Affair, scaled_rental_duration: u64) -> Settlement {
    Settlement {
        payment: due_payment(affair, scaled_rental_duration) as u64,
        refund: due_refund(affair, scaled_rental_duration) as u64,
    }
}

/// The settlement pays the lender the scaled duration times the hourly rate,
/// divided by 100 and rounded down, and refunds the client what is left of the
/// escrowed rent, divided by 100 and rounded down.
pub open spec fn paid_for_time_used(affair: Affair, scaled_rental_duration: u64, s: Settlement) -> bool {
    let used = scaled_rental_duration * affair.usdc_per_hour;
    &&& 100 * s.payment <= used < 100 * (s.payment + 1)
    &&& s.payment <= affair.due_rent_amount
    &&& 100 * s.refund <= affair.due_rent_amount - s.payment < 100 * (s.refund + 1)
}

/// The first reason, in the order the instruction checks them, to refuse ending
/// the rental, given the authority of the signer read as a thread.
pub open spec fn end_rental_error(
    a: EndRentalAccounts,
    termination_by: RentalTerminationAuthority,
    signer_thread: Option<Seq<u8>>,
    scaled_rental_duration: u64,
) -> Option<ShagaErrorCode> {
    if needs_thread_signer(a, termination_by) && signer_thread is None {
        Some(ShagaErrorCode::InvalidSigner)
    } else if needs_thread_signer(a, termination_by) && a.rental.rental_clockwork_thread_id@
        != a.signer@ && signer_thread->0 != a.thread_authority@ {
        Some(ShagaErrorCode::InvalidTerminationTime)
    } else if a.affair.rental is None {
        Some(ShagaErrorCode::InvalidTerminationTime)
    } else if scaled_rental_duration * a.affair.usdc_per_hour > u64::MAX {
        Some(ShagaErrorCode::NumericalOverflow)
    } else if due_payment(a.affair, scaled_rental_duration) > a.affair.due_rent_amount {
        Some(ShagaErrorCode::NumericalOverflow)
    } else {
        None
    }
}

/// Whether the instruction aborts: the checks pass but the balances can not
/// take the settlement, or the lender's karma is at its maximum.
pub open spec fn end_rental_aborts(
    a: EndRentalAccounts,
    termination_by: RentalTerminationAuthority,
    signer_thread: Option<Seq<u8>>,
    scaled_rental_duration: u64,
) -> bool {
    &&& end_rental_error(a, termination_by, signer_thread, scaled_rental_duration) is None
    &&& !(settlement_fits(a.balances, rental_settlement(a.affair, scaled_rental_duration))
        && a.lender.karma < i32::MAX)
}

/// The affair once its rental ended: available, without rental.
pub open spec fn ended_affair(a: Affair, b: Affair) -> bool {
    b == (Affair { affair_state: AffairState::Available, rental: None, ..a })
}

/// The accounts after the rental ended.
pub open spec fn ended(a: EndRentalAccounts, b: EndRentalAccounts, scaled_rental_duration: u64) -> bool {
    &&& b.signer == a.signer
    &&& b.signer_data@ == a.signer_data@
    &&& b.client == a.client
    &&& b.thread_authority == a.thread_authority
    &&& b.lender == thumbed_up(a.lender)
    &&& ended_affair(a.affair, b.affair)
    &&& b.affair_key == a.affair_key
    &&& b.affairs_list.active_affairs@ == registered(a.affairs_list.active_affairs@, a.affair_key)
    &&& b.escrow.locked_amount == 0
    &&& b.rental == a.rental
    &&& b.balances == settled(a.balances, rental_settlement(a.affair, scaled_rental_duration))
}

/// The accounts are as they were.
pub open spec fn unchanged(a: EndRentalAccounts, b: EndRentalAccounts) -> bool {
    &&& b.signer == a.signer
    &&& b.signer_data@ == a.signer_data@
    &&& b.client == a.client
    &&& b.thread_authority == a.thread_authority
    &&& b.lender == a.lender
    &&& b.affair == a.affair
    &&& b.affair_key == a.affair_key
    &&& b.affairs_list.active_affairs@ == a.affairs_list.active_affairs@
    &&& b.escrow == a.escrow
    &&& b.rental == a.rental
    &&& b.balances == a.balances
}

/// Ends the rental, given the authority of the signer read as a thread
/// (`None` where its data is no thread; not read where the client or the
/// lender signs).
///
/// `scaled_rental_duration` is the time since the rental started in hundredths
/// of an hour. A refusal gives the first failing check, with the accounts
/// unchanged. Otherwise the escrow pays the lender the duration at the hourly
/// rate and refunds the client, the lender gets a thumbs up, the affair is
/// available again and listed, and the escrow's locked amount is cleared.
pub fn end_rental_with_signer(
    accounts: &mut EndRentalAccounts,
    termination_by: RentalTerminationAuthority,
    scaled_rental_duration: u64,
    signer_thread: Option<Pubkey>,
) -> (r: Result<Settlement, ShagaErrorCode>)
    requires
        !end_rental_aborts(
            *old(accounts),
            termination_by,
            key_option_view(signer_thread),
            scaled_rental_duration,
        ),
    ensures
        ({
            let e = end_rental_error(
                *old(accounts),
                termination_by,
                key_option_view(signer_thread),
                scaled_rental_duration,
            );
            &&& e matches Some(err) ==> r == Err::<Settlement, ShagaErrorCode>(err)
            &&& e is None ==> r == Ok::<Settlement, ShagaErrorCode>(
                rental_settlement(old(accounts).affair, scaled_rental_duration),
            )
        }),
        r is Ok ==> ended(*old(accounts), *final(accounts), scaled_rental_duration),
        r matches Ok(s) ==> paid_for_time_used(old(accounts).affair, scaled_rental_duration, s),
        r is Err ==> unchanged(*old(accounts), *final(accounts)),
{
    if (!accounts.client.key_eq(&accounts.signer) && !accounts.affair.lender.key_eq(
        &accounts.signer,
    )) || termination_by == RentalTerminationAuthority::Clockwork {
        let thread_signer = match signer_thread {
            Some(t) => t,
            None => {
                return Err(ShagaErrorCode::InvalidSigner);
            },
        };
        if !accounts.rental.rental_clockwork_thread_id.key_eq(&accounts.signer)
            && !thread_signer.key_eq(&accounts.thread_authority) {
            return Err(ShagaErrorCode::InvalidTerminationTime);
        }
    }
    if accounts.affair.rental.is_none() {
        return Err(ShagaErrorCode::InvalidTerminationTime);
    }
    let actual_payment = match scaled_rental_duration.checked_mul(accounts.affair.usdc_per_hour as u64) {
        Some(p) => p / SCALING_FACTOR,
        None => {
            return Err(ShagaErrorCode::NumericalOverflow);
        },
    };
    let refund_amount = match accounts.affair.due_rent_amount.checked_sub(actual_payment) {
        Some(d) => d / SCALING_FACTOR,
        None => {
            return Err(ShagaErrorCode::NumericalOverflow);
        },
    };
    let settlement = Settlement { payment: actual_payment, refund: refund_amount };
    move_lamports(&mut accounts.balances, settlement);
    accounts.lender.give_thumbs_up();
    accounts.affair.affair_state = AffairState::Available;
    accounts.affair.rental = None;
    let affair_key = accounts.affair_key;
    accounts.affairs_list.register_affair(affair_key);
    accounts.escrow.locked_amount = 0;
    proof {
        crate::laws::law_end_rental_amounts(old(accounts).affair, scaled_rental_duration);
    }
    Ok(settlement)
}

/// The authority of the signer read as a thread where the instruction reads it.
pub open spec fn read_signer_thread(
    a: EndRentalAccounts,
    termination_by: RentalTerminationAuthority,
) -> Option<Seq<u8>> {
    if needs_thread_signer(a, termination_by) {
        thread_authority(a.signer_data@)
    } else {
        None
    }
}

/// Whether the balances can take the settlement and the karma can rise, where
/// the checks pass.
fn settlement_in_range(
    accounts: &EndRentalAccounts,
    scaled_rental_duration: u64,
) -> (r: bool)
    requires
        scaled_rental_duration * accounts.affair.usdc_per_hour <= u64::MAX,
        due_payment(accounts.affair, scaled_rental_duration) <= accounts.affair.due_rent_amount,
    ensures
        r == (settlement_fits(
            accounts.balances,
            rental_settlement(accounts.affair, scaled_rental_duration),
        ) && accounts.lender.karma < i32::MAX),
{
    let payment = scaled_rental_duration * (accounts.affair.usdc_per_hour as u64) / SCALING_FACTOR;
    let refund = (accounts.affair.due_rent_amount - payment) / SCALING_FACTOR;
    let b = accounts.balances;
    refund <= b.escrow && payment <= b.escrow - refund && payment <= u64::MAX - b.lender && refund
        <= u64::MAX - b.client && accounts.lender.karma < i32::MAX
}

/// Ends a rental: reads the signer's data as a thread where needed and decides
/// as `end_rental_with_signer` does; `None` stands for the case where the
/// instruction aborts (see `end_rental_aborts`), with the accounts unchanged.
pub fn handle_ending_rental(
    accounts: &mut EndRentalAccounts,
    termination_by: RentalTerminationAuthority,
    scaled_rental_duration: u64,
) -> (r: Option<Result<Settlement, ShagaErrorCode>>)
    ensures
        ({
            let t = read_signer_thread(*old(accounts), termination_by);
            let e = end_rental_error(*old(accounts), termination_by, t, scaled_rental_duration);
            &&& r is None <==> end_rental_aborts(*old(accounts), termination_by, t, scaled_rental_duration)
            &&& r is Some ==> (e matches Some(err) ==> r == Some(Err::<Settlement, ShagaErrorCode>(err)))
            &&& r is Some ==> (e is None ==> r == Some(
                Ok::<Settlement, ShagaErrorCode>(
                    rental_settlement(old(accounts).affair, scaled_rental_duration),
                ),
            ))
        }),
        r matches Some(Ok(_)) ==> ended(*old(accounts), *final(accounts), scaled_rental_duration),
        r matches Some(Ok(s)) ==> paid_for_time_used(old(accounts).affair, scaled_rental_duration, s),
        !(r matches Some(Ok(_))) ==> unchanged(*old(accounts), *final(accounts)),
{
    let needs_thread = (!accounts.client.key_eq(&accounts.signer) && !accounts.affair.lender.key_eq(
        &accounts.signer,
    )) || termination_by == RentalTerminationAuthority::Clockwork;
    let signer_thread = if needs_thread {
        deserialize_thread_authority(&accounts.signer_data)
    } else {
        None
    };
    let r = end_rental_with_signer_checks_only(accounts, termination_by, scaled_rental_duration, signer_thread);
    match r {
        Err(e) => Some(Err(e)),
        Ok(()) => {
            if !settlement_in_range(accounts, scaled_rental_duration) {
                return None;
            }
            Some(end_rental_with_signer(accounts, termination_by, scaled_rental_duration, signer_thread))
        },
    }
}

/// The checks of `end_rental_with_signer`, without any change.
fn end_rental_with_signer_checks_only(
    accounts: &EndRentalAccounts,
    termination_by: RentalTerminationAuthority,
    scaled_rental_duration: u64,
    signer_thread: Option<Pubkey>,
) -> (r: Result<(), ShagaErrorCode>)
    ensures
        r matches Err(e) ==> end_rental_error(
            *accounts,
            termination_by,
            key_option_view(signer_thread),
            scaled_rental_duration,
        ) == Some(e),
        r is Ok ==> end_rental_error(
            *accounts,
            termination_by,
            key_option_view(signer_thread),
            scaled_rental_duration,
        ) is None,
{
    if (!accounts.client.key_eq(&accounts.signer) && !accounts.affair.lender.key_eq(
        &accounts.signer,
    )) || termination_by == RentalTerminationAuthority::Clockwork {
        let thread_signer = match signer_thread {
            Some(t) => t,
            None => {
                return Err(ShagaErrorCode::InvalidSigner);
            },
        };
        if !accounts.rental.rental_clockwork_thread_id.key_eq(&accounts.signer)
            && !thread_signer.key_eq(&accounts.thread_authority) {
            return Err(ShagaErrorCode::InvalidTerminationTime);
        }
    }
    if accounts.affair.rental.is_none() {
        return Err(ShagaErrorCode::InvalidTerminationTime);
    }
    match scaled_rental_duration.checked_mul(accounts.affair.usdc_per_hour as u64) {
        Some(p) => {
            if accounts.affair.due_rent_amount < p / SCALING_FACTOR {
                return Err(ShagaErrorCode::NumericalOverflow);
            }
        },
        None => {
            return Err(ShagaErrorCode::NumericalOverflow);
        },
    }
    Ok(())
}

} // verus!

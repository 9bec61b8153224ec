//! Properties that relate several instructions of the program.
use crate::errors::ShagaErrorCode;
use crate::instructions::end_rental::{
    due_payment, due_refund, ended, ended_affair, end_rental_error, paid_for_time_used,
    rental_settlement,
    EndRentalAccounts, RentalTerminationAuthority,
};
use crate::instructions::start_rental::{
    quoted_fee, start_rental_error, started, started_affair, StartRentalAccounts,
};
use crate::instructions::terminate_affair::{affair_settlement, rental_account_settlement};
use crate::instructions::join_session::join_session_error;
use crate::instructions::start_rental::quoted_rent;
use crate::states::session::Session;
use crate::states::escrow::Escrow;
use crate::states::rental::Rental;
use crate::instructions::terminate_vacant_affair::{
    vacant_termination_error, TerminateVacantAffairAccounts,
};
use crate::pubkey::Pubkey;
use crate::settlement::{law_settlement_conserves, settled, settlement_fits, total, Balances};
use crate::states::affair::Affair;
use crate::states::affair_list::{
    law_affair_list_bounded, law_removed_affair_absent, registered, removed, MAX_AFFAIR_S,
};
use vstd::prelude::*;

verus! {

/// A rental that starts and then ends leaves the affair available again, with
/// no rental attached, and with the listing as the lender made it.
pub proof fn law_rental_cycle_restores_affair(
    a: Affair,
    rental_key: Pubkey,
    now: i64,
    escrowed: u64,
    b: Affair,
)
    requires
        ended_affair(started_affair(a, rental_key, now, escrowed), b),
    ensures
        b.spec_can_join(),
        b.rental is None,
        b.lender == a.lender,
        b.ip_address == a.ip_address,
        b.cpu_name == a.cpu_name,
        b.gpu_name == a.gpu_name,
        b.total_ram_mb == a.total_ram_mb,
        b.usdc_per_hour == a.usdc_per_hour,
        b.affair_termination_time == a.affair_termination_time,
{
}

/// A rented affair is no longer listed as open, and its escrow holds what the
/// rental records as due.
pub proof fn law_rented_affair_unlisted(
    a: StartRentalAccounts,
    b: StartRentalAccounts,
    now: i64,
    rental_termination_time: u64,
    thread_id: Pubkey,
)
    requires
        started(a, b, now, rental_termination_time, thread_id),
    ensures
        !b.affairs_list.active_affairs@.contains(a.affair_key),
        b.escrow.locked_amount == b.affair.due_rent_amount,
        b.escrow.locked_amount == b.rental.rent_amount,
{
    law_removed_affair_absent(a.affairs_list.active_affairs@, a.affair_key);
    if b.affairs_list.active_affairs@.contains(a.affair_key) {
        let j = choose|j: int|
            0 <= j < b.affairs_list.active_affairs@.len() && b.affairs_list.active_affairs@[j]
                == a.affair_key;
        assert(removed(a.affairs_list.active_affairs@, a.affair_key)[j]@ != a.affair_key@);
    }
}

/// A rented affair takes no second rental: whoever asks, at whatever time, is
/// refused with `InvalidAffair`.
pub proof fn law_rented_affair_refuses_rental(
    a: Affair,
    rental_key: Pubkey,
    now: i64,
    escrowed: u64,
    client_lamports: u64,
    later: i64,
    rental_termination_time: u64,
)
    ensures
        start_rental_error(
            started_affair(a, rental_key, now, escrowed),
            true,
            client_lamports,
            later,
            rental_termination_time,
        ) == Some(ShagaErrorCode::InvalidAffair),
{
}

/// A rented affair can not be withdrawn as vacant.
pub proof fn law_rented_affair_not_vacant(
    accounts: TerminateVacantAffairAccounts,
    rental_key: Pubkey,
    signer_thread: Option<Seq<u8>>,
)
    requires
        accounts.affair.rental == Some(rental_key),
        vacant_termination_error(accounts, signer_thread) != Some(ShagaErrorCode::InvalidSigner),
    ensures
        vacant_termination_error(accounts, signer_thread) == Some(
            ShagaErrorCode::InvalidTerminationInstruction,
        ),
{
}

/// The fee and the escrowed part of a rent add up to the rent, and the fee is at
/// most a hundredth of it.
pub proof fn law_fee_split(rent: int)
    requires
        rent >= 0,
    ensures
        quoted_fee(rent) + (rent - quoted_fee(rent)) == rent,
        0 <= quoted_fee(rent),
        100 * quoted_fee(rent) <= rent,
{
}

/// The affair's lender may end its rental as the client may: where the lender
/// signs and names the client as terminator, no thread is asked for, and with a
/// rental attached and amounts in range the rental ends.
pub proof fn law_lender_may_end_rental(
    a: EndRentalAccounts,
    signer_thread: Option<Seq<u8>>,
    scaled_rental_duration: u64,
)
    requires
        a.affair.lender@ == a.signer@,
        a.affair.rental is Some,
        scaled_rental_duration * a.affair.usdc_per_hour <= u64::MAX,
        due_payment(a.affair, scaled_rental_duration) <= a.affair.due_rent_amount,
    ensures
        end_rental_error(a, RentalTerminationAuthority::Client, signer_thread, scaled_rental_duration)
            is None,
{
}

/// Ending a rental never pays out more than the rent escrowed for it.
pub proof fn law_end_rental_within_escrow(
    a: EndRentalAccounts,
    termination_by: RentalTerminationAuthority,
    signer_thread: Option<Seq<u8>>,
    scaled_rental_duration: u64,
)
    requires
        end_rental_error(a, termination_by, signer_thread, scaled_rental_duration) is None,
    ensures
        rental_settlement(a.affair, scaled_rental_duration).payment + rental_settlement(
            a.affair,
            scaled_rental_duration,
        ).refund <= a.affair.due_rent_amount,
{
    let p = due_payment(a.affair, scaled_rental_duration);
    assert(p <= a.affair.due_rent_amount);
    assert(p >= 0) by (nonlinear_arith)
        requires
            p == (scaled_rental_duration * a.affair.usdc_per_hour) / 100,
    ;
    assert(due_refund(a.affair, scaled_rental_duration) <= a.affair.due_rent_amount - p);
}

/// Ending a rental moves lamports without creating or destroying any, empties
/// the escrow's locked amount, and lists the affair again as the newest entry.
pub proof fn law_end_rental_conserves(a: EndRentalAccounts, b: EndRentalAccounts, scaled_rental_duration: u64)
    requires
        ended(a, b, scaled_rental_duration),
        settlement_fits(a.balances, rental_settlement(a.affair, scaled_rental_duration)),
    ensures
        total(b.balances) == total(a.balances),
        b.escrow.locked_amount == 0,
        b.affairs_list.active_affairs@.last() == a.affair_key,
        a.affairs_list.active_affairs@.len() <= MAX_AFFAIR_S ==> b.affairs_list.active_affairs@.len()
            <= MAX_AFFAIR_S,
{
    law_settlement_conserves(a.balances, rental_settlement(a.affair, scaled_rental_duration));
    if a.affairs_list.active_affairs@.len() <= MAX_AFFAIR_S {
        law_affair_list_bounded(a.affairs_list.active_affairs@, a.affair_key);
    }
    assert(registered(a.affairs_list.active_affairs@, a.affair_key).last() == a.affair_key);
}

/// Withdrawing a rented affair settles twice out of the escrow; together the
/// two settlements create and destroy no lamports.
pub proof fn law_termination_conserves(b: Balances, affair: Affair, rental: crate::states::rental::Rental, escrow: crate::states::escrow::Escrow, now: i64)
    requires
        settlement_fits(b, affair_settlement(affair, now)),
        settlement_fits(
            settled(b, affair_settlement(affair, now)),
            rental_account_settlement(rental, escrow, now),
        ),
    ensures
        total(settled(settled(b, affair_settlement(affair, now)), rental_account_settlement(rental, escrow, now)))
            == total(b),
{
    law_settlement_conserves(b, affair_settlement(affair, now));
    law_settlement_conserves(
        settled(b, affair_settlement(affair, now)),
        rental_account_settlement(rental, escrow, now),
    );
}

/// The rent of a rental is the number of whole hours booked times the hourly
/// rate: for `h` with `3600 h <= end - now < 3600 (h + 1)`, the rent is
/// `h * usdc_per_hour`.
pub proof fn law_rent_is_whole_hours(affair: Affair, now: i64, rental_termination_time: u64, h: int)
    requires
        3600 * h <= rental_termination_time - (now as u64),
        rental_termination_time - (now as u64) < 3600 * (h + 1),
    ensures
        quoted_rent(affair, now, rental_termination_time) == h * affair.usdc_per_hour,
{
    let d = rental_termination_time - (now as u64);
    assert(d / 3600 == h);
}

/// The fee on a rent is one hundredth of it, rounded down, and the escrow keeps
/// the rest: `100 fee <= rent < 100 (fee + 1)`.
pub proof fn law_fee_is_one_hundredth(rent: int)
    requires
        rent >= 0,
    ensures
        100 * quoted_fee(rent) <= rent < 100 * (quoted_fee(rent) + 1),
        rent - quoted_fee(rent) >= 0,
{
}

/// Ending a rental pays the lender the scaled duration times the hourly rate,
/// divided by 100 and rounded down, and refunds the client what is left of the
/// escrowed rent, divided by 100 and rounded down.
pub proof fn law_end_rental_amounts(affair: Affair, scaled_rental_duration: u64)
    requires
        scaled_rental_duration * affair.usdc_per_hour <= u64::MAX,
        (scaled_rental_duration * affair.usdc_per_hour) / 100 <= affair.due_rent_amount,
    ensures
        ({
            let s = rental_settlement(affair, scaled_rental_duration);
            let used = scaled_rental_duration * affair.usdc_per_hour;
            &&& 100 * s.payment <= used < 100 * (s.payment + 1)
            &&& s.payment <= affair.due_rent_amount
            &&& 100 * s.refund <= affair.due_rent_amount - s.payment < 100 * (s.refund + 1)
            &&& paid_for_time_used(affair, scaled_rental_duration, s)
        }),
{
    let used = scaled_rental_duration * affair.usdc_per_hour;
    assert(used >= 0) by (nonlinear_arith)
        requires
            used == scaled_rental_duration * affair.usdc_per_hour,
            scaled_rental_duration >= 0,
            affair.usdc_per_hour >= 0,
    ;
}

/// Withdrawing a rented affair pays the lender, by the affair's record, the
/// whole hours since the rental started times the hourly rate, and refunds the
/// client the rest of the escrowed rent: for `h` with
/// `3600 h <= now - start < 3600 (h + 1)`, the payment is `h * usdc_per_hour`
/// and the refund is `due_rent_amount - payment`.
pub proof fn law_termination_affair_amounts(affair: Affair, now: i64, h: int)
    requires
        3600 * h <= (now as u64) - affair.active_rental_start_time,
        (now as u64) - affair.active_rental_start_time < 3600 * (h + 1),
        0 <= h * affair.usdc_per_hour <= affair.due_rent_amount,
    ensures
        affair_settlement(affair, now).payment == h * affair.usdc_per_hour,
        affair_settlement(affair, now).refund == affair.due_rent_amount - h * affair.usdc_per_hour,
{
    let d = (now as u64) - affair.active_rental_start_time;
    assert(d / 3600 == h);
}

/// Withdrawing a rented affair then pays, by the rental account, the whole
/// hours since the rental's start times its rent, and refunds the rest of the
/// escrow's locked amount.
pub proof fn law_termination_rental_amounts(rental: Rental, escrow: Escrow, now: i64, h: int)
    requires
        3600 * h <= (now as u64) - (rental.rental_start_time as u64),
        (now as u64) - (rental.rental_start_time as u64) < 3600 * (h + 1),
        0 <= h * rental.rent_amount <= escrow.locked_amount,
    ensures
        rental_account_settlement(rental, escrow, now).payment == h * rental.rent_amount,
        rental_account_settlement(rental, escrow, now).refund == escrow.locked_amount - h
            * rental.rent_amount,
{
    let d = (now as u64) - (rental.rental_start_time as u64);
    assert(d / 3600 == h);
}

/// A signed join of a waiting session, before its termination time, by a new
/// client, goes through exactly when the escrow holds the rent; otherwise it is
/// refused for lack of funds.
pub proof fn law_join_needs_exactly_the_rent(
    session: Session,
    escrow: Escrow,
    client_key: Pubkey,
    rent_amount: u64,
    rental_termination_time: i64,
    now: i64,
)
    requires
        session.session_state is Waiting,
        now < rental_termination_time <= session.session_termination_time,
        session.client@ != client_key@,
    ensures
        escrow.locked_amount >= rent_amount ==> join_session_error(
            session,
            escrow,
            client_key,
            true,
            rent_amount,
            rental_termination_time,
            now,
        ) is None,
        escrow.locked_amount < rent_amount ==> join_session_error(
            session,
            escrow,
            client_key,
            true,
            rent_amount,
            rental_termination_time,
            now,
        ) == Some(ShagaErrorCode::InsufficientFunds),
{
}

} // verus!

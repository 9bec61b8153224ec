//! A lender withdrawing an affair. Where the affair is rented, the rental is cut
//! short: the escrow pays the lender for the hours used and refunds the client,
//! and the lender gets a thumbs down.
use crate::pubkey::Pubkey;
use crate::settlement::{move_lamports, settled, settlement_fits, Balances, Settlement};
use crate::states::affair::Affair;
use crate::states::affair_list::{removed, AffairsList};
use crate::states::escrow::Escrow;
use crate::states::lender::{thumbed_down, Lender};
use crate::states::rental::Rental;
use crate::instructions::start_rental::{now_seconds, SECONDS_PER_HOUR};
use vstd::prelude::*;

verus! {

/// What the instruction reads and writes.
#[derive(Debug)]
pub struct TerminateAffairAccounts {
    /// The lender's wallet.
    pub authority: Pubkey,
    /// The client of the rental, if any.
    pub client: Pubkey,
    pub lender: Lender,
    pub affair: Affair,
    pub affair_key: Pubkey,
    pub affairs_list: AffairsList,
    /// The rental and escrow accounts as read from their data, where the affair
    /// has a rental.
    pub rental_accounts: Option<(Rental, Escrow)>,
    /// Lamports of the escrow, lender and client accounts.
    pub balances: Balances,
}

/// The settlement computed from the affair: whole hours since the rental began
/// at the hourly rate for the lender, the rest of the escrowed rent for the client.
pub open spec fn affair_settlement(affair: Affair, now: i64) -> Settlement {
    let hours = (now_seconds(now) - affair.active_rental_start_time) / (SECONDS_PER_HOUR as int);
    let payment = hours * affair.usdc_per_hour;
    Settlement { payment: payment as u64, refund: (affair.due_rent_amount - payment) as u64 }
}

/// The settlement computed from the rental account: whole hours since the
/// rental began at the rental's rent for the lender, the rest of the escrow's
/// locked amount for the client.
pub open spec fn rental_account_settlement(rental: Rental, escrow: Escrow, now: i64) -> Settlement {
    let hours = (now_seconds(now) - (rental.rental_start_time as u64)) / (SECONDS_PER_HOUR as int);
    let payment = hours * rental.rent_amount;
    Settlement { payment: payment as u64, refund: (escrow.locked_amount - payment) as u64 }
}

/// Whether the affair's settlement can be computed and paid, and the karma can fall.
pub open spec fn affair_settlement_in_range(a: TerminateAffairAccounts, now: i64) -> bool {
    let hours = (now_seconds(now) - a.affair.active_rental_start_time) / (SECONDS_PER_HOUR as int);
    &&& now_seconds(now) >= a.affair.active_rental_start_time
    &&& hours * a.affair.usdc_per_hour <= u64::MAX
    &&& hours * a.affair.usdc_per_hour <= a.affair.due_rent_amount
    &&& settlement_fits(a.balances, affair_settlement(a.affair, now))
    &&& a.lender.karma > i32::MIN
}

/// Whether the rental account's settlement can be computed and paid after the
/// balances `b`.
pub open spec fn rental_settlement_in_range(rental: Rental, escrow: Escrow, b: Balances, now: i64) -> bool {
    let hours = (now_seconds(now) - (rental.rental_start_time as u64)) / (SECONDS_PER_HOUR as int);
    &&& now_seconds(now) >= (rental.rental_start_time as u64)
    &&& hours * rental.rent_amount <= u64::MAX
    &&& hours * rental.rent_amount <= escrow.locked_amount
    &&& settlement_fits(b, rental_account_settlement(rental, escrow, now))
}

/// Where the affair is rented and its rental accounts were read, both
/// settlements stay within range; otherwise the instruction aborts.
pub open spec fn terminate_in_range(a: TerminateAffairAccounts, now: i64) -> bool {
    a.affair.rental is Some ==> match a.rental_accounts {
        Some((rental, escrow)) => {
            &&& affair_settlement_in_range(a, now)
            &&& rental_settlement_in_range(
                rental,
                escrow,
                settled(a.balances, affair_settlement(a.affair, now)),
                now,
            )
        },
        None => true,
    }
}

/// What withdrawing an affair came to.
#[derive(Clone, Copy, Debug, PartialEq, Eq, Structural)]
pub enum Termination {
    /// The affair had no rental: nothing was settled.
    Vacant,
    /// The rental was cut short: the settlement by the affair's record, then the
    /// settlement by the rental account.
    Settled(Settlement, Settlement),
    /// The affair has a rental but its rental and escrow accounts could not be
    /// read: the instruction fails and nothing changes.
    RentalAccountsUnreadable,
}

/// Whether the settlement by `rental` and `escrow` after the balances `b` can be
/// computed and paid.
fn rental_settlement_within_range(rental: &Rental, escrow: &Escrow, b: Balances, now: i64) -> (r: bool)
    ensures
        r == rental_settlement_in_range(*rental, *escrow, b, now),
{
    let current_time = now as u64;
    let start = rental.rental_start_time as u64;
    if current_time < start {
        return false;
    }
    let hours = (current_time - start) / SECONDS_PER_HOUR;
    match hours.checked_mul(rental.rent_amount) {
        None => false,
        Some(payment) => payment <= escrow.locked_amount && {
            let refund = escrow.locked_amount - payment;
            refund <= b.escrow && payment <= b.escrow - refund && payment <= u64::MAX - b.lender
                && refund <= u64::MAX - b.client
        },
    }
}

/// Whether the instruction stays in range on these accounts (see
/// `terminate_in_range`); where it does not, the instruction aborts.
pub fn terminate_within_range(a: &TerminateAffairAccounts, now: i64) -> (r: bool)
    ensures
        r == terminate_in_range(*a, now),
{
    if a.affair.rental.is_none() || a.rental_accounts.is_none() {
        return true;
    }
    let current_time = now as u64;
    if current_time < a.affair.active_rental_start_time || a.lender.karma == i32::MIN {
        return false;
    }
    let hours = (current_time - a.affair.active_rental_start_time) / SECONDS_PER_HOUR;
    let payment = match hours.checked_mul(a.affair.usdc_per_hour as u64) {
        None => {
            return false;
        },
        Some(p) => p,
    };
    if payment > a.affair.due_rent_amount {
        return false;
    }
    let refund = a.affair.due_rent_amount - payment;
    let b = a.balances;
    if !(refund <= b.escrow && payment <= b.escrow - refund && payment <= u64::MAX - b.lender
        && refund <= u64::MAX - b.client) {
        return false;
    }
    let after = Balances { escrow: b.escrow - (refund + payment), lender: b.lender + payment, client: b.client + refund };
    match &a.rental_accounts {
        None => true,
        Some((rental, escrow)) => rental_settlement_within_range(rental, escrow, after, now),
    }
}

/// Withdraws the affair from the list of open affairs. Where it is rented, the
/// escrow settles twice, first by the affair's record of the rental and then by
/// the rental account, and the lender gets a thumbs down; the two settlements
/// are returned. A rented affair whose rental accounts could not be read is
/// refused, with nothing changed. Closing the affair account is left to the
/// caller.
pub fn handle_affair_termination(accounts: &mut TerminateAffairAccounts, now: i64) -> (r: Termination)
    requires
        terminate_in_range(*old(accounts), now),
    ensures
        final(accounts).authority == old(accounts).authority,
        final(accounts).client == old(accounts).client,
        final(accounts).affair == old(accounts).affair,
        final(accounts).affair_key == old(accounts).affair_key,
        final(accounts).rental_accounts == old(accounts).rental_accounts,
        old(accounts).affair.rental is None ==> r == Termination::Vacant,
        old(accounts).affair.rental is Some && old(accounts).rental_accounts is None ==> r
            == Termination::RentalAccountsUnreadable,
        r == Termination::RentalAccountsUnreadable ==> {
            &&& final(accounts).balances == old(accounts).balances
            &&& final(accounts).lender == old(accounts).lender
            &&& final(accounts).affairs_list.active_affairs@ == old(accounts).affairs_list.active_affairs@
        },
        r != Termination::RentalAccountsUnreadable ==> final(accounts).affairs_list.active_affairs@
            == removed(old(accounts).affairs_list.active_affairs@, old(accounts).affair_key),
        r == Termination::Vacant ==> final(accounts).balances == old(accounts).balances
            && final(accounts).lender == old(accounts).lender,
        old(accounts).affair.rental is Some ==> match old(accounts).rental_accounts {
            Some((rental, escrow)) => {
                let first = affair_settlement(old(accounts).affair, now);
                let second = rental_account_settlement(rental, escrow, now);
                &&& r == Termination::Settled(first, second)
                &&& first.payment + first.refund == old(accounts).affair.due_rent_amount
                &&& second.payment + second.refund == escrow.locked_amount
                &&& final(accounts).balances == settled(settled(old(accounts).balances, first), second)
                &&& final(accounts).lender == thumbed_down(old(accounts).lender)
            },
            None => true,
        },
{
    let affair_key = accounts.affair_key;
    if accounts.affair.rental.is_none() {
        accounts.affairs_list.remove_affair(affair_key);
        return Termination::Vacant;
    }
    let (rental, escrow) = match accounts.rental_accounts {
        Some(re) => re,
        None => {
            return Termination::RentalAccountsUnreadable;
        },
    };
    let current_time = now as u64;
    let actual_time = (current_time - accounts.affair.active_rental_start_time) / SECONDS_PER_HOUR;
    let actual_payment = actual_time * accounts.affair.usdc_per_hour as u64;
    let refund_amount = accounts.affair.due_rent_amount - actual_payment;
    let s1 = Settlement { payment: actual_payment, refund: refund_amount };
    move_lamports(&mut accounts.balances, s1);
    accounts.lender.give_thumbs_down();
    accounts.affairs_list.remove_affair(affair_key);
    let s2 = settle_rental_account(&mut accounts.balances, &rental, &escrow, now);
    Termination::Settled(s1, s2)
}

/// The settlement by the rental account, paid out of the escrow.
fn settle_rental_account(balances: &mut Balances, rental: &Rental, escrow: &Escrow, now: i64) -> (s: Settlement)
    requires
        rental_settlement_in_range(*rental, *escrow, *old(balances), now),
    ensures
        s == rental_account_settlement(*rental, *escrow, now),
        *final(balances) == settled(*old(balances), s),
{
    let current_time = now as u64;
    let actual_time = (current_time - rental.rental_start_time as u64) / SECONDS_PER_HOUR;
    let actual_payment = actual_time * rental.rent_amount;
    let refund_amount = escrow.locked_amount - actual_payment;
    let s = Settlement { payment: actual_payment, refund: refund_amount };
    move_lamports(balances, s);
    s
}

} // verus!

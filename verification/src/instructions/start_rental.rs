//! A client renting a listed affair until a chosen time, paying the rent up front.
use crate::errors::ShagaErrorCode;
use crate::pda::{program_address, seed_thread, seed_thread_bytes, seeds_view, try_find_program_address};
use crate::pubkey::Pubkey;
use crate::states::affair::{Affair, AffairState};
use crate::states::affair_list::{removed, AffairsList};
use crate::states::escrow::Escrow;
use crate::states::lender::{counted, Lender};
use crate::states::rental::Rental;
use vstd::prelude::*;

verus! {

/// Seconds in an hour: rentals are charged for whole hours, rounded down.
pub const SECONDS_PER_HOUR: u64 = 3600;

/// The program keeps one part in this many of the rent as its fee.
pub const FEE_DIVISOR: u64 = 100;

/// What the instruction reads and writes.
#[derive(Debug)]
pub struct StartRentalAccounts {
    /// The renting client's wallet.
    pub client: Pubkey,
    pub client_is_signer: bool,
    /// The client's balance before any transfer.
    pub client_lamports: u64,
    pub lender: Lender,
    pub affair: Affair,
    pub affair_key: Pubkey,
    pub affairs_list: AffairsList,
    pub escrow: Escrow,
    pub rental: Rental,
    pub rental_key: Pubkey,
    /// The thread account that the client supplies for the rental.
    pub rental_clockwork_thread: Pubkey,
}

/// What is left to do once the rental is decided: move the fee to the vault and
/// the rest of the rent to the escrow, and schedule the end of the rental.
#[derive(Clone, Copy, Debug)]
pub struct RentalStart {
    pub fee_amount: u64,
    pub escrow_amount: u64,
    /// The scheduler thread that ends the rental, with its bump seed.
    pub thread_id: Pubkey,
    pub thread_bump: u8,
    /// When the thread fires.
    pub trigger_unix_ts: i64,
}

/// The clock as the instruction reads it, in unsigned seconds.
pub open spec fn now_seconds(now: i64) -> int {
    (now as u64) as int
}

/// Whole hours from now to the end of the rental.
pub open spec fn rental_hours(now: i64, rental_termination_time: u64) -> int {
    (rental_termination_time - now_seconds(now)) / (SECONDS_PER_HOUR as int)
}

/// The rent for those hours at the affair's hourly rate.
pub open spec fn quoted_rent(affair: Affair, now: i64, rental_termination_time: u64) -> int {
    rental_hours(now, rental_termination_time) * affair.usdc_per_hour
}

/// The program's fee on a rent.
pub open spec fn quoted_fee(rent: int) -> int {
    rent / (FEE_DIVISOR as int)
}

/// Whether the signer, availability and time checks pass.
pub open spec fn start_rental_times_ok(
    affair: Affair,
    client_is_signer: bool,
    now: i64,
    rental_termination_time: u64,
) -> bool {
    &&& client_is_signer
    &&& affair.spec_can_join()
    &&& !(rental_termination_time > affair.affair_termination_time || rental_termination_time
        <= now_seconds(now))
}

/// The first reason, in the order the instruction checks them, to refuse the
/// rental; `None` when there is none.
pub open spec fn start_rental_error(
    affair: Affair,
    client_is_signer: bool,
    client_lamports: u64,
    now: i64,
    rental_termination_time: u64,
) -> Option<ShagaErrorCode> {
    if !client_is_signer {
        Some(ShagaErrorCode::InvalidAffair)
    } else if !affair.spec_can_join() {
        Some(ShagaErrorCode::InvalidAffair)
    } else if rental_termination_time > affair.affair_termination_time || rental_termination_time
        <= now_seconds(now) {
        Some(ShagaErrorCode::InvalidRentalTerminationTime)
    } else if client_lamports < quoted_rent(affair, now, rental_termination_time) + quoted_fee(
        quoted_rent(affair, now, rental_termination_time),
    ) {
        Some(ShagaErrorCode::InsufficientFunds)
    } else {
        None
    }
}

/// The arithmetic of the instruction stays within `u64` (where it is reached)
/// and the lender's rental count can grow.
pub open spec fn start_rental_in_range(a: StartRentalAccounts, now: i64, rental_termination_time: u64) -> bool {
    &&& start_rental_times_ok(a.affair, a.client_is_signer, now, rental_termination_time) ==> quoted_rent(
        a.affair,
        now,
        rental_termination_time,
    ) + quoted_fee(quoted_rent(a.affair, now, rental_termination_time)) <= u64::MAX
    &&& start_rental_error(a.affair, a.client_is_signer, a.client_lamports, now, rental_termination_time)
        is None ==> a.lender.affairs < u32::MAX
}

/// Whether the instruction's arithmetic stays in range on these accounts (see
/// `start_rental_in_range`); where it does not, the instruction aborts.
pub fn start_rental_within_range(a: &StartRentalAccounts, now: i64, rental_termination_time: u64) -> (r: bool)
    ensures
        r == start_rental_in_range(*a, now, rental_termination_time),
{
    let current_time = now as u64;
    if !a.client_is_signer || !a.affair.can_join() || rental_termination_time
        > a.affair.affair_termination_time || rental_termination_time <= current_time {
        return true;
    }
    let hours = (rental_termination_time - current_time) / SECONDS_PER_HOUR;
    match hours.checked_mul(a.affair.usdc_per_hour as u64) {
        None => false,
        Some(rent) => match rent.checked_add(rent / FEE_DIVISOR) {
            None => false,
            Some(total) => a.client_lamports < total || a.lender.affairs < u32::MAX,
        },
    }
}

/// The seeds of a rental's end thread: `thread`, the client, the affair.
pub open spec fn rental_thread_seeds(client: Pubkey, affair_key: Pubkey) -> Seq<Seq<u8>> {
    seq![seed_thread(), client@, affair_key@]
}

/// The affair once rented: the rental attached, unavailable, with the start
/// time and the escrowed rent recorded.
pub open spec fn started_affair(a: Affair, rental_key: Pubkey, now: i64, escrowed: u64) -> Affair {
    Affair {
        rental: Some(rental_key),
        affair_state: AffairState::Unavailable,
        active_rental_start_time: now as u64,
        due_rent_amount: escrowed,
        ..a
    }
}

/// The accounts after a rental started; `thread_id` is the end thread.
pub open spec fn started(
    a: StartRentalAccounts,
    b: StartRentalAccounts,
    now: i64,
    rental_termination_time: u64,
    thread_id: Pubkey,
) -> bool {
    let rent = quoted_rent(a.affair, now, rental_termination_time);
    let escrowed = (rent - quoted_fee(rent)) as u64;
    &&& b.client == a.client
    &&& b.client_is_signer == a.client_is_signer
    &&& b.client_lamports == a.client_lamports
    &&& b.affair_key == a.affair_key
    &&& b.rental_key == a.rental_key
    &&& b.rental_clockwork_thread == a.rental_clockwork_thread
    &&& b.escrow.locked_amount == escrowed
    &&& b.affair == started_affair(a.affair, a.rental_key, now, escrowed)
    &&& b.rental == (Rental {
        client: a.client,
        affair: a.affair_key,
        rent_amount: escrowed,
        rental_start_time: now,
        rental_termination_time: rental_termination_time as i64,
        rental_clockwork_thread_id: thread_id,
    })
    &&& b.lender == counted(a.lender)
    &&& b.affairs_list.active_affairs@ == removed(a.affairs_list.active_affairs@, a.affair_key)
}

/// The accounts are as they were.
pub open spec fn unchanged(a: StartRentalAccounts, b: StartRentalAccounts) -> bool {
    &&& b.client == a.client
    &&& b.client_is_signer == a.client_is_signer
    &&& b.client_lamports == a.client_lamports
    &&& b.lender == a.lender
    &&& b.affair == a.affair
    &&& b.affair_key == a.affair_key
    &&& b.affairs_list.active_affairs@ == a.affairs_list.active_affairs@
    &&& b.escrow == a.escrow
    &&& b.rental == a.rental
    &&& b.rental_key == a.rental_key
    &&& b.rental_clockwork_thread == a.rental_clockwork_thread
}

/// Decides a rental, given the end thread's address as derived from
/// `rental_thread_seeds` (or `None` where the derivation found none).
///
/// A refused rental gives `Some(Err(..))` with the first failing check; `None`
/// stands for the case where the instruction aborts because no thread address
/// exists. In both the accounts are unchanged. Otherwise the rental starts: the
/// fee is a hundredth of the rent for the whole hours booked, the escrow locks
/// the rest, the affair becomes unavailable and leaves the list of open affairs.
pub fn start_rental_with_thread(
    accounts: &mut StartRentalAccounts,
    now: i64,
    rental_termination_time: u64,
    thread: Option<(Pubkey, u8)>,
) -> (r: Option<Result<RentalStart, ShagaErrorCode>>)
    requires
        start_rental_in_range(*old(accounts), now, rental_termination_time),
    ensures
        ({
            let e = start_rental_error(
                old(accounts).affair,
                old(accounts).client_is_signer,
                old(accounts).client_lamports,
                now,
                rental_termination_time,
            );
            &&& e matches Some(err) ==> r == Some(Err::<RentalStart, ShagaErrorCode>(err))
            &&& e is None && thread is None ==> r is None
            &&& r is Some && r->0 is Err ==> e is Some
            &&& e is None && thread is Some ==> r is Some && r->0 is Ok
        }),
        r matches Some(Ok(s)) ==> {
            let rent = quoted_rent(old(accounts).affair, now, rental_termination_time);
            &&& thread == Some((s.thread_id, s.thread_bump))
            &&& s.fee_amount == quoted_fee(rent)
            &&& s.escrow_amount == rent - quoted_fee(rent)
            &&& 100 * s.fee_amount <= rent < 100 * (s.fee_amount + 1)
            &&& s.fee_amount + s.escrow_amount == rent
            &&& s.trigger_unix_ts == rental_termination_time as i64
            &&& started(*old(accounts), *final(accounts), now, rental_termination_time, s.thread_id)
        },
        !(r matches Some(Ok(_))) ==> unchanged(*old(accounts), *final(accounts)),
{
    if !accounts.client_is_signer {
        return Some(Err(ShagaErrorCode::InvalidAffair));
    }
    if !accounts.affair.can_join() {
        return Some(Err(ShagaErrorCode::InvalidAffair));
    }
    let current_time = now as u64;
    if rental_termination_time > accounts.affair.affair_termination_time || rental_termination_time
        <= current_time {
        return Some(Err(ShagaErrorCode::InvalidRentalTerminationTime));
    }
    let rental_duration_hours = (rental_termination_time - current_time) / SECONDS_PER_HOUR;
    let rent_amount = rental_duration_hours * accounts.affair.usdc_per_hour as u64;
    let fee_amount = rent_amount / FEE_DIVISOR;
    if accounts.client_lamports < rent_amount + fee_amount {
        return Some(Err(ShagaErrorCode::InsufficientFunds));
    }
    let (thread_id, thread_bump) = match thread {
        Some(t) => t,
        None => {
            return None;
        },
    };
    let escrowed = rent_amount - fee_amount;
    accounts.escrow.locked_amount = escrowed;
    let joined = accounts.affair.join(accounts.rental_key);
    assert(joined is Ok);
    let client = accounts.client;
    let affair_key = accounts.affair_key;
    let thread_account = accounts.rental_clockwork_thread;
    accounts.rental.initialize(
        client,
        affair_key,
        escrowed,
        now,
        rental_termination_time as i64,
        thread_account,
    );
    accounts.rental.rental_clockwork_thread_id = thread_id;
    accounts.lender.increment_affairs();
    accounts.affair.rental = Some(accounts.rental_key);
    accounts.affairs_list.remove_affair(affair_key);
    accounts.affair.active_rental_start_time = current_time;
    accounts.affair.due_rent_amount = escrowed;
    Some(
        Ok(
            RentalStart {
                fee_amount,
                escrow_amount: escrowed,
                thread_id,
                thread_bump,
                trigger_unix_ts: rental_termination_time as i64,
            },
        ),
    )
}

/// Starts a rental: derives the address of its end thread under `program_id`
/// and decides as `start_rental_with_thread` does with that address.
pub fn handle_starting_rental(
    accounts: &mut StartRentalAccounts,
    program_id: Pubkey,
    now: i64,
    rental_termination_time: u64,
) -> (r: Option<Result<RentalStart, ShagaErrorCode>>)
    requires
        start_rental_in_range(*old(accounts), now, rental_termination_time),
    ensures
        ({
            let e = start_rental_error(
                old(accounts).affair,
                old(accounts).client_is_signer,
                old(accounts).client_lamports,
                now,
                rental_termination_time,
            );
            let derived = program_address(
                rental_thread_seeds(old(accounts).client, old(accounts).affair_key),
                program_id@,
            );
            &&& e matches Some(err) ==> r == Some(Err::<RentalStart, ShagaErrorCode>(err))
            &&& e is None && derived is None ==> r is None
            &&& r is Some && r->0 is Err ==> e is Some
            &&& e is None && derived is Some ==> r is Some && r->0 is Ok
            &&& r matches Some(Ok(s)) ==> derived == Some((s.thread_id@, s.thread_bump))
        }),
        r matches Some(Ok(s)) ==> {
            let rent = quoted_rent(old(accounts).affair, now, rental_termination_time);
            &&& s.fee_amount == quoted_fee(rent)
            &&& s.escrow_amount == rent - quoted_fee(rent)
            &&& 100 * s.fee_amount <= rent < 100 * (s.fee_amount + 1)
            &&& s.fee_amount + s.escrow_amount == rent
            &&& s.trigger_unix_ts == rental_termination_time as i64
            &&& started(*old(accounts), *final(accounts), now, rental_termination_time, s.thread_id)
        },
        !(r matches Some(Ok(_))) ==> unchanged(*old(accounts), *final(accounts)),
{
    let mut seeds: Vec<Vec<u8>> = Vec::new();
    seeds.push(seed_thread_bytes());
    seeds.push(accounts.client.to_seed());
    seeds.push(accounts.affair_key.to_seed());
    assert(seeds_view(seeds@) =~= rental_thread_seeds(accounts.client, accounts.affair_key));
    let thread = try_find_program_address(&seeds, &program_id);
    start_rental_with_thread(accounts, now, rental_termination_time, thread)
}

} // verus!

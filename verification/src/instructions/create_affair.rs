//! A lender listing a computer for rent until a termination time.
use crate::errors::ShagaErrorCode;
use crate::pda::{program_address, seed_thread, seed_thread_bytes, seeds_view, try_find_program_address};
use crate::pubkey::Pubkey;
use crate::states::affair::{zeroed_affair, Affair, AffairState};
use crate::states::affair_list::{registered, AffairsList};
use vstd::prelude::*;

verus! {

/// What a lender describes of the computer it lists, and until when.
#[derive(Clone, Copy, Debug)]
pub struct AffairPayload {
    pub ip_address: [u8; 15],
    pub cpu_name: [u8; 64],
    pub gpu_name: [u8; 64],
    pub total_ram_mb: u32,
    pub usdc_per_hour: u32,
    pub affair_termination_time: u64,
}

impl Default for AffairPayload {
    fn default() -> (p: AffairPayload)
        ensures
            p.ip_address@ == Seq::new(15, |i: int| 0u8),
            p.cpu_name@ == Seq::new(64, |i: int| 0u8),
            p.gpu_name@ == Seq::new(64, |i: int| 0u8),
            p.total_ram_mb == 0,
            p.usdc_per_hour == 0,
            p.affair_termination_time == 0,
    {
        let p = AffairPayload {
            ip_address: [0u8; 15],
            cpu_name: [0u8; 64],
            gpu_name: [0u8; 64],
            total_ram_mb: 0,
            usdc_per_hour: 0,
            affair_termination_time: 0,
        };
        assert(p.ip_address@ =~= Seq::new(15, |i: int| 0u8));
        assert(p.cpu_name@ =~= Seq::new(64, |i: int| 0u8));
        assert(p.gpu_name@ =~= Seq::new(64, |i: int| 0u8));
        p
    }
}

/// What the instruction reads and writes.
#[derive(Debug)]
pub struct CreateAffairAccounts {
    /// The lender's wallet.
    pub authority: Pubkey,
    pub affair: Affair,
    pub affair_key: Pubkey,
    pub affairs_list: AffairsList,
    /// The thread account that is to end the affair at its termination time.
    pub affair_clockwork_thread: Pubkey,
    /// The program's account that owns its threads.
    pub thread_authority: Pubkey,
}

/// What is left to do once the listing is decided: create the thread that ends
/// the affair when its time is up.
#[derive(Clone, Copy, Debug)]
pub struct AffairCreation {
    pub thread_id: Pubkey,
    pub thread_bump: u8,
    pub trigger_unix_ts: i64,
}

/// The seeds of an affair's termination thread: `thread`, the thread authority,
/// the affair.
pub open spec fn affair_thread_seeds(thread_authority: Pubkey, affair_key: Pubkey) -> Seq<Seq<u8>> {
    seq![seed_thread(), thread_authority@, affair_key@]
}

/// The affair as listed by `authority` from `payload`; the fields that the
/// payload does not give stay as they were.
pub open spec fn listed_affair(a: Affair, authority: Pubkey, payload: AffairPayload) -> Affair {
    Affair {
        lender: authority,
        ip_address: payload.ip_address,
        cpu_name: payload.cpu_name,
        gpu_name: payload.gpu_name,
        total_ram_mb: payload.total_ram_mb,
        usdc_per_hour: payload.usdc_per_hour,
        affair_termination_time: payload.affair_termination_time,
        affair_state: AffairState::Available,
        ..a
    }
}

/// The termination time is not in the future.
pub open spec fn termination_time_passed(payload: AffairPayload, now: i64) -> bool {
    payload.affair_termination_time <= (now as u64)
}

/// The accounts after the listing: the affair, created empty, holds the payload,
/// is available and has no rental.
pub open spec fn listed(a: CreateAffairAccounts, b: CreateAffairAccounts, payload: AffairPayload) -> bool {
    &&& b.authority == a.authority
    &&& b.affair == listed_affair(a.affair, a.authority, payload)
    &&& b.affair.rental is None
    &&& b.affair.active_rental_start_time == 0
    &&& b.affair.due_rent_amount == 0
    &&& b.affair.spec_can_join()
    &&& b.affair_key == a.affair_key
    &&& b.affairs_list.active_affairs@ == registered(a.affairs_list.active_affairs@, a.affair_key)
    &&& b.affair_clockwork_thread == a.affair_clockwork_thread
    &&& b.thread_authority == a.thread_authority
}

/// The accounts are as they were.
pub open spec fn unchanged(a: CreateAffairAccounts, b: CreateAffairAccounts) -> bool {
    &&& b.authority == a.authority
    &&& b.affair == a.affair
    &&& b.affair_key == a.affair_key
    &&& b.affairs_list.active_affairs@ == a.affairs_list.active_affairs@
    &&& b.affair_clockwork_thread == a.affair_clockwork_thread
    &&& b.thread_authority == a.thread_authority
}

/// Decides a listing on a newly created (zeroed) affair account, given the termination thread's address as derived from
/// `affair_thread_seeds` (or `None` where the derivation found none).
///
/// A termination time that is not in the future is refused with
/// `InvalidTerminationTime`; so is a supplied thread account other than the
/// derived one. `None` stands for the case where the instruction aborts because
/// no thread address exists. In these cases the accounts are unchanged.
/// Otherwise the affair takes the payload, becomes available, and joins the list
/// of open affairs.
pub fn create_affair_with_thread(
    accounts: &mut CreateAffairAccounts,
    payload: &AffairPayload,
    now: i64,
    thread: Option<(Pubkey, u8)>,
) -> (r: Option<Result<AffairCreation, ShagaErrorCode>>)
    requires
        zeroed_affair(old(accounts).affair),
    ensures
        termination_time_passed(*payload, now) ==> r == Some(
            Err::<AffairCreation, ShagaErrorCode>(ShagaErrorCode::InvalidTerminationTime),
        ),
        !termination_time_passed(*payload, now) && thread is None ==> r is None,
        thread matches Some(t) ==> !termination_time_passed(*payload, now) ==> {
            if t.0@ == old(accounts).affair_clockwork_thread@ {
                r == Some(
                    Ok::<AffairCreation, ShagaErrorCode>(
                        AffairCreation {
                            thread_id: t.0,
                            thread_bump: t.1,
                            trigger_unix_ts: payload.affair_termination_time as i64,
                        },
                    ),
                )
            } else {
                r == Some(Err::<AffairCreation, ShagaErrorCode>(ShagaErrorCode::InvalidTerminationTime))
            }
        },
        r matches Some(Ok(_)) ==> listed(*old(accounts), *final(accounts), *payload),
        !(r matches Some(Ok(_))) ==> unchanged(*old(accounts), *final(accounts)),
{
    let current_time = now as u64;
    if payload.affair_termination_time <= current_time {
        return Some(Err(ShagaErrorCode::InvalidTerminationTime));
    }
    let (thread_id, thread_bump) = match thread {
        Some(t) => t,
        None => {
            return None;
        },
    };
    if !thread_id.key_eq(&accounts.affair_clockwork_thread) {
        return Some(Err(ShagaErrorCode::InvalidTerminationTime));
    }
    accounts.affair.lender = accounts.authority;
    accounts.affair.ip_address = payload.ip_address;
    accounts.affair.cpu_name = payload.cpu_name;
    accounts.affair.gpu_name = payload.gpu_name;
    accounts.affair.total_ram_mb = payload.total_ram_mb;
    accounts.affair.usdc_per_hour = payload.usdc_per_hour;
    accounts.affair.affair_termination_time = payload.affair_termination_time;
    accounts.affair.affair_state = AffairState::Available;
    let affair_key = accounts.affair_key;
    accounts.affairs_list.register_affair(affair_key);
    Some(
        Ok(
            AffairCreation {
                thread_id,
                thread_bump,
                trigger_unix_ts: payload.affair_termination_time as i64,
            },
        ),
    )
}

/// Lists an affair: derives its termination thread's address under
/// `program_id` and decides as `create_affair_with_thread` does with it.
pub fn handle_create_affair(
    accounts: &mut CreateAffairAccounts,
    payload: &AffairPayload,
    program_id: Pubkey,
    now: i64,
) -> (r: Option<Result<AffairCreation, ShagaErrorCode>>)
    requires
        zeroed_affair(old(accounts).affair),
    ensures
        ({
            let derived = program_address(
                affair_thread_seeds(old(accounts).thread_authority, old(accounts).affair_key),
                program_id@,
            );
            &&& termination_time_passed(*payload, now) ==> r == Some(
                Err::<AffairCreation, ShagaErrorCode>(ShagaErrorCode::InvalidTerminationTime),
            )
            &&& !termination_time_passed(*payload, now) && derived is None ==> r is None
            &&& derived matches Some(t) ==> !termination_time_passed(*payload, now) ==> {
                if t.0 == old(accounts).affair_clockwork_thread@ {
                    r matches Some(Ok(c)) && c.thread_id@ == t.0 && c.thread_bump == t.1
                        && c.trigger_unix_ts == payload.affair_termination_time as i64
                } else {
                    r == Some(Err::<AffairCreation, ShagaErrorCode>(ShagaErrorCode::InvalidTerminationTime))
                }
            }
        }),
        r matches Some(Ok(_)) ==> listed(*old(accounts), *final(accounts), *payload),
        !(r matches Some(Ok(_))) ==> unchanged(*old(accounts), *final(accounts)),
{
    let mut seeds: Vec<Vec<u8>> = Vec::new();
    seeds.push(seed_thread_bytes());
    seeds.push(accounts.thread_authority.to_seed());
    seeds.push(accounts.affair_key.to_seed());
    assert(seeds_view(seeds@) =~= affair_thread_seeds(accounts.thread_authority, accounts.affair_key));
    let thread = try_find_program_address(&seeds, &program_id);
    create_affair_with_thread(accounts, payload, now, thread)
}

} // verus!

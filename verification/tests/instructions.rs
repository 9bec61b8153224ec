use anchor_lang::AccountSerialize;
use shaga::errors::ShagaErrorCode;
use shaga::instructions::create_affair::{handle_create_affair, AffairPayload, CreateAffairAccounts};
use shaga::instructions::create_lender;
use shaga::instructions::create_session::{self, SessionPayload};
use shaga::instructions::end_rental::{handle_ending_rental, EndRentalAccounts, RentalTerminationAuthority};
use shaga::instructions::join_session;
use shaga::instructions::start_rental::{handle_starting_rental, StartRentalAccounts};
use shaga::instructions::terminate_affair::{handle_affair_termination, TerminateAffairAccounts, Termination};
use shaga::instructions::terminate_vacant_affair::{
    handle_vacant_affair_termination, TerminateVacantAffairAccounts,
};
use shaga::pda::program_id;
use shaga::pubkey::Pubkey;
use shaga::settlement::{Balances, Settlement};
use shaga::states::affair::{Affair, AffairState};
use shaga::states::affair_list::AffairsList;
use shaga::states::escrow::Escrow;
use shaga::states::lender::Lender;
use shaga::states::rental::Rental;
use shaga::states::session::{Session, SessionState};
use solana_program::pubkey::Pubkey as SolanaPubkey;

fn key(b: u8) -> Pubkey {
    Pubkey::new_from_array([b; 32])
}

fn derive(seeds: &[&[u8]], program: Pubkey) -> (Pubkey, u8) {
    let (k, b) =
        SolanaPubkey::find_program_address(seeds, &SolanaPubkey::new_from_array(program.bytes));
    (Pubkey::new_from_array(k.to_bytes()), b)
}

fn thread_data(authority: Pubkey) -> Vec<u8> {
    let thread = clockwork_sdk::state::Thread {
        authority: SolanaPubkey::new_from_array(authority.bytes),
        created_at: clockwork_sdk::state::ClockData {
            slot: 1,
            epoch_start_timestamp: 0,
            epoch: 0,
            leader_schedule_epoch: 0,
            unix_timestamp: 0,
        },
        exec_context: None,
        fee: 1000,
        id: "rental".to_string(),
        kickoff_instruction: clockwork_sdk::state::InstructionData {
            program_id: SolanaPubkey::new_from_array(program_id().bytes),
            accounts: vec![],
            data: vec![0],
        },
        next_instruction: None,
        paused: false,
        rate_limit: 10,
        trigger: clockwork_sdk::state::Trigger::Immediate,
    };
    let mut data = Vec::new();
    thread.try_serialize(&mut data).unwrap();
    data
}

fn zeroed_affair() -> Affair {
    let mut a = Affair::default();
    a.rental = None;
    a.affair_state = AffairState::Unavailable;
    a
}

fn listed_affair() -> Affair {
    let mut a = Affair::default();
    a.rental = None;
    a.lender = key(10);
    a.usdc_per_hour = 100;
    a.affair_termination_time = 100_000;
    a
}

fn rental_accounts() -> StartRentalAccounts {
    let mut list = AffairsList::default();
    list.register_affair(key(20));
    list.register_affair(key(21));
    StartRentalAccounts {
        client: key(1),
        client_is_signer: true,
        client_lamports: 1_000_000,
        lender: Lender::default(),
        affair: listed_affair(),
        affair_key: key(20),
        affairs_list: list,
        escrow: Escrow::default(),
        rental: Rental::default(),
        rental_key: key(30),
        rental_clockwork_thread: key(40),
    }
}

#[test]
fn create_lender_registers_once() {
    let mut l = Lender::default();
    l.karma = 5;
    assert_eq!(create_lender::handler(&mut l, key(9)), Ok(()));
    assert_eq!(l.authority, key(9));
    assert_eq!(l.karma, 0);
    assert_eq!(create_lender::handler(&mut l, key(8)), Err(ShagaErrorCode::InvalidLender));
    assert_eq!(l.authority, key(9));
}

#[test]
fn create_session_fills_payload() {
    let mut s = Session::default();
    s.client = key(3);
    let mut p = SessionPayload::default();
    p.total_ram_mb = 16_000;
    p.usdc_per_hour = 7;
    p.cpu_name[0] = 65;
    create_session::handler(&mut s, key(2), &p);
    assert_eq!(s.lender, key(2));
    assert_eq!(s.client, Pubkey::default());
    assert_eq!(s.total_ram_mb, 16_000);
    assert_eq!(s.usdc_per_hour, 7);
    assert_eq!(s.cpu_name[0], 65);
    assert_eq!(s.session_state, SessionState::Waiting);
}

#[test]
fn join_session_checks_and_joins() {
    let mut s = Session::default();
    s.session_termination_time = 5000;
    let mut l = Lender::default();
    let mut e = Escrow { locked_amount: 100 };
    assert_eq!(
        join_session::handler(&mut s, &mut l, &mut e, key(1), false, 10, 2000, 1000),
        Err(ShagaErrorCode::InvalidSession)
    );
    assert_eq!(
        join_session::handler(&mut s, &mut l, &mut e, key(1), true, 10, 6000, 1000),
        Err(ShagaErrorCode::InvalidRentalTerminationTime)
    );
    assert_eq!(
        join_session::handler(&mut s, &mut l, &mut e, key(1), true, 10, 1000, 1000),
        Err(ShagaErrorCode::InvalidRentalTerminationTime)
    );
    assert_eq!(
        join_session::handler(&mut s, &mut l, &mut e, key(1), true, 101, 2000, 1000),
        Err(ShagaErrorCode::InsufficientFunds)
    );
    assert_eq!(e.locked_amount, 100);
    assert_eq!(join_session::handler(&mut s, &mut l, &mut e, key(1), true, 40, 2000, 1000), Ok(()));
    assert_eq!(e.locked_amount, 60);
    assert_eq!(s.client, key(1));
    assert_eq!(s.rental_start_time, 1000);
    assert_eq!(s.session_state, SessionState::Active);
    assert_eq!(l.affairs, 1);
    assert_eq!(
        join_session::handler(&mut s, &mut l, &mut e, key(2), true, 10, 2000, 1500),
        Err(ShagaErrorCode::InvalidSession)
    );
}

#[test]
fn join_session_refuses_current_client() {
    let mut s = Session::default();
    s.session_termination_time = 5000;
    s.client = key(1);
    let mut l = Lender::default();
    let mut e = Escrow { locked_amount: 100 };
    assert_eq!(
        join_session::validate_join(&s, key(1), true, 2000, 1000),
        Err(ShagaErrorCode::ClientAlreadyInSession)
    );
    assert_eq!(
        join_session::handler(&mut s, &mut l, &mut e, key(1), true, 10, 2000, 1000),
        Err(ShagaErrorCode::ClientAlreadyInSession)
    );
}

#[test]
fn start_rental_charges_whole_hours_with_fee() {
    let mut a = rental_accounts();
    let now = 1000i64;
    let end = 1000u64 + 3 * 3600 + 5;
    let r = handle_starting_rental(&mut a, program_id(), now, end).unwrap().unwrap();
    assert_eq!(r.fee_amount, 3);
    assert_eq!(r.escrow_amount, 297);
    assert_eq!(r.trigger_unix_ts, end as i64);
    let (tid, bump) = derive(&[b"thread", &key(1).bytes, &key(20).bytes], program_id());
    assert_eq!(r.thread_id, tid);
    assert_eq!(r.thread_bump, bump);
    assert_eq!(a.escrow.locked_amount, 297);
    assert_eq!(a.affair.affair_state, AffairState::Unavailable);
    assert_eq!(a.affair.rental, Some(key(30)));
    assert_eq!(a.affair.due_rent_amount, 297);
    assert_eq!(a.affair.active_rental_start_time, 1000);
    assert_eq!(a.rental.client, key(1));
    assert_eq!(a.rental.affair, key(20));
    assert_eq!(a.rental.rent_amount, 297);
    assert_eq!(a.rental.rental_start_time, 1000);
    assert_eq!(a.rental.rental_termination_time, end as i64);
    assert_eq!(a.rental.rental_clockwork_thread_id, tid);
    assert_eq!(a.lender.affairs, 1);
    assert_eq!(a.affairs_list.active_affairs, vec![key(21)]);
    let again = handle_starting_rental(&mut a, program_id(), now + 10, end);
    assert_eq!(again.map(|r| r.err()), Some(Some(ShagaErrorCode::InvalidAffair)));
}

#[test]
fn start_rental_refusals() {
    let mut a = rental_accounts();
    a.client_is_signer = false;
    assert_eq!(
        handle_starting_rental(&mut a, program_id(), 1000, 5000).map(|r| r.err()),
        Some(Some(ShagaErrorCode::InvalidAffair))
    );
    let mut a = rental_accounts();
    assert_eq!(
        handle_starting_rental(&mut a, program_id(), 1000, 200_000).map(|r| r.err()),
        Some(Some(ShagaErrorCode::InvalidRentalTerminationTime))
    );
    assert_eq!(
        handle_starting_rental(&mut a, program_id(), 1000, 1000).map(|r| r.err()),
        Some(Some(ShagaErrorCode::InvalidRentalTerminationTime))
    );
    a.client_lamports = 302;
    assert_eq!(
        handle_starting_rental(&mut a, program_id(), 1000, 1000 + 3 * 3600).map(|r| r.err()),
        Some(Some(ShagaErrorCode::InsufficientFunds))
    );
    assert_eq!(a.escrow.locked_amount, 0);
    assert!(a.affair.can_join());
    a.client_lamports = 303;
    assert!(matches!(
        handle_starting_rental(&mut a, program_id(), 1000, 1000 + 3 * 3600),
        Some(Ok(_))
    ));
}

#[test]
fn create_affair_lists_and_schedules() {
    let thread_authority = key(50);
    let (tid, bump) = derive(&[b"thread", &thread_authority.bytes, &key(20).bytes], program_id());
    let mut acc = CreateAffairAccounts {
        authority: key(10),
        affair: zeroed_affair(),
        affair_key: key(20),
        affairs_list: AffairsList::default(),
        affair_clockwork_thread: tid,
        thread_authority,
    };
    let mut p = AffairPayload::default();
    p.usdc_per_hour = 250;
    p.total_ram_mb = 32_000;
    p.affair_termination_time = 9000;
    assert_eq!(
        handle_create_affair(&mut acc, &p, program_id(), 9000).map(|r| r.err()),
        Some(Some(ShagaErrorCode::InvalidTerminationTime))
    );
    assert_eq!(acc.affairs_list.active_affairs.len(), 0);
    let c = handle_create_affair(&mut acc, &p, program_id(), 100).unwrap().unwrap();
    assert_eq!(c.thread_id, tid);
    assert_eq!(c.thread_bump, bump);
    assert_eq!(c.trigger_unix_ts, 9000);
    assert_eq!(acc.affair.lender, key(10));
    assert_eq!(acc.affair.usdc_per_hour, 250);
    assert_eq!(acc.affair.total_ram_mb, 32_000);
    assert_eq!(acc.affair.affair_termination_time, 9000);
    assert_eq!(acc.affair.affair_state, AffairState::Available);
    assert_eq!(acc.affair.rental, None);
    assert!(acc.affair.can_join());
    assert_eq!(acc.affairs_list.active_affairs, vec![key(20)]);
}

#[test]
fn create_affair_refuses_foreign_thread() {
    let mut acc = CreateAffairAccounts {
        authority: key(10),
        affair: zeroed_affair(),
        affair_key: key(20),
        affairs_list: AffairsList::default(),
        affair_clockwork_thread: key(99),
        thread_authority: key(50),
    };
    let mut p = AffairPayload::default();
    p.affair_termination_time = 9000;
    assert_eq!(
        handle_create_affair(&mut acc, &p, program_id(), 100).map(|r| r.err()),
        Some(Some(ShagaErrorCode::InvalidTerminationTime))
    );
    assert_eq!(acc.affair.affair_termination_time, 0);
}

fn rented_end_accounts(signer: Pubkey, signer_data: Vec<u8>) -> EndRentalAccounts {
    let mut a = rental_accounts();
    handle_starting_rental(&mut a, program_id(), 1000, 1000 + 3 * 3600 + 5).unwrap().unwrap();
    EndRentalAccounts {
        signer,
        signer_data,
        client: key(1),
        thread_authority: key(50),
        lender: a.lender,
        affair: a.affair,
        affair_key: a.affair_key,
        affairs_list: a.affairs_list,
        escrow: a.escrow,
        rental: a.rental,
        balances: Balances { escrow: 1000, lender: 10, client: 20 },
    }
}

#[test]
fn end_rental_by_client_settles_and_relists() {
    let mut e = rented_end_accounts(key(1), vec![]);
    let s = handle_ending_rental(&mut e, RentalTerminationAuthority::Client, 150).unwrap().unwrap();
    assert_eq!(s, Settlement { payment: 150, refund: 1 });
    assert_eq!(e.balances, Balances { escrow: 849, lender: 160, client: 21 });
    assert_eq!(e.lender.karma, 1);
    assert_eq!(e.affair.affair_state, AffairState::Available);
    assert_eq!(e.affair.rental, None);
    assert_eq!(e.escrow.locked_amount, 0);
    assert_eq!(e.affairs_list.active_affairs, vec![key(21), key(20)]);
    assert_eq!(
        handle_ending_rental(&mut e, RentalTerminationAuthority::Client, 150),
        Some(Err(ShagaErrorCode::InvalidTerminationTime))
    );
}

#[test]
fn end_rental_by_thread() {
    let thread_key = key(77);
    let mut e = rented_end_accounts(thread_key, thread_data(key(50)));
    let s = handle_ending_rental(&mut e, RentalTerminationAuthority::Clockwork, 0).unwrap().unwrap();
    assert_eq!(s, Settlement { payment: 0, refund: 2 });
    assert_eq!(e.balances, Balances { escrow: 998, lender: 10, client: 22 });
}

#[test]
fn end_rental_refuses_foreign_signers() {
    let mut e = rented_end_accounts(key(77), vec![1, 2, 3]);
    assert_eq!(
        handle_ending_rental(&mut e, RentalTerminationAuthority::Clockwork, 10),
        Some(Err(ShagaErrorCode::InvalidSigner))
    );
    let mut e = rented_end_accounts(key(77), thread_data(key(51)));
    assert_eq!(
        handle_ending_rental(&mut e, RentalTerminationAuthority::Clockwork, 10),
        Some(Err(ShagaErrorCode::InvalidTerminationTime))
    );
    assert_eq!(e.affair.affair_state, AffairState::Unavailable);
    assert_eq!(e.balances, Balances { escrow: 1000, lender: 10, client: 20 });
    // the client naming the thread as terminator must sign as a thread too
    let mut e = rented_end_accounts(key(1), vec![]);
    assert_eq!(
        handle_ending_rental(&mut e, RentalTerminationAuthority::Clockwork, 10),
        Some(Err(ShagaErrorCode::InvalidSigner))
    );
}

#[test]
fn end_rental_overflow_errors() {
    let mut e = rented_end_accounts(key(1), vec![]);
    assert_eq!(
        handle_ending_rental(&mut e, RentalTerminationAuthority::Client, u64::MAX),
        Some(Err(ShagaErrorCode::NumericalOverflow))
    );
    assert_eq!(
        handle_ending_rental(&mut e, RentalTerminationAuthority::Client, 300),
        Some(Err(ShagaErrorCode::NumericalOverflow))
    );
}

#[test]
fn end_rental_aborts_on_empty_escrow() {
    let mut e = rented_end_accounts(key(1), vec![]);
    e.balances.escrow = 100;
    assert_eq!(handle_ending_rental(&mut e, RentalTerminationAuthority::Client, 150), None);
    assert_eq!(e.balances.escrow, 100);
}

#[test]
fn terminate_rented_affair_settles_twice() {
    let mut a = rental_accounts();
    handle_starting_rental(&mut a, program_id(), 1000, 1000 + 3 * 3600 + 5).unwrap().unwrap();
    let mut rental = a.rental;
    rental.rent_amount = 10;
    let mut t = TerminateAffairAccounts {
        authority: key(10),
        client: key(1),
        lender: a.lender,
        affair: a.affair,
        affair_key: key(20),
        affairs_list: {
            let mut l = AffairsList::default();
            l.register_affair(key(20));
            l.register_affair(key(22));
            l
        },
        rental_accounts: Some((rental, Escrow { locked_amount: 50 })),
        balances: Balances { escrow: 1000, lender: 0, client: 0 },
    };
    let r = handle_affair_termination(&mut t, 1000 + 2 * 3600 + 10);
    assert_eq!(
        r,
        Termination::Settled(Settlement { payment: 200, refund: 97 }, Settlement { payment: 20, refund: 30 })
    );
    assert_eq!(t.balances, Balances { escrow: 653, lender: 220, client: 127 });
    assert_eq!(t.lender.karma, -1);
    assert_eq!(t.affairs_list.active_affairs, vec![key(22)]);
}

#[test]
fn terminate_vacant_affair_without_rental() {
    let mut list = AffairsList::default();
    list.register_affair(key(20));
    let mut v = TerminateVacantAffairAccounts {
        signer: key(10),
        signer_data: vec![],
        affair: listed_affair(),
        affair_key: key(20),
        affairs_list: list,
        thread_authority: key(50),
    };
    let mut t = TerminateAffairAccounts {
        authority: key(10),
        client: key(1),
        lender: Lender::default(),
        affair: listed_affair(),
        affair_key: key(20),
        affairs_list: AffairsList::default(),
        rental_accounts: None,
        balances: Balances { escrow: 5, lender: 6, client: 7 },
    };
    assert_eq!(handle_affair_termination(&mut t, 5000), Termination::Vacant);
    assert_eq!(t.balances, Balances { escrow: 5, lender: 6, client: 7 });
    assert_eq!(handle_vacant_affair_termination(&mut v), Ok(()));
    assert!(v.affairs_list.active_affairs.is_empty());
}

#[test]
fn terminate_vacant_affair_checks() {
    let mk = |signer: Pubkey, data: Vec<u8>, rented: bool| {
        let mut affair = listed_affair();
        if rented {
            affair.rental = Some(key(30));
        }
        let mut list = AffairsList::default();
        list.register_affair(key(20));
        TerminateVacantAffairAccounts {
            signer,
            signer_data: data,
            affair,
            affair_key: key(20),
            affairs_list: list,
            thread_authority: key(50),
        }
    };
    let mut v = mk(key(66), vec![0; 4], false);
    assert_eq!(handle_vacant_affair_termination(&mut v), Err(ShagaErrorCode::InvalidSigner));
    let mut v = mk(key(66), thread_data(key(51)), false);
    assert_eq!(handle_vacant_affair_termination(&mut v), Err(ShagaErrorCode::InvalidSigner));
    let mut v = mk(key(66), thread_data(key(50)), false);
    assert_eq!(handle_vacant_affair_termination(&mut v), Ok(()));
    let mut v = mk(key(10), vec![], true);
    assert_eq!(
        handle_vacant_affair_termination(&mut v),
        Err(ShagaErrorCode::InvalidTerminationInstruction)
    );
    assert_eq!(v.affairs_list.active_affairs, vec![key(20)]);
}

#[test]
fn termination_authority_instruction_data() {
    assert_eq!(RentalTerminationAuthority::Clockwork.to_instruction_data(), vec![0u8]);
    assert_eq!(RentalTerminationAuthority::Client.to_instruction_data(), vec![1u8]);
}

#[test]
fn rental_cycle_conserves_lamports_and_relists() {
    let mut e = rented_end_accounts(key(1), vec![]);
    assert!(!e.affairs_list.active_affairs.contains(&key(20)));
    assert_eq!(e.escrow.locked_amount, e.affair.due_rent_amount);
    assert_eq!(e.escrow.locked_amount, e.rental.rent_amount);
    let before = e.balances.escrow + e.balances.lender + e.balances.client;
    let s = handle_ending_rental(&mut e, RentalTerminationAuthority::Client, 250).unwrap().unwrap();
    assert!(s.payment + s.refund <= 297);
    assert_eq!(e.balances.escrow + e.balances.lender + e.balances.client, before);
    assert!(e.affair.can_join());
    assert_eq!(e.affairs_list.active_affairs.last(), Some(&key(20)));
}

#[test]
fn termination_conserves_lamports() {
    let mut a = rental_accounts();
    handle_starting_rental(&mut a, program_id(), 1000, 1000 + 3 * 3600 + 5).unwrap().unwrap();
    let mut t = TerminateAffairAccounts {
        authority: key(10),
        client: key(1),
        lender: a.lender,
        affair: a.affair,
        affair_key: key(20),
        affairs_list: AffairsList::default(),
        rental_accounts: Some((a.rental, Escrow { locked_amount: 297 })),
        balances: Balances { escrow: 2000, lender: 3, client: 4 },
    };
    assert!(shaga::instructions::terminate_affair::terminate_within_range(&t, 1000 + 3600));
    let r = handle_affair_termination(&mut t, 1000 + 3600);
    assert_eq!(
        r,
        Termination::Settled(Settlement { payment: 100, refund: 197 }, Settlement { payment: 297, refund: 0 })
    );
    assert_eq!(t.balances.escrow + t.balances.lender + t.balances.client, 2007);
    assert!(!shaga::instructions::terminate_affair::terminate_within_range(&t, 500));
}

#[test]
fn range_checks() {
    let a = rental_accounts();
    assert!(shaga::instructions::start_rental::start_rental_within_range(&a, 1000, 5000));
    let mut b = rental_accounts();
    b.affair.usdc_per_hour = u32::MAX;
    b.affair.affair_termination_time = u64::MAX;
    assert!(!shaga::instructions::start_rental::start_rental_within_range(&b, 0, u64::MAX));
    let mut s = Session::default();
    s.session_termination_time = 5000;
    let mut l = Lender::default();
    l.affairs = u32::MAX;
    let e = Escrow { locked_amount: 100 };
    assert!(!join_session::join_session_within_range(&s, &l, &e, key(1), true, 10, 2000, 1000));
    assert!(join_session::join_session_within_range(&s, &l, &e, key(1), false, 10, 2000, 1000));
}

#[test]
fn end_rental_by_lender() {
    // the affair's lender (key 10) signs and names the client as terminator
    let mut e = rented_end_accounts(key(10), vec![]);
    let s = handle_ending_rental(&mut e, RentalTerminationAuthority::Client, 150).unwrap().unwrap();
    assert_eq!(s, Settlement { payment: 150, refund: 1 });
    assert_eq!(e.affair.affair_state, AffairState::Available);
    assert_eq!(e.lender.karma, 1);
    // naming the thread as terminator, the lender must sign as a thread
    let mut e = rented_end_accounts(key(10), vec![]);
    assert_eq!(
        handle_ending_rental(&mut e, RentalTerminationAuthority::Clockwork, 150),
        Some(Err(ShagaErrorCode::InvalidSigner))
    );
    // anyone else is refused
    let mut e = rented_end_accounts(key(11), vec![]);
    assert_eq!(
        handle_ending_rental(&mut e, RentalTerminationAuthority::Client, 150),
        Some(Err(ShagaErrorCode::InvalidSigner))
    );
}

#[test]
fn terminate_refuses_unread_rental_accounts() {
    let mut a = rental_accounts();
    handle_starting_rental(&mut a, program_id(), 1000, 1000 + 3 * 3600 + 5).unwrap().unwrap();
    let mut list = AffairsList::default();
    list.register_affair(key(20));
    let mut t = TerminateAffairAccounts {
        authority: key(10),
        client: key(1),
        lender: a.lender,
        affair: a.affair,
        affair_key: key(20),
        affairs_list: list,
        rental_accounts: None,
        balances: Balances { escrow: 1000, lender: 0, client: 0 },
    };
    assert!(shaga::instructions::terminate_affair::terminate_within_range(&t, 1000 + 3600));
    assert_eq!(handle_affair_termination(&mut t, 1000 + 3600), Termination::RentalAccountsUnreadable);
    assert_eq!(t.balances, Balances { escrow: 1000, lender: 0, client: 0 });
    assert_eq!(t.lender.karma, 0);
    assert_eq!(t.affairs_list.active_affairs, vec![key(20)]);
}

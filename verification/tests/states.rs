use shaga::errors::ShagaErrorCode;
use shaga::pubkey::Pubkey;
use shaga::states::affair::{Affair, AffairState};
use shaga::states::affair_list::{AffairsList, MAX_AFFAIR_S};
use shaga::states::escrow::Escrow;
use shaga::states::lender::Lender;
use shaga::states::rental::Rental;
use shaga::states::session::{Session, SessionState};
use shaga::states::session_list::{SessionsList, MAX_SESSIONS};

fn key(b: u8) -> Pubkey {
    Pubkey::new_from_array([b; 32])
}

#[test]
fn affair_default_is_available_with_default_rental() {
    let a = Affair::default();
    assert_eq!(a.affair_state, AffairState::Available);
    assert_eq!(a.rental, Some(Pubkey::default()));
    assert_eq!(a.due_rent_amount, 0);
    assert!(a.can_join());
    assert_eq!(AffairState::default(), AffairState::Available);
}

#[test]
fn affair_join_once() {
    let mut a = Affair::default();
    assert_eq!(a.join(key(3)), Ok(()));
    assert_eq!(a.rental, Some(key(3)));
    assert_eq!(a.affair_state, AffairState::Unavailable);
    assert!(!a.can_join());
    assert_eq!(a.join(key(4)), Err(ShagaErrorCode::AffairAlreadyJoined));
    assert_eq!(a.rental, Some(key(3)));
}

#[test]
fn account_sizes() {
    assert_eq!(Affair::size(), 249);
    assert_eq!(AffairsList::size(), 332);
    assert_eq!(Escrow::size(), 16);
    assert_eq!(Lender::size(), 48);
    assert_eq!(Rental::size(), 128);
    assert_eq!(Session::size(), 272);
    assert_eq!(SessionsList::size(), 332);
}

#[test]
fn affair_list_evicts_oldest_when_full() {
    let mut l = AffairsList::default();
    for i in 0..MAX_AFFAIR_S as u8 {
        l.register_affair(key(i));
    }
    assert_eq!(l.active_affairs.len(), MAX_AFFAIR_S);
    l.register_affair(key(100));
    assert_eq!(l.active_affairs.len(), MAX_AFFAIR_S);
    assert_eq!(l.active_affairs[0], key(1));
    assert_eq!(l.active_affairs[MAX_AFFAIR_S - 1], key(100));
}

#[test]
fn affair_list_remove_takes_every_entry() {
    let mut l = AffairsList::default();
    l.register_affair(key(1));
    l.register_affair(key(2));
    l.register_affair(key(1));
    l.register_affair(key(3));
    l.remove_affair(key(1));
    assert_eq!(l.active_affairs, vec![key(2), key(3)]);
    l.remove_affair(key(9));
    assert_eq!(l.active_affairs, vec![key(2), key(3)]);
}

#[test]
fn sessions_list_evicts_oldest_when_full() {
    let mut l = SessionsList::default();
    for i in 0..(MAX_SESSIONS as u8 + 2) {
        l.register_session(key(i));
    }
    assert_eq!(l.active_sessions.len(), MAX_SESSIONS);
    assert_eq!(l.active_sessions[0], key(2));
}

#[test]
fn lender_counters() {
    let mut l = Lender::default();
    l.increment_affairs();
    l.increment_affairs();
    assert_eq!(l.affairs, 2);
    l.give_thumbs_up();
    assert_eq!(l.karma, 1);
    l.give_thumbs_down();
    l.give_thumbs_down();
    assert_eq!(l.karma, -1);
}

#[test]
fn rental_initialize_sets_every_field() {
    let mut r = Rental::default();
    r.initialize(key(1), key(2), 500, 1000, 2000, key(3));
    assert_eq!(r.client, key(1));
    assert_eq!(r.affair, key(2));
    assert_eq!(r.rent_amount, 500);
    assert_eq!(r.rental_start_time, 1000);
    assert_eq!(r.rental_termination_time, 2000);
    assert_eq!(r.rental_clockwork_thread_id, key(3));
}

#[test]
fn session_lifecycle() {
    let mut s = Session::default();
    assert!(s.can_join());
    assert!(s.is_session_active());
    s.join(key(5));
    assert_eq!(s.client, key(5));
    assert_eq!(s.session_state, SessionState::Active);
    assert!(!s.can_join());
    assert!(s.is_session_active());
    assert!(!s.can_settle(&key(5)));
    s.session_state = SessionState::Finished { client: key(5) };
    assert!(!s.is_session_active());
    assert!(s.can_settle(&key(5)));
    assert!(!s.can_settle(&key(6)));
}

#[test]
fn escrow_default_is_empty() {
    assert_eq!(Escrow::default().locked_amount, 0);
}

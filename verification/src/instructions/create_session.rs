//! Opening a session.
use crate::pubkey::{zero_key, Pubkey};
use crate::states::session::{Session, SessionState};
use vstd::prelude::*;

verus! {

/// What a lender describes of the computer it offers in a session.
#[derive(Clone, Copy, Debug)]
pub struct SessionPayload {
    pub ip_address: [u8; 15],
    pub cpu_name: [u8; 64],
    pub gpu_name: [u8; 64],
    pub total_ram_mb: u32,
    pub usdc_per_hour: u32,
}

impl Default for SessionPayload {
    fn default() -> (p: SessionPayload)
        ensures
            p.ip_address@ == Seq::new(15, |i: int| 0u8),
            p.cpu_name@ == Seq::new(64, |i: int| 0u8),
            p.gpu_name@ == Seq::new(64, |i: int| 0u8),
            p.total_ram_mb == 0,
            p.usdc_per_hour == 0,
    {
        let p = SessionPayload {
            ip_address: [0u8; 15],
            cpu_name: [0u8; 64],
            gpu_name: [0u8; 64],
            total_ram_mb: 0,
            usdc_per_hour: 0,
        };
        assert(p.ip_address@ =~= Seq::new(15, |i: int| 0u8));
        assert(p.cpu_name@ =~= Seq::new(64, |i: int| 0u8));
        assert(p.gpu_name@ =~= Seq::new(64, |i: int| 0u8));
        p
    }
}

/// A session that `creator` opens with `payload`: the computer as described, no
/// client yet, waiting, and no times set.
pub open spec fn new_session(s: Session, creator: Pubkey, payload: SessionPayload) -> bool {
    &&& s.lender == creator
    &&& s.client@ == zero_key()
    &&& s.ip_address == payload.ip_address
    &&& s.cpu_name == payload.cpu_name
    &&& s.gpu_name == payload.gpu_name
    &&& s.total_ram_mb == payload.total_ram_mb
    &&& s.usdc_per_hour == payload.usdc_per_hour
    &&& s.session_state is Waiting
    &&& s.rental_start_time == 0
    &&& s.session_termination_time == 0
}

/// Fills the session account with a fresh session of `creator`.
pub fn handler(session: &mut Session, creator: Pubkey, payload: &SessionPayload)
    ensures
        new_session(*final(session), creator, *payload),
{
    let mut session_object = Session::default();
    session_object.lender = creator;
    session_object.ip_address = payload.ip_address;
    session_object.cpu_name = payload.cpu_name;
    session_object.gpu_name = payload.gpu_name;
    session_object.total_ram_mb = payload.total_ram_mb;
    session_object.usdc_per_hour = payload.usdc_per_hour;
    session_object.session_state = SessionState::Waiting;
    *session = session_object;
}

} // verus!

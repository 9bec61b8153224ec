//! Sessions: the earlier form of a listing, which one client joins and, once
//! finished, settles.
use crate::pda::{
    address_view, program_address, program_id, seed_session, seed_session_bytes, seeds_view,
    spec_program_id, try_find_program_address,
};
use crate::pubkey::{zero_key, Pubkey};
use crate::space::{enum_space, pubkey_space, DISCRIMINATOR_SPACE};
use vstd::prelude::*;

verus! {

/// Where a session stands.
#[derive(Clone, Copy, Debug)]
pub enum SessionState {
    Waiting,
    Active,
    Finished { client: Pubkey },
}

impl Default for SessionState {
    fn default() -> (s: SessionState)
        ensures
            s is Waiting,
    {
        SessionState::Waiting
    }
}

/// Two session states are equal when they are the same variant and, when
/// finished, name the same client.
pub open spec fn same_state(a: SessionState, b: SessionState) -> bool {
    match (a, b) {
        (SessionState::Waiting, SessionState::Waiting) => true,
        (SessionState::Active, SessionState::Active) => true,
        (SessionState::Finished { client: x }, SessionState::Finished { client: y }) => x@ == y@,
        _ => false,
    }
}

impl PartialEq for SessionState {
    fn eq(&self, other: &SessionState) -> (r: bool) {
        match (self, other) {
            (SessionState::Waiting, SessionState::Waiting) => true,
            (SessionState::Active, SessionState::Active) => true,
            (SessionState::Finished { client: x }, SessionState::Finished { client: y }) => x.key_eq(y),
            _ => false,
        }
    }
}

impl vstd::std_specs::cmp::PartialEqSpecImpl for SessionState {
    open spec fn obeys_eq_spec() -> bool {
        true
    }

    open spec fn eq_spec(&self, other: &SessionState) -> bool {
        same_state(*self, *other)
    }
}

impl Eq for SessionState {}

/// A session.
#[derive(Clone, Copy, Debug)]
pub struct Session {
    pub lender: Pubkey,
    pub client: Pubkey,
    pub ip_address: [u8; 15],
    pub cpu_name: [u8; 64],
    pub gpu_name: [u8; 64],
    pub total_ram_mb: u32,
    pub usdc_per_hour: u32,
    pub session_state: SessionState,
    pub rental_start_time: i64,
    pub session_termination_time: i64,
}

/// The session that `Session::default` gives: everything zero and waiting.
pub open spec fn default_session(s: Session) -> bool {
    &&& s.lender@ == zero_key()
    &&& s.client@ == zero_key()
    &&& s.ip_address@ == Seq::new(15, |i: int| 0u8)
    &&& s.cpu_name@ == Seq::new(64, |i: int| 0u8)
    &&& s.gpu_name@ == Seq::new(64, |i: int| 0u8)
    &&& s.total_ram_mb == 0
    &&& s.usdc_per_hour == 0
    &&& s.session_state is Waiting
    &&& s.rental_start_time == 0
    &&& s.session_termination_time == 0
}

impl Default for Session {
    fn default() -> (s: Session)
        ensures
            default_session(s),
    {
        let s = Session {
            lender: Pubkey::default_key(),
            client: Pubkey::default_key(),
            ip_address: [0u8; 15],
            cpu_name: [0u8; 64],
            gpu_name: [0u8; 64],
            total_ram_mb: 0,
            usdc_per_hour: 0,
            session_state: SessionState::Waiting,
            rental_start_time: 0,
            session_termination_time: 0,
        };
        assert(s.ip_address@ =~= Seq::new(15, |i: int| 0u8));
        assert(s.cpu_name@ =~= Seq::new(64, |i: int| 0u8));
        assert(s.gpu_name@ =~= Seq::new(64, |i: int| 0u8));
        s
    }
}

/// Bytes of a session's fields.
pub open spec fn session_init_space() -> nat {
    pubkey_space() + pubkey_space() + 15 + 64 + 64 + 4 + 4 + enum_space(pubkey_space()) + 8 + 8
}

/// The session after `client` joins it.
pub open spec fn joined_session(s: Session, client: Pubkey) -> Session {
    Session { client, session_state: SessionState::Active, ..s }
}

impl Session {
    /// The address of the session account of `owner`, with its bump seed.
    pub fn pda(owner: Pubkey) -> (r: Option<(Pubkey, u8)>)
        ensures
            address_view(r) == program_address(seq![seed_session(), owner@], spec_program_id()),
    {
        let mut seeds: Vec<Vec<u8>> = Vec::new();
        seeds.push(seed_session_bytes());
        seeds.push(owner.to_seed());
        let id = program_id();
        assert(seeds_view(seeds@) =~= seq![seed_session(), owner@]);
        try_find_program_address(&seeds, &id)
    }

    /// Bytes that a session account takes.
    pub fn size() -> (s: usize)
        ensures
            s == DISCRIMINATOR_SPACE + session_init_space(),
    {
        DISCRIMINATOR_SPACE + 264
    }

    /// A session is active while it is waiting for a client or in use.
    pub fn is_session_active(&self) -> (r: bool)
        ensures
            r == (self.session_state is Waiting || self.session_state is Active),
    {
        match self.session_state {
            SessionState::Waiting => true,
            SessionState::Active => true,
            SessionState::Finished { .. } => false,
        }
    }

    /// Only the client named by a finished session may settle it.
    pub fn can_settle(&self, client: &Pubkey) -> (r: bool)
        ensures
            r == (self.session_state matches SessionState::Finished { client: c } && c@ == client@),
    {
        match self.session_state {
            SessionState::Finished { client: c } => c.key_eq(client),
            _ => false,
        }
    }

    /// A session can be joined only while it waits for a client.
    pub fn can_join(&self) -> (r: bool)
        ensures
            r == self.session_state is Waiting,
    {
        match self.session_state {
            SessionState::Waiting => true,
            _ => false,
        }
    }

    /// Records the client and makes the session active.
    pub fn join(&mut self, client_pubkey: Pubkey)
        ensures
            *final(self) == joined_session(*old(self), client_pubkey),
    {
        self.client = client_pubkey;
        self.session_state = SessionState::Active;
    }
}

/// A joined session is active, can no longer be joined, and no client can
/// settle it.
pub proof fn law_join_session_activates(s: Session, client: Pubkey, settler: Pubkey)
    ensures
        joined_session(s, client).session_state is Active,
        !(joined_session(s, client).session_state is Waiting),
        !(joined_session(s, client).session_state matches SessionState::Finished { client: c } && c@
            == settler@),
{
}

} // verus!

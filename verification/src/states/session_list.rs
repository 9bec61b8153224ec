//! The list of open sessions.
use crate::pda::{
    address_view, program_address, program_id, seed_session_list, seed_session_list_bytes,
    seeds_view, spec_program_id, try_find_program_address,
};
use crate::pubkey::Pubkey;
use crate::space::{pubkey_space, vec_space, DISCRIMINATOR_SPACE};
use vstd::prelude::*;

verus! {

/// Room in the list: the oldest entry makes way for a new one beyond this.
pub const MAX_SESSIONS: usize = 10;

/// The open sessions, oldest first.
#[derive(Debug)]
pub struct SessionsList {
    pub active_sessions: Vec<Pubkey>,
}

/// The list after `session` is registered: when it holds `MAX_SESSIONS` or more
/// entries the oldest leaves, then `session` goes to the end.
pub open spec fn registered_session(list: Seq<Pubkey>, session: Pubkey) -> Seq<Pubkey> {
    if list.len() >= MAX_SESSIONS {
        list.drop_first().push(session)
    } else {
        list.push(session)
    }
}

/// Bytes of the list's fields.
pub open spec fn sessions_list_init_space() -> nat {
    vec_space(MAX_SESSIONS as nat, pubkey_space())
}

impl Default for SessionsList {
    fn default() -> (l: SessionsList)
        ensures
            l.active_sessions@ == Seq::<Pubkey>::empty(),
    {
        SessionsList { active_sessions: Vec::new() }
    }
}

impl SessionsList {
    /// Bytes that the list account takes: the discriminator and room for
    /// `MAX_SESSIONS` addresses.
    pub fn size() -> (s: usize)
        ensures
            s == DISCRIMINATOR_SPACE + sessions_list_init_space(),
    {
        DISCRIMINATOR_SPACE + 324
    }

    /// The address of the list account, with its bump seed.
    pub fn pda() -> (r: Option<(Pubkey, u8)>)
        ensures
            address_view(r) == program_address(seq![seed_session_list()], spec_program_id()),
    {
        let mut seeds: Vec<Vec<u8>> = Vec::new();
        seeds.push(seed_session_list_bytes());
        let id = program_id();
        assert(seeds_view(seeds@) =~= seq![seed_session_list()]);
        try_find_program_address(&seeds, &id)
    }

    /// Appends `session`, first dropping the oldest entry when the list is full.
    pub fn register_session(&mut self, session: Pubkey)
        ensures
            final(self).active_sessions@ == registered_session(old(self).active_sessions@, session),
    {
        if self.active_sessions.len() >= MAX_SESSIONS {
            self.active_sessions.remove(0);
        }
        self.active_sessions.push(session);
    }
}

/// A list that holds at most `MAX_SESSIONS` entries still does after a
/// registration, and the new session is its newest entry.
pub proof fn law_session_list_bounded(list: Seq<Pubkey>, session: Pubkey)
    requires
        list.len() <= MAX_SESSIONS,
    ensures
        registered_session(list, session).len() <= MAX_SESSIONS,
        registered_session(list, session).last() == session,
{
}

} // verus!

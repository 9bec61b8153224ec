//! Lender accounts: who lists affairs, how many rentals they had, and their karma.
use crate::pda::{
    address_view, program_address, program_id, seed_lender, seed_lender_bytes, seeds_view,
    spec_program_id, try_find_program_address,
};
use crate::pubkey::{zero_key, Pubkey};
use crate::space::{pubkey_space, DISCRIMINATOR_SPACE};
use vstd::prelude::*;

verus! {

/// A lender.
#[derive(Clone, Copy, Debug)]
pub struct Lender {
    /// The lender's wallet.
    pub authority: Pubkey,
    /// Number of rentals of the lender's affairs.
    pub affairs: u32,
    /// Reputation: up for each rental that ends normally, down for each that the
    /// lender cuts short.
    pub karma: i32,
}

impl Default for Lender {
    fn default() -> (l: Lender)
        ensures
            l.authority@ == zero_key(),
            l.affairs == 0,
            l.karma == 0,
    {
        Lender { authority: Pubkey::default_key(), affairs: 0, karma: 0 }
    }
}

/// Bytes of a lender's fields.
pub open spec fn lender_init_space() -> nat {
    pubkey_space() + 4 + 4
}

/// The lender with one more rental counted.
pub open spec fn counted(l: Lender) -> Lender {
    Lender { affairs: (l.affairs + 1) as u32, ..l }
}

/// The lender with its karma raised by one.
pub open spec fn thumbed_up(l: Lender) -> Lender {
    Lender { karma: (l.karma + 1) as i32, ..l }
}

/// The lender with its karma lowered by one.
pub open spec fn thumbed_down(l: Lender) -> Lender {
    Lender { karma: (l.karma - 1) as i32, ..l }
}

impl Lender {
    /// Bytes that a lender account takes.
    pub fn size() -> (s: usize)
        ensures
            s == DISCRIMINATOR_SPACE + lender_init_space(),
    {
        DISCRIMINATOR_SPACE + 40
    }

    /// The address of the lender account of wallet `owner`, with its bump seed.
    pub fn pda(owner: Pubkey) -> (r: Option<(Pubkey, u8)>)
        ensures
            address_view(r) == program_address(seq![seed_lender(), owner@], spec_program_id()),
    {
        let mut seeds: Vec<Vec<u8>> = Vec::new();
        seeds.push(seed_lender_bytes());
        seeds.push(owner.to_seed());
        let id = program_id();
        assert(seeds_view(seeds@) =~= seq![seed_lender(), owner@]);
        try_find_program_address(&seeds, &id)
    }

    /// Counts one more rental.
    pub fn increment_affairs(&mut self)
        requires
            old(self).affairs < u32::MAX,
        ensures
            *final(self) == counted(*old(self)),
    {
        self.affairs = self.affairs + 1;
    }

    /// Raises the karma by one.
    pub fn give_thumbs_up(&mut self)
        requires
            old(self).karma < i32::MAX,
        ensures
            *final(self) == thumbed_up(*old(self)),
    {
        self.karma = self.karma + 1;
    }

    /// Lowers the karma by one.
    pub fn give_thumbs_down(&mut self)
        requires
            old(self).karma > i32::MIN,
        ensures
            *final(self) == thumbed_down(*old(self)),
    {
        self.karma = self.karma - 1;
    }
}

/// A thumbs up followed by a thumbs down leaves the lender as it was, and so
/// does a thumbs down followed by a thumbs up.
pub proof fn law_thumbs_up_down_cancel(l: Lender)
    ensures
        l.karma < i32::MAX ==> thumbed_down(thumbed_up(l)) == l,
        l.karma > i32::MIN ==> thumbed_up(thumbed_down(l)) == l,
{
}

} // verus!

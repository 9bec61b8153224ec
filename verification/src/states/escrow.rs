//! Escrow accounts, which hold a client's prepaid rent, and the fee vault.
use crate::pda::{
    address_view, program_address, program_id, seed_escrow, seed_escrow_bytes, seeds_view,
    spec_program_id, try_find_program_address,
};
use crate::pubkey::Pubkey;
use crate::space::DISCRIMINATOR_SPACE;
use vstd::prelude::*;

verus! {

/// An escrow, and the amount it holds locked for a rental.
#[derive(Clone, Copy, Debug)]
pub struct Escrow {
    pub locked_amount: u64,
}

impl Default for Escrow {
    fn default() -> (e: Escrow)
        ensures
            e.locked_amount == 0,
    {
        Escrow { locked_amount: 0 }
    }
}

/// Bytes of an escrow's fields.
pub open spec fn escrow_init_space() -> nat {
    8
}

impl Escrow {
    /// Bytes that an escrow account takes.
    pub fn size() -> (s: usize)
        ensures
            s == DISCRIMINATOR_SPACE + escrow_init_space(),
    {
        DISCRIMINATOR_SPACE + 8
    }

    /// The address of the program's fee vault, with its bump seed.
    pub fn pda() -> (r: Option<(Pubkey, u8)>)
        ensures
            address_view(r) == program_address(seq![seed_escrow()], spec_program_id()),
    {
        let mut seeds: Vec<Vec<u8>> = Vec::new();
        seeds.push(seed_escrow_bytes());
        let id = program_id();
        assert(seeds_view(seeds@) =~= seq![seed_escrow()]);
        try_find_program_address(&seeds, &id)
    }
}

} // verus!

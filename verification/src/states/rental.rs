//! Rental accounts: a client's rental of an affair.
use crate::pda::{
    address_view, program_address, program_id, seed_rental, seed_rental_bytes, seeds_view,
    spec_program_id, try_find_program_address,
};
use crate::pubkey::{zero_key, Pubkey};
use crate::space::{pubkey_space, DISCRIMINATOR_SPACE};
use vstd::prelude::*;

verus! {

/// A rental.
#[derive(Clone, Copy, Debug)]
pub struct Rental {
    pub client: Pubkey,
    /// The rented affair.
    pub affair: Pubkey,
    /// What the client locked in escrow.
    pub rent_amount: u64,
    pub rental_start_time: i64,
    pub rental_termination_time: i64,
    /// The scheduler thread that ends the rental when its time is up.
    pub rental_clockwork_thread_id: Pubkey,
}

impl Default for Rental {
    fn default() -> (r: Rental)
        ensures
            r.client@ == zero_key(),
            r.affair@ == zero_key(),
            r.rent_amount == 0,
            r.rental_start_time == 0,
            r.rental_termination_time == 0,
            r.rental_clockwork_thread_id@ == zero_key(),
    {
        Rental {
            client: Pubkey::default_key(),
            affair: Pubkey::default_key(),
            rent_amount: 0,
            rental_start_time: 0,
            rental_termination_time: 0,
            rental_clockwork_thread_id: Pubkey::default_key(),
        }
    }
}

/// Bytes of a rental's fields.
pub open spec fn rental_init_space() -> nat {
    pubkey_space() + pubkey_space() + 8 + 8 + 8 + pubkey_space()
}

impl Rental {
    /// Fills every field of the rental.
    pub fn initialize(
        &mut self,
        client: Pubkey,
        affair: Pubkey,
        rent_amount: u64,
        rental_start_time: i64,
        rental_termination_time: i64,
        rental_clockwork_thread_id: Pubkey,
    )
        ensures
            *final(self) == (Rental {
                client,
                affair,
                rent_amount,
                rental_start_time,
                rental_termination_time,
                rental_clockwork_thread_id,
            }),
    {
        self.client = client;
        self.affair = affair;
        self.rent_amount = rent_amount;
        self.rental_start_time = rental_start_time;
        self.rental_termination_time = rental_termination_time;
        self.rental_clockwork_thread_id = rental_clockwork_thread_id;
    }

    /// The address of the rental account of `owner`, with its bump seed.
    pub fn pda(owner: Pubkey) -> (r: Option<(Pubkey, u8)>)
        ensures
            address_view(r) == program_address(seq![seed_rental(), owner@], spec_program_id()),
    {
        let mut seeds: Vec<Vec<u8>> = Vec::new();
        seeds.push(seed_rental_bytes());
        seeds.push(owner.to_seed());
        let id = program_id();
        assert(seeds_view(seeds@) =~= seq![seed_rental(), owner@]);
        try_find_program_address(&seeds, &id)
    }

    /// Bytes that a rental account takes.
    pub fn size() -> (s: usize)
        ensures
            s == DISCRIMINATOR_SPACE + rental_init_space(),
    {
        DISCRIMINATOR_SPACE + 120
    }
}

} // verus!

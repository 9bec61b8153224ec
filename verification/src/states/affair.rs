//! An affair: a computer that a lender lists for rent.
use crate::errors::ShagaErrorCode;
use crate::pda::{
    address_view, program_address, program_id, seed_affair, seed_affair_bytes, spec_program_id,
    try_find_program_address,
};
use crate::pubkey::{zero_key, Pubkey};
use crate::space::{enum_space, option_space, pubkey_space, DISCRIMINATOR_SPACE};
use vstd::prelude::*;

verus! {

/// Whether an affair can take a new rental.
#[derive(Clone, Copy, Debug, PartialEq, Eq, Structural)]
pub enum AffairState {
    Unavailable,
    Available,
}

impl Default for AffairState {
    fn default() -> (s: AffairState)
        ensures
            s == AffairState::Available,
    {
        AffairState::Available
    }
}

/// A listed computer and, while it is rented, its active rental.
#[derive(Clone, Copy, Debug)]
pub struct Affair {
    /// The lender's wallet, which listed the affair and has authority over it.
    pub lender: Pubkey,
    /// The active rental account, if any.
    pub rental: Option<Pubkey>,
    pub ip_address: [u8; 15],
    pub cpu_name: [u8; 64],
    pub gpu_name: [u8; 64],
    pub total_ram_mb: u32,
    pub usdc_per_hour: u32,
    pub affair_state: AffairState,
    /// Time after which the affair takes no more rentals.
    pub affair_termination_time: u64,
    /// Time at which the active rental started.
    pub active_rental_start_time: u64,
    /// What the client paid into escrow for the active rental.
    pub due_rent_amount: u64,
}

/// The affair that `Affair::default` gives: everything zero, available, and a
/// rental field that holds the default address.
pub open spec fn default_affair(a: Affair) -> bool {
    &&& a.lender@ == zero_key()
    &&& a.rental matches Some(r) && r@ == zero_key()
    &&& a.ip_address@ == Seq::new(15, |i: int| 0u8)
    &&& a.cpu_name@ == Seq::new(64, |i: int| 0u8)
    &&& a.gpu_name@ == Seq::new(64, |i: int| 0u8)
    &&& a.total_ram_mb == 0
    &&& a.usdc_per_hour == 0
    &&& a.affair_state == AffairState::Available
    &&& a.affair_termination_time == 0
    &&& a.active_rental_start_time == 0
    &&& a.due_rent_amount == 0
}

impl Default for Affair {
    fn default() -> (a: Affair)
        ensures
            default_affair(a),
    {
        let a = Affair {
            lender: Pubkey::default_key(),
            rental: Some(Pubkey::default_key()),
            ip_address: [0u8; 15],
            cpu_name: [0u8; 64],
            gpu_name: [0u8; 64],
            total_ram_mb: 0,
            usdc_per_hour: 0,
            affair_state: AffairState::Available,
            affair_termination_time: 0,
            active_rental_start_time: 0,
            due_rent_amount: 0,
        };
        assert(a.ip_address@ =~= Seq::new(15, |i: int| 0u8));
        assert(a.cpu_name@ =~= Seq::new(64, |i: int| 0u8));
        assert(a.gpu_name@ =~= Seq::new(64, |i: int| 0u8));
        a
    }
}

/// A newly created affair account: every byte of its data zero, so no rental,
/// the first state (`Unavailable`), and all numbers zero.
pub open spec fn zeroed_affair(a: Affair) -> bool {
    &&& a.lender@ == zero_key()
    &&& a.rental is None
    &&& a.ip_address@ == Seq::new(15, |i: int| 0u8)
    &&& a.cpu_name@ == Seq::new(64, |i: int| 0u8)
    &&& a.gpu_name@ == Seq::new(64, |i: int| 0u8)
    &&& a.total_ram_mb == 0
    &&& a.usdc_per_hour == 0
    &&& a.affair_state == AffairState::Unavailable
    &&& a.affair_termination_time == 0
    &&& a.active_rental_start_time == 0
    &&& a.due_rent_amount == 0
}

/// Bytes of an affair's fields.
pub open spec fn affair_init_space() -> nat {
    pubkey_space() + option_space(pubkey_space()) + 15 + 64 + 64 + 4 + 4
        + enum_space(0) + 8 + 8 + 8
}

/// The affair once the rental `rental_key` is attached to it.
pub open spec fn joined_affair(a: Affair, rental_key: Pubkey) -> Affair {
    Affair { rental: Some(rental_key), affair_state: AffairState::Unavailable, ..a }
}

impl Affair {
    /// Whether the affair takes a new rental.
    pub open spec fn spec_can_join(self) -> bool {
        self.affair_state == AffairState::Available
    }

    /// Attaches the rental `rental_key` and makes the affair unavailable; refuses
    /// with `AffairAlreadyJoined`, changing nothing, when it is not available.
    pub fn join(&mut self, rental_key: Pubkey) -> (r: Result<(), ShagaErrorCode>)
        ensures
            r is Ok <==> old(self).spec_can_join(),
            r is Ok ==> *final(self) == joined_affair(*old(self), rental_key),
            r is Err ==> r == Err::<(), ShagaErrorCode>(ShagaErrorCode::AffairAlreadyJoined)
                && *final(self) == *old(self),
    {
        if self.affair_state != AffairState::Available {
            return Err(ShagaErrorCode::AffairAlreadyJoined);
        }
        self.rental = Some(rental_key);
        self.affair_state = AffairState::Unavailable;
        Ok(())
    }

    /// The address of the affair account of `owner`, with its bump seed.
    pub fn pda(owner: Pubkey) -> (r: Option<(Pubkey, u8)>)
        ensures
            address_view(r) == program_address(seq![seed_affair(), owner@], spec_program_id()),
    {
        let mut seeds: Vec<Vec<u8>> = Vec::new();
        seeds.push(seed_affair_bytes());
        seeds.push(owner.to_seed());
        let id = program_id();
        assert(crate::pda::seeds_view(seeds@) =~= seq![seed_affair(), owner@]);
        try_find_program_address(&seeds, &id)
    }

    /// Bytes that an affair account takes: the discriminator and the fields.
    pub fn size() -> (s: usize)
        ensures
            s == DISCRIMINATOR_SPACE + affair_init_space(),
    {
        DISCRIMINATOR_SPACE + 241
    }

    /// Whether the affair takes a new rental.
    pub fn can_join(&self) -> (r: bool)
        ensures
            r == self.spec_can_join(),
    {
        self.affair_state == AffairState::Available
    }
}

/// An affair takes one rental at a time: once a rental is attached it can not
/// be joined again, and the attached rental is the one given.
pub proof fn law_affair_joined_once(a: Affair, rental_key: Pubkey)
    ensures
        !joined_affair(a, rental_key).spec_can_join(),
        joined_affair(a, rental_key).rental == Some(rental_key),
{
}

} // verus!

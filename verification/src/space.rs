//! Space that accounts take on chain, by the rules of the Anchor account
//! layout: an eight-byte discriminator, then the fields in Borsh form.
use vstd::prelude::*;

verus! {

/// Bytes of the discriminator in front of every account.
pub const DISCRIMINATOR_SPACE: usize = 8;

/// Bytes of an address.
pub open spec fn pubkey_space() -> nat {
    32
}

/// Bytes of an optional field: a tag byte, then the value's space.
pub open spec fn option_space(inner: nat) -> nat {
    1 + inner
}

/// Bytes of an enum: a tag byte, then the space of its largest variant.
pub open spec fn enum_space(largest_variant: nat) -> nat {
    1 + largest_variant
}

/// Bytes of a vector held to `max_len` items: a four-byte length, then room for
/// `max_len` items.
pub open spec fn vec_space(max_len: nat, item: nat) -> nat {
    4 + max_len * item
}

} // verus!

//! What the program reads of a scheduler (Clockwork) thread account: its authority.
use crate::pubkey::Pubkey;
use vstd::prelude::*;

verus! {

/// The authority of the thread that `Thread::try_from` of `clockwork_sdk`
/// deserializes from the account data `data`, or `None` where it refuses the data.
pub uninterp spec fn thread_authority(data: Seq<u8>) -> Option<Seq<u8>>;

/// An optional address, by its bytes.
pub open spec fn key_option_view(k: Option<Pubkey>) -> Option<Seq<u8>> {
    match k {
        Some(x) => Some(x@),
        None => None,
    }
}

/// Calls `clockwork_sdk::state::Thread::try_from` on the account data of a
/// would-be thread and keeps the thread's authority.
/// Trusted: the result is the named `thread_authority` of the data; data shorter
/// than the eight-byte discriminator is refused; and an accepted thread's
/// authority is its first field, the 32 bytes after the discriminator.
#[verifier::external_body]
pub(crate) fn deserialize_thread_authority(data: &Vec<u8>) -> (r: Option<Pubkey>)
    ensures
        key_option_view(r) == thread_authority(data@),
        data@.len() < 8 ==> r is None,
        r matches Some(k) ==> data@.len() >= 40 && k@ == data@.subrange(8, 40),
{
    match clockwork_sdk::state::Thread::try_from(data.clone()) {
        Ok(t) => Some(Pubkey { bytes: t.authority.to_bytes() }),
        Err(_) => None,
    }
}

} // verus!

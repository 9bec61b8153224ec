//! Program derived addresses: the program's id, the seeds it derives its
//! accounts from, and the derivation itself.
use crate::pubkey::Pubkey;
use vstd::prelude::*;

verus! {

/// The program's id (base58 `6AACcBoHBKc2XndsuQpgf6S9M5HP8jDUsgbn7R6EJAMW`).
pub open spec fn spec_program_id() -> Seq<u8> {
    seq![
        76u8, 163u8, 16u8, 132u8, 37u8, 148u8, 204u8, 85u8, 90u8, 33u8, 252u8, 168u8, 240u8, 212u8,
        223u8, 186u8, 135u8, 114u8, 240u8, 187u8, 228u8, 137u8, 91u8, 133u8, 93u8, 8u8, 138u8, 36u8,
        255u8, 209u8, 255u8, 129u8,
    ]
}

/// The program's id.
pub fn program_id() -> (k: Pubkey)
    ensures
        k@ == spec_program_id(),
{
    let k = Pubkey {
        bytes: [
            76, 163, 16, 132, 37, 148, 204, 85, 90, 33, 252, 168, 240, 212, 223, 186, 135, 114, 240,
            187, 228, 137, 91, 133, 93, 8, 138, 36, 255, 209, 255, 129,
        ],
    };
    assert(k@ =~= spec_program_id());
    k
}

/// Seed of an affair account: `affair`.
pub open spec fn seed_affair() -> Seq<u8> {
    seq![97u8, 102u8, 102u8, 97u8, 105u8, 114u8]
}

/// Seed of the list of listed affairs: `affair_list`.
pub open spec fn seed_affair_list() -> Seq<u8> {
    seq![97u8, 102u8, 102u8, 97u8, 105u8, 114u8, 95u8, 108u8, 105u8, 115u8, 116u8]
}

/// Seed of escrow accounts and of the fee vault: `escrow`.
pub open spec fn seed_escrow() -> Seq<u8> {
    seq![101u8, 115u8, 99u8, 114u8, 111u8, 119u8]
}

/// Seed of a lender account: `lender`.
pub open spec fn seed_lender() -> Seq<u8> {
    seq![108u8, 101u8, 110u8, 100u8, 101u8, 114u8]
}

/// Seed of a rental account: `rental`.
pub open spec fn seed_rental() -> Seq<u8> {
    seq![114u8, 101u8, 110u8, 116u8, 97u8, 108u8]
}

/// Seed of a session account: `session`.
pub open spec fn seed_session() -> Seq<u8> {
    seq![115u8, 101u8, 115u8, 115u8, 105u8, 111u8, 110u8]
}

/// Seed of the list of sessions: `session_list`.
pub open spec fn seed_session_list() -> Seq<u8> {
    seq![115u8, 101u8, 115u8, 115u8, 105u8, 111u8, 110u8, 95u8, 108u8, 105u8, 115u8, 116u8]
}

/// Seed of a scheduler thread: `thread`.
pub open spec fn seed_thread() -> Seq<u8> {
    seq![116u8, 104u8, 114u8, 101u8, 97u8, 100u8]
}

/// `affair`
pub fn seed_affair_bytes() -> (s: Vec<u8>)
    ensures
        s@ == seed_affair(),
{
    let s = vec![97u8, 102, 102, 97, 105, 114];
    assert(s@ =~= seed_affair());
    s
}

/// `affair_list`
pub fn seed_affair_list_bytes() -> (s: Vec<u8>)
    ensures
        s@ == seed_affair_list(),
{
    let s = vec![97u8, 102, 102, 97, 105, 114, 95, 108, 105, 115, 116];
    assert(s@ =~= seed_affair_list());
    s
}

/// `escrow`
pub fn seed_escrow_bytes() -> (s: Vec<u8>)
    ensures
        s@ == seed_escrow(),
{
    let s = vec![101u8, 115, 99, 114, 111, 119];
    assert(s@ =~= seed_escrow());
    s
}

/// `lender`
pub fn seed_lender_bytes() -> (s: Vec<u8>)
    ensures
        s@ == seed_lender(),
{
    let s = vec![108u8, 101, 110, 100, 101, 114];
    assert(s@ =~= seed_lender());
    s
}

/// `rental`
pub fn seed_rental_bytes() -> (s: Vec<u8>)
    ensures
        s@ == seed_rental(),
{
    let s = vec![114u8, 101, 110, 116, 97, 108];
    assert(s@ =~= seed_rental());
    s
}

/// `session`
pub fn seed_session_bytes() -> (s: Vec<u8>)
    ensures
        s@ == seed_session(),
{
    let s = vec![115u8, 101, 115, 115, 105, 111, 110];
    assert(s@ =~= seed_session());
    s
}

/// `session_list`
pub fn seed_session_list_bytes() -> (s: Vec<u8>)
    ensures
        s@ == seed_session_list(),
{
    let s = vec![115u8, 101, 115, 115, 105, 111, 110, 95, 108, 105, 115, 116];
    assert(s@ =~= seed_session_list());
    s
}

/// `thread`
pub fn seed_thread_bytes() -> (s: Vec<u8>)
    ensures
        s@ == seed_thread(),
{
    let s = vec![116u8, 104, 114, 101, 97, 100];
    assert(s@ =~= seed_thread());
    s
}

/// The byte strings of a list of seeds.
pub open spec fn seeds_view(seeds: Seq<Vec<u8>>) -> Seq<Seq<u8>> {
    seeds.map_values(|s: Vec<u8>| s@)
}

/// What `Pubkey::try_find_program_address` of `solana_program` returns for the
/// given seeds and program id: the first address, searching the bump seed down
/// from 255, that hashes off the ed25519 curve, with its bump seed.
pub uninterp spec fn program_address(seeds: Seq<Seq<u8>>, program_id: Seq<u8>) -> Option<(Seq<u8>, u8)>;

/// A list of seeds that the derivation refuses: more than fifteen seeds (the
/// bump seed makes sixteen), or a seed longer than thirty-two bytes.
pub open spec fn seeds_too_long(seeds: Seq<Seq<u8>>) -> bool {
    ||| seeds.len() > 15
    ||| exists|i: int| 0 <= i < seeds.len() && #[trigger] seeds[i].len() > 32
}

/// The address and bump seed of an optional derivation result, by their views.
pub open spec fn address_view(r: Option<(Pubkey, u8)>) -> Option<(Seq<u8>, u8)> {
    match r {
        Some((k, b)) => Some((k@, b)),
        None => None,
    }
}

/// Calls `solana_program::pubkey::Pubkey::try_find_program_address`.
/// Trusted: the result is the named `program_address` of the seeds and program id;
/// and, as `create_program_address` refuses such seeds for every bump, there is
/// no address when the seeds are too many or too long.
#[verifier::external_body]
pub(crate) fn try_find_program_address(seeds: &Vec<Vec<u8>>, program_id: &Pubkey) -> (r: Option<(Pubkey, u8)>)
    ensures
        address_view(r) == program_address(seeds_view(seeds@), program_id@),
        seeds_too_long(seeds_view(seeds@)) ==> r is None,
{
    let slices: Vec<&[u8]> = seeds.iter().map(|s| s.as_slice()).collect();
    let id = solana_program::pubkey::Pubkey::new_from_array(program_id.bytes);
    match solana_program::pubkey::Pubkey::try_find_program_address(&slices, &id) {
        Some((k, b)) => Some((Pubkey { bytes: k.to_bytes() }, b)),
        None => None,
    }
}

} // verus!

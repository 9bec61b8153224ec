use shaga::pda::program_id;
use shaga::pubkey::Pubkey;
use shaga::states::affair::Affair;
use shaga::states::affair_list::AffairsList;
use shaga::states::escrow::Escrow;
use shaga::states::lender::Lender;
use shaga::states::rental::Rental;
use shaga::states::session::Session;
use shaga::states::session_list::SessionsList;
use solana_program::pubkey::Pubkey as SolanaPubkey;

fn declared_id() -> SolanaPubkey {
    SolanaPubkey::new_from_array(program_id().bytes)
}

fn expected(seeds: &[&[u8]]) -> (Pubkey, u8) {
    let (k, b) = SolanaPubkey::find_program_address(seeds, &declared_id());
    (Pubkey::new_from_array(k.to_bytes()), b)
}

fn owner() -> Pubkey {
    Pubkey::new_from_array([7u8; 32])
}

#[test]
fn affair_pda_derives_from_owner() {
    let got = Affair::pda(owner()).unwrap();
    assert_eq!(got, expected(&[b"affair", &owner().bytes]));
    assert_ne!(got.0, owner());
}

#[test]
fn lender_pda_derives_from_owner() {
    assert_eq!(Lender::pda(owner()).unwrap(), expected(&[b"lender", &owner().bytes]));
}

#[test]
fn rental_pda_derives_from_owner() {
    assert_eq!(Rental::pda(owner()).unwrap(), expected(&[b"rental", &owner().bytes]));
}

#[test]
fn session_pda_derives_from_owner() {
    assert_eq!(Session::pda(owner()).unwrap(), expected(&[b"session", &owner().bytes]));
}

#[test]
fn singleton_pdas() {
    assert_eq!(AffairsList::pda().unwrap(), expected(&[b"affair_list"]));
    assert_eq!(SessionsList::pda().unwrap(), expected(&[b"session_list"]));
    assert_eq!(Escrow::pda().unwrap(), expected(&[b"escrow"]));
}

#[test]
fn different_owners_get_different_affairs() {
    let a = Affair::pda(Pubkey::new_from_array([1u8; 32])).unwrap();
    let b = Affair::pda(Pubkey::new_from_array([2u8; 32])).unwrap();
    assert_ne!(a.0, b.0);
}

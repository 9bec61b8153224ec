use shaga::pda::program_id;
use shaga::pubkey::Pubkey;
use std::str::FromStr;

#[test]
fn program_id_matches_declared_id() {
    let declared =
        solana_program::pubkey::Pubkey::from_str("6AACcBoHBKc2XndsuQpgf6S9M5HP8jDUsgbn7R6EJAMW").unwrap();
    assert_eq!(program_id().bytes, declared.to_bytes());
}

#[test]
fn default_key_is_zero() {
    assert_eq!(Pubkey::default_key().bytes, [0u8; 32]);
    assert!(Pubkey::default_key().is_default());
}

//! On-chain logic of a marketplace where lenders list computers ("affairs")
//! and clients rent them for a prepaid period, with escrowed payment.
pub mod checks;
pub mod errors;
pub mod pda;
pub mod pubkey;
pub mod settlement;
pub mod space;
pub mod states;
pub mod thread;
pub mod instructions;
pub mod laws;

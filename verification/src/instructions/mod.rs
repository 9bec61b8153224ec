//! The decisions of the program's instructions. Each takes the accounts that
//! the instruction reads and writes, and the values that the runtime supplies
//! (signers, the clock, balances), and returns what is left for the runtime to do.
pub mod create_affair;
pub mod create_lender;
pub mod create_session;
pub mod end_rental;
pub mod join_session;
pub mod start_rental;
pub mod terminate_affair;
pub mod terminate_vacant_affair;

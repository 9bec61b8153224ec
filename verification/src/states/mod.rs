//! The accounts that the program keeps.
pub mod affair;
pub mod affair_list;
pub mod escrow;
pub mod lender;
pub mod rental;
pub mod session;
pub mod session_list;

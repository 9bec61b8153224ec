//! The program's error codes.
use vstd::prelude::*;

verus! {

/// Offset that the Anchor framework adds to the index of a custom error to
/// form its on-chain error number.
pub const ERROR_CODE_OFFSET: u32 = 6000;

/// Every way in which an instruction of the program can be refused.
///
/// The first ten variants are numbered as declared; the rest are the errors
/// that the instruction handlers raise in addition.
#[derive(Clone, Copy, Debug, PartialEq, Eq, Structural)]
pub enum ShagaErrorCode {
    InvalidAffair,
    InvalidLender,
    InvalidPayload,
    AffairListFull,
    ClientAlreadyInAffair,
    InsufficientFunds,
    InvalidRentalTerminationTime,
    InvalidTerminationTime,
    AffairAlreadyJoined,
    ThreadInitializationFailed,
    InvalidSigner,
    NumericalOverflow,
    InvalidTerminationInstruction,
    UnauthorizedAffairCreation,
    InvalidSession,
    ClientAlreadyInSession,
}

/// Position of an error in the declaration order.
pub open spec fn error_index(e: ShagaErrorCode) -> nat {
    match e {
        ShagaErrorCode::InvalidAffair => 0,
        ShagaErrorCode::InvalidLender => 1,
        ShagaErrorCode::InvalidPayload => 2,
        ShagaErrorCode::AffairListFull => 3,
        ShagaErrorCode::ClientAlreadyInAffair => 4,
        ShagaErrorCode::InsufficientFunds => 5,
        ShagaErrorCode::InvalidRentalTerminationTime => 6,
        ShagaErrorCode::InvalidTerminationTime => 7,
        ShagaErrorCode::AffairAlreadyJoined => 8,
        ShagaErrorCode::ThreadInitializationFailed => 9,
        ShagaErrorCode::InvalidSigner => 10,
        ShagaErrorCode::NumericalOverflow => 11,
        ShagaErrorCode::InvalidTerminationInstruction => 12,
        ShagaErrorCode::UnauthorizedAffairCreation => 13,
        ShagaErrorCode::InvalidSession => 14,
        ShagaErrorCode::ClientAlreadyInSession => 15,
    }
}

impl ShagaErrorCode {
    /// The error number reported on chain: the offset plus the position of the
    /// variant.
    pub fn code(&self) -> (c: u32)
        ensures
            c == ERROR_CODE_OFFSET + error_index(*self),
    {
        let i: u32 = match self {
            ShagaErrorCode::InvalidAffair => 0,
            ShagaErrorCode::InvalidLender => 1,
            ShagaErrorCode::InvalidPayload => 2,
            ShagaErrorCode::AffairListFull => 3,
            ShagaErrorCode::ClientAlreadyInAffair => 4,
            ShagaErrorCode::InsufficientFunds => 5,
            ShagaErrorCode::InvalidRentalTerminationTime => 6,
            ShagaErrorCode::InvalidTerminationTime => 7,
            ShagaErrorCode::AffairAlreadyJoined => 8,
            ShagaErrorCode::ThreadInitializationFailed => 9,
            ShagaErrorCode::InvalidSigner => 10,
            ShagaErrorCode::NumericalOverflow => 11,
            ShagaErrorCode::InvalidTerminationInstruction => 12,
            ShagaErrorCode::UnauthorizedAffairCreation => 13,
            ShagaErrorCode::InvalidSession => 14,
            ShagaErrorCode::ClientAlreadyInSession => 15,
        };
        ERROR_CODE_OFFSET + i
    }
}

/// Distinct errors have distinct on-chain numbers.
pub proof fn lemma_error_codes_distinct(a: ShagaErrorCode, b: ShagaErrorCode)
    requires
        a != b,
    ensures
        ERROR_CODE_OFFSET + error_index(a) != ERROR_CODE_OFFSET + error_index(b),
{
}

} // verus!

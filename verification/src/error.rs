//! Error taxonomy of the pool program.
//!
//! [`PinocchioError`] lists the program-specific rejections; each has a stable
//! numeric code. [`ProgramError`] is what every fallible operation returns: a
//! program-specific code or one of the ledger's generic structural errors.

use vstd::prelude::*;

verus! {

/// Program-specific reasons for rejecting an instruction.
#[derive(Clone, Copy, Debug, PartialEq, Eq, Structural)]
pub enum PinocchioError {
    InvalidAmount,
    SlippageExceeded,
    InsufficientLiquidity,
    PoolAlreadyInitialized,
    InvalidFeeRate,
    MathOverflow,
    InvalidTokenMint,
    Unauthorized,
    InvalidPoolState,
    IdenticalMints,
}

/// Reasons an instruction fails, as surfaced to the ledger.
#[derive(Clone, Copy, Debug, PartialEq, Eq, Structural)]
pub enum ProgramError {
    /// A program-specific error, by its numeric code.
    Custom(u32),
    InvalidArgument,
    InvalidInstructionData,
    InvalidAccountData,
    InsufficientFunds,
    NotEnoughAccountKeys,
    InvalidSeeds,
    IllegalOwner,
}

impl PinocchioError {
    /// The stable numeric code of this error.
    pub open spec fn spec_code(self) -> u32 {
        match self {
            PinocchioError::InvalidAmount => 0,
            PinocchioError::SlippageExceeded => 1,
            PinocchioError::InsufficientLiquidity => 2,
            PinocchioError::PoolAlreadyInitialized => 3,
            PinocchioError::InvalidFeeRate => 4,
            PinocchioError::MathOverflow => 5,
            PinocchioError::InvalidTokenMint => 6,
            PinocchioError::Unauthorized => 7,
            PinocchioError::InvalidPoolState => 8,
            PinocchioError::IdenticalMints => 9,
        }
    }

    /// The human-readable text of this error.
    pub open spec fn spec_discription(self) -> Seq<char> {
        match self {
            PinocchioError::InvalidAmount => "Invalid amount provided"@,
            PinocchioError::SlippageExceeded => "Slippage exceeded the allowed limit"@,
            PinocchioError::InsufficientLiquidity => "Insufficient liquidity in the pool"@,
            PinocchioError::PoolAlreadyInitialized => "The pool is already initialized"@,
            PinocchioError::InvalidFeeRate => "Invalid fee rate provided"@,
            PinocchioError::MathOverflow => "Math operation resulted in overflow"@,
            PinocchioError::InvalidTokenMint => "Invalid token mint provided"@,
            PinocchioError::Unauthorized => "Unauthorized access"@,
            PinocchioError::InvalidPoolState => "The pool is in an invalid state"@,
            PinocchioError::IdenticalMints => "Cannot swap between identical mints"@,
        }
    }

    /// The error as the ledger reports it: `Custom` with this error's code.
    pub open spec fn spec_program_error(self) -> ProgramError {
        ProgramError::Custom(self.spec_code())
    }

    /// The stable numeric code of this error.
    pub fn code(&self) -> (c: u32)
        ensures
            c == self.spec_code(),
    {
        match self {
            PinocchioError::InvalidAmount => 0,
            PinocchioError::SlippageExceeded => 1,
            PinocchioError::InsufficientLiquidity => 2,
            PinocchioError::PoolAlreadyInitialized => 3,
            PinocchioError::InvalidFeeRate => 4,
            PinocchioError::MathOverflow => 5,
            PinocchioError::InvalidTokenMint => 6,
            PinocchioError::Unauthorized => 7,
            PinocchioError::InvalidPoolState => 8,
            PinocchioError::IdenticalMints => 9,
        }
    }

    /// The human-readable text of this error.
    pub fn discription(&self) -> (s: &'static str)
        ensures
            s@ == self.spec_discription(),
    {
        match self {
            PinocchioError::InvalidAmount => "Invalid amount provided",
            PinocchioError::SlippageExceeded => "Slippage exceeded the allowed limit",
            PinocchioError::InsufficientLiquidity => "Insufficient liquidity in the pool",
            PinocchioError::PoolAlreadyInitialized => "The pool is already initialized",
            PinocchioError::InvalidFeeRate => "Invalid fee rate provided",
            PinocchioError::MathOverflow => "Math operation resulted in overflow",
            PinocchioError::InvalidTokenMint => "Invalid token mint provided",
            PinocchioError::Unauthorized => "Unauthorized access",
            PinocchioError::InvalidPoolState => "The pool is in an invalid state",
            PinocchioError::IdenticalMints => "Cannot swap between identical mints",
        }
    }
}

impl From<PinocchioError> for ProgramError {
    fn from(e: PinocchioError) -> (r: ProgramError) {
        ProgramError::Custom(e.code())
    }
}

impl vstd::std_specs::convert::FromSpecImpl<PinocchioError> for ProgramError {
    open spec fn obeys_from_spec() -> bool {
        true
    }

    open spec fn from_spec(e: PinocchioError) -> ProgramError {
        e.spec_program_error()
    }
}

/// Distinct errors have distinct codes, and every code is below ten.
pub proof fn lemma_codes_are_distinct(a: PinocchioError, b: PinocchioError)
    ensures
        a.spec_code() < 10,
        a.spec_code() == b.spec_code() <==> a == b,
{
}

} // verus!

use pinocchio_amm::{PinocchioError, ProgramError};

const ALL: [PinocchioError; 10] = [
    PinocchioError::InvalidAmount,
    PinocchioError::SlippageExceeded,
    PinocchioError::InsufficientLiquidity,
    PinocchioError::PoolAlreadyInitialized,
    PinocchioError::InvalidFeeRate,
    PinocchioError::MathOverflow,
    PinocchioError::InvalidTokenMint,
    PinocchioError::Unauthorized,
    PinocchioError::InvalidPoolState,
    PinocchioError::IdenticalMints,
];

#[test]
fn codes_are_stable() {
    for (index, error) in ALL.iter().enumerate() {
        assert_eq!(error.code() as usize, index);
    }
    assert_eq!(PinocchioError::InvalidAmount.code(), 0x0);
    assert_eq!(PinocchioError::MathOverflow.code(), 0x5);
    assert_eq!(PinocchioError::IdenticalMints.code(), 0x9);
}

#[test]
fn program_error_carries_the_code() {
    for error in ALL {
        assert_eq!(ProgramError::from(error), ProgramError::Custom(error.code()));
    }
    let converted: ProgramError = PinocchioError::Unauthorized.into();
    assert_eq!(converted, ProgramError::Custom(7));
}

#[test]
fn program_error_codes_match_the_ledgers() {
    // The ledger reports a custom error by the same number.
    for error in ALL {
        let ours = ProgramError::from(error);
        let theirs = pinocchio::program_error::ProgramError::Custom(error.code());
        match ours {
            ProgramError::Custom(code) => {
                assert_eq!(pinocchio::program_error::ProgramError::Custom(code), theirs)
            }
            _ => panic!("a program-specific error is a custom error"),
        }
    }
}

#[test]
fn descriptions_are_distinct_and_worded() {
    assert_eq!(PinocchioError::InvalidAmount.discription(), "Invalid amount provided");
    assert_eq!(
        PinocchioError::SlippageExceeded.discription(),
        "Slippage exceeded the allowed limit"
    );
    assert_eq!(
        PinocchioError::InsufficientLiquidity.discription(),
        "Insufficient liquidity in the pool"
    );
    assert_eq!(
        PinocchioError::PoolAlreadyInitialized.discription(),
        "The pool is already initialized"
    );
    assert_eq!(PinocchioError::InvalidFeeRate.discription(), "Invalid fee rate provided");
    assert_eq!(
        PinocchioError::MathOverflow.discription(),
        "Math operation resulted in overflow"
    );
    assert_eq!(PinocchioError::InvalidTokenMint.discription(), "Invalid token mint provided");
    assert_eq!(PinocchioError::Unauthorized.discription(), "Unauthorized access");
    assert_eq!(PinocchioError::InvalidPoolState.discription(), "The pool is in an invalid state");
    assert_eq!(
        PinocchioError::IdenticalMints.discription(),
        "Cannot swap between identical mints"
    );
    for (i, a) in ALL.iter().enumerate() {
        for b in ALL.iter().skip(i + 1) {
            assert_ne!(a.discription(), b.discription());
        }
    }
}

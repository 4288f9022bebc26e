use pinocchio_amm::engine::{
    quote_deposit, quote_swap, quote_withdrawal, FEE_DENOMINATOR, MINIMUM_LIQUIDITY,
};
use pinocchio_amm::math::{checked_proportional_share, integer_sqrt};
use pinocchio_amm::{PinocchioError, ProgramError};

fn custom(e: PinocchioError) -> ProgramError {
    ProgramError::from(e)
}

#[test]
fn integer_sqrt_rounds_down() {
    assert_eq!(integer_sqrt(0), 0);
    assert_eq!(integer_sqrt(1), 1);
    assert_eq!(integer_sqrt(2), 1);
    assert_eq!(integer_sqrt(3), 1);
    assert_eq!(integer_sqrt(4), 2);
    assert_eq!(integer_sqrt(99), 9);
    assert_eq!(integer_sqrt(100), 10);
    assert_eq!(integer_sqrt(101), 10);
    assert_eq!(integer_sqrt(2_000_000), 1414);
    assert_eq!(integer_sqrt(1_000_000_000_000), 1_000_000);
}

#[test]
fn integer_sqrt_at_the_width_of_the_product() {
    let max = u64::MAX as u128;
    assert_eq!(integer_sqrt(u128::MAX), u64::MAX);
    assert_eq!(integer_sqrt(max * max), u64::MAX);
    assert_eq!(integer_sqrt(max * max - 1), u64::MAX - 1);
    assert_eq!(integer_sqrt((max - 1) * (max - 1)), u64::MAX - 1);
    // 2^53 + 1 squared is beyond what a 64-bit float holds exactly.
    let odd: u128 = (1 << 53) + 1;
    assert_eq!(integer_sqrt(odd * odd), odd as u64);
    assert_eq!(integer_sqrt(odd * odd - 1), (odd - 1) as u64);
}

#[test]
fn proportional_share_uses_a_wide_product() {
    assert_eq!(checked_proportional_share(10, 1000, 100), Some(100));
    assert_eq!(checked_proportional_share(7, 3, 2), Some(10));
    assert_eq!(checked_proportional_share(0, 5, 9), Some(0));
    assert_eq!(checked_proportional_share(5, 5, 0), None);
    assert_eq!(checked_proportional_share(u64::MAX, u64::MAX, u64::MAX), Some(u64::MAX));
    assert_eq!(checked_proportional_share(u64::MAX, u64::MAX, u64::MAX - 1), None);
    assert_eq!(checked_proportional_share(u64::MAX, 2, 2), Some(u64::MAX));
    assert_eq!(checked_proportional_share(u64::MAX, 2, 1), None);
}

#[test]
fn bootstrap_mints_the_geometric_mean() {
    assert_eq!(quote_deposit(1_000_000, 1_000_000, 0, 0, 0, 0), Ok(1_000_000));
    assert_eq!(quote_deposit(4_000_000, 1_000_000, 2_000_000, 0, 0, 0), Ok(2_000_000));
    assert_eq!(quote_deposit(2, 1_000_000, 0, 0, 0, 0), Ok(1414));
    assert_eq!(quote_deposit(u64::MAX, u64::MAX, 0, 0, 0, 0), Ok(u64::MAX));
    // The supply plays no part while both reserves are empty.
    assert_eq!(quote_deposit(1_000_000, 1_000_000, 0, 0, 0, 77), Ok(1_000_000));
}

#[test]
fn bootstrap_below_the_minimum_liquidity_is_refused() {
    assert_eq!(MINIMUM_LIQUIDITY, 1000);
    assert_eq!(
        quote_deposit(1, 1, 0, 0, 0, 0),
        Err(custom(PinocchioError::InsufficientLiquidity))
    );
    assert_eq!(
        quote_deposit(999, 1000, 0, 0, 0, 0),
        Err(custom(PinocchioError::InsufficientLiquidity))
    );
    assert_eq!(quote_deposit(1000, 1000, 0, 0, 0, 0), Ok(1000));
}

#[test]
fn bootstrap_of_nothing_is_refused() {
    assert_eq!(quote_deposit(0, 5_000, 0, 0, 0, 0), Err(custom(PinocchioError::InvalidAmount)));
    assert_eq!(quote_deposit(5_000, 0, 0, 0, 0, 0), Err(custom(PinocchioError::InvalidAmount)));
}

#[test]
fn bootstrap_below_the_callers_floor_is_refused() {
    assert_eq!(
        quote_deposit(1_000_000, 1_000_000, 1_000_001, 0, 0, 0),
        Err(custom(PinocchioError::SlippageExceeded))
    );
    assert_eq!(quote_deposit(1_000_000, 1_000_000, 1_000_000, 0, 0, 0), Ok(1_000_000));
}

#[test]
fn steady_deposit_in_the_pool_ratio_is_proportional() {
    // Reserves 1000 : 2000 with a supply of 500; a tenth of each reserve.
    assert_eq!(checked_proportional_share(100, 500, 1000), Some(50));
    assert_eq!(checked_proportional_share(200, 500, 2000), Some(50));
    assert_eq!(quote_deposit(100, 200, 0, 1000, 2000, 500), Ok(50));
    // A ratio that does not divide evenly still earns the same from both.
    assert_eq!(checked_proportional_share(7, 10, 3), Some(23));
    assert_eq!(checked_proportional_share(21, 10, 9), Some(23));
    assert_eq!(quote_deposit(7, 21, 0, 3, 9, 10), Ok(23));
}

#[test]
fn steady_deposit_off_the_ratio_mints_the_smaller_share() {
    // Twice as much of B as the ratio asks for earns nothing more.
    assert_eq!(quote_deposit(100, 400, 0, 1000, 2000, 500), Ok(50));
    assert_eq!(quote_deposit(200, 200, 0, 1000, 2000, 500), Ok(50));
    // Both at the larger ratio would have earned more.
    assert_eq!(quote_deposit(200, 400, 0, 1000, 2000, 500), Ok(100));
}

#[test]
fn steady_deposit_needs_both_reserves_and_a_supply() {
    let refused = Err(custom(PinocchioError::InvalidPoolState));
    assert_eq!(quote_deposit(10, 10, 0, 0, 1000, 500), refused);
    assert_eq!(quote_deposit(10, 10, 0, 1000, 0, 500), refused);
    assert_eq!(quote_deposit(10, 10, 0, 1000, 1000, 0), refused);
}

#[test]
fn steady_deposit_that_overflows_is_refused_not_wrapped() {
    let amount = u64::MAX / 2;
    assert_eq!(
        quote_deposit(amount, amount, 0, 1, 1, 1_000_000),
        Err(custom(PinocchioError::MathOverflow))
    );
    // Only the share of A overflows.
    assert_eq!(
        quote_deposit(amount, 1, 0, 1, 1_000_000, 1_000_000),
        Err(custom(PinocchioError::MathOverflow))
    );
    // Only the share of B overflows.
    assert_eq!(
        quote_deposit(1, amount, 0, 1_000_000, 1, 1_000_000),
        Err(custom(PinocchioError::MathOverflow))
    );
    // A product beyond 64 bits whose quotient fits is exact.
    assert_eq!(quote_deposit(amount, amount, 0, amount, amount, amount), Ok(amount));
}

#[test]
fn steady_deposit_that_mints_nothing_is_refused() {
    assert_eq!(
        quote_deposit(1, 1, 0, 1000, 1000, 1),
        Err(custom(PinocchioError::InvalidAmount))
    );
}

#[test]
fn steady_deposit_below_the_callers_floor_is_refused() {
    assert_eq!(
        quote_deposit(100, 200, 51, 1000, 2000, 500),
        Err(custom(PinocchioError::SlippageExceeded))
    );
    assert_eq!(quote_deposit(100, 200, 50, 1000, 2000, 500), Ok(50));
}

#[test]
fn withdrawal_pays_the_share_of_both_reserves() {
    assert_eq!(quote_withdrawal(10, 0, 0, 1000, 2000, 100), Ok((100, 200)));
    assert_eq!(quote_withdrawal(1, 0, 0, 10, 1999, 1000), Ok((0, 1)));
    assert_eq!(quote_withdrawal(3, 0, 0, 1000, 7, 7), Ok((428, 3)));
}

#[test]
fn withdrawal_of_the_whole_supply_is_refused() {
    assert_eq!(quote_withdrawal(100, 0, 0, 1000, 2000, 100), Err(ProgramError::InvalidArgument));
    assert_eq!(quote_withdrawal(101, 0, 0, 1000, 2000, 100), Err(ProgramError::InvalidArgument));
    assert_eq!(
        quote_withdrawal(u64::MAX, 0, 0, 1000, 2000, 100),
        Err(ProgramError::InvalidArgument)
    );
    assert_eq!(quote_withdrawal(99, 0, 0, 1000, 2000, 100), Ok((990, 1980)));
}

#[test]
fn withdrawal_without_a_supply_is_refused() {
    assert_eq!(quote_withdrawal(0, 0, 0, 1000, 2000, 0), Err(ProgramError::InsufficientFunds));
    assert_eq!(quote_withdrawal(5, 0, 0, 1000, 2000, 0), Err(ProgramError::InsufficientFunds));
}

#[test]
fn withdrawal_below_a_floor_is_refused() {
    let refused = Err(custom(PinocchioError::SlippageExceeded));
    assert_eq!(quote_withdrawal(10, 101, 0, 1000, 2000, 100), refused);
    assert_eq!(quote_withdrawal(10, 0, 201, 1000, 2000, 100), refused);
    assert_eq!(quote_withdrawal(10, 100, 200, 1000, 2000, 100), Ok((100, 200)));
}

#[test]
fn withdrawal_of_nothing_is_refused() {
    assert_eq!(quote_withdrawal(1, 0, 0, 10, 10, 1000), Err(ProgramError::InvalidArgument));
    assert_eq!(quote_withdrawal(0, 0, 0, 1000, 2000, 100), Err(ProgramError::InvalidArgument));
}

#[test]
fn withdrawal_never_overflows() {
    assert_eq!(
        quote_withdrawal(u64::MAX - 1, 0, 0, u64::MAX, u64::MAX, u64::MAX),
        Ok((u64::MAX - 1, u64::MAX - 1))
    );
    assert_eq!(
        quote_withdrawal(u64::MAX / 2, 0, 0, u64::MAX, 3, u64::MAX),
        Ok((u64::MAX / 2, 1))
    );
}

#[test]
fn round_trip_mints_back_no_more_than_was_burned() {
    let cases: [(u64, u64, u64, u64); 5] = [
        (10, 1000, 2000, 100),
        (3, 1000, 7, 7),
        (333, 1_000_003, 999_983, 1000),
        (1, 5, 5, 3),
        (u64::MAX / 3, u64::MAX, u64::MAX - 5, u64::MAX / 2),
    ];
    for (lp_tokens, reserve_a, reserve_b, lp_supply) in cases {
        let (amount_a, amount_b) =
            quote_withdrawal(lp_tokens, 0, 0, reserve_a, reserve_b, lp_supply).unwrap();
        assert!(amount_a <= reserve_a && amount_b <= reserve_b);
        let back = quote_deposit(
            amount_a,
            amount_b,
            0,
            reserve_a - amount_a,
            reserve_b - amount_b,
            lp_supply - lp_tokens,
        );
        if let Ok(minted) = back {
            assert!(minted <= lp_tokens);
            // What is lost is what the roundings down took.
            let lost = (lp_tokens - minted) as i128 - 1;
            let left_a = (reserve_a - amount_a) as i128;
            let left_b = (reserve_b - amount_b) as i128;
            assert!(lost * left_a < lp_supply as i128 || lost * left_b < lp_supply as i128);
            if left_a >= lp_supply as i128 && left_b >= lp_supply as i128 {
                assert!(minted + 1 >= lp_tokens);
            }
        }
    }
    // A supply far above the reserves loses more than one token to rounding.
    assert_eq!(quote_withdrawal(500, 0, 0, 10, 10, 1000), Ok((5, 5)));
    assert_eq!(quote_deposit(5, 5, 0, 5, 5, 500), Ok(500));
    assert_eq!(quote_withdrawal(599, 0, 0, 10, 10, 1000), Ok((5, 5)));
    assert_eq!(quote_deposit(5, 5, 0, 5, 5, 401), Ok(401));
    // An exact share comes back exactly.
    assert_eq!(quote_withdrawal(10, 0, 0, 1000, 2000, 100), Ok((100, 200)));
    assert_eq!(quote_deposit(100, 200, 0, 900, 1800, 90), Ok(10));
}

#[test]
fn swap_follows_the_constant_product() {
    assert_eq!(FEE_DENOMINATOR, 10000);
    assert_eq!(quote_swap(1000, 0, 0, 1000, 1000), Ok(500));
    assert_eq!(quote_swap(1000, 0, 30, 1000, 1000), Ok(499));
    assert_eq!(quote_swap(100, 0, 0, 1000, 5000), Ok(454));
    assert_eq!(quote_swap(100, 0, 250, 1000, 5000), Ok(442));
    assert_eq!(quote_swap(1, 0, 0, 1000, 1000), Ok(0));
}

#[test]
fn swap_of_nothing_is_refused() {
    let refused = Err(custom(PinocchioError::InvalidAmount));
    assert_eq!(quote_swap(0, 0, 30, 1000, 1000), refused);
    assert_eq!(quote_swap(0, 0, 0, 1000, 1000), refused);
    assert_eq!(quote_swap(0, 0, 0, 0, 0), refused);
    assert_eq!(quote_swap(0, u64::MAX, 10001, 0, 1000), refused);
}

#[test]
fn swap_with_the_whole_amount_as_fee_pays_nothing() {
    assert_eq!(quote_swap(1000, 0, 10000, 1000, 1000), Ok(0));
    assert_eq!(
        quote_swap(1000, 1, 10000, 1000, 1000),
        Err(custom(PinocchioError::SlippageExceeded))
    );
}

#[test]
fn swap_with_a_fee_above_the_whole_is_refused() {
    assert_eq!(quote_swap(1000, 0, 10001, 1000, 1000), Err(custom(PinocchioError::MathOverflow)));
    assert_eq!(
        quote_swap(1000, 0, u16::MAX, 1000, 1000),
        Err(custom(PinocchioError::MathOverflow))
    );
}

#[test]
fn swap_into_nothing_is_refused() {
    assert_eq!(quote_swap(1, 0, 10000, 0, 1000), Err(custom(PinocchioError::MathOverflow)));
    assert_eq!(quote_swap(1, 0, 1, 0, 1000), Err(custom(PinocchioError::MathOverflow)));
}

#[test]
fn swap_below_the_callers_floor_is_refused() {
    assert_eq!(
        quote_swap(1000, 501, 0, 1000, 1000),
        Err(custom(PinocchioError::SlippageExceeded))
    );
    assert_eq!(quote_swap(1000, 500, 0, 1000, 1000), Ok(500));
}

#[test]
fn swap_approaches_but_never_reaches_the_output_reserve() {
    assert_eq!(quote_swap(u64::MAX, 0, 0, 1, 1000), Ok(999));
    assert_eq!(quote_swap(u64::MAX, 0, 0, u64::MAX, u64::MAX), Ok(u64::MAX / 2));
    assert_eq!(quote_swap(u64::MAX, 0, 0, 1, u64::MAX), Ok(u64::MAX - 1));
    assert_eq!(quote_swap(1_000_000_000, 0, 0, 1, 1), Ok(0));
    // An empty input reserve is the one case in which everything is paid out.
    assert_eq!(quote_swap(1, 0, 0, 0, 1000), Ok(1000));
}

#[test]
fn swap_never_lowers_the_product_of_the_reserves() {
    let cases: [(u64, u16, u64, u64); 6] = [
        (1000, 0, 1000, 1000),
        (1000, 30, 1000, 1000),
        (1, 1, 1_000_000, 1_000_000),
        (999_999, 9999, 7, 1_000_000_007),
        (u64::MAX / 4, 5000, u64::MAX / 4, u64::MAX),
        (3, 0, 10, 10),
    ];
    for (amount_in, fee_rate, reserve_in, reserve_out) in cases {
        let amount_out = quote_swap(amount_in, 0, fee_rate, reserve_in, reserve_out).unwrap();
        assert!(amount_out < reserve_out);
        let before = (reserve_in as u128) * (reserve_out as u128);
        let after = (reserve_in as u128 + amount_in as u128) * ((reserve_out - amount_out) as u128);
        assert!(before <= after);
        if fee_rate > 0 {
            assert!(before < after);
        }
    }
}

//! The pool invariant engine: how many liquidity tokens a deposit mints, what a
//! redemption pays out, and what a swap yields. Each quote is a pure function
//! of the request and of the balances read from the ledger.

use vstd::prelude::*;
use crate::error::{PinocchioError, ProgramError};
use crate::math::{
    checked_proportional_share, floor_sqrt, integer_sqrt, is_floor_sqrt, lemma_floor_div,
    lemma_floor_sqrt_is, lemma_product_fits, lemma_square_monotonic, proportional_share,
};

verus! {

/// Fees are stated in basis points: parts of ten thousand.
pub const FEE_DENOMINATOR: u16 = 10000;

/// The least number of liquidity tokens that the first deposit may mint.
pub const MINIMUM_LIQUIDITY: u64 = 1000;

/// The rejection that carries the code of `e`.
pub open spec fn rejection<T>(e: PinocchioError) -> Result<T, ProgramError> {
    Err(e.spec_program_error())
}

/// The smaller of two amounts.
pub open spec fn smaller(x: u64, y: u64) -> u64 {
    if x <= y {
        x
    } else {
        y
    }
}

/// The last two checks of a deposit: a mint of nothing is refused, and so is
/// one below the caller's floor.
pub open spec fn accept_minted(minted: u64, min_lp_amount: u64) -> Result<u64, ProgramError> {
    if minted == 0 {
        rejection(PinocchioError::InvalidAmount)
    } else if minted < min_lp_amount {
        rejection(PinocchioError::SlippageExceeded)
    } else {
        Ok(minted)
    }
}

/// The liquidity tokens minted for the first deposit into an empty pool: the
/// geometric mean of the two amounts, rounded down.
pub open spec fn bootstrap_quote(amount_a: u64, amount_b: u64, min_lp_amount: u64) -> Result<
    u64,
    ProgramError,
> {
    let product = amount_a as int * amount_b as int;
    if product <= 0 {
        rejection(PinocchioError::InvalidAmount)
    } else if floor_sqrt(product as nat) < MINIMUM_LIQUIDITY {
        rejection(PinocchioError::InsufficientLiquidity)
    } else {
        accept_minted(floor_sqrt(product as nat) as u64, min_lp_amount)
    }
}

/// The liquidity tokens minted for a deposit into a pool that holds reserves:
/// the smaller of the two shares that the amounts are of their reserves.
pub open spec fn steady_quote(
    amount_a: u64,
    amount_b: u64,
    min_lp_amount: u64,
    reserve_a: u64,
    reserve_b: u64,
    lp_supply: u64,
) -> Result<u64, ProgramError> {
    if reserve_a == 0 || reserve_b == 0 || lp_supply == 0 {
        rejection(PinocchioError::InvalidPoolState)
    } else {
        match (
            proportional_share(amount_a, lp_supply, reserve_a),
            proportional_share(amount_b, lp_supply, reserve_b),
        ) {
            (Some(lp_from_a), Some(lp_from_b)) => accept_minted(
                smaller(lp_from_a, lp_from_b),
                min_lp_amount,
            ),
            _ => rejection(PinocchioError::MathOverflow),
        }
    }
}

/// The liquidity tokens that a deposit of `amount_a` and `amount_b` mints.
pub open spec fn deposit_quote(
    amount_a: u64,
    amount_b: u64,
    min_lp_amount: u64,
    reserve_a: u64,
    reserve_b: u64,
    lp_supply: u64,
) -> Result<u64, ProgramError> {
    if reserve_a == 0 && reserve_b == 0 {
        bootstrap_quote(amount_a, amount_b, min_lp_amount)
    } else {
        steady_quote(amount_a, amount_b, min_lp_amount, reserve_a, reserve_b, lp_supply)
    }
}

/// The amounts of the two assets that redeeming `lp_tokens` pays out.
pub open spec fn withdrawal_quote(
    lp_tokens: u64,
    min_amount_a: u64,
    min_amount_b: u64,
    reserve_a: u64,
    reserve_b: u64,
    lp_supply: u64,
) -> Result<(u64, u64), ProgramError> {
    if lp_supply == 0 {
        Err(ProgramError::InsufficientFunds)
    } else if lp_supply <= lp_tokens {
        Err(ProgramError::InvalidArgument)
    } else {
        match (
            proportional_share(lp_tokens, reserve_a, lp_supply),
            proportional_share(lp_tokens, reserve_b, lp_supply),
        ) {
            (Some(amount_a), Some(amount_b)) => {
                if amount_a < min_amount_a || amount_b < min_amount_b {
                    rejection(PinocchioError::SlippageExceeded)
                } else if amount_a == 0 && amount_b == 0 {
                    Err(ProgramError::InvalidArgument)
                } else {
                    Ok((amount_a, amount_b))
                }
            },
            _ => rejection(PinocchioError::MathOverflow),
        }
    }
}

/// What is left of `amount_in` once the fee is taken: `None` for a fee rate
/// above the whole.
pub open spec fn amount_after_fee(amount_in: u64, fee_rate: u16) -> Option<u64> {
    if fee_rate > FEE_DENOMINATOR {
        None
    } else {
        proportional_share(
            amount_in,
            (FEE_DENOMINATOR - fee_rate) as u64,
            FEE_DENOMINATOR as u64,
        )
    }
}

/// The constant-product output for `net_in` added to `reserve_in`.
pub open spec fn constant_product_out(net_in: u64, reserve_in: u64, reserve_out: u64) -> int {
    (net_in as int * reserve_out as int) / (reserve_in as int + net_in as int)
}

/// The amount that a swap of `amount_in` draws from the output reserve. A
/// swap of nothing is refused.
pub open spec fn swap_quote(
    amount_in: u64,
    min_amount_out: u64,
    fee_rate: u16,
    reserve_in: u64,
    reserve_out: u64,
) -> Result<u64, ProgramError> {
    if amount_in == 0 {
        rejection(PinocchioError::InvalidAmount)
    } else {
        match amount_after_fee(amount_in, fee_rate) {
            None => rejection(PinocchioError::MathOverflow),
            Some(net_in) => {
                let amount_out = constant_product_out(net_in, reserve_in, reserve_out);
                if reserve_in as int + net_in as int == 0 || amount_out > u64::MAX {
                    rejection(PinocchioError::MathOverflow)
                } else if amount_out < min_amount_out {
                    rejection(PinocchioError::SlippageExceeded)
                } else {
                    Ok(amount_out as u64)
                }
            },
        }
    }
}

/// A quotient is at most `bound` when the dividend is at most `bound * d`.
pub proof fn lemma_quotient_bounded(x: int, d: int, bound: int)
    by (nonlinear_arith)
    requires
        0 <= x <= bound * d,
        0 < d,
    ensures
        0 <= x / d <= bound,
{
}

fn reject<T>(e: PinocchioError) -> (r: Result<T, ProgramError>)
    ensures
        r == rejection::<T>(e),
{
    Err(ProgramError::from(e))
}

fn check_minted(minted: u64, min_lp_amount: u64) -> (r: Result<u64, ProgramError>)
    ensures
        r == accept_minted(minted, min_lp_amount),
{
    if minted == 0 {
        return reject(PinocchioError::InvalidAmount);
    }
    if minted < min_lp_amount {
        return reject(PinocchioError::SlippageExceeded);
    }
    Ok(minted)
}

/// Quotes a deposit: the liquidity tokens to mint, or why the deposit is
/// refused.
pub fn quote_deposit(
    amount_a: u64,
    amount_b: u64,
    min_lp_amount: u64,
    reserve_a: u64,
    reserve_b: u64,
    lp_supply: u64,
) -> (r: Result<u64, ProgramError>)
    ensures
        r == deposit_quote(amount_a, amount_b, min_lp_amount, reserve_a, reserve_b, lp_supply),
{
    if reserve_a == 0 && reserve_b == 0 {
        proof {
            lemma_product_fits(amount_a, amount_b);
        }
        let product: u128 = (amount_a as u128) * (amount_b as u128);
        if product == 0 {
            return reject(PinocchioError::InvalidAmount);
        }
        let root: u64 = integer_sqrt(product);
        if root < MINIMUM_LIQUIDITY {
            return reject(PinocchioError::InsufficientLiquidity);
        }
        check_minted(root, min_lp_amount)
    } else {
        if reserve_a == 0 || reserve_b == 0 || lp_supply == 0 {
            return reject(PinocchioError::InvalidPoolState);
        }
        let lp_from_a: u64 = match checked_proportional_share(amount_a, lp_supply, reserve_a) {
            Some(lp) => lp,
            None => { return reject(PinocchioError::MathOverflow); },
        };
        let lp_from_b: u64 = match checked_proportional_share(amount_b, lp_supply, reserve_b) {
            Some(lp) => lp,
            None => { return reject(PinocchioError::MathOverflow); },
        };
        let minted: u64 = if lp_from_a <= lp_from_b {
            lp_from_a
        } else {
            lp_from_b
        };
        check_minted(minted, min_lp_amount)
    }
}

/// Quotes a redemption: the amounts of both assets to pay out, or why the
/// redemption is refused.
pub fn quote_withdrawal(
    lp_tokens: u64,
    min_amount_a: u64,
    min_amount_b: u64,
    reserve_a: u64,
    reserve_b: u64,
    lp_supply: u64,
) -> (r: Result<(u64, u64), ProgramError>)
    ensures
        r == withdrawal_quote(
            lp_tokens,
            min_amount_a,
            min_amount_b,
            reserve_a,
            reserve_b,
            lp_supply,
        ),
{
    if lp_supply == 0 {
        return Err(ProgramError::InsufficientFunds);
    }
    if lp_supply <= lp_tokens {
        return Err(ProgramError::InvalidArgument);
    }
    let amount_a: u64 = match checked_proportional_share(lp_tokens, reserve_a, lp_supply) {
        Some(amount) => amount,
        None => { return reject(PinocchioError::MathOverflow); },
    };
    let amount_b: u64 = match checked_proportional_share(lp_tokens, reserve_b, lp_supply) {
        Some(amount) => amount,
        None => { return reject(PinocchioError::MathOverflow); },
    };
    if amount_a < min_amount_a {
        return reject(PinocchioError::SlippageExceeded);
    }
    if amount_b < min_amount_b {
        return reject(PinocchioError::SlippageExceeded);
    }
    if amount_a == 0 && amount_b == 0 {
        return Err(ProgramError::InvalidArgument);
    }
    Ok((amount_a, amount_b))
}

/// Quotes a swap: the amount to pay out of the output reserve, or why the
/// swap is refused.
pub fn quote_swap(
    amount_in: u64,
    min_amount_out: u64,
    fee_rate: u16,
    reserve_in: u64,
    reserve_out: u64,
) -> (r: Result<u64, ProgramError>)
    ensures
        r == swap_quote(amount_in, min_amount_out, fee_rate, reserve_in, reserve_out),
{
    if amount_in == 0 {
        return reject(PinocchioError::InvalidAmount);
    }
    if fee_rate > FEE_DENOMINATOR {
        return reject(PinocchioError::MathOverflow);
    }
    let kept: u64 = (FEE_DENOMINATOR - fee_rate) as u64;
    let net_in: u64 = match checked_proportional_share(amount_in, kept, FEE_DENOMINATOR as u64) {
        Some(net) => net,
        None => { return reject(PinocchioError::MathOverflow); },
    };
    let denominator: u128 = reserve_in as u128 + net_in as u128;
    if denominator == 0 {
        return reject(PinocchioError::MathOverflow);
    }
    proof {
        lemma_product_fits(net_in, reserve_out);
        assert(net_in as int * reserve_out as int <= reserve_out as int * denominator as int)
            by (nonlinear_arith)
            requires
                0 <= net_in as int <= denominator as int,
                0 <= reserve_out as int,
        ;
        lemma_quotient_bounded(
            net_in as int * reserve_out as int,
            denominator as int,
            reserve_out as int,
        );
    }
    let numerator: u128 = (net_in as u128) * (reserve_out as u128);
    let amount_out: u128 = numerator / denominator;
    if amount_out > u64::MAX as u128 {
        return reject(PinocchioError::MathOverflow);
    }
    if amount_out < min_amount_out as u128 {
        return reject(PinocchioError::SlippageExceeded);
    }
    Ok(amount_out as u64)
}

/// A share of a whole never exceeds the whole: for `part <= whole`,
/// `part * reserve / whole` fits and is at most `reserve`.
pub proof fn lemma_share_of_whole(part: u64, reserve: u64, whole: u64)
    requires
        part <= whole,
        whole > 0,
    ensures
        proportional_share(part, reserve, whole) is Some,
        proportional_share(part, reserve, whole)->0 <= reserve,
        part < whole && reserve > 0 ==> proportional_share(part, reserve, whole)->0 < reserve,
{
    let x = part as int * reserve as int;
    assert(0 <= x <= reserve as int * whole as int) by (nonlinear_arith)
        requires
            x == part as int * reserve as int,
            0 <= part as int <= whole as int,
            0 <= reserve as int,
    ;
    lemma_quotient_bounded(x, whole as int, reserve as int);
    if part < whole && reserve > 0 {
        lemma_floor_div(x, whole as int);
        assert(x / (whole as int) < reserve as int) by (nonlinear_arith)
            requires
                x == part as int * reserve as int,
                0 <= part as int,
                part as int + 1 <= whole as int,
                0 < reserve as int,
                (x / (whole as int)) * (whole as int) <= x,
        ;
    }
}

/// A redemption of less than the whole supply never overflows, and pays out
/// no more of either asset than its reserve holds.
pub proof fn lemma_withdrawal_within_reserves(
    lp_tokens: u64,
    min_amount_a: u64,
    min_amount_b: u64,
    reserve_a: u64,
    reserve_b: u64,
    lp_supply: u64,
)
    ensures
        withdrawal_quote(lp_tokens, min_amount_a, min_amount_b, reserve_a, reserve_b, lp_supply)
            != rejection::<(u64, u64)>(PinocchioError::MathOverflow),
        withdrawal_quote(
            lp_tokens,
            min_amount_a,
            min_amount_b,
            reserve_a,
            reserve_b,
            lp_supply,
        ) matches Ok((amount_a, amount_b)) ==> {
            &&& Some(amount_a) == proportional_share(lp_tokens, reserve_a, lp_supply)
            &&& Some(amount_b) == proportional_share(lp_tokens, reserve_b, lp_supply)
            &&& amount_a <= reserve_a
            &&& amount_b <= reserve_b
            &&& amount_a >= min_amount_a
            &&& amount_b >= min_amount_b
            &&& amount_a + amount_b > 0
        },
{
    if lp_supply > 0 && lp_tokens < lp_supply {
        lemma_share_of_whole(lp_tokens, reserve_a, lp_supply);
        lemma_share_of_whole(lp_tokens, reserve_b, lp_supply);
    }
}

/// Redeeming the whole supply or more is always refused: with
/// `InsufficientFunds` where there is no supply, else with `InvalidArgument`.
pub proof fn lemma_full_withdrawal_rejected(
    lp_tokens: u64,
    min_amount_a: u64,
    min_amount_b: u64,
    reserve_a: u64,
    reserve_b: u64,
    lp_supply: u64,
)
    requires
        lp_tokens >= lp_supply,
    ensures
        withdrawal_quote(lp_tokens, min_amount_a, min_amount_b, reserve_a, reserve_b, lp_supply)
            == if lp_supply == 0 {
            Err::<(u64, u64), ProgramError>(ProgramError::InsufficientFunds)
        } else {
            Err::<(u64, u64), ProgramError>(ProgramError::InvalidArgument)
        },
{
}

/// The first deposit into a pool with empty reserves mints `minted` exactly
/// when `minted` is the floor of the square root of the product, is at least
/// the minimum liquidity and meets the caller's floor.
pub proof fn lemma_bootstrap_mints_geometric_mean(
    amount_a: u64,
    amount_b: u64,
    min_lp_amount: u64,
    lp_supply: u64,
    minted: u64,
)
    ensures
        deposit_quote(amount_a, amount_b, min_lp_amount, 0, 0, lp_supply) == Ok::<
            u64,
            ProgramError,
        >(minted) <==> {
            &&& amount_a > 0
            &&& amount_b > 0
            &&& is_floor_sqrt((amount_a as int * amount_b as int) as nat, minted as nat)
            &&& minted >= MINIMUM_LIQUIDITY
            &&& minted >= min_lp_amount
        },
{
    lemma_product_fits(amount_a, amount_b);
    let product = amount_a as int * amount_b as int;
    assert(product > 0 <==> (amount_a > 0 && amount_b > 0)) by (nonlinear_arith)
        requires
            product == amount_a as int * amount_b as int,
            0 <= amount_a as int,
            0 <= amount_b as int,
    ;
    lemma_floor_sqrt_is(product as nat, minted as nat);
    lemma_floor_sqrt_is(product as nat, floor_sqrt(product as nat));
    if product > 0 {
        let root = floor_sqrt(product as nat);
        if root > u64::MAX {
            lemma_square_monotonic(0x1_0000_0000_0000_0000, root);
            assert(0x1_0000_0000_0000_0000int * 0x1_0000_0000_0000_0000int > u128::MAX)
                by (nonlinear_arith);
        }
    }
}

/// A deposit in the pool's own ratio earns the same share from either asset.
pub proof fn lemma_deposit_at_pool_ratio(
    amount_a: u64,
    amount_b: u64,
    reserve_a: u64,
    reserve_b: u64,
    lp_supply: u64,
)
    requires
        reserve_a > 0,
        reserve_b > 0,
        amount_a as int * reserve_b as int == amount_b as int * reserve_a as int,
    ensures
        proportional_share(amount_a, lp_supply, reserve_a) == proportional_share(
            amount_b,
            lp_supply,
            reserve_b,
        ),
{
    lemma_share_is_monotonic(amount_a, amount_b, reserve_a, reserve_b, lp_supply);
    lemma_share_is_monotonic(amount_b, amount_a, reserve_b, reserve_a, lp_supply);
}

/// The share grows with the ratio of the amount to its reserve: where
/// `amount_a / reserve_a <= amount_b / reserve_b`, asset A earns no more than B.
pub proof fn lemma_share_is_monotonic(
    amount_a: u64,
    amount_b: u64,
    reserve_a: u64,
    reserve_b: u64,
    lp_supply: u64,
)
    requires
        reserve_a > 0,
        reserve_b > 0,
        amount_a as int * reserve_b as int <= amount_b as int * reserve_a as int,
    ensures
        (amount_a as int * lp_supply as int) / (reserve_a as int) <= (amount_b as int
            * lp_supply as int) / (reserve_b as int),
{
    let xa = amount_a as int * lp_supply as int;
    let xb = amount_b as int * lp_supply as int;
    let ra = reserve_a as int;
    let rb = reserve_b as int;
    let qa = xa / ra;
    let qb = xb / rb;
    lemma_product_fits(amount_a, lp_supply);
    lemma_product_fits(amount_b, lp_supply);
    lemma_floor_div(xa, ra);
    lemma_floor_div(xb, rb);
    assert(xa * rb <= xb * ra) by (nonlinear_arith)
        requires
            xa == amount_a as int * lp_supply as int,
            xb == amount_b as int * lp_supply as int,
            0 <= lp_supply as int,
            amount_a as int * rb <= amount_b as int * ra,
    ;
    assert(qa <= qb) by (nonlinear_arith)
        requires
            0 < ra,
            0 < rb,
            qa * ra <= xa,
            xb < (qb + 1) * rb,
            xa * rb <= xb * ra,
    ;
}

/// A deposit that brings no less of B than the pool's ratio asks for mints
/// what its amount of A alone earns: the excess of B earns nothing.
pub proof fn lemma_deposit_off_ratio(
    amount_a: u64,
    amount_b: u64,
    min_lp_amount: u64,
    reserve_a: u64,
    reserve_b: u64,
    lp_supply: u64,
)
    requires
        reserve_a > 0,
        reserve_b > 0,
        amount_a as int * reserve_b as int <= amount_b as int * reserve_a as int,
    ensures
        deposit_quote(
            amount_a,
            amount_b,
            min_lp_amount,
            reserve_a,
            reserve_b,
            lp_supply,
        ) matches Ok(minted) ==> {
            &&& Some(minted) == proportional_share(amount_a, lp_supply, reserve_a)
            &&& minted <= proportional_share(amount_b, lp_supply, reserve_b)->0
            &&& minted == smaller(
                proportional_share(amount_a, lp_supply, reserve_a)->0,
                proportional_share(amount_b, lp_supply, reserve_b)->0,
            )
        },
{
    lemma_share_is_monotonic(amount_a, amount_b, reserve_a, reserve_b, lp_supply);
}

/// What a redeemed share of one reserve earns when it is deposited straight
/// back: no more than the liquidity tokens that were burned, and less by no
/// more than the two roundings down took.
pub proof fn lemma_share_comes_back(lp_tokens: u64, reserve: u64, lp_supply: u64)
    requires
        lp_tokens < lp_supply,
        reserve > 0,
    ensures
        ({
            let paid = (lp_tokens as int * reserve as int) / (lp_supply as int);
            let left = reserve as int - paid;
            let back = (paid * (lp_supply as int - lp_tokens as int)) / left;
            &&& 0 <= paid < reserve
            &&& 0 <= back <= lp_tokens
            &&& (lp_tokens as int - back - 1) * left < lp_supply as int
        }),
{
    let l = lp_tokens as int;
    let r = reserve as int;
    let s = lp_supply as int;
    lemma_share_of_whole(lp_tokens, reserve, lp_supply);
    lemma_product_fits(lp_tokens, reserve);
    lemma_floor_div(l * r, s);
    let paid = (l * r) / s;
    let left = r - paid;
    let x = paid * (s - l);
    assert(0 <= x <= l * left && l * left - s < x) by (nonlinear_arith)
        requires
            x == paid * (s - l),
            left == r - paid,
            paid * s <= l * r,
            l * r < (paid + 1) * s,
            0 <= paid,
            0 <= l < s,
    ;
    lemma_quotient_bounded(x, left, l);
    lemma_floor_div(x, left);
    let back = x / left;
    assert((l - back - 1) * left < s) by (nonlinear_arith)
        requires
            x < (back + 1) * left,
            l * left - s < x,
    ;
}

/// Redeeming liquidity tokens and depositing what was paid out straight back
/// restores both reserves and mints no more than was burned. What is lost is
/// what the roundings down took: by one of the two assets, the tokens lost
/// but one, times what the reserve was left with, stay below the supply. So
/// where each reserve is left with no less than the supply, at most one
/// token is lost.
pub proof fn lemma_round_trip_within_rounding(
    lp_tokens: u64,
    min_amount_a: u64,
    min_amount_b: u64,
    min_lp_amount: u64,
    reserve_a: u64,
    reserve_b: u64,
    lp_supply: u64,
)
    ensures
        withdrawal_quote(
            lp_tokens,
            min_amount_a,
            min_amount_b,
            reserve_a,
            reserve_b,
            lp_supply,
        ) matches Ok((amount_a, amount_b)) ==> {
            &&& amount_a <= reserve_a
            &&& amount_b <= reserve_b
            &&& lp_tokens < lp_supply
            &&& deposit_quote(
                amount_a,
                amount_b,
                min_lp_amount,
                (reserve_a - amount_a) as u64,
                (reserve_b - amount_b) as u64,
                (lp_supply - lp_tokens) as u64,
            ) matches Ok(minted) ==> {
                &&& minted <= lp_tokens
                &&& (lp_tokens - minted - 1) * (reserve_a - amount_a) < lp_supply || (lp_tokens
                    - minted - 1) * (reserve_b - amount_b) < lp_supply
                &&& reserve_a - amount_a >= lp_supply && reserve_b - amount_b >= lp_supply
                    ==> minted >= lp_tokens - 1
            }
        },
{
    lemma_withdrawal_within_reserves(
        lp_tokens,
        min_amount_a,
        min_amount_b,
        reserve_a,
        reserve_b,
        lp_supply,
    );
    if let Ok((amount_a, amount_b)) = withdrawal_quote(
        lp_tokens,
        min_amount_a,
        min_amount_b,
        reserve_a,
        reserve_b,
        lp_supply,
    ) {
        let left_a = (reserve_a - amount_a) as u64;
        let left_b = (reserve_b - amount_b) as u64;
        let left_supply = (lp_supply - lp_tokens) as u64;
        lemma_share_of_whole(lp_tokens, reserve_a, lp_supply);
        lemma_share_of_whole(lp_tokens, reserve_b, lp_supply);
        if let Ok(minted) = deposit_quote(
            amount_a,
            amount_b,
            min_lp_amount,
            left_a,
            left_b,
            left_supply,
        ) {
            // One reserve was not empty, so something of it is left: the
            // deposit is no first deposit.
            assert(left_a > 0 || left_b > 0);
            assert(left_a > 0 && left_b > 0);
            lemma_share_comes_back(lp_tokens, reserve_a, lp_supply);
            lemma_share_comes_back(lp_tokens, reserve_b, lp_supply);
            let lost = lp_tokens - minted - 1;
            if left_a >= lp_supply && left_b >= lp_supply && lost >= 1 {
                assert(lost * left_a >= lp_supply && lost * left_b >= lp_supply)
                    by (nonlinear_arith)
                    requires
                        lost >= 1,
                        left_a >= lp_supply,
                        left_b >= lp_supply,
                        lp_supply >= 0,
                ;
            }
        }
    }
}

/// A deposit into a pool that holds reserves is refused for overflow exactly
/// when one of the two shares, computed without rounding off any bit of the
/// product, exceeds 64 bits. What it mints is the smaller of the two exact
/// shares: no intermediate value wraps.
pub proof fn lemma_deposit_overflow_is_reported(
    amount_a: u64,
    amount_b: u64,
    min_lp_amount: u64,
    reserve_a: u64,
    reserve_b: u64,
    lp_supply: u64,
)
    requires
        reserve_a > 0,
        reserve_b > 0,
        lp_supply > 0,
    ensures
        ({
            let lp_from_a = (amount_a as int * lp_supply as int) / (reserve_a as int);
            let lp_from_b = (amount_b as int * lp_supply as int) / (reserve_b as int);
            let quote = deposit_quote(
                amount_a,
                amount_b,
                min_lp_amount,
                reserve_a,
                reserve_b,
                lp_supply,
            );
            &&& quote == rejection::<u64>(PinocchioError::MathOverflow) <==> (lp_from_a > u64::MAX
                || lp_from_b > u64::MAX)
            &&& quote matches Ok(minted) ==> minted as int == if lp_from_a <= lp_from_b {
                lp_from_a
            } else {
                lp_from_b
            }
        }),
{
}

/// A swap of nothing is refused as an invalid amount. A swap of something
/// is refused for overflow exactly when the fee rate is above the whole or
/// the fee leaves nothing to pay into an empty input reserve. What a swap
/// pays out is the exact constant-product output of what is left after the
/// fee.
pub proof fn lemma_swap_overflow_is_reported(
    amount_in: u64,
    min_amount_out: u64,
    fee_rate: u16,
    reserve_in: u64,
    reserve_out: u64,
)
    ensures
        ({
            let net_in = (amount_in as int * (FEE_DENOMINATOR - fee_rate)) / (
            FEE_DENOMINATOR as int);
            let quote = swap_quote(amount_in, min_amount_out, fee_rate, reserve_in, reserve_out);
            &&& amount_in == 0 <==> quote == rejection::<u64>(PinocchioError::InvalidAmount)
            &&& quote == rejection::<u64>(PinocchioError::MathOverflow) <==> amount_in > 0 && (
            fee_rate > FEE_DENOMINATOR || (reserve_in == 0 && net_in == 0))
            &&& quote matches Ok(amount_out) ==> amount_in > 0 && amount_out as int == (net_in
                * reserve_out as int) / (reserve_in as int + net_in)
        }),
{
    if fee_rate <= FEE_DENOMINATOR {
        lemma_fee_is_taken(amount_in, fee_rate);
        let net = amount_after_fee(amount_in, fee_rate)->0;
        if reserve_in as int + net as int != 0 {
            let d = reserve_in as int + net as int;
            let x = net as int * reserve_out as int;
            assert(0 <= x <= reserve_out as int * d) by (nonlinear_arith)
                requires
                    x == net as int * reserve_out as int,
                    0 <= net as int <= d,
                    0 <= reserve_out as int,
            ;
            lemma_quotient_bounded(x, d, reserve_out as int);
        }
    }
}

/// What is left after the fee is never more than what came in, and is less
/// where a fee is charged on a positive amount.
pub proof fn lemma_fee_is_taken(amount_in: u64, fee_rate: u16)
    requires
        fee_rate <= FEE_DENOMINATOR,
    ensures
        amount_after_fee(amount_in, fee_rate) is Some,
        amount_after_fee(amount_in, fee_rate)->0 <= amount_in,
        fee_rate == 0 ==> amount_after_fee(amount_in, fee_rate)->0 == amount_in,
        fee_rate > 0 && amount_in > 0 ==> amount_after_fee(amount_in, fee_rate)->0 < amount_in,
{
    let kept = (FEE_DENOMINATOR - fee_rate) as u64;
    lemma_share_of_whole(kept, amount_in, FEE_DENOMINATOR as u64);
    assert(amount_in as int * kept as int == kept as int * amount_in as int) by (nonlinear_arith);
    if fee_rate == 0 {
        assert((amount_in as int * 10000) / 10000 == amount_in as int);
    }
}

/// A swap never pays out more than the output reserve holds, and never all
/// of it while the input reserve holds anything.
pub proof fn lemma_swap_never_drains(
    amount_in: u64,
    min_amount_out: u64,
    fee_rate: u16,
    reserve_in: u64,
    reserve_out: u64,
)
    ensures
        swap_quote(
            amount_in,
            min_amount_out,
            fee_rate,
            reserve_in,
            reserve_out,
        ) matches Ok(amount_out) ==> {
            &&& amount_in > 0
            &&& amount_out <= reserve_out
            &&& amount_out >= min_amount_out
            &&& reserve_in > 0 && reserve_out > 0 ==> amount_out < reserve_out
        },
{
    if let Ok(amount_out) = swap_quote(
        amount_in,
        min_amount_out,
        fee_rate,
        reserve_in,
        reserve_out,
    ) {
        let net_in = amount_after_fee(amount_in, fee_rate)->0;
        let d = reserve_in as int + net_in as int;
        let x = net_in as int * reserve_out as int;
        assert(0 <= x <= reserve_out as int * d) by (nonlinear_arith)
            requires
                x == net_in as int * reserve_out as int,
                0 <= net_in as int <= d,
                0 <= reserve_out as int,
        ;
        lemma_quotient_bounded(x, d, reserve_out as int);
        if reserve_in > 0 && reserve_out > 0 {
            lemma_floor_div(x, d);
            assert(x / d < reserve_out as int) by (nonlinear_arith)
                requires
                    x == net_in as int * reserve_out as int,
                    0 <= net_in as int,
                    net_in as int + 1 <= d,
                    0 < reserve_out as int,
                    (x / d) * d <= x,
            ;
        }
    }
}

/// A swap never lowers the product of the two reserves, and raises it where
/// a fee is charged and both reserves hold something.
pub proof fn lemma_swap_keeps_product(
    amount_in: u64,
    min_amount_out: u64,
    fee_rate: u16,
    reserve_in: u64,
    reserve_out: u64,
)
    ensures
        swap_quote(
            amount_in,
            min_amount_out,
            fee_rate,
            reserve_in,
            reserve_out,
        ) matches Ok(amount_out) ==> {
            &&& reserve_in * reserve_out <= (reserve_in + amount_in) * (reserve_out - amount_out)
            &&& fee_rate > 0 && reserve_in > 0 && reserve_out > 0 ==> reserve_in * reserve_out < (
            reserve_in + amount_in) * (reserve_out - amount_out)
        },
{
    if let Ok(amount_out) = swap_quote(
        amount_in,
        min_amount_out,
        fee_rate,
        reserve_in,
        reserve_out,
    ) {
        lemma_fee_is_taken(amount_in, fee_rate);
        lemma_swap_never_drains(amount_in, min_amount_out, fee_rate, reserve_in, reserve_out);
        let net_in = amount_after_fee(amount_in, fee_rate)->0 as int;
        let a = amount_in as int;
        let ri = reserve_in as int;
        let ro = reserve_out as int;
        let out = amount_out as int;
        assert(0 <= net_in * ro) by (nonlinear_arith)
            requires
                0 <= net_in,
                0 <= ro,
        ;
        lemma_floor_div(net_in * ro, ri + net_in);
        assert(ri * ro <= (ri + net_in) * (ro - out)) by (nonlinear_arith)
            requires
                out * (ri + net_in) <= net_in * ro,
        ;
        assert((ri + net_in) * (ro - out) <= (ri + a) * (ro - out)) by (nonlinear_arith)
            requires
                net_in <= a,
                0 <= ro - out,
        ;
        if fee_rate > 0 && amount_in > 0 && reserve_in > 0 && reserve_out > 0 {
            assert((ri + net_in) * (ro - out) < (ri + a) * (ro - out)) by (nonlinear_arith)
                requires
                    net_in < a,
                    0 < ro - out,
            ;
        }
    }
}

} // verus!

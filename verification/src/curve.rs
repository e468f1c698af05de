//! Constant-product curve arithmetic: pure quote functions for deposits,
//! withdrawals and swaps.  All quotes are integers in base units; every
//! multiply runs at double width so that only a result too large for `u64`
//! can be reported as an overflow.  Rounding always favours the pool: what a
//! depositor pays in is rounded up, what the pool pays out is rounded down.

use vstd::arithmetic::div_mod::{
    lemma_div_is_ordered, lemma_div_multiples_vanish, lemma_div_pos_is_pos,
    lemma_fundamental_div_mod, lemma_mod_division_less_than_divisor, lemma_multiply_divide_lt,
};
use vstd::arithmetic::mul::{
    lemma_mul_inequality, lemma_mul_is_commutative, lemma_mul_nonnegative, lemma_mul_upper_bound,
};
use vstd::prelude::*;

use crate::error::CurveError;

verus! {

/// Decimal fixed-point scale the pool's figures are expressed at.
pub const PRECISION: u32 = 6;

/// Smallest supported fixed-point scale.
pub const MIN_PRECISION: u32 = 1;

/// Largest supported fixed-point scale.
pub const MAX_PRECISION: u32 = 12;

/// The fixed-point scales the curve accepts.
pub open spec fn valid_precision(precision: u32) -> bool {
    MIN_PRECISION <= precision <= MAX_PRECISION
}

/// What a depositor must pay toward one reserve to be minted `amount`
/// shares: the proportional figure, rounded up.
pub open spec fn deposit_quote(amount: int, reserve: int, supply: int) -> int {
    (amount * reserve + supply - 1) / supply
}

/// What the pool pays out of one reserve for burning `amount` shares: the
/// proportional figure, rounded down.
pub open spec fn withdraw_quote(amount: int, reserve: int, supply: int) -> int {
    (amount * reserve) / supply
}

/// The fee the pool keeps on a swap of `amount_in`, rounded down.
pub open spec fn fee_of(amount_in: int, fee_bps: int) -> int {
    (amount_in * fee_bps) / 10000
}

/// What a constant-product swap pays out once the fee was withheld from the
/// input: rounded down, so the reserve product never shrinks.
pub open spec fn swap_quote(reserve_in: int, reserve_out: int, net_in: int) -> int {
    (reserve_out * net_in) / (reserve_in + net_in)
}

/// `r` is the integer square root of `n`.
pub open spec fn is_sqrt(n: int, r: int) -> bool {
    &&& 0 <= r
    &&& r * r <= n
    &&& n < (r + 1) * (r + 1)
}

/// A deposit or withdrawal quote: how much of each reserve moves.
#[derive(Clone, Copy, Debug, PartialEq, Eq, Structural)]
pub struct XyAmounts {
    pub x: u64,
    pub y: u64,
}

/// A swap quote: what the pool pays out and what it keeps as fee.
#[derive(Clone, Copy, Debug, PartialEq, Eq, Structural)]
pub struct SwapQuote {
    pub amount_out: u64,
    pub fee_amount: u64,
}

/// The product of two values of `u64` size stays under the `u128` bound.
proof fn lemma_u64_mul_fits(a: int, b: int)
    requires
        0 <= a <= u64::MAX,
        0 <= b <= u64::MAX,
    ensures
        0 <= a * b <= u64::MAX * u64::MAX,
{
    lemma_mul_nonnegative(a, b);
    lemma_mul_upper_bound(a, u64::MAX as int, b, u64::MAX as int);
}

/// Integer square root by bisection over the `u64` range.
fn isqrt(n: u128) -> (r: u64)
    requires
        n <= u64::MAX * u64::MAX,
    ensures
        is_sqrt(n as int, r as int),
{
    let mut lo: u64 = 0;
    let mut hi: u64 = u64::MAX;
    proof {
        assert((u64::MAX as int + 1) * (u64::MAX as int + 1) > u64::MAX * u64::MAX)
            by (nonlinear_arith);
    }
    while lo < hi
        invariant
            lo <= hi,
            n <= u64::MAX * u64::MAX,
            (lo as int) * (lo as int) <= n as int,
            (n as int) < (hi as int + 1) * (hi as int + 1),
        decreases hi - lo,
    {
        let step: u64 = (hi - lo) / 2 + 1;
        let mid: u64 = lo + step;
        proof {
            lemma_u64_mul_fits(mid as int, mid as int);
        }
        let sq: u128 = (mid as u128) * (mid as u128);
        if sq <= n {
            lo = mid;
        } else {
            hi = mid - 1;
        }
    }
    lo
}

/// The share amount minted against the very first deposit: the integer
/// square root of the product of the two seeded amounts, which fixes the
/// pool's initial price ratio.
pub fn initial_lp(x_amount: u64, y_amount: u64) -> (l: u64)
    ensures
        is_sqrt(x_amount as int * y_amount as int, l as int),
        x_amount >= 1 && y_amount >= 1 ==> l >= 1,
{
    proof {
        lemma_u64_mul_fits(x_amount as int, y_amount as int);
        if x_amount >= 1 && y_amount >= 1 {
            assert(x_amount as int * y_amount as int >= 1) by (nonlinear_arith)
                requires
                    x_amount >= 1,
                    y_amount >= 1,
            ;
        }
    }
    isqrt((x_amount as u128) * (y_amount as u128))
}

/// Quotes what a depositor owes each reserve for `a` freshly minted shares:
/// both sides rounded up, so rounding can never dilute the pool.
pub fn deposit_amounts_from_l(x: u64, y: u64, l: u64, a: u64, precision: u32) -> (r: Result<
    XyAmounts,
    CurveError,
>)
    ensures
        l == 0 ==> r == Err::<XyAmounts, CurveError>(CurveError::Overflow),
        l != 0 && !valid_precision(precision) ==> r == Err::<XyAmounts, CurveError>(
            CurveError::InvalidPrecision,
        ),
        l != 0 && valid_precision(precision) ==> match r {
            Ok(q) => {
                &&& deposit_quote(a as int, x as int, l as int) <= u64::MAX
                &&& deposit_quote(a as int, y as int, l as int) <= u64::MAX
                &&& q.x == deposit_quote(a as int, x as int, l as int)
                &&& q.y == deposit_quote(a as int, y as int, l as int)
            },
            Err(e) => {
                &&& e == CurveError::Overflow
                &&& (deposit_quote(a as int, x as int, l as int) > u64::MAX || deposit_quote(
                    a as int,
                    y as int,
                    l as int,
                ) > u64::MAX)
            },
        },
{
    if l == 0 {
        return Err(CurveError::Overflow);
    }
    if precision < MIN_PRECISION || precision > MAX_PRECISION {
        return Err(CurveError::InvalidPrecision);
    }
    proof {
        lemma_u64_mul_fits(a as int, x as int);
        lemma_u64_mul_fits(a as int, y as int);
    }
    let lw: u128 = l as u128;
    let qx: u128 = ((a as u128) * (x as u128) + (lw - 1)) / lw;
    let qy: u128 = ((a as u128) * (y as u128) + (lw - 1)) / lw;
    if qx > u64::MAX as u128 || qy > u64::MAX as u128 {
        return Err(CurveError::Overflow);
    }
    Ok(XyAmounts { x: qx as u64, y: qy as u64 })
}

/// Quotes what the pool pays out of each reserve for burning `a` shares:
/// both sides rounded down, so rounding can never drain the pool.
pub fn xy_withdraw_amounts_from_l(x: u64, y: u64, l: u64, a: u64, precision: u32) -> (r: Result<
    XyAmounts,
    CurveError,
>)
    ensures
        l == 0 ==> r == Err::<XyAmounts, CurveError>(CurveError::ZeroBalance),
        l != 0 && !valid_precision(precision) ==> r == Err::<XyAmounts, CurveError>(
            CurveError::InvalidPrecision,
        ),
        l != 0 && valid_precision(precision) ==> match r {
            Ok(q) => {
                &&& withdraw_quote(a as int, x as int, l as int) <= u64::MAX
                &&& withdraw_quote(a as int, y as int, l as int) <= u64::MAX
                &&& q.x == withdraw_quote(a as int, x as int, l as int)
                &&& q.y == withdraw_quote(a as int, y as int, l as int)
                &&& a <= l ==> q.x <= x && q.y <= y
            },
            Err(e) => {
                &&& e == CurveError::Overflow
                &&& (withdraw_quote(a as int, x as int, l as int) > u64::MAX || withdraw_quote(
                    a as int,
                    y as int,
                    l as int,
                ) > u64::MAX)
            },
        },
{
    if l == 0 {
        return Err(CurveError::ZeroBalance);
    }
    if precision < MIN_PRECISION || precision > MAX_PRECISION {
        return Err(CurveError::InvalidPrecision);
    }
    proof {
        lemma_u64_mul_fits(a as int, x as int);
        lemma_u64_mul_fits(a as int, y as int);
        if a <= l {
            lemma_withdraw_quote_le_reserve(a as int, x as int, l as int);
            lemma_withdraw_quote_le_reserve(a as int, y as int, l as int);
        }
    }
    let lw: u128 = l as u128;
    let qx: u128 = (a as u128) * (x as u128) / lw;
    let qy: u128 = (a as u128) * (y as u128) / lw;
    if qx > u64::MAX as u128 || qy > u64::MAX as u128 {
        return Err(CurveError::Overflow);
    }
    Ok(XyAmounts { x: qx as u64, y: qy as u64 })
}

/// Burning no more shares than exist pays out no more than the reserve.
proof fn lemma_withdraw_quote_le_reserve(amount: int, reserve: int, supply: int)
    requires
        1 <= supply,
        0 <= reserve,
        0 <= amount <= supply,
    ensures
        0 <= withdraw_quote(amount, reserve, supply) <= reserve,
{
    lemma_mul_nonnegative(amount, reserve);
    lemma_div_pos_is_pos(amount * reserve, supply);
    lemma_mul_inequality(amount, supply, reserve);
    lemma_div_is_ordered(amount * reserve, supply * reserve, supply);
    lemma_mul_is_commutative(supply, reserve);
    lemma_div_multiples_vanish(reserve, supply);
}

/// A swap's payout stays strictly inside the output reserve, and the
/// product of the reserves never decreases.
proof fn lemma_swap_quote_bounds(rin: int, rout: int, net: int)
    requires
        1 <= rin,
        1 <= rout,
        0 <= net,
    ensures
        0 <= swap_quote(rin, rout, net) < rout,
        (rin + net) * (rout - swap_quote(rin, rout, net)) >= rin * rout,
{
    let den = rin + net;
    let out = swap_quote(rin, rout, net);
    lemma_mul_nonnegative(rout, net);
    lemma_div_pos_is_pos(rout * net, den);
    assert(rout * net < den * rout) by (nonlinear_arith)
        requires
            1 <= rin,
            1 <= rout,
            0 <= net,
            den == rin + net,
    ;
    lemma_multiply_divide_lt(rout * net, den, rout);
    lemma_fundamental_div_mod(rout * net, den);
    lemma_mod_division_less_than_divisor(rout * net, den);
    assert((rin + net) * (rout - out) >= rin * rout) by (nonlinear_arith)
        requires
            den == rin + net,
            den * out <= rout * net,
            1 <= rin,
            1 <= rout,
            0 <= net,
            0 <= out,
    ;
}

/// Quotes a constant-product swap.  The fee is withheld from the input and
/// stays in the pool; the payout is rounded down, so the pool's reserve
/// product never decreases and the output reserve is never drained.
pub fn swap_amount_out(reserve_in: u64, reserve_out: u64, amount_in: u64, fee_bps: u16) -> (r:
    Result<SwapQuote, CurveError>)
    ensures
        fee_bps > 10000 ==> r == Err::<SwapQuote, CurveError>(CurveError::InvalidFeeAmount),
        fee_bps <= 10000 && (reserve_in == 0 || reserve_out == 0) ==> r == Err::<
            SwapQuote,
            CurveError,
        >(CurveError::InsufficientBalance),
        fee_bps <= 10000 && reserve_in > 0 && reserve_out > 0 ==> (r matches Ok(q) && {
            let fee = fee_of(amount_in as int, fee_bps as int);
            &&& 0 <= fee <= amount_in
            &&& q.fee_amount == fee
            &&& q.amount_out == swap_quote(reserve_in as int, reserve_out as int, amount_in - fee)
            &&& q.amount_out < reserve_out
            &&& (reserve_in + amount_in) * (reserve_out - q.amount_out) >= reserve_in * reserve_out
        }),
{
    if fee_bps > 10000 {
        return Err(CurveError::InvalidFeeAmount);
    }
    if reserve_in == 0 || reserve_out == 0 {
        return Err(CurveError::InsufficientBalance);
    }
    proof {
        lemma_u64_mul_fits(amount_in as int, fee_bps as int);
        lemma_mul_nonnegative(amount_in as int, fee_bps as int);
        lemma_div_pos_is_pos(amount_in as int * fee_bps as int, 10000);
        lemma_mul_inequality(fee_bps as int, 10000, amount_in as int);
        lemma_mul_is_commutative(fee_bps as int, amount_in as int);
        lemma_mul_is_commutative(10000, amount_in as int);
        lemma_div_is_ordered(amount_in as int * fee_bps as int, amount_in as int * 10000, 10000);
        lemma_div_multiples_vanish(amount_in as int, 10000);
        lemma_mul_is_commutative(amount_in as int, 10000);
    }
    let fee: u64 = ((amount_in as u128) * (fee_bps as u128) / 10000) as u64;
    let net: u64 = amount_in - fee;
    proof {
        lemma_u64_mul_fits(reserve_out as int, net as int);
        lemma_swap_quote_bounds(reserve_in as int, reserve_out as int, net as int);
    }
    let den: u128 = (reserve_in as u128) + (net as u128);
    let amount_out: u64 = ((reserve_out as u128) * (net as u128) / den) as u64;
    proof {
        let final_product = (reserve_in + amount_in) * (reserve_out - amount_out);
        assert(final_product >= (reserve_in + net) * (reserve_out - amount_out)) by (
        nonlinear_arith)
            requires
                0 <= net <= amount_in,
                0 <= amount_out < reserve_out,
                reserve_in >= 1,
                final_product == (reserve_in + amount_in) * (reserve_out - amount_out),
        ;
    }
    Ok(SwapQuote { amount_out, fee_amount: fee })
}

/// Round-trip law for one reserve: the pool pays back for `amount` burnt
/// shares at most what a deposit of the same `amount` of shares paid in,
/// because money in is rounded up and money out is rounded down.
pub proof fn lemma_deposit_withdraw_round_trip(amount: int, reserve: int, supply: int)
    requires
        1 <= supply,
        0 <= reserve,
        0 <= amount,
    ensures
        0 <= deposit_quote(amount, reserve, supply),
        withdraw_quote(amount, reserve + deposit_quote(amount, reserve, supply), supply + amount)
            <= deposit_quote(amount, reserve, supply),
{
    let d = deposit_quote(amount, reserve, supply);
    lemma_mul_nonnegative(amount, reserve);
    lemma_div_pos_is_pos(amount * reserve + supply - 1, supply);
    lemma_fundamental_div_mod(amount * reserve + supply - 1, supply);
    lemma_mod_division_less_than_divisor(amount * reserve + supply - 1, supply);
    assert(supply * d >= amount * reserve);
    assert(amount * (reserve + d) < (supply + amount) * (d + 1)) by (nonlinear_arith)
        requires
            supply * d >= amount * reserve,
            0 <= amount,
            0 <= reserve,
            1 <= supply,
            0 <= d,
    ;
    lemma_multiply_divide_lt(amount * (reserve + d), supply + amount, d + 1);
}

} // verus!


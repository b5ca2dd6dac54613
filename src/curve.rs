//! Constant-product curve arithmetic over raw reserve balances `x`, `y`
//! and LP supply `s`. Intermediate products are taken in 128 bits; a
//! result that does not fit back in 64 bits is an error, never wrapped.
use vstd::prelude::*;

use crate::constants::{BPS_DENOMINATOR, MAX_FEE_BPS};
use crate::error::AmmError;
use vstd::arithmetic::div_mod::{
    lemma_div_by_multiple, lemma_div_is_ordered, lemma_div_multiples_vanish_fancy,
    lemma_fundamental_div_mod, lemma_mod_bound,
};

verus! {

/// Token amounts on the two sides of the pool.
#[derive(Clone, Copy, Debug, PartialEq, Eq, Structural)]
pub struct XYAmounts {
    pub x: u64,
    pub y: u64,
}

/// The two legs of a swap: what the trader pays in and what the pool pays out.
#[derive(Clone, Copy, Debug, PartialEq, Eq, Structural)]
pub struct SwapResult {
    pub deposit: u64,
    pub withdraw: u64,
}

pub open spec fn ceil_div(a: int, b: int) -> int {
    (a + b - 1) / b
}

/// A pool that holds nothing and has issued nothing.
pub open spec fn is_bootstrap(x: u64, y: u64, s: u64) -> bool {
    s == 0 && x == 0 && y == 0
}

/// Amounts owed by a depositor who asks for `l` LP tokens.
pub open spec fn deposit_result(x: u64, y: u64, s: u64, l: u64, max_x: u64, max_y: u64) -> Result<
    XYAmounts,
    AmmError,
> {
    if is_bootstrap(x, y, s) {
        Ok(XYAmounts { x: max_x, y: max_y })
    } else if s == 0 {
        Err(AmmError::InsufficientLiquidity)
    } else {
        let dx = ceil_div(l * x, s as int);
        let dy = ceil_div(l * y, s as int);
        if dx > u64::MAX || dy > u64::MAX {
            Err(AmmError::ArithmeticOverflow)
        } else if dx > max_x || dy > max_y {
            Err(AmmError::SlippageExceeded)
        } else {
            Ok(XYAmounts { x: dx as u64, y: dy as u64 })
        }
    }
}

/// Amounts paid to a withdrawer who burns `l` LP tokens.
pub open spec fn withdraw_result(x: u64, y: u64, s: u64, l: u64, min_x: u64, min_y: u64) -> Result<
    XYAmounts,
    AmmError,
> {
    if l != s && (s == 0 || l > s) {
        Err(AmmError::InsufficientLiquidity)
    } else {
        let out = if l == s {
            XYAmounts { x, y }
        } else {
            XYAmounts { x: ((l * x) / (s as int)) as u64, y: ((l * y) / (s as int)) as u64 }
        };
        if out.x < min_x || out.y < min_y {
            Err(AmmError::SlippageExceeded)
        } else {
            Ok(out)
        }
    }
}

/// Input left to the curve once the fee is taken out, rounded down.
pub open spec fn input_after_fee(amount: u64, fee: u16) -> int {
    (amount * (BPS_DENOMINATOR - fee)) / (BPS_DENOMINATOR as int)
}

/// Output of a trade of `amount` into a pool holding `rin` of the input
/// side and `rout` of the output side: the output reserve may fall only to
/// the smallest value that keeps the product at or above `rin * rout`.
pub open spec fn swap_output(rin: u64, rout: u64, fee: u16, amount: u64) -> int {
    rout - ceil_div(rin * rout, rin + input_after_fee(amount, fee))
}

pub open spec fn swap_result(rin: u64, rout: u64, fee: u16, amount: u64, min_out: u64) -> Result<
    SwapResult,
    AmmError,
> {
    if rin == 0 || rout == 0 {
        Err(AmmError::InsufficientLiquidity)
    } else if rin + amount > u64::MAX {
        Err(AmmError::ArithmeticOverflow)
    } else {
        let out = swap_output(rin, rout, fee, amount);
        if out < min_out {
            Err(AmmError::SlippageExceeded)
        } else if amount == 0 || out == 0 {
            Err(AmmError::ZeroAmount)
        } else {
            Ok(SwapResult { deposit: amount, withdraw: out as u64 })
        }
    }
}

proof fn lemma_mul_bound(a: u64, b: u64)
    ensures
        0 <= a * b <= u64::MAX * u64::MAX,
{
    assert(0 <= a * b <= u64::MAX * u64::MAX) by (nonlinear_arith)
        requires
            a <= u64::MAX,
            b <= u64::MAX,
    ;
}

proof fn lemma_ceil_div_le(k: int, d: int, m: int)
    requires
        d > 0,
        0 <= k <= d * m,
    ensures
        ceil_div(k, d) <= m,
{
    lemma_div_is_ordered(k + d - 1, d * m + (d - 1), d);
    lemma_div_multiples_vanish_fancy(m, d - 1, d);
}

/// `ceil(a * b / s)` computed in 128 bits, `None` when it exceeds 64 bits.
fn mul_div_ceil(a: u64, b: u64, s: u64) -> (r: Option<u64>)
    requires
        s > 0,
    ensures
        r matches Some(v) ==> v == ceil_div(a * b, s as int),
        r is None <==> ceil_div(a * b, s as int) > u64::MAX,
{
    proof {
        lemma_mul_bound(a, b);
    }
    let p: u128 = (a as u128) * (b as u128);
    let q: u128 = (p + (s as u128 - 1)) / (s as u128);
    if q > u64::MAX as u128 {
        None
    } else {
        Some(q as u64)
    }
}

/// `floor(a * b / s)` for `a < s`, which always fits in 64 bits.
fn mul_div_floor(a: u64, b: u64, s: u64) -> (r: u64)
    requires
        a < s,
    ensures
        r == (a * b) / (s as int),
{
    proof {
        lemma_mul_bound(a, b);
        assert(a * b <= b * s) by (nonlinear_arith)
            requires
                a < s,
                b >= 0,
        ;
        lemma_div_is_ordered(a * b, b * s, s as int);
        lemma_div_by_multiple(b as int, s as int);
    }
    let p: u128 = (a as u128) * (b as u128);
    (p / (s as u128)) as u64
}

/// Amounts a depositor pays for `amount` LP tokens, given the pool's
/// reserves `x`, `y` and LP supply `supply`. The first deposit into an
/// empty pool pays exactly `max_x`, `max_y` and so sets the price; later
/// ones pay their share of each reserve, rounded up.
pub fn deposit_amounts(x: u64, y: u64, supply: u64, amount: u64, max_x: u64, max_y: u64) -> (r:
    Result<XYAmounts, AmmError>)
    ensures
        r == deposit_result(x, y, supply, amount, max_x, max_y),
{
    if supply == 0 && x == 0 && y == 0 {
        return Ok(XYAmounts { x: max_x, y: max_y });
    }
    if supply == 0 {
        return Err(AmmError::InsufficientLiquidity);
    }
    let dx = match mul_div_ceil(amount, x, supply) {
        Some(v) => v,
        None => return Err(AmmError::ArithmeticOverflow),
    };
    let dy = match mul_div_ceil(amount, y, supply) {
        Some(v) => v,
        None => return Err(AmmError::ArithmeticOverflow),
    };
    if dx > max_x || dy > max_y {
        return Err(AmmError::SlippageExceeded);
    }
    Ok(XYAmounts { x: dx, y: dy })
}

/// Amounts paid out for burning `amount` LP tokens. Burning the whole
/// supply takes the whole reserves; otherwise each side is the burned
/// share of its reserve, rounded down. Each side must reach its floor.
pub fn withdraw_amounts(x: u64, y: u64, supply: u64, amount: u64, min_x: u64, min_y: u64) -> (r:
    Result<XYAmounts, AmmError>)
    ensures
        r == withdraw_result(x, y, supply, amount, min_x, min_y),
{
    let out = if amount == supply {
        XYAmounts { x, y }
    } else {
        if supply == 0 || amount > supply {
            return Err(AmmError::InsufficientLiquidity);
        }
        XYAmounts { x: mul_div_floor(amount, x, supply), y: mul_div_floor(amount, y, supply) }
    };
    if out.x < min_x || out.y < min_y {
        return Err(AmmError::SlippageExceeded);
    }
    Ok(out)
}

/// A trade of `amount` of one side against reserves `reserve_in` (same
/// side) and `reserve_out` (other side), with `fee` basis points kept by
/// the pool. The trader pays the whole `amount`; the output must reach
/// `min_out` and neither leg may be zero.
pub fn swap_amounts(reserve_in: u64, reserve_out: u64, fee: u16, amount: u64, min_out: u64) -> (r:
    Result<SwapResult, AmmError>)
    requires
        fee <= MAX_FEE_BPS,
    ensures
        r == swap_result(reserve_in, reserve_out, fee, amount, min_out),
{
    if reserve_in == 0 || reserve_out == 0 {
        return Err(AmmError::InsufficientLiquidity);
    }
    if amount > u64::MAX - reserve_in {
        return Err(AmmError::ArithmeticOverflow);
    }
    let kept: u64 = BPS_DENOMINATOR - fee as u64;
    proof {
        lemma_mul_bound(amount, kept);
        assert((amount * kept) / 10000 <= amount) by (nonlinear_arith)
            requires
                kept <= 10000,
                amount >= 0,
        ;
        lemma_mul_bound(reserve_in, reserve_out);
    }
    let net: u128 = ((amount as u128) * (kept as u128)) / (BPS_DENOMINATOR as u128);
    let denom: u128 = reserve_in as u128 + net;
    let k: u128 = (reserve_in as u128) * (reserve_out as u128);
    let new_out: u128 = (k + (denom - 1)) / denom;
    proof {
        assert(k <= denom * reserve_out) by (nonlinear_arith)
            requires
                k == reserve_in * reserve_out,
                denom >= reserve_in,
                reserve_out >= 0,
        ;
        lemma_ceil_div_le(k as int, denom as int, reserve_out as int);
    }
    let out: u64 = reserve_out - new_out as u64;
    if out < min_out {
        return Err(AmmError::SlippageExceeded);
    }
    if amount == 0 || out == 0 {
        return Err(AmmError::ZeroAmount);
    }
    Ok(SwapResult { deposit: amount, withdraw: out })
}

proof fn lemma_ceil_div_bounds(a: int, d: int)
    requires
        d > 0,
        a >= 0,
    ensures
        a <= ceil_div(a, d) * d <= a + d - 1,
{
    lemma_fundamental_div_mod(a + d - 1, d);
    lemma_mod_bound(a + d - 1, d);
    assert(ceil_div(a, d) * d == d * ((a + d - 1) / d)) by (nonlinear_arith);
}

/// The first deposit into an empty pool takes exactly the depositor's
/// maximums, whatever LP amount is asked for.
pub proof fn lemma_bootstrap_deposit(amount: u64, max_x: u64, max_y: u64)
    ensures
        deposit_result(0, 0, 0, amount, max_x, max_y) == Ok::<XYAmounts, AmmError>(
            XYAmounts { x: max_x, y: max_y },
        ),
{
}

/// A deposit into a pool with LP supply `s > 0` pays at least its exact
/// share of each reserve and less than one more unit per LP token of
/// supply (`x' * s <= l * x + s - 1`), never above the caller's maximums;
/// a share that fits in 64 bits but exceeds a maximum is refused as
/// slippage.
pub proof fn lemma_deposit_rounds_up(x: u64, y: u64, s: u64, l: u64, max_x: u64, max_y: u64)
    requires
        s > 0,
    ensures
        deposit_result(x, y, s, l, max_x, max_y) matches Ok(d) ==> {
            &&& l * x <= d.x * s <= l * x + s - 1
            &&& l * y <= d.y * s <= l * y + s - 1
            &&& d.x <= max_x
            &&& d.y <= max_y
        },
        ceil_div(l * x, s as int) <= u64::MAX && ceil_div(l * y, s as int) <= u64::MAX && (
        ceil_div(l * x, s as int) > max_x || ceil_div(l * y, s as int) > max_y) ==> deposit_result(
            x,
            y,
            s,
            l,
            max_x,
            max_y,
        ) == Err::<XYAmounts, AmmError>(AmmError::SlippageExceeded),
{
    lemma_mul_bound(l, x);
    lemma_mul_bound(l, y);
    lemma_ceil_div_bounds(l * x, s as int);
    lemma_ceil_div_bounds(l * y, s as int);
}

/// A successful swap never lowers the product of the reserves, counting
/// on the input side only what is left after the fee.
pub proof fn lemma_swap_keeps_product(rin: u64, rout: u64, fee: u16, amount: u64, min_out: u64)
    requires
        fee <= MAX_FEE_BPS,
    ensures
        swap_result(rin, rout, fee, amount, min_out) matches Ok(r) ==> (rin + input_after_fee(
            amount,
            fee,
        )) * (rout - r.withdraw) >= rin * rout,
{
    if swap_result(rin, rout, fee, amount, min_out) is Ok {
        lemma_mul_bound(rin, rout);
        assert(input_after_fee(amount, fee) >= 0) by (nonlinear_arith)
            requires
                fee <= 10000,
                amount >= 0,
        ;
        let d = rin + input_after_fee(amount, fee);
        lemma_ceil_div_bounds(rin * rout, d);
        assert(ceil_div(rin * rout, d) * d == d * ceil_div(rin * rout, d)) by (nonlinear_arith);
    }
}

/// Depositing `l` LP tokens and at once withdrawing the same `l` never
/// returns more of either token than the deposit paid in.
pub proof fn lemma_deposit_withdraw_round_trip(
    x: u64,
    y: u64,
    s: u64,
    l: u64,
    max_x: u64,
    max_y: u64,
    min_x: u64,
    min_y: u64,
)
    requires
        deposit_result(x, y, s, l, max_x, max_y) is Ok,
        x + deposit_result(x, y, s, l, max_x, max_y)->Ok_0.x <= u64::MAX,
        y + deposit_result(x, y, s, l, max_x, max_y)->Ok_0.y <= u64::MAX,
        s + l <= u64::MAX,
    ensures
        ({
            let d = deposit_result(x, y, s, l, max_x, max_y)->Ok_0;
            withdraw_result(
                (x + d.x) as u64,
                (y + d.y) as u64,
                (s + l) as u64,
                l,
                min_x,
                min_y,
            ) matches Ok(w) ==> w.x <= d.x && w.y <= d.y
        }),
{
    let d = deposit_result(x, y, s, l, max_x, max_y)->Ok_0;
    if s > 0 {
        lemma_deposit_rounds_up(x, y, s, l, max_x, max_y);
        lemma_share_after_deposit(x, s, l, d.x);
        lemma_share_after_deposit(y, s, l, d.y);
    }
}

proof fn lemma_share_after_deposit(x: u64, s: u64, l: u64, dx: u64)
    requires
        s > 0,
        l * x <= dx * s,
    ensures
        (l * (x + dx)) / (s + l) <= dx,
{
    assert(l * (x + dx) <= dx * (s + l)) by (nonlinear_arith)
        requires
            l * x <= dx * s,
    ;
    assert(l * (x + dx) >= 0) by (nonlinear_arith);
    lemma_div_is_ordered(l * (x + dx), dx * (s + l), s + l);
    lemma_div_by_multiple(dx as int, s + l);
}

} // verus!

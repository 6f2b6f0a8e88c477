//! The pricing curve: constant product over the pool's reserves, with an
//! optional virtual offset on token B, and a trading fee taken from the input.

use vstd::prelude::*;
use vstd::arithmetic::div_mod::{
    lemma_div_is_ordered,
    lemma_div_is_ordered_by_denominator,
    lemma_div_by_multiple,
    lemma_fundamental_div_mod,
};
use vstd::arithmetic::div_mod::lemma_div_pos_is_pos;
use vstd::arithmetic::div_mod::lemma_hoist_over_denominator;
use vstd::arithmetic::mul::{lemma_mul_inequality, lemma_mul_upper_bound};
use crate::error::AdapterError;

verus! {

/// A fee rate `numerator / denominator`; a zero denominator means no fee.
#[derive(Clone, Copy, Debug, PartialEq, Eq, Structural)]
pub struct Fraction {
    pub numerator: u64,
    pub denominator: u64,
}

impl Fraction {
    /// The rate is at most one: the fee never exceeds the amount.
    pub open spec fn at_most_one(self) -> bool {
        self.numerator <= self.denominator
    }
}

/// Which way a trade goes through the pool.
#[derive(Clone, Copy, Debug, PartialEq, Eq, Structural)]
pub enum TradeDirection {
    AtoB,
    BtoA,
}

/// The curve kind and its parameters.
#[derive(Clone, Copy, Debug, PartialEq, Eq, Structural)]
pub enum CurveKind {
    /// `reserve_a * reserve_b` is held constant.
    ConstantProduct,
    /// As the constant product, with `token_b_offset` added to reserve B.
    Offset { token_b_offset: u64 },
}

/// What one swap through the curve gives.
#[derive(Clone, Copy, Debug, PartialEq, Eq, Structural)]
pub struct SwapResult {
    /// The amount handed to the curve, fee included.
    pub source_amount_swapped: u64,
    /// The amount that leaves the destination reserve.
    pub destination_amount_swapped: u64,
    /// The trading fee taken from the input.
    pub trade_fee: u64,
}

/// `floor(amount * numerator / denominator)`, or zero without a denominator.
pub open spec fn fraction_of(amount: int, f: Fraction) -> int {
    if f.denominator == 0 {
        0
    } else {
        amount * f.numerator / (f.denominator as int)
    }
}

/// Output of a constant-product trade of `e` into reserves `(ri, ro)`.
pub open spec fn cp_out(e: int, ri: int, ro: int) -> int {
    ro - (ri * ro) / (ri + e)
}

/// Reserve B as the curve sees it.
pub open spec fn virtual_b(curve: CurveKind, reserve_b: int) -> int {
    match curve {
        CurveKind::ConstantProduct => reserve_b,
        CurveKind::Offset { token_b_offset } => reserve_b + token_b_offset,
    }
}

/// The (input, output) reserves that the curve trades against.
pub open spec fn curve_reserves(
    curve: CurveKind,
    dir: TradeDirection,
    reserve_a: int,
    reserve_b: int,
) -> (int, int) {
    match dir {
        TradeDirection::AtoB => (reserve_a, virtual_b(curve, reserve_b)),
        TradeDirection::BtoA => (virtual_b(curve, reserve_b), reserve_a),
    }
}

/// The real reserve that pays the output.
pub open spec fn paying_reserve(dir: TradeDirection, reserve_a: int, reserve_b: int) -> int {
    match dir {
        TradeDirection::AtoB => reserve_b,
        TradeDirection::BtoA => reserve_a,
    }
}

/// The whole swap: fee from the input, constant product on what is left.
pub open spec fn swap_spec(
    curve: CurveKind,
    trade_fee: Fraction,
    amount_in: u64,
    dir: TradeDirection,
    reserve_a: u64,
    reserve_b: u64,
) -> Result<SwapResult, AdapterError> {
    let (ri, ro) = curve_reserves(curve, dir, reserve_a as int, reserve_b as int);
    let fee = fraction_of(amount_in as int, trade_fee);
    let out = cp_out(amount_in - fee, ri, ro);
    if amount_in == 0 || ri == 0 || ro == 0 || fee > amount_in || ri * ro > u128::MAX
        || out > paying_reserve(dir, reserve_a as int, reserve_b as int) {
        Err(AdapterError::Curve)
    } else {
        Ok(
            SwapResult {
                source_amount_swapped: amount_in,
                destination_amount_swapped: out as u64,
                trade_fee: fee as u64,
            },
        )
    }
}

/// If `m * d <= n` then `m <= n / d`.
proof fn lemma_le_div(n: int, d: int, m: int)
    requires
        d > 0,
        m >= 0,
        m * d <= n,
    ensures
        m <= n / d,
{
    lemma_div_is_ordered(m * d, n, d);
    lemma_div_by_multiple(m, d);
}

/// The constant-product quotient never exceeds the output reserve.
proof fn lemma_cp_bounds(e: int, ri: int, ro: int)
    requires
        e >= 0,
        ri > 0,
        ro >= 0,
    ensures
        0 <= (ri * ro) / (ri + e) <= ro,
        0 <= cp_out(e, ri, ro) <= ro,
{
    assert(ri * ro >= 0) by (nonlinear_arith)
        requires
            ri > 0,
            ro >= 0,
    ;
    lemma_div_is_ordered_by_denominator(ri * ro, ri, ri + e);
    assert((ri * ro) / ri == ro) by {
        vstd::arithmetic::div_mod::lemma_div_multiples_vanish(ro, ri);
    }
    lemma_le_div(ri * ro, ri + e, 0);
}

/// `floor(amount * numerator / denominator)`.
pub fn apply_fraction(amount: u64, f: Fraction) -> (r: u128)
    ensures
        r == fraction_of(amount as int, f),
{
    if f.denominator == 0 {
        0
    } else {
        proof {
            lemma_mul_upper_bound(amount as int, u64::MAX as int, f.numerator as int, u64::MAX as int);
        }
        (amount as u128 * f.numerator as u128) / f.denominator as u128
    }
}

/// Prices a trade of `amount_in` through the curve. The fee is taken from
/// the input first, then `k = reserve_in * reserve_out` is held, rounding
/// the new output reserve down.
pub fn swap(
    curve: CurveKind,
    trade_fee: Fraction,
    amount_in: u64,
    dir: TradeDirection,
    reserve_a: u64,
    reserve_b: u64,
) -> (r: Result<SwapResult, AdapterError>)
    ensures
        r == swap_spec(curve, trade_fee, amount_in, dir, reserve_a, reserve_b),
        r matches Ok(s) ==> s.destination_amount_swapped <= paying_reserve(
            dir,
            reserve_a as int,
            reserve_b as int,
        ),
{
    let ghost spec_ri = curve_reserves(curve, dir, reserve_a as int, reserve_b as int).0;
    let ghost spec_ro = curve_reserves(curve, dir, reserve_a as int, reserve_b as int).1;
    let fee = apply_fraction(amount_in, trade_fee);
    if amount_in == 0 || fee > amount_in as u128 {
        return Err(AdapterError::Curve);
    }
    let effective = amount_in as u128 - fee;
    let vb: u128 = match curve {
        CurveKind::ConstantProduct => reserve_b as u128,
        CurveKind::Offset { token_b_offset } => reserve_b as u128 + token_b_offset as u128,
    };
    let (ri, ro, paying): (u128, u128, u128) = match dir {
        TradeDirection::AtoB => (reserve_a as u128, vb, reserve_b as u128),
        TradeDirection::BtoA => (vb, reserve_a as u128, reserve_a as u128),
    };
    assert(ri == spec_ri && ro == spec_ro);
    if ri == 0 || ro == 0 {
        return Err(AdapterError::Curve);
    }
    let k = match ri.checked_mul(ro) {
        Some(k) => k,
        None => {
            return Err(AdapterError::Curve);
        },
    };
    proof {
        lemma_cp_bounds(effective as int, ri as int, ro as int);
    }
    let q = k / (ri + effective);
    let out = ro - q;
    if out > paying {
        return Err(AdapterError::Curve);
    }
    Ok(
        SwapResult {
            source_amount_swapped: amount_in,
            destination_amount_swapped: out as u64,
            trade_fee: fee as u64,
        },
    )
}

/// The other direction.
pub open spec fn reverse(dir: TradeDirection) -> TradeDirection {
    match dir {
        TradeDirection::AtoB => TradeDirection::BtoA,
        TradeDirection::BtoA => TradeDirection::AtoB,
    }
}

/// Rate `f1` is at most rate `f2`.
pub open spec fn rate_le(f1: Fraction, f2: Fraction) -> bool {
    f1.denominator == 0 || f1.numerator == 0 || (f2.denominator > 0 && f1.numerator
        * f2.denominator <= f2.numerator * f1.denominator)
}

/// The remainder of a trade's constant-product division is at most twice
/// its effective input times its output: the floor on the new output
/// reserve leaves the trader too little to win back on a return trade.
pub open spec fn bounded_rounding(
    curve: CurveKind,
    trade_fee: Fraction,
    amount_in: u64,
    dir: TradeDirection,
    reserve_a: u64,
    reserve_b: u64,
) -> bool {
    let (ri, ro) = curve_reserves(curve, dir, reserve_a as int, reserve_b as int);
    let e = amount_in - fraction_of(amount_in as int, trade_fee);
    (ri * ro) % (ri + e) <= 2 * e * cp_out(e, ri, ro)
}

/// A fee at a rate of at most one lies in `[0, amount]` and grows no faster
/// than the amount.
proof fn lemma_fee_steps(a1: int, a2: int, f: Fraction)
    requires
        0 <= a1 <= a2,
        f.at_most_one(),
    ensures
        0 <= fraction_of(a1, f) <= a1,
        fraction_of(a2, f) - fraction_of(a1, f) <= a2 - a1,
        fraction_of(a1, f) <= fraction_of(a2, f),
{
    if f.denominator > 0 {
        let d = f.denominator as int;
        let n = f.numerator as int;
        assert(0 <= a1 * n <= a1 * d) by (nonlinear_arith)
            requires
                0 <= a1,
                0 <= n <= d,
        ;
        assert(a1 * n <= a2 * n <= a1 * n + (a2 - a1) * d) by (nonlinear_arith)
            requires
                0 <= a1 <= a2,
                0 <= n <= d,
        ;
        lemma_div_pos_is_pos(a1 * n, d);
        lemma_div_is_ordered(a1 * n, a1 * d, d);
        lemma_div_by_multiple(a1, d);
        lemma_div_is_ordered(a2 * n, a1 * n + (a2 - a1) * d, d);
        lemma_div_is_ordered(a1 * n, a2 * n, d);
        lemma_hoist_over_denominator(a1 * n, a2 - a1, d as nat);
    }
}

/// A larger constant-product input never gives a smaller output.
proof fn lemma_cp_out_mono(e1: int, e2: int, ri: int, ro: int)
    requires
        0 <= e1 <= e2,
        ri > 0,
        ro >= 0,
    ensures
        cp_out(e1, ri, ro) <= cp_out(e2, ri, ro),
{
    assert(ri * ro >= 0) by (nonlinear_arith)
        requires
            ri > 0,
            ro >= 0,
    ;
    lemma_div_is_ordered_by_denominator(ri * ro, ri + e1, ri + e2);
}

/// Monotonicity in the amount: for fixed reserves, curve and fee, a larger
/// input never gives a smaller output.
pub proof fn lemma_swap_monotone_in_amount(
    curve: CurveKind,
    trade_fee: Fraction,
    a1: u64,
    a2: u64,
    dir: TradeDirection,
    reserve_a: u64,
    reserve_b: u64,
)
    requires
        a1 <= a2,
        trade_fee.at_most_one(),
        swap_spec(curve, trade_fee, a1, dir, reserve_a, reserve_b) is Ok,
        swap_spec(curve, trade_fee, a2, dir, reserve_a, reserve_b) is Ok,
    ensures
        swap_spec(curve, trade_fee, a1, dir, reserve_a, reserve_b)->Ok_0.destination_amount_swapped
            <= swap_spec(
            curve,
            trade_fee,
            a2,
            dir,
            reserve_a,
            reserve_b,
        )->Ok_0.destination_amount_swapped,
{
    let (ri, ro) = curve_reserves(curve, dir, reserve_a as int, reserve_b as int);
    lemma_fee_steps(a1 as int, a2 as int, trade_fee);
    let e1 = a1 - fraction_of(a1 as int, trade_fee);
    let e2 = a2 - fraction_of(a2 as int, trade_fee);
    lemma_cp_out_mono(e1, e2, ri, ro);
    lemma_cp_bounds(e1, ri, ro);
    lemma_cp_bounds(e2, ri, ro);
}

/// A lower fee rate never takes a larger fee.
proof fn lemma_fee_rate(amount: int, f1: Fraction, f2: Fraction)
    requires
        amount >= 0,
        rate_le(f1, f2),
    ensures
        fraction_of(amount, f1) <= fraction_of(amount, f2),
{
    if f2.denominator > 0 {
        let d2 = f2.denominator as int;
        let n2 = f2.numerator as int;
        assert(amount * n2 >= 0) by (nonlinear_arith)
            requires
                amount >= 0,
                n2 >= 0,
        ;
        lemma_div_pos_is_pos(amount * n2, d2);
    }
    if f1.denominator > 0 && f1.numerator > 0 {
        let d1 = f1.denominator as int;
        let n1 = f1.numerator as int;
        let d2 = f2.denominator as int;
        let n2 = f2.numerator as int;
        let q1 = amount * n1 / d1;
        lemma_fundamental_div_mod(amount * n1, d1);
        assert(amount * n1 >= 0) by (nonlinear_arith)
            requires
                amount >= 0,
                n1 >= 0,
        ;
        lemma_div_pos_is_pos(amount * n1, d1);
        assert(q1 * d2 <= amount * n2) by (nonlinear_arith)
            requires
                d1 > 0,
                d2 > 0,
                q1 >= 0,
                amount >= 0,
                d1 * q1 <= amount * n1,
                n1 * d2 <= n2 * d1,
        ;
        lemma_le_div(amount * n2, d2, q1);
    }
}

/// A higher trading-fee rate never increases the output for a fixed input.
pub proof fn lemma_swap_fee_rate(
    curve: CurveKind,
    low: Fraction,
    high: Fraction,
    amount_in: u64,
    dir: TradeDirection,
    reserve_a: u64,
    reserve_b: u64,
)
    requires
        rate_le(low, high),
        swap_spec(curve, low, amount_in, dir, reserve_a, reserve_b) is Ok,
        swap_spec(curve, high, amount_in, dir, reserve_a, reserve_b) is Ok,
    ensures
        swap_spec(curve, high, amount_in, dir, reserve_a, reserve_b)->Ok_0.destination_amount_swapped
            <= swap_spec(
            curve,
            low,
            amount_in,
            dir,
            reserve_a,
            reserve_b,
        )->Ok_0.destination_amount_swapped,
{
    let (ri, ro) = curve_reserves(curve, dir, reserve_a as int, reserve_b as int);
    lemma_fee_rate(amount_in as int, low, high);
    let e_low = amount_in - fraction_of(amount_in as int, low);
    let e_high = amount_in - fraction_of(amount_in as int, high);
    lemma_cp_out_mono(e_high, e_low, ri, ro);
    lemma_cp_bounds(e_high, ri, ro);
    lemma_cp_bounds(e_low, ri, ro);
}

/// The constant-product curve prices every nonzero trade against nonzero
/// reserves when the fee rate is at most one.
pub proof fn lemma_constant_product_succeeds(
    trade_fee: Fraction,
    amount_in: u64,
    dir: TradeDirection,
    reserve_a: u64,
    reserve_b: u64,
)
    requires
        trade_fee.at_most_one(),
    ensures
        swap_spec(CurveKind::ConstantProduct, trade_fee, amount_in, dir, reserve_a, reserve_b)
            is Ok <==> (amount_in > 0 && reserve_a > 0 && reserve_b > 0),
{
    let (ri, ro) = curve_reserves(
        CurveKind::ConstantProduct,
        dir,
        reserve_a as int,
        reserve_b as int,
    );
    lemma_fee_steps(amount_in as int, amount_in as int, trade_fee);
    lemma_mul_upper_bound(ri, u64::MAX as int, ro, u64::MAX as int);
    if ri > 0 && ro >= 0 {
        lemma_cp_bounds(amount_in - fraction_of(amount_in as int, trade_fee), ri, ro);
    }
}

/// The arithmetic of a round trip: trading `e1` of X for Y with a small
/// remainder `r1`, then at most what came out back, returns at most `e1`.
proof fn lemma_round_trip_core(x: int, y: int, e1: int, q1: int, r1: int, e2: int)
    requires
        x > 0,
        y > 0,
        e1 >= 0,
        x * y == q1 * (x + e1) + r1,
        0 <= q1 <= y,
        0 <= r1 <= 2 * e1 * (y - q1),
        0 <= e2 <= y - q1,
    ensures
        cp_out(e2, y, x) <= e1,
{
    assert(x * y >= 0) by (nonlinear_arith)
        requires
            x > 0,
            y > 0,
    ;
    lemma_div_pos_is_pos(x * y, y + e2);
    vstd::arithmetic::mul::lemma_mul_is_commutative(x, y);
    if x > e1 {
        lemma_mul_inequality(y + e2, 2 * y - q1, x - e1);
        assert((2 * y - q1) * (x - e1) == x * y - 2 * e1 * (y - q1) + r1) by (nonlinear_arith)
            requires
                x * y == q1 * (x + e1) + r1,
        ;
        assert(e1 * (y - q1) >= 0) by (nonlinear_arith)
            requires
                e1 >= 0,
                y - q1 >= 0,
        ;
        assert((x - e1) * (y + e2) <= x * y) by (nonlinear_arith)
            requires
                (y + e2) * (x - e1) <= (2 * y - q1) * (x - e1),
                (2 * y - q1) * (x - e1) == x * y - 2 * e1 * (y - q1) + r1,
                r1 <= 2 * e1 * (y - q1),
        ;
        lemma_le_div(x * y, y + e2, x - e1);
    }
}

/// Round trip: trading `amount_in` one way and then at most what came out
/// back the other way returns no more than `amount_in`, whenever the first
/// trade's rounding is bounded as `bounded_rounding` says. (Without that
/// bound the floor on the first trade's new output reserve can favour the
/// trader enough for the round trip to gain.)
pub proof fn lemma_round_trip(
    curve: CurveKind,
    trade_fee: Fraction,
    amount_in: u64,
    back_in: u64,
    dir: TradeDirection,
    reserve_a: u64,
    reserve_b: u64,
)
    requires
        trade_fee.at_most_one(),
        bounded_rounding(curve, trade_fee, amount_in, dir, reserve_a, reserve_b),
        swap_spec(curve, trade_fee, amount_in, dir, reserve_a, reserve_b) is Ok,
        back_in <= swap_spec(
            curve,
            trade_fee,
            amount_in,
            dir,
            reserve_a,
            reserve_b,
        )->Ok_0.destination_amount_swapped,
        swap_spec(curve, trade_fee, back_in, reverse(dir), reserve_a, reserve_b) is Ok,
    ensures
        swap_spec(
            curve,
            trade_fee,
            back_in,
            reverse(dir),
            reserve_a,
            reserve_b,
        )->Ok_0.destination_amount_swapped <= amount_in,
{
    let (x, y) = curve_reserves(curve, dir, reserve_a as int, reserve_b as int);
    lemma_fee_steps(amount_in as int, amount_in as int, trade_fee);
    lemma_fee_steps(back_in as int, back_in as int, trade_fee);
    let e1 = amount_in - fraction_of(amount_in as int, trade_fee);
    let e2 = back_in - fraction_of(back_in as int, trade_fee);
    lemma_cp_bounds(e1, x, y);
    let q1 = (x * y) / (x + e1);
    let r1 = (x * y) % (x + e1);
    lemma_fundamental_div_mod(x * y, x + e1);
    vstd::arithmetic::div_mod::lemma_mod_pos_bound(x * y, x + e1);
    assert(x * y == q1 * (x + e1) + r1) by (nonlinear_arith)
        requires
            x * y == (x + e1) * q1 + r1,
    ;
    lemma_cp_bounds(e2, y, x);
    lemma_round_trip_core(x, y, e1, q1, r1, e2);
}

} // verus!

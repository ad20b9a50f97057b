use vstd::prelude::*;

use crate::constants::{DEFAULT_SOL_RESERVES, DEFAULT_TOKEN_RESERVES, PERCENTAGE_DENOMINATOR};
use crate::errors::Error;


verus! {

/// The balances `(from, to)` after moving `amount` lamports, and whether the move
/// succeeded: `from` is debited first and `to` credited second, and a step that
/// would leave the range of `u64` fails and stops the move there.
pub open spec fn withdraw_sol_outcome(from: u64, to: u64, amount: u64) -> (u64, u64, bool) {
    if amount > from {
        (from, to, false)
    } else if to + amount > u64::MAX {
        ((from - amount) as u64, to, false)
    } else {
        ((from - amount) as u64, (to + amount) as u64, true)
    }
}

/// `basis_points` hundredths of a percent of `amount`, rounded down.
pub open spec fn percentage_of(amount: int, basis_points: int) -> int {
    (amount * basis_points) / (PERCENTAGE_DENOMINATOR as int)
}

/// The share is computable in `u64` and is no more than the amount it is taken from.
pub open spec fn percentage_defined(amount: int, basis_points: int) -> bool {
    &&& amount * basis_points <= u64::MAX
    &&& percentage_of(amount, basis_points) <= amount
}

/// Moves `amount` lamports from the balance `from` to the balance `to`: `from` is
/// debited first and `to` credited second, each step failing with
/// `ArithmeticOverflow` when the balance would leave the range of `u64`.
pub fn withdraw_sol(from: &mut u64, to: &mut u64, amount: u64) -> (r: Result<(), Error>)
    ensures
        (*final(from), *final(to), r is Ok) == withdraw_sol_outcome(*old(from), *old(to), amount),
        r is Ok ==> r == Ok::<(), Error>(()),
        r is Err ==> r == Err::<(), Error>(Error::ArithmeticOverflow),
        r is Ok <==> (amount <= *old(from) && *old(to) + amount <= u64::MAX),
        r is Ok ==> *final(from) == *old(from) - amount && *final(to) == *old(to) + amount,
        r is Ok ==> *final(from) + *final(to) == *old(from) + *old(to),
{
    match from.checked_sub(amount) {
        Some(v) => {
            *from = v;
        },
        None => {
            return Err(Error::ArithmeticOverflow);
        },
    }
    match to.checked_add(amount) {
        Some(v) => {
            *to = v;
        },
        None => {
            return Err(Error::ArithmeticOverflow);
        },
    }
    Ok(())
}

/// A successful move keeps the total of the two balances.
pub proof fn lemma_withdraw_sol_conserves(from: u64, to: u64, amount: u64)
    ensures
        ({
            let (f, t, ok) = withdraw_sol_outcome(from, to, amount);
            ok ==> f + t == from + to
        }),
        ({
            let (f, t, ok) = withdraw_sol_outcome(from, to, amount);
            ok <==> (amount <= from && to + amount <= u64::MAX)
        }),
{
}

/// A share of at most 100% is never more than the amount it is taken from.
pub proof fn lemma_percentage_at_most_whole(amount: int, basis_points: int)
    requires
        0 <= amount,
        0 <= basis_points <= PERCENTAGE_DENOMINATOR,
    ensures
        0 <= percentage_of(amount, basis_points) <= amount,
{
    lemma_slippage_cut_bounds(amount, basis_points);
}

/// Computes `basis_points` hundredths of a percent of `amount`, rounded down.
pub(crate) fn percentage(amount: u64, basis_points: u16) -> (r: u64)
    requires
        amount * basis_points <= u64::MAX,
    ensures
        r == percentage_of(amount as int, basis_points as int),
{
    amount * (basis_points as u64) / (PERCENTAGE_DENOMINATOR as u64)
}

/// The number of tokens the bonding curve gives for `amount_in` lamports, before
/// slippage: `token_reserves * amount_in / (sol_reserves + amount_in)`, rounded down.
pub open spec fn out_token_base(amount_in: int) -> int {
    (DEFAULT_TOKEN_RESERVES * amount_in) / (DEFAULT_SOL_RESERVES + amount_in)
}

/// The part of `base` withheld for a slippage of `slippage` basis points, rounded down.
pub open spec fn slippage_cut(base: int, slippage: int) -> int {
    (base * slippage) / (PERCENTAGE_DENOMINATOR as int)
}

/// Tokens expected for `amount_in` lamports once `slippage` basis points are withheld.
pub open spec fn out_token_amount(amount_in: int, slippage: int) -> int {
    out_token_base(amount_in) - slippage_cut(out_token_base(amount_in), slippage)
}

/// The estimate is defined (does not underflow) exactly when the withheld part
/// does not exceed the base amount.
pub open spec fn out_token_amount_defined(amount_in: int, slippage: int) -> bool {
    slippage_cut(out_token_base(amount_in), slippage) <= out_token_base(amount_in)
}

/// The base amount is below the curve's token reserves, and zero only for a zero input.
pub proof fn lemma_out_token_base_bounds(amount_in: int)
    requires
        0 <= amount_in,
    ensures
        0 <= out_token_base(amount_in) < DEFAULT_TOKEN_RESERVES,
        amount_in > 0 ==> out_token_base(amount_in) > 0,
{
    let t = DEFAULT_TOKEN_RESERVES as int;
    let s = DEFAULT_SOL_RESERVES as int;
    let d = s + amount_in;
    let n = t * amount_in;
    assert(0 <= n) by (nonlinear_arith)
        requires
            t > 0,
            amount_in >= 0,
            n == t * amount_in,
    ;
    assert(n < d * t) by (nonlinear_arith)
        requires
            t > 0,
            s > 0,
            amount_in >= 0,
            n == t * amount_in,
            d == s + amount_in,
    ;
    vstd::arithmetic::div_mod::lemma_multiply_divide_lt(n, d, t);
    vstd::arithmetic::div_mod::lemma_div_is_ordered(0, n, d);
    assert(0int / d == 0) by (nonlinear_arith)
        requires
            d > 0,
    ;
    if amount_in > 0 {
        assert(d <= n) by (nonlinear_arith)
            requires
                t == 1_073_000_000_000_000,
                s == 30_000_000_000,
                amount_in >= 1,
                n == t * amount_in,
                d == s + amount_in,
        ;
        vstd::arithmetic::div_mod::lemma_div_is_ordered(d, n, d);
        assert(d / d == 1) by (nonlinear_arith)
            requires
                d > 0,
        ;
    }
}

/// The withheld part is never negative and never more than the base when the
/// slippage is at most 100%.
pub proof fn lemma_slippage_cut_bounds(base: int, slippage: int)
    requires
        0 <= base,
        0 <= slippage,
    ensures
        0 <= slippage_cut(base, slippage),
        slippage <= PERCENTAGE_DENOMINATOR ==> slippage_cut(base, slippage) <= base,
{
    let den = PERCENTAGE_DENOMINATOR as int;
    assert(0 <= base * slippage) by (nonlinear_arith)
        requires
            0 <= base,
            0 <= slippage,
    ;
    vstd::arithmetic::div_mod::lemma_div_is_ordered(0, base * slippage, den);
    if slippage <= den {
        assert(base * slippage <= base * den) by (nonlinear_arith)
            requires
                0 <= base,
                0 <= slippage <= den,
        ;
        vstd::arithmetic::div_mod::lemma_div_is_ordered(base * slippage, base * den, den);
        assert((base * den) / den == base) by (nonlinear_arith)
            requires
                den > 0,
        ;
    }
}

/// More lamports never buy fewer tokens on the curve (before slippage).
pub proof fn lemma_out_token_base_monotone(a1: int, a2: int)
    requires
        0 <= a1 <= a2,
    ensures
        out_token_base(a1) <= out_token_base(a2),
{
    let t = DEFAULT_TOKEN_RESERVES as int;
    let s = DEFAULT_SOL_RESERVES as int;
    let n1 = t * a1;
    let n2 = t * a2;
    let d1 = s + a1;
    let d2 = s + a2;
    let q = n1 / d1;
    vstd::arithmetic::div_mod::lemma_fundamental_div_mod(n1, d1);
    vstd::arithmetic::div_mod::lemma_mod_pos_bound(n1, d1);
    assert(q * d1 <= n1) by (nonlinear_arith)
        requires
            n1 == d1 * q + n1 % d1,
            0 <= n1 % d1,
    ;
    lemma_out_token_base_bounds(a1);
    assert(n1 * d2 <= n2 * d1) by (nonlinear_arith)
        requires
            t > 0,
            s > 0,
            0 <= a1 <= a2,
            n1 == t * a1,
            n2 == t * a2,
            d1 == s + a1,
            d2 == s + a2,
    ;
    assert(q * d2 <= n2) by (nonlinear_arith)
        requires
            q * d1 <= n1,
            n1 * d2 <= n2 * d1,
            d1 > 0,
            d2 > 0,
            q >= 0,
    ;
    vstd::arithmetic::div_mod::lemma_div_is_ordered(q * d2, n2, d2);
    assert((q * d2) / d2 == q) by (nonlinear_arith)
        requires
            d2 > 0,
    ;
}

/// For a slippage of at most 100%, a larger base never leaves fewer tokens after
/// the slippage is withheld.
pub proof fn lemma_after_slippage_monotone(b1: int, b2: int, slippage: int)
    requires
        0 <= b1 <= b2,
        0 <= slippage <= PERCENTAGE_DENOMINATOR,
    ensures
        b1 - slippage_cut(b1, slippage) <= b2 - slippage_cut(b2, slippage),
{
    let den = PERCENTAGE_DENOMINATOR as int;
    let j = b2 - b1;
    assert(b2 * slippage <= b1 * slippage + j * den) by (nonlinear_arith)
        requires
            0 <= b1 <= b2,
            j == b2 - b1,
            0 <= slippage <= den,
    ;
    vstd::arithmetic::div_mod::lemma_div_is_ordered(b2 * slippage, b1 * slippage + j * den, den);
    vstd::arithmetic::div_mod::lemma_hoist_over_denominator(b1 * slippage, j, den as nat);
}

/// The estimate grows with the lamports spent, for any slippage of at most 100%.
pub proof fn lemma_out_token_amount_monotone_in_amount(a1: int, a2: int, slippage: int)
    requires
        0 <= a1 <= a2,
        0 <= slippage <= PERCENTAGE_DENOMINATOR,
    ensures
        out_token_amount_defined(a1, slippage),
        out_token_amount_defined(a2, slippage),
        out_token_amount(a1, slippage) <= out_token_amount(a2, slippage),
{
    lemma_out_token_base_bounds(a1);
    lemma_out_token_base_bounds(a2);
    lemma_slippage_cut_bounds(out_token_base(a1), slippage);
    lemma_slippage_cut_bounds(out_token_base(a2), slippage);
    lemma_out_token_base_monotone(a1, a2);
    lemma_after_slippage_monotone(out_token_base(a1), out_token_base(a2), slippage);
}

/// A larger slippage never yields more tokens; with no slippage the estimate is the
/// base amount; and the estimate stays below the curve's token reserves.
pub proof fn lemma_out_token_amount_slippage(amount_in: int, s1: int, s2: int)
    requires
        0 <= amount_in,
        0 <= s1 <= s2,
        out_token_amount_defined(amount_in, s2),
    ensures
        out_token_amount_defined(amount_in, s1),
        out_token_amount(amount_in, s2) <= out_token_amount(amount_in, s1),
        out_token_amount(amount_in, 0) == out_token_base(amount_in),
        0 <= out_token_amount(amount_in, s2) < DEFAULT_TOKEN_RESERVES,
{
    let b = out_token_base(amount_in);
    let den = PERCENTAGE_DENOMINATOR as int;
    lemma_out_token_base_bounds(amount_in);
    lemma_slippage_cut_bounds(b, s1);
    lemma_slippage_cut_bounds(b, s2);
    assert(b * s1 <= b * s2) by (nonlinear_arith)
        requires
            0 <= b,
            0 <= s1 <= s2,
    ;
    vstd::arithmetic::div_mod::lemma_div_is_ordered(b * s1, b * s2, den);
    assert(b * 0 == 0);
    assert(0int / den == 0);
}

/// Estimates how many campaign tokens `amount_in` lamports buy on the bonding
/// curve, after withholding `slippage` basis points.
pub fn calc_out_token_amount(amount_in: u64, slippage: u16) -> (r: u64)
    requires
        out_token_amount_defined(amount_in as int, slippage as int),
    ensures
        r == out_token_amount(amount_in as int, slippage as int),
{
    let token_reserves: u128 = DEFAULT_TOKEN_RESERVES as u128;
    let sol_reserves: u128 = DEFAULT_SOL_RESERVES as u128;
    let slippage_percentage: u128 = slippage as u128;
    let default_denom: u128 = PERCENTAGE_DENOMINATOR as u128;
    let amount: u128 = amount_in as u128;

    assert(token_reserves * amount <= 1_073_000_000_000_000 * 0xffff_ffff_ffff_ffffu128)
        by (nonlinear_arith)
        requires
            token_reserves == 1_073_000_000_000_000,
            amount <= 0xffff_ffff_ffff_ffffu128,
    ;
    let numerator: u128 = token_reserves * amount;
    let denominator: u128 = sol_reserves + amount;
    let base: u128 = numerator / denominator;
    proof {
        lemma_out_token_base_bounds(amount_in as int);
        assert(base == out_token_base(amount_in as int));
    }
    assert(base * slippage_percentage <= 1_073_000_000_000_000 * 0xffffu128) by (nonlinear_arith)
        requires
            base < 1_073_000_000_000_000,
            slippage_percentage <= 0xffff,
    ;
    let cut: u128 = base * slippage_percentage / default_denom;
    assert(cut == slippage_cut(base as int, slippage as int));
    (base - cut) as u64
}

/// Like `calc_out_token_amount`, but gives `None` for the inputs on which the
/// withheld part would exceed the base amount.
pub fn calc_out_token_amount_checked(amount_in: u64, slippage: u16) -> (r: Option<u64>)
    ensures
        r is None <==> !out_token_amount_defined(amount_in as int, slippage as int),
        r is Some ==> r->Some_0 == out_token_amount(amount_in as int, slippage as int),
{
    let token_reserves: u128 = DEFAULT_TOKEN_RESERVES as u128;
    let amount: u128 = amount_in as u128;
    assert(token_reserves * amount <= 1_073_000_000_000_000 * 0xffff_ffff_ffff_ffffu128)
        by (nonlinear_arith)
        requires
            token_reserves == 1_073_000_000_000_000,
            amount <= 0xffff_ffff_ffff_ffffu128,
    ;
    let base: u128 = token_reserves * amount / (DEFAULT_SOL_RESERVES as u128 + amount);
    proof {
        lemma_out_token_base_bounds(amount_in as int);
    }
    assert(base * (slippage as u128) <= 1_073_000_000_000_000 * 0xffffu128) by (nonlinear_arith)
        requires
            base < 1_073_000_000_000_000,
            slippage <= 0xffff,
    ;
    let cut: u128 = base * (slippage as u128) / (PERCENTAGE_DENOMINATOR as u128);
    if cut <= base {
        Some(calc_out_token_amount(amount_in, slippage))
    } else {
        None
    }
}

} // verus!

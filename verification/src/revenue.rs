//! The arithmetic of fees and revenue sharing, with its laws.
use vstd::prelude::*;

use vstd::arithmetic::div_mod::{lemma_div_is_ordered, lemma_div_multiples_vanish, lemma_div_pos_is_pos, lemma_multiply_divide_le};
use vstd::arithmetic::mul::{lemma_mul_inequality, lemma_mul_is_commutative};

verus! {

/// Basis points in one whole.
pub const BPS_DENOMINATOR: i128 = 10000;

/// Integer division rounding toward zero, as `/` does on machine integers.
pub open spec fn tdiv(a: int, b: int) -> int {
    if b > 0 {
        if a >= 0 { a / b } else { -((-a) / b) }
    } else if b < 0 {
        if a >= 0 { -(a / (-b)) } else { (-a) / (-b) }
    } else {
        0
    }
}

/// The part of a revenue pool that belongs to all contributors together.
pub open spec fn spec_contributor_pool(total_pool: int, revenue_share_bps: int) -> int {
    tdiv(total_pool * revenue_share_bps, 10000)
}

/// One contributor's part of the contributors' pool, in proportion to what they gave.
pub open spec fn spec_contributor_due(contribution: int, contributor_pool: int, amount_raised: int) -> int {
    tdiv(contribution * contributor_pool, amount_raised)
}

/// The part of a revenue pool that the creator keeps.
pub open spec fn spec_creator_share(total_pool: int, revenue_share_bps: int) -> int {
    total_pool - spec_contributor_pool(total_pool, revenue_share_bps)
}

/// The platform's fee on a withdrawal of `amount_raised`, for a fee in basis points.
pub open spec fn spec_fee_amount(amount_raised: int, fee_bps: int) -> int {
    tdiv(amount_raised * fee_bps, 10000)
}

/// `a / b` rounding toward zero.
pub fn trunc_div(a: i128, b: i128) -> (q: i128)
    requires
        b != 0,
        !(a == i128::MIN && b == -1),
    ensures
        q == tdiv(a as int, b as int),
{
    if b > 0 {
        a / b
    } else if b == i128::MIN {
        if a == i128::MIN {
            1
        } else {
            assert(0 <= (a as int) < 0x8000_0000_0000_0000_0000_0000_0000_0000 ==> (a as int) / 0x8000_0000_0000_0000_0000_0000_0000_0000 == 0) by (nonlinear_arith);
            assert(a < 0 ==> (-(a as int)) / 0x8000_0000_0000_0000_0000_0000_0000_0000 == 0) by {
                if a < 0 {
                    assert(0 < -(a as int) < 0x8000_0000_0000_0000_0000_0000_0000_0000);
                    assert(forall|x: int| 0 <= x < 0x8000_0000_0000_0000_0000_0000_0000_0000 ==> #[trigger] (x / 0x8000_0000_0000_0000_0000_0000_0000_0000) == 0) by (nonlinear_arith);
                }
            }
            0
        }
    } else {
        let d: i128 = -b;
        let q0 = a / d;
        proof {
            if a >= 0 {
                lemma_div_pos_is_pos(a as int, d as int);
                assert(q0 == (a as int) / (d as int));
                assert(q0 as int <= a as int) by {
                    vstd::arithmetic::div_mod::lemma_div_nonincreasing(a as int, d as int);
                }
            } else {
                assert(q0 == -((-(a as int)) / (d as int)));
                lemma_div_pos_is_pos(-(a as int), d as int);
                assert((-(a as int)) / (d as int) <= -(a as int)) by {
                    vstd::arithmetic::div_mod::lemma_div_nonincreasing(-(a as int), d as int);
                }
                if d == 1 {
                    assert((-(a as int)) / 1 == -(a as int));
                }
                if d > 1 {
                    assert((-(a as int)) / (d as int) < -(a as int)) by {
                        vstd::arithmetic::div_mod::lemma_div_decreases(-(a as int), d as int);
                    }
                }
            }
        }
        -q0
    }
}

/// Compute the portion of the pool allocated to all contributors combined.
///
/// `revenue_share_bps` is in basis points.
pub fn contributor_pool(total_pool: i128, revenue_share_bps: i128) -> (r: i128)
    requires
        i128::MIN <= total_pool * revenue_share_bps <= i128::MAX,
    ensures
        r == spec_contributor_pool(total_pool as int, revenue_share_bps as int),
{
    trunc_div(total_pool * revenue_share_bps, BPS_DENOMINATOR)
}

/// Compute one contributor's share of the contributor pool.
pub fn contributor_due(contribution: i128, contributor_pool: i128, amount_raised: i128) -> (r: i128)
    requires
        i128::MIN <= contribution * contributor_pool <= i128::MAX,
        amount_raised != 0,
        !(contribution * contributor_pool == i128::MIN && amount_raised == -1),
    ensures
        r == spec_contributor_due(contribution as int, contributor_pool as int, amount_raised as int),
{
    trunc_div(contribution * contributor_pool, amount_raised)
}

/// The platform's fee on a withdrawal of `amount_raised`.
pub fn fee_amount(amount_raised: i128, fee_bps: u32) -> (r: i128)
    requires
        i128::MIN <= amount_raised * fee_bps <= i128::MAX,
    ensures
        r == spec_fee_amount(amount_raised as int, fee_bps as int),
{
    trunc_div(amount_raised * (fee_bps as i128), BPS_DENOMINATOR)
}

/// Dividing a machine integer by a non-zero one, rounding toward zero, gives
/// a machine integer again, but for the one quotient that overflows.
pub proof fn lemma_tdiv_fits(a: int, b: int)
    requires
        i128::MIN <= a <= i128::MAX,
        b != 0,
        !(a == i128::MIN && b == -1),
    ensures
        i128::MIN <= tdiv(a, b) <= i128::MAX,
{
    if b > 0 {
        if a >= 0 {
            lemma_div_pos_is_pos(a, b);
            vstd::arithmetic::div_mod::lemma_div_nonincreasing(a, b);
        } else {
            lemma_div_pos_is_pos(-a, b);
            vstd::arithmetic::div_mod::lemma_div_nonincreasing(-a, b);
        }
    } else {
        if a >= 0 {
            lemma_div_pos_is_pos(a, -b);
            vstd::arithmetic::div_mod::lemma_div_nonincreasing(a, -b);
        } else {
            lemma_div_pos_is_pos(-a, -b);
            if b == -1 {
                assert((-a) / 1 == -a);
            } else {
                vstd::arithmetic::div_mod::lemma_div_is_ordered_by_denominator(-a, 2, -b);
                assert((-a) / 2 <= 0x4000_0000_0000_0000_0000_0000_0000_0000) by (nonlinear_arith)
                    requires
                        0 < -a <= 0x8000_0000_0000_0000_0000_0000_0000_0000,
                ;
            }
        }
    }
}

/// The contributors' pool of a non-negative revenue pool, at a share of at most
/// 100%, is never negative and never exceeds the pool.
pub proof fn lemma_contributor_pool_within_total(total_pool: int, revenue_share_bps: int)
    requires
        0 <= total_pool,
        0 <= revenue_share_bps <= 10000,
    ensures
        0 <= spec_contributor_pool(total_pool, revenue_share_bps) <= total_pool,
{
    assert(0 <= total_pool * revenue_share_bps <= total_pool * 10000) by (nonlinear_arith)
        requires
            0 <= total_pool,
            0 <= revenue_share_bps <= 10000,
    ;
    lemma_div_pos_is_pos(total_pool * revenue_share_bps, 10000);
    lemma_multiply_divide_le(total_pool * revenue_share_bps, 10000, total_pool);
    lemma_mul_is_commutative(10000, total_pool);
}

/// The creator's share of a non-negative revenue pool, at a share of at most
/// 100%, is never negative.
pub proof fn lemma_creator_share_non_negative(total_pool: int, revenue_share_bps: int)
    requires
        0 <= total_pool,
        0 <= revenue_share_bps <= 10000,
    ensures
        spec_creator_share(total_pool, revenue_share_bps) >= 0,
{
    lemma_contributor_pool_within_total(total_pool, revenue_share_bps);
}

/// Splitting a pool between contributors and creator loses and creates nothing.
pub proof fn lemma_pool_split_is_lossless(total_pool: int, revenue_share_bps: int)
    ensures
        spec_contributor_pool(total_pool, revenue_share_bps) + spec_creator_share(total_pool, revenue_share_bps)
            == total_pool,
{
}

/// A contributor who gave no more than was raised is due no more than the
/// contributors' pool, and never a negative amount.
pub proof fn lemma_due_within_contributor_pool(contribution: int, contributor_pool: int, amount_raised: int)
    requires
        0 <= contribution <= amount_raised,
        1 <= amount_raised,
        0 <= contributor_pool,
    ensures
        0 <= spec_contributor_due(contribution, contributor_pool, amount_raised) <= contributor_pool,
{
    assert(0 <= contribution * contributor_pool <= amount_raised * contributor_pool) by (nonlinear_arith)
        requires
            0 <= contribution <= amount_raised,
            0 <= contributor_pool,
    ;
    lemma_div_pos_is_pos(contribution * contributor_pool, amount_raised);
    lemma_multiply_divide_le(contribution * contributor_pool, amount_raised, contributor_pool);
}

/// A revenue share of zero gives contributors nothing.
pub proof fn lemma_zero_share_gives_nothing(total_pool: int)
    ensures
        spec_contributor_pool(total_pool, 0) == 0,
{
}

/// The largest share allowed for a campaign (50%) gives contributors half the
/// pool, rounded down.
pub proof fn lemma_half_share_gives_half(total_pool: int)
    requires
        0 <= total_pool,
    ensures
        spec_contributor_pool(total_pool, 5000) == total_pool / 2,
{
    assert(total_pool * 5000 == (total_pool * 5000) as int);
    assert((total_pool * 5000) / 10000 == total_pool / 2) by (nonlinear_arith)
        requires
            0 <= total_pool,
    ;
}

/// A contributor who gave everything that was raised is due the whole
/// contributors' pool.
pub proof fn lemma_sole_contributor_gets_whole_pool(contributor_pool: int, amount_raised: int)
    requires
        1 <= amount_raised,
    ensures
        spec_contributor_due(amount_raised, contributor_pool, amount_raised) == contributor_pool,
{
    lemma_mul_is_commutative(amount_raised, contributor_pool);
    lemma_div_multiples_vanish(contributor_pool, amount_raised);
    if contributor_pool < 0 {
        lemma_div_multiples_vanish(-contributor_pool, amount_raised);
        assert(-(amount_raised * contributor_pool) == amount_raised * (-contributor_pool)) by (nonlinear_arith);
    }
}

/// An empty revenue pool gives every contributor nothing.
pub proof fn lemma_empty_pool_gives_nothing(revenue_share_bps: int, contribution: int, amount_raised: int)
    requires
        1 <= amount_raised,
    ensures
        spec_contributor_pool(0, revenue_share_bps) == 0,
        spec_contributor_due(contribution, spec_contributor_pool(0, revenue_share_bps), amount_raised) == 0,
{
    assert(0 * revenue_share_bps == 0);
    assert(contribution * 0 == 0);
    assert(0int / amount_raised == 0) by (nonlinear_arith)
        requires
            1 <= amount_raised,
    ;
}

/// A withdrawal's fee and the creator's part add up to the amount raised, and
/// at a fee of at most 10% the fee is at most a tenth of it and never negative.
pub proof fn lemma_fee_split(amount_raised: int, fee_bps: int)
    requires
        0 <= amount_raised,
        0 <= fee_bps <= 1000,
    ensures
        0 <= spec_fee_amount(amount_raised, fee_bps) <= amount_raised / 10,
        spec_fee_amount(amount_raised, fee_bps) + (amount_raised - spec_fee_amount(amount_raised, fee_bps))
            == amount_raised,
{
    assert(0 <= amount_raised * fee_bps <= amount_raised * 1000) by (nonlinear_arith)
        requires
            0 <= amount_raised,
            0 <= fee_bps <= 1000,
    ;
    lemma_div_pos_is_pos(amount_raised * fee_bps, 10000);
    lemma_div_is_ordered(amount_raised * fee_bps, amount_raised * 1000, 10000);
    assert((amount_raised * 1000) / 10000 == amount_raised / 10) by (nonlinear_arith)
        requires
            0 <= amount_raised,
    ;
}


/// More revenue never gives contributors or the creator less: for a share of
/// at most 100%, both parts of a pool grow with the pool.
pub proof fn lemma_shares_grow_with_pool(total_pool: int, larger_pool: int, revenue_share_bps: int)
    requires
        0 <= total_pool <= larger_pool,
        0 <= revenue_share_bps <= 10000,
    ensures
        0 <= spec_contributor_pool(total_pool, revenue_share_bps) <= spec_contributor_pool(larger_pool, revenue_share_bps),
        spec_creator_share(total_pool, revenue_share_bps) <= spec_creator_share(larger_pool, revenue_share_bps),
{
    let d = larger_pool - total_pool;
    let a = total_pool * revenue_share_bps;
    let b = larger_pool * revenue_share_bps;
    assert(0 <= a <= b && b <= a + d * 10000) by (nonlinear_arith)
        requires
            0 <= total_pool <= larger_pool,
            0 <= revenue_share_bps <= 10000,
            d == larger_pool - total_pool,
            a == total_pool * revenue_share_bps,
            b == larger_pool * revenue_share_bps,
    ;
    lemma_div_pos_is_pos(a, 10000);
    lemma_div_is_ordered(a, b, 10000);
    lemma_div_is_ordered(b, a + d * 10000, 10000);
    vstd::arithmetic::div_mod::lemma_hoist_over_denominator(a, d, 10000);
}

/// A contributor with a non-negative contribution is due no less from a
/// larger contributors' pool, never a negative amount, and what they are
/// due, times what was raised, is at most their contribution times the pool.
pub proof fn lemma_due_grows_with_pool(contribution: int, contributor_pool: int, larger_pool: int, amount_raised: int)
    requires
        contribution >= 0,
        0 <= contributor_pool <= larger_pool,
        amount_raised > 0,
    ensures
        0 <= spec_contributor_due(contribution, contributor_pool, amount_raised) <= spec_contributor_due(
            contribution,
            larger_pool,
            amount_raised,
        ),
        amount_raised * spec_contributor_due(contribution, contributor_pool, amount_raised) <= contribution
            * contributor_pool,
{
    let a = contribution * contributor_pool;
    let b = contribution * larger_pool;
    assert(0 <= a <= b) by (nonlinear_arith)
        requires
            contribution >= 0,
            0 <= contributor_pool <= larger_pool,
            a == contribution * contributor_pool,
            b == contribution * larger_pool,
    ;
    lemma_div_pos_is_pos(a, amount_raised);
    lemma_div_is_ordered(a, b, amount_raised);
    vstd::arithmetic::div_mod::lemma_fundamental_div_mod(a, amount_raised);
    vstd::arithmetic::div_mod::lemma_mod_pos_bound(a, amount_raised);
}


/// The contributors' pool is the pool times the share, over 10000, rounded
/// down: for non-negative amounts it is the one integer within 10000 below.
pub proof fn lemma_contributor_pool_rounds_down(total_pool: int, revenue_share_bps: int)
    requires
        total_pool >= 0,
        revenue_share_bps >= 0,
    ensures
        0 <= total_pool * revenue_share_bps - spec_contributor_pool(total_pool, revenue_share_bps) * 10000 < 10000,
{
    let a = total_pool * revenue_share_bps;
    assert(a >= 0) by (nonlinear_arith)
        requires
            total_pool >= 0,
            revenue_share_bps >= 0,
            a == total_pool * revenue_share_bps,
    ;
    vstd::arithmetic::div_mod::lemma_fundamental_div_mod(a, 10000);
    vstd::arithmetic::div_mod::lemma_mod_pos_bound(a, 10000);
}

/// A contributor is due their contribution times the contributors' pool,
/// over what was raised, rounded down: for non-negative amounts the one
/// integer whose product with the amount raised is within it below.
pub proof fn lemma_due_rounds_down(contribution: int, contributor_pool: int, amount_raised: int)
    requires
        contribution >= 0,
        contributor_pool >= 0,
        amount_raised > 0,
    ensures
        0 <= contribution * contributor_pool - spec_contributor_due(contribution, contributor_pool, amount_raised)
            * amount_raised < amount_raised,
{
    let a = contribution * contributor_pool;
    assert(a >= 0) by (nonlinear_arith)
        requires
            contribution >= 0,
            contributor_pool >= 0,
            a == contribution * contributor_pool,
    ;
    vstd::arithmetic::div_mod::lemma_fundamental_div_mod(a, amount_raised);
    vstd::arithmetic::div_mod::lemma_mod_pos_bound(a, amount_raised);
    assert((a / amount_raised) * amount_raised == amount_raised * (a / amount_raised)) by (nonlinear_arith);
}

/// The platform's fee is the amount raised times the fee, over 10000,
/// rounded down: for non-negative amounts the one integer within 10000 below.
pub proof fn lemma_fee_rounds_down(amount_raised: int, fee_bps: int)
    requires
        amount_raised >= 0,
        fee_bps >= 0,
    ensures
        0 <= amount_raised * fee_bps - spec_fee_amount(amount_raised, fee_bps) * 10000 < 10000,
{
    lemma_contributor_pool_rounds_down(amount_raised, fee_bps);
}

} // verus!

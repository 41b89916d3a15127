//! The deposit engine: the genesis and steady-state liquidity formulas.
//!
//! The engine mutates the pool record and returns the exact transfer and
//! mint amounts; the caller moves the assets and issues the shares with
//! precisely those amounts, all within one atomic unit of work.

use vstd::prelude::*;
use vstd::arithmetic::div_mod::lemma_div_pos_is_pos;
use vstd::arithmetic::div_mod::lemma_fundamental_div_mod;
use vstd::arithmetic::div_mod::lemma_mod_bound;
use vstd::arithmetic::mul::lemma_mul_nonnegative;
use vstd::arithmetic::mul::lemma_mul_upper_bound;

use crate::errors::AMMError;
use crate::math;
use crate::math::is_isqrt;
use crate::pool::PoolAccount;

verus! {

/// The amount of asset B a steady-state deposit of `amount_a` must bring to
/// preserve the pool's current ratio: `floor(amount_a * reserve_b / reserve_a)`.
pub open spec fn required_b_spec(pool: PoolAccount, amount_a: u64) -> int
    recommends
        pool.token_a_amount > 0,
{
    amount_a as int * pool.token_b_amount as int / pool.token_a_amount as int
}

/// The shares a steady-state deposit of `amount_a` earns: proportional to the
/// contribution relative to the existing reserve and share supply,
/// `floor(amount_a * lp_supply / reserve_a)`.
pub open spec fn steady_shares_spec(pool: PoolAccount, lp_supply: u64, amount_a: u64) -> int
    recommends
        pool.token_a_amount > 0,
{
    amount_a as int * lp_supply as int / pool.token_a_amount as int
}

/// What a successful deposit obliges the caller to perform: transfer the two
/// asset amounts into the vaults and mint the shares to the depositor.
#[derive(Clone, Copy, Debug, PartialEq, Eq, Structural)]
pub struct DepositPlan {
    pub amount_a_to_transfer: u64,
    pub amount_b_to_transfer: u64,
    pub liquidity_to_mint: u128,
}

/// Applies a deposit of `amount_a` and (up to) `amount_b` to the pool.
///
/// Genesis mode (`reserve_a == 0`): both amounts are accepted verbatim and
/// the shares are the floor square root of their product. Steady-state mode
/// (`reserve_a > 0`): fails with `InsufficientFundsProvided` exactly when
/// `amount_b` is below the ratio-preserving requirement, leaving the pool
/// untouched; on success exactly `amount_a` and the requirement are
/// transferred — any surplus authorization of B is never moved.
///
/// The preconditions rule out precisely the inputs on which the wide product
/// or a reserve update would exceed 128 bits, which the host treats as a
/// fatal abort of the whole unit of work.
pub fn add_liquidity(
    pool: &mut PoolAccount,
    lp_supply: u64,
    amount_a: u64,
    amount_b: u64,
) -> (r: Result<DepositPlan, AMMError>)
    requires
        old(pool).token_a_amount > 0 ==> amount_a as int * old(pool).token_b_amount as int
            <= u128::MAX as int,
        old(pool).token_a_amount > 0 && required_b_spec(*old(pool), amount_a) <= amount_b as int
            ==> old(pool).token_a_amount + amount_a <= u128::MAX && old(pool).token_b_amount
            + required_b_spec(*old(pool), amount_a) <= u128::MAX,
    ensures
        final(pool).token_a_mint == old(pool).token_a_mint,
        final(pool).token_b_mint == old(pool).token_b_mint,
        final(pool).lp_token_mint == old(pool).lp_token_mint,
        final(pool).bump == old(pool).bump,
        old(pool).wf() ==> final(pool).wf(),
        r is Err <==> old(pool).token_a_amount > 0 && (amount_b as int) < required_b_spec(
            *old(pool),
            amount_a,
        ),
        r is Err ==> r == Err::<DepositPlan, AMMError>(AMMError::InsufficientFundsProvided)
            && *final(pool) == *old(pool),
        old(pool).token_a_amount == 0 ==> {
            &&& r is Ok
            &&& r->Ok_0.amount_a_to_transfer == amount_a
            &&& r->Ok_0.amount_b_to_transfer == amount_b
            &&& is_isqrt(amount_a as int * amount_b as int, r->Ok_0.liquidity_to_mint as int)
            &&& r->Ok_0.liquidity_to_mint <= u64::MAX
            &&& final(pool).token_a_amount == amount_a
            &&& final(pool).token_b_amount == amount_b
        },
        old(pool).token_a_amount > 0 && required_b_spec(*old(pool), amount_a) <= amount_b as int
            ==> {
            &&& r is Ok
            &&& final(pool).token_a_amount >= old(pool).token_a_amount
            &&& final(pool).token_b_amount >= old(pool).token_b_amount
            &&& r->Ok_0.amount_a_to_transfer == amount_a
            &&& r->Ok_0.amount_b_to_transfer as int == required_b_spec(*old(pool), amount_a)
            &&& r->Ok_0.liquidity_to_mint as int == steady_shares_spec(
                *old(pool),
                lp_supply,
                amount_a,
            )
            &&& final(pool).token_a_amount as int == old(pool).token_a_amount + amount_a
            &&& final(pool).token_b_amount as int == old(pool).token_b_amount + required_b_spec(
                *old(pool),
                amount_a,
            )
        },
{
    if pool.token_a_amount == 0 {
        // Genesis: the depositor sets the initial ratio; shares normalize it
        // as the floor square root of the product.
        let product: u128 = math::wide_mul(amount_a, amount_b);
        let liquidity_to_mint: u128 = math::isqrt(product);
        pool.token_a_amount = amount_a as u128;
        pool.token_b_amount = amount_b as u128;
        Ok(
            DepositPlan {
                amount_a_to_transfer: amount_a,
                amount_b_to_transfer: amount_b,
                liquidity_to_mint,
            },
        )
    } else {
        let total_supply: u128 = lp_supply as u128;
        let pool_a: u128 = pool.token_a_amount;
        let pool_b: u128 = pool.token_b_amount;
        let product: u128 = (amount_a as u128) * pool_b;
        let amount_b_required: u128 = math::floor_div(product, pool_a);
        if (amount_b as u128) < amount_b_required {
            return Err(AMMError::InsufficientFundsProvided);
        }
        proof {
            lemma_mul_upper_bound(amount_a as int, u64::MAX as int, lp_supply as int,
                u64::MAX as int);
            // The requirement is nonnegative, so reserves never decrease.
            lemma_mul_nonnegative(amount_a as int, pool_b as int);
            lemma_div_pos_is_pos(amount_a as int * pool_b as int, pool_a as int);
        }
        let shares_product: u128 = (amount_a as u128) * total_supply;
        let liquidity_to_mint: u128 = math::floor_div(shares_product, pool_a);
        // The requirement was met, so it fits the 64-bit transfer amount.
        let amount_b_to_transfer: u64 = amount_b_required as u64;
        pool.token_a_amount = pool_a + amount_a as u128;
        pool.token_b_amount = pool_b + amount_b_required;
        Ok(
            DepositPlan {
                amount_a_to_transfer: amount_a,
                amount_b_to_transfer,
                liquidity_to_mint,
            },
        )
    }
}

/// Ratio preservation: a successful steady-state deposit changes the
/// reserve ratio only by the floor-division rounding error. In
/// cross-multiplied form, `reserve_b / reserve_a` before the deposit exceeds
/// the ratio after it by exactly the remainder of the requirement's floor
/// division — nonnegative and below `reserve_a`, so the ratio error is
/// bounded by `1 / reserve_a`.
pub proof fn lemma_ratio_preservation(pool: PoolAccount, amount_a: u64, amount_b: u64)
    requires
        pool.token_a_amount > 0,
        required_b_spec(pool, amount_a) <= amount_b as int,
    ensures
        ({
            let ra = pool.token_a_amount as int;
            let rb = pool.token_b_amount as int;
            let ra_after = ra + amount_a as int;
            let rb_after = rb + required_b_spec(pool, amount_a);
            0 <= rb * ra_after - rb_after * ra < ra
        }),
{
    let ra = pool.token_a_amount as int;
    let rb = pool.token_b_amount as int;
    let a = amount_a as int;
    let q = a * rb / ra;
    let rem = a * rb % ra;
    lemma_fundamental_div_mod(a * rb, ra);
    lemma_mod_bound(a * rb, ra);
    assert(rb * (ra + a) - (rb + q) * ra == rem) by (nonlinear_arith)
        requires
            a * rb == ra * q + rem,
    ;
}

/// Non-idempotence: the same deposit applied twice in sequence compounds.
/// The second application starts from the first one's post-state, so the
/// reserves receive two independent increases — never a single effect.
pub proof fn lemma_deposit_not_idempotent(
    pool: PoolAccount,
    mid: PoolAccount,
    end: PoolAccount,
    amount_a: u64,
)
    requires
        amount_a > 0,
        pool.token_a_amount > 0,
        mid.token_a_amount == pool.token_a_amount + amount_a,
        mid.token_b_amount == pool.token_b_amount + required_b_spec(pool, amount_a),
        end.token_a_amount == mid.token_a_amount + amount_a,
        end.token_b_amount == mid.token_b_amount + required_b_spec(mid, amount_a),
    ensures
        end.token_a_amount == pool.token_a_amount + 2 * amount_a,
        mid.token_a_amount != pool.token_a_amount,
        end.token_a_amount != mid.token_a_amount,
        pool.token_b_amount <= mid.token_b_amount <= end.token_b_amount,
{
    lemma_mul_nonnegative(amount_a as int, pool.token_b_amount as int);
    lemma_div_pos_is_pos(amount_a as int * pool.token_b_amount as int,
        pool.token_a_amount as int);
    lemma_mul_nonnegative(amount_a as int, mid.token_b_amount as int);
    lemma_div_pos_is_pos(amount_a as int * mid.token_b_amount as int, mid.token_a_amount as int);
}

} // verus!

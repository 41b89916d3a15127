use solana_amm::add_liquidity;
use solana_amm::initialize_pool;
use solana_amm::AMMError;
use solana_amm::AssetId;
use solana_amm::PoolAccount;

fn asset(tag: u8) -> AssetId {
    AssetId { bytes: [tag; 32] }
}

fn fresh_pool() -> PoolAccount {
    initialize_pool(asset(1), asset(2), asset(9), 255).unwrap()
}

/// A pool in the steady state of the worked example: reserves (100, 400),
/// with 200 shares outstanding at the mint.
fn seeded_pool() -> PoolAccount {
    let mut pool = fresh_pool();
    add_liquidity(&mut pool, 0, 100, 400).unwrap();
    pool
}

#[test]
fn create_pool_ordered_succeeds_with_zero_reserves() {
    let pool = initialize_pool(asset(1), asset(2), asset(9), 251).unwrap();
    assert_eq!(pool.token_a_amount, 0);
    assert_eq!(pool.token_b_amount, 0);
    assert_eq!(pool.token_a_mint, asset(1));
    assert_eq!(pool.token_b_mint, asset(2));
    assert_eq!(pool.lp_token_mint, asset(9));
    assert_eq!(pool.bump, 251);
}

#[test]
fn create_pool_reversed_fails() {
    let r = initialize_pool(asset(2), asset(1), asset(9), 255);
    assert_eq!(r, Err(AMMError::InvalidMintOrder));
}

#[test]
fn create_pool_equal_mints_fails() {
    let r = initialize_pool(asset(7), asset(7), asset(9), 255);
    assert_eq!(r, Err(AMMError::InvalidMintOrder));
}

#[test]
fn asset_order_decided_by_first_differing_byte() {
    let mut lo = [5u8; 32];
    let mut hi = [5u8; 32];
    lo[31] = 1;
    hi[31] = 2;
    let lo = AssetId { bytes: lo };
    let hi = AssetId { bytes: hi };
    assert!(lo.lt(&hi));
    assert!(!hi.lt(&lo));
    assert!(!lo.lt(&lo));
    // An earlier byte outweighs every later one.
    let mut early = [5u8; 32];
    early[0] = 4;
    early[31] = 200;
    let early = AssetId { bytes: early };
    assert!(early.lt(&lo));
}

#[test]
fn genesis_deposit_mints_sqrt_of_product() {
    let mut pool = fresh_pool();
    let plan = add_liquidity(&mut pool, 0, 100, 400).unwrap();
    assert_eq!(plan.liquidity_to_mint, 200);
    assert_eq!(plan.amount_a_to_transfer, 100);
    assert_eq!(plan.amount_b_to_transfer, 400);
    assert_eq!(pool.token_a_amount, 100);
    assert_eq!(pool.token_b_amount, 400);
}

#[test]
fn genesis_deposit_rounds_shares_down() {
    let mut pool = fresh_pool();
    let plan = add_liquidity(&mut pool, 0, 2, 3).unwrap();
    assert_eq!(plan.liquidity_to_mint, 2);
    assert_eq!(pool.token_a_amount, 2);
    assert_eq!(pool.token_b_amount, 3);
}

#[test]
fn genesis_deposit_at_largest_amounts() {
    let mut pool = fresh_pool();
    let plan = add_liquidity(&mut pool, 0, u64::MAX, u64::MAX).unwrap();
    assert_eq!(plan.liquidity_to_mint, u64::MAX as u128);
    assert_eq!(pool.token_a_amount, u64::MAX as u128);
    assert_eq!(pool.token_b_amount, u64::MAX as u128);
}

#[test]
fn steady_deposit_exactly_meeting_requirement() {
    let mut pool = seeded_pool();
    let plan = add_liquidity(&mut pool, 200, 50, 200).unwrap();
    assert_eq!(plan.amount_a_to_transfer, 50);
    assert_eq!(plan.amount_b_to_transfer, 200);
    assert_eq!(plan.liquidity_to_mint, 100);
    assert_eq!(pool.token_a_amount, 150);
    assert_eq!(pool.token_b_amount, 600);
}

#[test]
fn steady_deposit_below_requirement_fails_unchanged() {
    let mut pool = seeded_pool();
    let before = pool;
    let r = add_liquidity(&mut pool, 200, 50, 100);
    assert_eq!(r, Err(AMMError::InsufficientFundsProvided));
    assert_eq!(pool, before);
}

#[test]
fn steady_deposit_surplus_is_not_transferred() {
    let mut pool = seeded_pool();
    let plan = add_liquidity(&mut pool, 200, 50, 500).unwrap();
    assert_eq!(plan.amount_b_to_transfer, 200);
    assert_eq!(plan.liquidity_to_mint, 100);
    assert_eq!(pool.token_a_amount, 150);
    assert_eq!(pool.token_b_amount, 600);
}

#[test]
fn steady_deposit_requirement_rounds_down() {
    let mut pool = fresh_pool();
    add_liquidity(&mut pool, 0, 3, 10).unwrap();
    // required_b = floor(2 * 10 / 3) = 6; shares = floor(2 * 5 / 3) = 3.
    let plan = add_liquidity(&mut pool, 5, 2, 7).unwrap();
    assert_eq!(plan.amount_b_to_transfer, 6);
    assert_eq!(plan.liquidity_to_mint, 3);
    assert_eq!(pool.token_a_amount, 5);
    assert_eq!(pool.token_b_amount, 16);
}

#[test]
fn identical_deposits_compound_twice() {
    let mut pool = seeded_pool();
    let first = add_liquidity(&mut pool, 200, 50, 200).unwrap();
    assert_eq!(pool.token_a_amount, 150);
    assert_eq!(pool.token_b_amount, 600);
    // The first deposit minted 100 shares, so the supply is now 300.
    let second = add_liquidity(&mut pool, 300, 50, 200).unwrap();
    assert_eq!(first.liquidity_to_mint, 100);
    assert_eq!(second.liquidity_to_mint, 100);
    assert_eq!(pool.token_a_amount, 200);
    assert_eq!(pool.token_b_amount, 800);
}

#[test]
fn deposit_touches_no_identity_field() {
    let mut pool = seeded_pool();
    add_liquidity(&mut pool, 200, 50, 200).unwrap();
    assert_eq!(pool.token_a_mint, asset(1));
    assert_eq!(pool.token_b_mint, asset(2));
    assert_eq!(pool.lp_token_mint, asset(9));
    assert_eq!(pool.bump, 255);
}

#[test]
fn wide_mul_is_exact_at_the_top() {
    assert_eq!(
        solana_amm::math::wide_mul(u64::MAX, u64::MAX),
        340282366920938463426481119284349108225u128
    );
    assert_eq!(solana_amm::math::wide_mul(0, u64::MAX), 0);
    assert_eq!(solana_amm::math::wide_mul(100, 400), 40000);
}

#[test]
fn floor_div_truncates() {
    assert_eq!(solana_amm::math::floor_div(7, 2), 3);
    assert_eq!(solana_amm::math::floor_div(0, 5), 0);
    assert_eq!(solana_amm::math::floor_div(u128::MAX, 1), u128::MAX);
}

#[test]
fn isqrt_exact_values() {
    assert_eq!(solana_amm::math::isqrt(0), 0);
    assert_eq!(solana_amm::math::isqrt(1), 1);
    assert_eq!(solana_amm::math::isqrt(2), 1);
    assert_eq!(solana_amm::math::isqrt(3), 1);
    assert_eq!(solana_amm::math::isqrt(4), 2);
    assert_eq!(solana_amm::math::isqrt(40000), 200);
    assert_eq!(solana_amm::math::isqrt(40001), 200);
    assert_eq!(solana_amm::math::isqrt(40400), 200);
    assert_eq!(solana_amm::math::isqrt(40401), 201);
    assert_eq!(solana_amm::math::isqrt(u128::MAX), u64::MAX as u128);
}

#[test]
fn ratio_error_stays_below_one_part_in_reserve_a() {
    // For several successful steady-state deposits, check the cross-multiplied
    // ratio bound: 0 <= rb * ra' - rb' * ra < ra.
    let cases: [(u128, u128, u64); 4] = [(100, 400, 50), (3, 10, 2), (7, 13, 5), (1000, 1, 999)];
    for (ra, rb, a) in cases {
        let mut pool = fresh_pool();
        add_liquidity(&mut pool, 0, ra as u64, rb as u64).unwrap();
        let plan = add_liquidity(&mut pool, 100, a, u64::MAX).unwrap();
        let ra2 = pool.token_a_amount;
        let rb2 = pool.token_b_amount;
        assert_eq!(ra2, ra + a as u128);
        assert_eq!(rb2, rb + plan.amount_b_to_transfer as u128);
        let diff = (rb * ra2) as i128 - (rb2 * ra) as i128;
        assert!(0 <= diff && (diff as u128) < ra);
    }
}

use fomo3d::fomo3d_io::{AccountId, Fomo3dAction, Fomo3dEvent, Fomo3dInit};
use fomo3d::game::{
    init, key_price_for, seconds_of, BuyPlan, Fomo3d, Fomo3dError, PRECISION, ROUND_DURATION,
};

fn token() -> AccountId {
    AccountId([7u8; 32])
}

fn alice() -> AccountId {
    AccountId([1u8; 32])
}

fn bob() -> AccountId {
    AccountId([2u8; 32])
}

fn fresh() -> Fomo3d {
    init(Fomo3dInit { token_address: token() })
}

#[test]
fn init_starts_empty() {
    let g = fresh();
    assert_eq!(g.token_address, token());
    assert_eq!(g.last_user_address, AccountId::zero());
    assert_eq!(g.key_price, PRECISION);
    assert_eq!(g.keys_sold, 0);
    assert_eq!(g.pot, 0);
    assert_eq!(g.last_update, None);
    assert_eq!(g.time_left, 0);
    assert_eq!(Fomo3dAction::BuyKey, Fomo3dAction::BuyKey);
}

#[test]
fn first_buy_costs_base_price() {
    let mut g = fresh();
    assert_eq!(g.plan_buy(1_000), Ok(BuyPlan::Purchase { price: PRECISION }));
    let r = g.buy_key(alice(), 1_000);
    assert_eq!(r, Ok(Some(Fomo3dEvent::KeyBought { price: PRECISION, address: alice() })));
    assert_eq!(g.key_price, 1_000_000_000_000);
    assert_eq!(g.keys_sold, 1);
    assert_eq!(g.pot, PRECISION);
    assert_eq!(g.time_left, 30);
    assert_eq!(g.last_update, Some(1_000));
    assert_eq!(g.last_user_address, alice());
}

#[test]
fn second_buy_priced_from_one_key() {
    let mut g = fresh();
    g.buy_key(alice(), 1_000).unwrap();
    let r = g.buy_key(bob(), 1_000);
    assert_eq!(r, Ok(Some(Fomo3dEvent::KeyBought { price: PRECISION, address: bob() })));
    assert_eq!(g.key_price, PRECISION);
    assert_eq!(g.keys_sold, 2);
    assert_eq!(g.pot, 2 * PRECISION);
    assert_eq!(g.time_left, 60);
    assert_eq!(g.last_user_address, bob());
}

#[test]
fn prices_follow_square_curve() {
    let mut g = fresh();
    let mut expected_pot: u128 = 0;
    for k in 0u128..10 {
        let expected = if k == 0 { PRECISION } else { k * k * PRECISION };
        let r = g.buy_key(alice(), 500);
        assert_eq!(r, Ok(Some(Fomo3dEvent::KeyBought { price: expected, address: alice() })));
        assert_eq!(g.key_price, expected);
        expected_pot += expected;
        assert_eq!(g.pot, expected_pot);
    }
    assert_eq!(g.keys_sold, 10);
    // 1 + 1 + 4 + 9 + ... + 81 = 286
    assert_eq!(g.pot, 286 * PRECISION);
}

#[test]
fn key_price_for_values() {
    assert_eq!(key_price_for(0), Some(PRECISION));
    assert_eq!(key_price_for(1), Some(PRECISION));
    assert_eq!(key_price_for(3), Some(9 * PRECISION));
    assert_eq!(key_price_for(1u128 << 64), None);
    assert_eq!(key_price_for(u128::MAX), None);
    // 2^44 squared is 2^88, times 10^12 (about 2^39.9) still fits in 128 bits
    assert_eq!(key_price_for(1u128 << 44), Some((1u128 << 88) * PRECISION));
    // 2^45 squared is 2^90, and 2^90 * 10^12 exceeds 2^128
    assert_eq!(key_price_for(1u128 << 45), None);
}

#[test]
fn time_left_clamps_at_round_duration() {
    let mut g = fresh();
    let n = ROUND_DURATION / 30;
    for _ in 0..n {
        g.buy_key(alice(), 10).unwrap();
        assert!(g.time_left <= ROUND_DURATION);
    }
    assert_eq!(g.time_left, ROUND_DURATION);
    let keys = g.keys_sold;
    let r = g.buy_key(bob(), 10);
    assert!(r.unwrap().is_some());
    assert_eq!(g.time_left, ROUND_DURATION);
    assert_eq!(g.keys_sold, keys + 1);
}

#[test]
fn time_left_near_ceiling_is_clamped() {
    let mut g = fresh();
    g.buy_key(alice(), 10).unwrap();
    g.time_left = ROUND_DURATION - 10;
    g.buy_key(bob(), 10).unwrap();
    assert_eq!(g.time_left, ROUND_DURATION);
}

#[test]
fn elapsed_time_counts_down() {
    let mut g = fresh();
    g.buy_key(alice(), 100).unwrap();
    g.buy_key(alice(), 100).unwrap();
    assert_eq!(g.time_left, 60);
    assert!(!g.time_end(159));
    g.buy_key(bob(), 159).unwrap();
    // 60 - 59 + 30
    assert_eq!(g.time_left, 31);
    assert_eq!(g.last_update, Some(159));
}

#[test]
fn expired_round_pays_last_buyer() {
    let mut g = fresh();
    g.buy_key(alice(), 100).unwrap();
    g.buy_key(bob(), 100).unwrap();
    let pot = g.pot;
    assert_eq!(pot, 2 * PRECISION);
    assert!(g.time_end(161));
    assert_eq!(g.plan_buy(161), Ok(BuyPlan::EndRound { winner: bob(), pot }));
    let r = g.buy_key(alice(), 161);
    assert_eq!(r, Ok(None));
    assert_eq!(g.pot, 0);
    assert_eq!(g.keys_sold, 0);
    assert_eq!(g.key_price, PRECISION);
    assert_eq!(g.time_left, 0);
    assert_eq!(g.last_update, None);
    assert_eq!(g.last_user_address, bob());
}

#[test]
fn countdown_reaching_zero_ends_round() {
    let mut g = fresh();
    g.buy_key(alice(), 100).unwrap();
    assert!(!g.time_end(129));
    assert!(g.time_end(130));
    assert_eq!(g.buy_key(bob(), 130), Ok(None));
    assert_eq!(g.pot, 0);
}

#[test]
fn round_restarts_after_payout() {
    let mut g = fresh();
    g.buy_key(alice(), 100).unwrap();
    assert_eq!(g.buy_key(bob(), 1_000), Ok(None));
    assert!(!g.time_end(1_000_000));
    let r = g.buy_key(bob(), 1_000_000);
    assert_eq!(r, Ok(Some(Fomo3dEvent::KeyBought { price: PRECISION, address: bob() })));
    assert_eq!(g.keys_sold, 1);
    assert_eq!(g.pot, PRECISION);
    assert_eq!(g.time_left, 30);
}

#[test]
fn no_countdown_before_first_purchase() {
    let g = fresh();
    assert!(!g.time_end(u64::MAX));
    assert_eq!(g.plan_buy(u64::MAX), Ok(BuyPlan::Purchase { price: PRECISION }));
}

#[test]
fn overflowing_price_fails_without_change() {
    let mut g = fresh();
    g.buy_key(alice(), 100).unwrap();
    g.keys_sold = 1u128 << 64;
    let before = g;
    assert_eq!(g.plan_buy(100), Err(Fomo3dError::Overflow));
    assert_eq!(g.buy_key(bob(), 100), Err(Fomo3dError::Overflow));
    assert_eq!(g, before);
}

#[test]
fn overflowing_pot_fails_without_change() {
    let mut g = fresh();
    g.buy_key(alice(), 100).unwrap();
    g.pot = u128::MAX - PRECISION + 1;
    let before = g;
    assert_eq!(g.buy_key(bob(), 100), Err(Fomo3dError::Overflow));
    assert_eq!(g, before);
}

#[test]
fn clock_going_back_fails_without_change() {
    let mut g = fresh();
    g.buy_key(alice(), 100).unwrap();
    let before = g;
    assert_eq!(g.plan_buy(99), Err(Fomo3dError::ClockWentBackwards));
    assert_eq!(g.buy_key(bob(), 99), Err(Fomo3dError::ClockWentBackwards));
    assert_eq!(g, before);
}

#[test]
fn plan_leaves_state_alone() {
    let mut g = fresh();
    g.buy_key(alice(), 100).unwrap();
    let before = g;
    assert_eq!(g.plan_buy(100), Ok(BuyPlan::Purchase { price: PRECISION }));
    assert_eq!(g, before);
}

#[test]
fn seconds_of_milliseconds() {
    assert_eq!(seconds_of(0), 0);
    assert_eq!(seconds_of(999), 0);
    assert_eq!(seconds_of(1_700_000_123_456), 1_700_000_123);
}

//! What holds of every purchase attempt, stated over the specification of
//! the game and proved.
use vstd::prelude::*;

use crate::fomo3d_io::AccountId;
use crate::game::{
    extended, pot_of, price_of, BuyPlan, Fomo3d, Fomo3dError, PRECISION, ROUND_DURATION, TIME_BONUS,
};

verus! {

/// From the fifth key on, the pot of a round covers the price of its next key.
proof fn lemma_pot_covers_price(k: nat)
    requires
        k >= 5,
    ensures
        pot_of(k) >= price_of(k),
    decreases k,
{
    if k == 5 {
        reveal_with_fuel(pot_of, 6);
    } else {
        lemma_pot_covers_price((k - 1) as nat);
        let j = (k - 1) as nat;
        let p = PRECISION as nat;
        assert(2 * (j * j * p) >= k * k * p) by (nonlinear_arith)
            requires
                k == j + 1,
                j >= 5,
                p > 0,
        ;
    }
}

/// In a well-formed state the price of the next key fits in a `u128`: the pot
/// that already fits outgrows it.
pub proof fn lemma_price_fits(g: Fomo3d)
    requires
        g.wf(),
    ensures
        price_of(g.keys_sold as nat) <= u128::MAX,
{
    let k = g.keys_sold as nat;
    if k >= 5 {
        lemma_pot_covers_price(k);
    } else {
        assert(k * k <= 16) by (nonlinear_arith)
            requires
                k < 5,
        ;
        assert(k * k * (PRECISION as nat) <= 16 * (PRECISION as nat)) by (nonlinear_arith)
            requires
                k * k <= 16,
        ;
    }
}

/// The price charged for a key follows the quadratic curve of the keys sold
/// before it, with the base price for the first key; the state then records
/// that price.
pub proof fn lemma_price_follows_curve(g: Fomo3d, buyer: AccountId, now: u64)
    ensures
        g.plan(now) matches Ok(BuyPlan::Purchase { price }) ==> {
            &&& g.keys_sold == 0 ==> price == PRECISION
            &&& g.keys_sold >= 1 ==> price == g.keys_sold * g.keys_sold * PRECISION
            &&& g.after_attempt(buyer, now).key_price == price
        },
{
}

/// A purchase adds exactly its price to the pot, so that the pot stays the
/// sum of the prices of the keys sold in the round; an ended round leaves an
/// empty pot.
pub proof fn lemma_pot_is_sum_of_prices(g: Fomo3d, buyer: AccountId, now: u64)
    requires
        g.wf(),
    ensures
        g.plan(now) matches Ok(BuyPlan::Purchase { price }) ==> {
            &&& g.after_attempt(buyer, now).pot == g.pot + price
            &&& g.after_attempt(buyer, now).pot == pot_of(
                g.after_attempt(buyer, now).keys_sold as nat,
            )
        },
        g.plan(now) is Ok && g.plan(now)->Ok_0 is EndRound ==> g.after_attempt(buyer, now).pot
            == 0,
{
}

/// The countdown stays within one round: the bonus of a purchase is clamped,
/// never wrapped, and no attempt takes a well-formed state past the ceiling.
pub proof fn lemma_time_left_bounded(g: Fomo3d, buyer: AccountId, now: u64, t: int)
    requires
        g.wf(),
        t >= 0,
    ensures
        0 <= extended(t) <= ROUND_DURATION,
        t <= ROUND_DURATION - TIME_BONUS ==> extended(t) == t + TIME_BONUS,
        t > ROUND_DURATION - TIME_BONUS ==> extended(t) == ROUND_DURATION,
        g.after_attempt(buyer, now).time_left <= ROUND_DURATION,
{
}

/// An attempt made once the countdown has run out grants no key: it pays the
/// whole pot to the last buyer and empties the pot.
pub proof fn lemma_expiry_pays_last_buyer(g: Fomo3d, buyer: AccountId, now: u64)
    requires
        g.wf(),
        g.round_over(now),
    ensures
        g.plan(now) == Ok::<BuyPlan, Fomo3dError>(
            BuyPlan::EndRound { winner: g.last_user_address, pot: g.pot },
        ),
        g.after_attempt(buyer, now).pot == 0,
        g.after_attempt(buyer, now).keys_sold == 0,
{
    lemma_price_fits(g);
}

/// Each attempt on a well-formed state has exactly one of three effects,
/// and leaves a well-formed state: an error changes nothing, an ended round
/// resets the counters, a purchase sells one key.
pub proof fn lemma_attempt_is_atomic(g: Fomo3d, buyer: AccountId, now: u64)
    requires
        g.wf(),
    ensures
        g.after_attempt(buyer, now).wf(),
        g.plan(now) is Err ==> g.after_attempt(buyer, now) == g,
        g.plan(now) is Ok && g.plan(now)->Ok_0 is EndRound ==> {
            &&& g.after_attempt(buyer, now) == g.after_round()
            &&& g.after_attempt(buyer, now) != g
        },
        g.plan(now) matches Ok(BuyPlan::Purchase { price }) ==> {
            &&& g.after_attempt(buyer, now) == g.after_purchase(buyer, now, price)
            &&& g.after_attempt(buyer, now).keys_sold == g.keys_sold + 1
            &&& g.after_attempt(buyer, now).last_user_address == buyer
        },
{
    let a = g.after_attempt(buyer, now);
    if let Ok(BuyPlan::Purchase { price }) = g.plan(now) {
        assert(a.pot == pot_of(a.keys_sold as nat));
    }
}

} // verus!

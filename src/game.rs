//! The game state and the three engines that act on it: pricing, timer and
//! round controller.
use vstd::prelude::*;

use crate::fomo3d_io::{AccountId, Fomo3dEvent, Fomo3dInit};

verus! {

/// The factor that scales every price.
pub const PRECISION: u128 = 1_000_000_000_000;

/// The longest the countdown can run, in seconds.
pub const ROUND_DURATION: u64 = 86_400;

/// The seconds that each purchase adds to the countdown.
pub const TIME_BONUS: u64 = 30;

/// The price of the next key when `keys_sold` keys are sold: the base price
/// for the first key, `keys_sold^2 * PRECISION` after that.
pub open spec fn price_of(keys_sold: nat) -> nat {
    if keys_sold == 0 {
        PRECISION as nat
    } else {
        keys_sold * keys_sold * (PRECISION as nat)
    }
}

/// Pricing engine: the price of the next key, or `None` where it does not fit
/// in a `u128`.
pub fn key_price_for(keys_sold: u128) -> (r: Option<u128>)
    ensures
        r == (if price_of(keys_sold as nat) <= u128::MAX {
            Some(price_of(keys_sold as nat) as u128)
        } else {
            None::<u128>
        }),
{
    if keys_sold == 0 {
        return Some(PRECISION);
    }
    match keys_sold.checked_mul(keys_sold) {
        None => {
            assert(keys_sold * keys_sold <= keys_sold * keys_sold * (PRECISION as nat))
                by (nonlinear_arith);
            None
        },
        Some(square) => square.checked_mul(PRECISION),
    }
}

/// What the buyers have paid in a round in which `keys_sold` keys are sold:
/// the sum of the prices of keys `0 .. keys_sold`.
pub open spec fn pot_of(keys_sold: nat) -> nat
    decreases keys_sold,
{
    if keys_sold == 0 {
        0
    } else {
        pot_of((keys_sold - 1) as nat) + price_of((keys_sold - 1) as nat)
    }
}

/// The countdown after a purchase adds its bonus to `time_left`, clamped to
/// one round.
pub open spec fn extended(time_left: int) -> int {
    if time_left + TIME_BONUS <= ROUND_DURATION {
        time_left + TIME_BONUS
    } else {
        ROUND_DURATION as int
    }
}

/// The time in seconds of a timestamp in milliseconds.
pub fn seconds_of(timestamp_ms: u64) -> (r: u64)
    ensures
        r == timestamp_ms / 1000,
{
    timestamp_ms / 1000
}

/// Why a purchase attempt is refused. Either way the state is left as it was.
#[derive(Clone, Copy, Debug, PartialEq, Eq)]
pub enum Fomo3dError {
    /// The price, the pot or the key count would not fit in a `u128`.
    Overflow,
    /// The time given is earlier than the last purchase.
    ClockWentBackwards,
}

/// What a purchase attempt calls for, decided before any value moves.
#[derive(Clone, Copy, Debug, PartialEq, Eq)]
pub enum BuyPlan {
    /// The countdown has run out: the pot goes to the last buyer, and the
    /// requester gets no key.
    EndRound { winner: AccountId, pot: u128 },
    /// The requester pays `price` for the next key.
    Purchase { price: u128 },
}

/// The game state: one instance for the whole game, owned by the host.
#[derive(Clone, Copy, Debug, PartialEq, Eq)]
pub struct Fomo3d {
    /// The token in which keys are paid and the pot is paid out.
    pub token_address: AccountId,
    /// The account of the last successful purchase.
    pub last_user_address: AccountId,
    /// The price paid for the last key, or the base price before the first.
    pub key_price: u128,
    /// The keys sold in this round.
    pub keys_sold: u128,
    /// What this round's buyers have paid, held for the winner.
    pub pot: u128,
    /// The time in seconds of the last purchase; `None` before the round starts.
    pub last_update: Option<u64>,
    /// The seconds left on the countdown as of `last_update`.
    pub time_left: u64,
}

/// Creates the game for the configured token, before its first round.
pub fn init(config: Fomo3dInit) -> (r: Fomo3d)
    ensures
        r.wf(),
        r.token_address == config.token_address,
        r.keys_sold == 0,
        r.pot == 0,
        r.key_price == PRECISION,
        r.last_update is None,
        r.time_left == 0,
        forall|i: int| 0 <= i < 32 ==> r.last_user_address.0@[i] == 0u8,
{
    Fomo3d {
        token_address: config.token_address,
        last_user_address: AccountId::zero(),
        key_price: PRECISION,
        keys_sold: 0,
        pot: 0,
        last_update: None,
        time_left: 0,
    }
}

impl Fomo3d {
    /// The state that the game keeps between requests: the countdown within
    /// one round, the price of the last key sold, a pot that holds exactly
    /// what was paid for the keys of this round, and a round that starts with
    /// its first purchase.
    pub open spec fn wf(self) -> bool {
        &&& self.time_left <= ROUND_DURATION
        &&& self.key_price == price_of(
            if self.keys_sold == 0 { 0 } else { (self.keys_sold - 1) as nat },
        )
        &&& self.pot == pot_of(self.keys_sold as nat)
        &&& (self.last_update is Some <==> self.keys_sold > 0)
        &&& (self.last_update is None ==> self.time_left == 0)
    }

    /// The clock has not gone back since the last purchase.
    pub open spec fn clock_ok(self, now: u64) -> bool {
        match self.last_update {
            None => true,
            Some(t) => t <= now,
        }
    }

    /// The seconds since the last purchase; none count before the round starts.
    pub open spec fn elapsed(self, now: u64) -> int {
        match self.last_update {
            None => 0,
            Some(t) => now - t,
        }
    }

    /// The round has started and its countdown has run out by `now`.
    pub open spec fn round_over(self, now: u64) -> bool {
        &&& self.last_update is Some
        &&& self.clock_ok(now)
        &&& self.elapsed(now) >= self.time_left
    }

    /// What a purchase attempt at `now` calls for: price first, then the
    /// clock, then the countdown, then the pot and the key count.
    pub open spec fn plan(self, now: u64) -> Result<BuyPlan, Fomo3dError> {
        let price = price_of(self.keys_sold as nat);
        if price > u128::MAX {
            Err(Fomo3dError::Overflow)
        } else if !self.clock_ok(now) {
            Err(Fomo3dError::ClockWentBackwards)
        } else if self.round_over(now) {
            Ok(BuyPlan::EndRound { winner: self.last_user_address, pot: self.pot })
        } else if self.pot + price > u128::MAX || self.keys_sold + 1 > u128::MAX {
            Err(Fomo3dError::Overflow)
        } else {
            Ok(BuyPlan::Purchase { price: price as u128 })
        }
    }

    /// The state after a round ends: the pot is paid out and the counters
    /// start over.
    pub open spec fn after_round(self) -> Fomo3d {
        Fomo3d {
            key_price: PRECISION,
            keys_sold: 0,
            pot: 0,
            last_update: None,
            time_left: 0,
            ..self
        }
    }

    /// The state after `buyer` pays `price` for a key at `now`.
    pub open spec fn after_purchase(self, buyer: AccountId, now: u64, price: u128) -> Fomo3d {
        Fomo3d {
            last_user_address: buyer,
            key_price: price,
            keys_sold: (self.keys_sold + 1) as u128,
            pot: (self.pot + price) as u128,
            last_update: Some(now),
            time_left: extended(self.time_left - self.elapsed(now)) as u64,
            ..self
        }
    }

    /// The state after an attempt of `buyer` at `now`: unchanged on an error,
    /// reset where the round ended, advanced by one key on a purchase.
    pub open spec fn after_attempt(self, buyer: AccountId, now: u64) -> Fomo3d {
        match self.plan(now) {
            Err(_) => self,
            Ok(BuyPlan::EndRound { .. }) => self.after_round(),
            Ok(BuyPlan::Purchase { price }) => self.after_purchase(buyer, now, price),
        }
    }

    /// Timer engine: whether the countdown has run out by `now`.
    pub fn time_end(&self, now: u64) -> (r: bool)
        ensures
            r == self.round_over(now),
    {
        match self.last_update {
            None => false,
            Some(t) => t <= now && self.time_left <= now - t,
        }
    }

    /// Timer engine: counts down the time since the last purchase, to zero
    /// where the countdown has run out.
    fn update_time(&mut self, now: u64)
        requires
            old(self).clock_ok(now),
        ensures
            final(self).time_left == (if old(self).round_over(now) {
                0
            } else {
                old(self).time_left - old(self).elapsed(now)
            }),
            *final(self) == (Fomo3d { time_left: final(self).time_left, ..*old(self) }),
    {
        if self.time_end(now) {
            self.time_left = 0;
            return;
        }
        match self.last_update {
            None => {},
            Some(t) => {
                self.time_left = self.time_left - (now - t);
            },
        }
    }

    /// Timer engine: adds the bonus of a purchase to the countdown, clamped to
    /// one round.
    fn add_time(&mut self)
        ensures
            final(self).time_left == extended(old(self).time_left as int),
            *final(self) == (Fomo3d { time_left: final(self).time_left, ..*old(self) }),
    {
        if self.time_left <= ROUND_DURATION - TIME_BONUS {
            self.time_left = self.time_left + TIME_BONUS;
            return;
        }
        self.time_left = ROUND_DURATION;
    }

    /// Round controller: pays nothing itself, but empties the pot and starts
    /// the counters over once the host has paid the pot out.
    fn end_game(&mut self)
        ensures
            *final(self) == old(self).after_round(),
    {
        self.key_price = PRECISION;
        self.keys_sold = 0;
        self.pot = 0;
        self.last_update = None;
        self.time_left = 0;
    }

    /// Round controller, first phase: decides what a purchase attempt at `now`
    /// calls for, without changing the state.
    pub fn plan_buy(&self, now: u64) -> (r: Result<BuyPlan, Fomo3dError>)
        ensures
            r == self.plan(now),
    {
        let price = match key_price_for(self.keys_sold) {
            None => return Err(Fomo3dError::Overflow),
            Some(p) => p,
        };
        match self.last_update {
            None => {},
            Some(t) => {
                if now < t {
                    return Err(Fomo3dError::ClockWentBackwards);
                }
            },
        }
        if self.time_end(now) {
            return Ok(BuyPlan::EndRound { winner: self.last_user_address, pot: self.pot });
        }
        if self.pot > u128::MAX - price || self.keys_sold == u128::MAX {
            return Err(Fomo3dError::Overflow);
        }
        Ok(BuyPlan::Purchase { price })
    }

    /// Round controller, second phase: commits the attempt of `buyer` at `now`
    /// once the host has moved the value that `plan_buy` called for. A
    /// purchase yields its event; an ended round yields none. On an error
    /// nothing changes.
    pub fn buy_key(&mut self, buyer: AccountId, now: u64) -> (r: Result<
        Option<Fomo3dEvent>,
        Fomo3dError,
    >)
        ensures
            match old(self).plan(now) {
                Err(e) => r == Err::<Option<Fomo3dEvent>, Fomo3dError>(e) && *final(self)
                    == *old(self),
                Ok(BuyPlan::EndRound { .. }) => r == Ok::<Option<Fomo3dEvent>, Fomo3dError>(
                    None,
                ) && *final(self) == old(self).after_round(),
                Ok(BuyPlan::Purchase { price }) => r == Ok::<
                    Option<Fomo3dEvent>,
                    Fomo3dError,
                >(Some(Fomo3dEvent::KeyBought { price, address: buyer })) && *final(self)
                    == old(self).after_purchase(buyer, now, price),
            },
            *final(self) == old(self).after_attempt(buyer, now),
    {
        match self.plan_buy(now) {
            Err(e) => Err(e),
            Ok(BuyPlan::EndRound { .. }) => {
                self.end_game();
                Ok(None)
            },
            Ok(BuyPlan::Purchase { price }) => {
                self.key_price = price;
                self.update_time(now);
                self.pot = self.pot + price;
                self.keys_sold = self.keys_sold + 1;
                self.last_user_address = buyer;
                self.last_update = Some(now);
                self.add_time();
                Ok(Some(Fomo3dEvent::KeyBought { price, address: buyer }))
            },
        }
    }
}

} // verus!

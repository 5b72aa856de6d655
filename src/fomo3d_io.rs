//! The values exchanged with the host: the configuration, the requests and
//! the events.
use vstd::prelude::*;

verus! {

/// An account of the host, as its 32 raw bytes.
#[derive(Clone, Copy, Debug, PartialEq, Eq)]
pub struct AccountId(pub [u8; 32]);

impl AccountId {
    /// The absent account: no buyer yet.
    pub fn zero() -> (r: AccountId)
        ensures
            forall|i: int| 0 <= i < 32 ==> r.0@[i] == 0u8,
    {
        AccountId([0u8; 32])
    }
}

/// What the game is created with: the token that payments are made in.
#[derive(Clone, Copy, Debug, PartialEq, Eq)]
pub struct Fomo3dInit {
    pub token_address: AccountId,
}

/// A request to the game.
#[derive(Clone, Copy, Debug, PartialEq, Eq)]
pub enum Fomo3dAction {
    BuyKey,
}

/// What a committed purchase reports.
#[derive(Clone, Copy, Debug, PartialEq, Eq)]
pub enum Fomo3dEvent {
    KeyBought { price: u128, address: AccountId },
}

} // verus!

//! The stored-entity wrapper and the settlement operation.
//!
//! A `Player<T>` owns exactly one decoded payload and persists it by
//! re-encoding the payload into a word image. `Settle` is the one domain
//! mutation layered on top of the wrapper for the player payload: apply a
//! reward to the balance, then write the record back.

use vstd::prelude::*;
use crate::player::PlayerData;
use crate::storage::StorageData;

verus! {

/// A stored entity: owns exactly one decoded payload `data` and the word
/// image last written to storage on its behalf.
pub struct Player<T> {
    /// The decoded payload; domain operations mutate it in place.
    pub data: T,
    /// The word image most recently written to storage.
    pub stored: Vec<u64>,
    /// How many persistence writes this entity has performed.
    pub store_count: Ghost<nat>,
}

impl<T: StorageData> Player<T> {
    /// The word image most recently written to storage (empty before the
    /// first write).
    pub open spec fn persisted(&self) -> Seq<u64> {
        self.stored@
    }

    /// How many persistence writes this entity has performed.
    pub open spec fn persist_count(&self) -> nat {
        self.store_count@
    }

    /// Wraps a payload; nothing has been persisted yet.
    pub fn new(data: T) -> (r: Self)
        ensures
            r.data == data,
            r.persisted() == Seq::<u64>::empty(),
            r.persist_count() == 0,
    {
        Player { data, stored: Vec::new(), store_count: Ghost(0) }
    }

    /// Re-encodes the payload and writes the image back: exactly one
    /// persistence write, and the payload itself is untouched.
    pub fn store(&mut self)
        ensures
            final(self).data == old(self).data,
            final(self).persisted() == old(self).data.words(),
            final(self).persist_count() == old(self).persist_count() + 1,
    {
        let mut image: Vec<u64> = Vec::new();
        self.data.to_data(&mut image);
        proof {
            assert(image@ =~= self.data.words());
        }
        self.stored = image;
        self.store_count = Ghost(self.store_count@ + 1);
    }

    /// The word image most recently written to storage.
    pub fn stored_words(&self) -> (r: &Vec<u64>)
        ensures
            r@ == self.persisted(),
    {
        &self.stored
    }
}

/// The domain settlement operation on a stored entity.
pub trait Settle {
    /// Applies a reward amount to the player's balance and persists the
    /// result.
    fn settle_rewards(&mut self, rewards: u64);
}

/// The entity wrapper specialized to the player payload.
pub type CombatPlayer = Player<PlayerData>;

/// The balance after settling `rewards` on `balance`: their sum,
/// saturating at `u64::MAX`. Saturation is the chosen overflow policy:
/// silent wraparound would corrupt the balance, and settlement has no
/// error channel to report a failure through.
pub open spec fn settled_balance(balance: u64, rewards: u64) -> u64 {
    if balance + rewards <= u64::MAX {
        (balance + rewards) as u64
    } else {
        u64::MAX
    }
}

impl Settle for CombatPlayer {
    /// Adds `rewards` to the balance (saturating at `u64::MAX`) and
    /// performs exactly one persistence write, whose image is the encoding
    /// of the updated record. No field other than the balance changes.
    fn settle_rewards(&mut self, rewards: u64)
        ensures
            final(self).data.balance
                == settled_balance(old(self).data.balance, rewards),
            final(self).data.inventory@ == old(self).data.inventory@,
            final(self).data.placed == old(self).data.placed,
            final(self).data.previous == old(self).data.previous,
            final(self).data.power == old(self).data.power,
            final(self).persisted() == final(self).data.words(),
            final(self).persist_count() == old(self).persist_count() + 1,
    {
        if rewards <= u64::MAX - self.data.balance {
            self.data.balance = self.data.balance + rewards;
        } else {
            self.data.balance = u64::MAX;
        }
        self.store();
    }
}

} // verus!

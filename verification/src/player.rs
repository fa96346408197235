//! The player record and its flat-word codec.
//!
//! A `PlayerData` value is stored as `5 + inventory.len()` words, laid out
//! as `[inventory_len, inventory[0..len], balance, placed, previous,
//! power]`. The inventory length is stored explicitly as a prefix, never
//! inferred from stream boundaries, and the encoding preserves inventory
//! order and duplicates exactly.

use vstd::prelude::*;
use crate::cursor::WordCursor;
use crate::storage::StorageData;

verus! {

/// A player's persistent game state.
#[derive(Clone)]
pub struct PlayerData {
    /// Owned item identifiers, in insertion order; duplicates allowed.
    pub inventory: Vec<u64>,
    /// Accumulated reward currency.
    pub balance: u64,
    /// A counter/flag field.
    pub placed: u64,
    /// A counter/flag field.
    pub previous: u64,
    /// A derived or cached strength value.
    pub power: u64,
}

/// The number of words one encoded record occupies, read off its length
/// prefix: `5 + s[0]`.
pub open spec fn record_len(s: Seq<u64>) -> int {
    5 + (s[0] as int)
}

/// The inventory a well-formed encoded record holds.
pub open spec fn decoded_inventory(s: Seq<u64>) -> Seq<u64> {
    s.subrange(1, 1 + (s[0] as int))
}

/// The balance a well-formed encoded record holds.
pub open spec fn decoded_balance(s: Seq<u64>) -> u64 {
    s[1 + (s[0] as int)]
}

/// The placed field of a well-formed encoded record.
pub open spec fn decoded_placed(s: Seq<u64>) -> u64 {
    s[2 + (s[0] as int)]
}

/// The previous field of a well-formed encoded record.
pub open spec fn decoded_previous(s: Seq<u64>) -> u64 {
    s[3 + (s[0] as int)]
}

/// The power field of a well-formed encoded record.
pub open spec fn decoded_power(s: Seq<u64>) -> u64 {
    s[4 + (s[0] as int)]
}

impl PlayerData {
    /// Whether the cursor's remaining words begin with a structurally
    /// complete player record, so that decoding is safe. Unverified
    /// callers holding untrusted input check this before `from_data`;
    /// it also bounds the length prefix against the words actually
    /// available, so a corrupt prefix cannot demand an unbounded read.
    pub fn can_decode(cursor: &WordCursor) -> (r: bool)
        requires
            cursor.wf(),
        ensures
            r == <PlayerData as StorageData>::decodable(cursor.remaining()),
    {
        let len: usize = cursor.remaining_len();
        if len == 0 {
            return false;
        }
        let n: u64 = cursor.peek();
        (len as u64) >= 5 && n <= (len as u64) - 5
    }
}

impl Default for PlayerData {
    /// The state of a newly created player with no prior storage record:
    /// empty inventory, all scalar fields zero. Its encoding is exactly
    /// five zero words.
    fn default() -> (r: Self)
        ensures
            r.inventory@ == Seq::<u64>::empty(),
            r.balance == 0,
            r.placed == 0,
            r.previous == 0,
            r.power == 0,
            r.words() == seq![0u64, 0, 0, 0, 0],
    {
        let r = PlayerData {
            inventory: Vec::new(),
            balance: 0,
            placed: 0,
            previous: 0,
            power: 0,
        };
        proof {
            assert(r.words() =~= seq![0u64, 0, 0, 0, 0]);
        }
        r
    }
}

impl StorageData for PlayerData {
    /// `[inventory_len, inventory..., balance, placed, previous, power]`.
    open spec fn words(&self) -> Seq<u64> {
        seq![self.inventory@.len() as u64] + self.inventory@
            + seq![self.balance, self.placed, self.previous, self.power]
    }

    /// `s` starts with a length prefix `n` and holds at least `n + 4`
    /// further words.
    open spec fn decodable(s: Seq<u64>) -> bool {
        s.len() >= 1 && s.len() >= 5 + (s[0] as int)
    }

    /// Reads `[n, inventory[0..n], balance, placed, previous, power]` and
    /// advances the cursor by exactly `5 + n` words.
    fn from_data(cursor: &mut WordCursor) -> (r: Self)
        ensures
            r.inventory@ == decoded_inventory(old(cursor).remaining()),
            r.balance == decoded_balance(old(cursor).remaining()),
            r.placed == decoded_placed(old(cursor).remaining()),
            r.previous == decoded_previous(old(cursor).remaining()),
            r.power == decoded_power(old(cursor).remaining()),
            final(cursor).position() == old(cursor).position()
                + record_len(old(cursor).remaining()),
    {
        let ghost s = old(cursor).remaining();
        let objects_size: u64 = cursor.next();
        let mut inventory: Vec<u64> = Vec::new();
        let mut i: u64 = 0;
        proof {
            assert(cursor.remaining() =~= s.skip(1));
            assert(inventory@ =~= s.subrange(1, 1));
        }
        while i < objects_size
            invariant
                cursor.wf(),
                i <= objects_size,
                objects_size == s[0],
                s.len() >= 5 + (s[0] as int),
                cursor.remaining() == s.skip(1 + i as int),
                cursor.position() == old(cursor).position() + 1 + i as int,
                inventory@ == s.subrange(1, 1 + i as int),
            decreases objects_size - i,
        {
            inventory.push(cursor.next());
            i = i + 1;
            proof {
                assert(cursor.remaining() =~= s.skip(1 + i as int));
                assert(inventory@ =~= s.subrange(1, 1 + i as int));
            }
        }
        let balance: u64 = cursor.next();
        let placed: u64 = cursor.next();
        let previous: u64 = cursor.next();
        let power: u64 = cursor.next();
        let r = PlayerData { inventory, balance, placed, previous, power };
        proof {
            let n = s[0] as int;
            assert(r.words() =~= s.take(5 + n));
            assert(s =~= r.words() + cursor.remaining());
        }
        r
    }

    /// Appends `[inventory_len, inventory..., balance, placed, previous,
    /// power]` to `data` in exactly that order.
    fn to_data(&self, data: &mut Vec<u64>)
    {
        let n: usize = self.inventory.len();
        data.push(n as u64);
        let mut i: usize = 0;
        proof {
            assert(data@ =~= old(data)@ + seq![n as u64] + self.inventory@.take(0));
        }
        while i < n
            invariant
                n == self.inventory@.len(),
                i <= n,
                data@ == old(data)@ + seq![n as u64] + self.inventory@.take(i as int),
            decreases n - i,
        {
            data.push(self.inventory[i]);
            i = i + 1;
            proof {
                assert(data@ =~= old(data)@ + seq![n as u64]
                    + self.inventory@.take(i as int));
            }
        }
        data.push(self.balance);
        data.push(self.placed);
        data.push(self.previous);
        data.push(self.power);
        proof {
            assert(data@ =~= old(data)@ + self.words());
        }
    }
}

/// Round-trip identity: the encoding of any player record is itself
/// decodable, occupies exactly `5 + inventory.len()` words, and decodes
/// back to the same record field for field, inventory order and length
/// included.
pub proof fn lemma_round_trip(p: PlayerData)
    requires
        p.inventory@.len() <= u64::MAX,
    ensures
        <PlayerData as StorageData>::decodable(p.words()),
        record_len(p.words()) == p.words().len(),
        decoded_inventory(p.words()) == p.inventory@,
        decoded_balance(p.words()) == p.balance,
        decoded_placed(p.words()) == p.placed,
        decoded_previous(p.words()) == p.previous,
        decoded_power(p.words()) == p.power,
{
    let s = p.words();
    assert(s[0] == p.inventory@.len() as u64);
    assert(decoded_inventory(s) =~= p.inventory@);
}

} // verus!

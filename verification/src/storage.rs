//! The capability a payload type needs in order to live in word storage:
//! construction from a raw word cursor and re-flattening into a word
//! sequence.

use vstd::prelude::*;
use crate::cursor::WordCursor;

verus! {

/// A payload that can be decoded from, and re-encoded to, a flat ordered
/// sequence of `u64` words.
///
/// The encoding is positional: `words` defines the exact flat form of a
/// value, and `from_data` consumes exactly that form from the front of the
/// cursor's remaining words.
pub trait StorageData: Sized {
    /// The flat word encoding of this value.
    spec fn words(&self) -> Seq<u64>;

    /// Whether `s` begins with a structurally complete encoded record of
    /// this type.
    spec fn decodable(s: Seq<u64>) -> bool;

    /// Reads one record from the front of the cursor.
    ///
    /// The words consumed are exactly the encoding of the returned value;
    /// the cursor advances past them and is otherwise untouched.
    fn from_data(cursor: &mut WordCursor) -> (r: Self)
        requires
            old(cursor).wf(),
            Self::decodable(old(cursor).remaining()),
        ensures
            final(cursor).wf(),
            old(cursor).remaining() == r.words() + final(cursor).remaining(),
            final(cursor).position() == old(cursor).position() + r.words().len(),
    ;

    /// Appends this value's encoding to `data`; nothing already in `data`
    /// is truncated, reordered or otherwise changed.
    fn to_data(&self, data: &mut Vec<u64>)
        ensures
            final(data)@ == old(data)@ + self.words(),
    ;
}

} // verus!

//! A minimal persistent key-value record for a hosted contract: each account
//! may store one text value under its own identifier, and anyone may read the
//! value stored for any identifier, with the empty string as the default.

use vstd::prelude::*;

mod host;
pub mod laws;
mod store;

pub use store::Welcome;

verus! {

/// The value read for an identifier that was never written.
pub open spec fn default_value() -> Seq<char> {
    Seq::<char>::empty()
}

/// The model of a store that holds no record at all.
pub open spec fn empty_records() -> Map<Seq<char>, Seq<char>> {
    Map::empty()
}

/// The value a store with entries `records` holds for `id`: the recorded
/// value, or the default when `id` was never written.
pub open spec fn stored_value(records: Map<Seq<char>, Seq<char>>, id: Seq<char>) -> Seq<char> {
    if records.contains_key(id) {
        records[id]
    } else {
        default_value()
    }
}

} // verus!

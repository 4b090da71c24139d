//! The laws of the record store, stated over the same model the operations'
//! contracts use: writing is `Map::insert` of the caller's entry, reading is
//! `stored_value`.

use vstd::prelude::*;

use crate::default_value;
use crate::empty_records;
use crate::stored_value;

verus! {

/// A fresh store reads the default value for every identifier.
pub proof fn lemma_fresh_store_reads_default(id: Seq<char>)
    ensures
        stored_value(empty_records(), id) == default_value(),
{
}

/// An identifier that no write ever touched reads the default value.
pub proof fn lemma_unset_reads_default(records: Map<Seq<char>, Seq<char>>, id: Seq<char>)
    requires
        !records.contains_key(id),
    ensures
        stored_value(records, id) == default_value(),
{
}

/// Writing a value and then reading the writer's identifier yields exactly
/// that value.
pub proof fn lemma_write_then_read(records: Map<Seq<char>, Seq<char>>, c: Seq<char>, v: Seq<char>)
    ensures
        stored_value(records.insert(c, v), c) == v,
{
}

/// The last write wins: after writing `v1` and then `v2` under the same
/// identifier, the store is exactly as if only `v2` had been written, so no
/// trace of `v1` remains, and the identifier reads `v2`.
pub proof fn lemma_overwrite(
    records: Map<Seq<char>, Seq<char>>,
    c: Seq<char>,
    v1: Seq<char>,
    v2: Seq<char>,
)
    ensures
        records.insert(c, v1).insert(c, v2) == records.insert(c, v2),
        stored_value(records.insert(c, v1).insert(c, v2), c) == v2,
{
    assert(records.insert(c, v1).insert(c, v2) =~= records.insert(c, v2));
}

/// A write under one identifier does not affect the value read for any
/// other identifier; one never written still reads the default.
pub proof fn lemma_write_isolated(
    records: Map<Seq<char>, Seq<char>>,
    writer: Seq<char>,
    reader: Seq<char>,
    v: Seq<char>,
)
    requires
        writer != reader,
    ensures
        stored_value(records.insert(writer, v), reader) == stored_value(records, reader),
{
}

/// Reading is idempotent: the value read for an identifier is a function of
/// the store's entries alone, so any two reads with no intervening write
/// agree.
pub proof fn lemma_read_idempotent(
    records: Map<Seq<char>, Seq<char>>,
    id: Seq<char>,
    first: Seq<char>,
    second: Seq<char>,
)
    requires
        first == stored_value(records, id),
        second == stored_value(records, id),
    ensures
        first == second,
{
}

} // verus!

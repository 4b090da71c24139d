//! The record store itself: one text value per account identifier, written
//! only by the signing account, read by anyone, defaulting to the empty
//! string. The records are data the store owns — a list of writes whose
//! meaning is the mapping in which the latest write of each identifier
//! wins — so the store's model is a function of its value alone. Carrying
//! the store across invocations is the hosting environment's work, outside
//! this library.

use vstd::prelude::*;

use crate::host::log_saved;
use crate::host::signer_account_id;
use crate::empty_records;
use crate::stored_value;

verus! {

/// A persistent record store: an account may store one text value under its
/// own identifier, and the value stored for any identifier may be read back.
pub struct Welcome {
    records: Vec<(String, String)>,
}

/// The mapping a list of writes denotes: the writes enter an empty map in
/// order, so the latest write of each identifier wins.
spec fn entries_map(s: Seq<(String, String)>) -> Map<Seq<char>, Seq<char>>
    decreases s.len(),
{
    if s.len() == 0 {
        Map::empty()
    } else {
        entries_map(s.drop_last()).insert(s.last().0@, s.last().1@)
    }
}

impl View for Welcome {
    type V = Map<Seq<char>, Seq<char>>;

    closed spec fn view(&self) -> Map<Seq<char>, Seq<char>> {
        entries_map(self.records@)
    }
}

impl Default for Welcome {
    /// A store with no records yet: every identifier still reads the default.
    fn default() -> (w: Self)
        ensures
            w@ == empty_records(),
    {
        Welcome { records: Vec::new() }
    }
}

impl Welcome {
    /// Record `message` as the value of the account that signed the current
    /// transaction: the one entry for that account is written, whichever
    /// account the host reports, and no other entry changes.
    pub fn set_name(&mut self, message: String)
        ensures
            exists|c: Seq<char>| final(self)@ == old(self)@.insert(c, message@),
    {
        let account_id = signer_account_id();
        self.set_name_for(account_id, message);
    }

    /// Record `message` as the value of `account_id`: the entry for
    /// `account_id` is written, and no other entry changes.
    pub fn set_name_for(&mut self, account_id: String, message: String)
        ensures
            final(self)@ == old(self)@.insert(account_id@, message@),
    {
        log_saved(&message, &account_id);
        let entry = (account_id, message);
        let ghost e = entry;
        self.records.push(entry);
        proof {
            assert(self.records@.drop_last() =~= old(self).records@);
            assert(self.records@.last() == e);
        }
    }

    /// The value recorded for `account_id`, or the empty string when none
    /// ever was.
    pub fn get_name(&self, account_id: String) -> (name: String)
        ensures
            name@ == stored_value(self@, account_id@),
    {
        let mut i: usize = self.records.len();
        proof {
            assert(self.records@.subrange(0, i as int) =~= self.records@);
        }
        while i > 0
            invariant
                i <= self.records@.len(),
                stored_value(entries_map(self.records@.subrange(0, i as int)), account_id@)
                    == stored_value(self@, account_id@),
            decreases i,
        {
            i = i - 1;
            proof {
                assert(self.records@.subrange(0, i + 1).last() == self.records@[i as int]);
                assert(self.records@.subrange(0, i + 1).drop_last()
                    =~= self.records@.subrange(0, i as int));
            }
            if self.records[i].0 == account_id {
                return self.records[i].1.clone();
            }
        }
        proof {
            assert(!entries_map(self.records@.subrange(0, 0)).contains_key(account_id@));
        }
        String::new()
    }
}

} // verus!

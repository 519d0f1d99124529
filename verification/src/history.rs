//! The transcript history: a capped, newest-first list of entries.
//! Loading and saving the list is the embedding's concern.

use vstd::prelude::*;

use crate::client::new_uuid_string;
use crate::text::{trim_of, trim_str};

verus! {

/// The most entries the history keeps.
pub const MAX_HISTORY_ENTRIES: usize = 100;

/// One remembered transcript with its id and the local time it was
/// added, rendered as text.
#[derive(Clone, Debug)]
pub struct HistoryEntry {
    pub id: String,
    pub text: String,
    pub timestamp: String,
}

/// The history, newest entry first.
#[derive(Clone, Debug)]
pub struct History {
    pub entries: Vec<HistoryEntry>,
}

/// Relies on chrono's `Local::now`: the current local time, rendered.
/// The value depends on the clock, so nothing is promised of it.
#[verifier::external_body]
fn now_local_string() -> String {
    chrono::Local::now().to_rfc3339()
}

impl History {
    pub fn new() -> (r: History)
        ensures
            r.entries@.len() == 0,
    {
        History { entries: Vec::new() }
    }

    /// Remembers a transcript: blank text is skipped; otherwise the
    /// entry goes in front with a fresh id, and the oldest entries
    /// beyond the cap fall off.
    pub fn add_entry(&mut self, text: String)
        ensures
            trim_of(text@).len() == 0 ==> *final(self) == *old(self),
            trim_of(text@).len() > 0 ==> {
                let capped: int = if old(self).entries@.len() + 1 > MAX_HISTORY_ENTRIES {
                    MAX_HISTORY_ENTRIES as int
                } else {
                    old(self).entries@.len() as int + 1
                };
                &&& final(self).entries@.len() == capped
                &&& final(self).entries@[0].text@ == text@
                &&& final(self).entries@[0].id@.len() == 36
                &&& forall|i: int|
                    1 <= i < capped ==> final(self).entries@[i] == old(self).entries@[i - 1]
            },
    {
        if trim_str(text.as_str()).is_empty() {
            return ;
        }
        let entry = HistoryEntry { id: new_uuid_string(), text, timestamp: now_local_string() };
        self.entries.insert(0, entry);
        if self.entries.len() > MAX_HISTORY_ENTRIES {
            self.entries.truncate(MAX_HISTORY_ENTRIES);
        }
    }

    /// Drops every entry with the given id; reports whether any entry
    /// went.
    pub fn delete_entry(&mut self, id: &str) -> (r: bool)
        ensures
            final(self).entries@ == old(self).entries@.filter(
                |e: HistoryEntry| e.id@ != id@,
            ),
            r == (final(self).entries@.len() != old(self).entries@.len()),
    {
        let ghost orig = self.entries@;
        let original_len = self.entries.len();
        let mut kept: Vec<HistoryEntry> = Vec::new();
        let mut i: usize = 0;
        proof {
            reveal(Seq::filter);
            assert(orig.take(0int).filter(|e: HistoryEntry| e.id@ != id@) =~= kept@);
        }
        while i < original_len
            invariant
                i <= original_len,
                original_len == orig.len(),
                self.entries@ == orig.skip(i as int),
                kept@ == orig.take(i as int).filter(|e: HistoryEntry| e.id@ != id@),
            decreases original_len - i,
        {
            let e = self.entries.remove(0);
            proof {
                assert(e == orig[i as int]);
                assert(orig.skip(i as int).remove(0) =~= orig.skip(i as int + 1));
            }
            let keep = !crate::text::str_eq(e.id.as_str(), id);
            if keep {
                kept.push(e);
            }
            proof {
                reveal(Seq::filter);
                let prefix = orig.take(i as int + 1);
                assert(prefix.drop_last() =~= orig.take(i as int));
                assert(prefix.last() == orig[i as int]);
                assert(kept@ =~= prefix.filter(|e: HistoryEntry| e.id@ != id@));
            }
            i = i + 1;
        }
        proof {
            assert(orig.take(orig.len() as int) =~= orig);
        }
        let changed = kept.len() != original_len;
        self.entries = kept;
        changed
    }

    /// Forgets everything.
    pub fn clear(&mut self)
        ensures
            final(self).entries@.len() == 0,
    {
        self.entries.clear();
    }
}

} // verus!

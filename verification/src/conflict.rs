//! The conflict buffer: downloaded-but-unapplied cloud archives, held
//! per (tag, folder) pair until the user decides which side wins.
//!
//! A record is created when reconciliation finds both sides changed, and
//! is removed exactly when it is retrieved for resolution, so no decision
//! can be applied twice.

use vstd::prelude::*;

use crate::kvlist::{as_map, distinct_keys, lemma_as_map_index, lemma_as_map_push,
    lemma_as_map_remove};
use crate::text::str_eq;

verus! {

/// One pending divergence: the buffered cloud-side archive for a
/// (tag, folder) pair, with the two candidate timestamps.
pub struct ConflictRecord {
    pub tag: String,
    pub folder: String,
    /// The cloud archive, still packed.
    pub data: Vec<u8>,
    /// Latest local modification at detection time.
    pub local_modified: u64,
    /// Cloud-side modification time at detection time.
    pub cloud_modified: u64,
}

/// The buffered conflicts, at most one per (tag, folder) pair.
pub struct ConflictBuffer {
    records: Vec<ConflictRecord>,
}

impl ConflictBuffer {
    /// The records as (key, payload) pairs, in insertion order.
    pub closed spec fn items(self) -> Seq<((Seq<char>, Seq<char>), (Seq<u8>, u64, u64))> {
        Seq::new(
            self.records@.len(),
            |i: int|
                (
                    (self.records@[i].tag@, self.records@[i].folder@),
                    (
                        self.records@[i].data@,
                        self.records@[i].local_modified,
                        self.records@[i].cloud_modified,
                    ),
                ),
        )
    }

    /// The buffer as a map from (tag, folder) to (archive, local, cloud).
    pub open spec fn buffered(self) -> Map<(Seq<char>, Seq<char>), (Seq<u8>, u64, u64)> {
        as_map(self.items())
    }

    /// At most one record per (tag, folder) pair.
    pub open spec fn wf(self) -> bool {
        distinct_keys(self.items())
    }

    /// Whether a record is pending for this pair.
    pub open spec fn stored(self, tag: Seq<char>, folder: Seq<char>) -> bool {
        self.buffered().dom().contains((tag, folder))
    }

    pub fn new() -> (r: Self)
        ensures
            r.wf(),
            r.buffered() =~= Map::empty(),
    {
        let r = ConflictBuffer { records: Vec::new() };
        proof {
            assert(r.items() =~= Seq::empty());
            assert(r.buffered() =~= Map::empty());
        }
        r
    }

    /// The index of the record for this key, if one exists.
    fn position(&self, tag: &str, folder: &str) -> (r: Option<usize>)
        requires
            self.wf(),
        ensures
            match r {
                Some(i) => i < self.items().len() && self.items()[i as int].0 == (tag@, folder@),
                None => !self.stored(tag@, folder@),
            },
    {
        let n = self.records.len();
        let mut i: usize = 0;
        while i < n
            invariant
                self.wf(),
                n == self.items().len(),
                n == self.records@.len(),
                i <= n,
                forall|j: int| 0 <= j < i ==> self.items()[j].0 != (tag@, folder@),
            decreases n - i,
        {
            let rec = &self.records[i];
            if str_eq(rec.tag.as_str(), tag) && str_eq(rec.folder.as_str(), folder) {
                return Some(i);
            }
            i = i + 1;
        }
        proof {
            if self.stored(tag@, folder@) {
                let j = choose|j: int|
                    0 <= j < crate::kvlist::keys_of(self.items()).len()
                        && crate::kvlist::keys_of(self.items())[j] == (tag@, folder@);
                assert(self.items()[j].0 == (tag@, folder@));
            }
        }
        None
    }

    /// Whether a record is pending for this pair.
    pub fn contains_key(&self, tag: &str, folder: &str) -> (r: bool)
        requires
            self.wf(),
        ensures
            r == self.stored(tag@, folder@),
    {
        let r = self.position(tag, folder);
        proof {
            if r is Some {
                let i = r->0;
                lemma_as_map_index(self.items(), i as int);
            }
        }
        r.is_some()
    }

    /// Buffer a cloud archive for this pair, replacing any record already
    /// pending for it.
    pub fn store_buffer(
        &mut self,
        tag: &str,
        folder: &str,
        data: Vec<u8>,
        local_modified: u64,
        cloud_modified: u64,
    )
        requires
            old(self).wf(),
        ensures
            final(self).wf(),
            final(self).buffered() =~= old(self).buffered().insert(
                (tag@, folder@),
                (data@, local_modified, cloud_modified),
            ),
    {
        let ghost k = (tag@, folder@);
        let ghost v = (data@, local_modified, cloud_modified);
        match self.position(tag, folder) {
            Some(i) => {
                self.records.remove(i);
                proof {
                    assert(self.items() =~= old(self).items().remove(i as int));
                    lemma_as_map_remove(old(self).items(), i as int);
                }
            },
            None => {},
        }
        let ghost mid = *self;
        proof {
            assert(!crate::kvlist::keys_of(mid.items()).contains(k)) by {
                if crate::kvlist::keys_of(mid.items()).contains(k) {
                    let j = choose|j: int|
                        0 <= j < crate::kvlist::keys_of(mid.items()).len()
                            && crate::kvlist::keys_of(mid.items())[j] == k;
                    assert(mid.items()[j].0 == k);
                    assert(mid.buffered().dom().contains(k)) by {
                        lemma_as_map_index(mid.items(), j);
                    }
                }
            }
        }
        let rec = ConflictRecord {
            tag: tag.to_owned(),
            folder: folder.to_owned(),
            data,
            local_modified,
            cloud_modified,
        };
        self.records.push(rec);
        proof {
            assert(self.items() =~= mid.items().push((k, v)));
            lemma_as_map_push(mid.items(), k, v);
            assert(final(self).buffered() =~= old(self).buffered().insert(k, v));
        }
    }

    /// Remove and return the pending record for this pair: the caller gets
    /// the buffered archive exactly once, a second retrieval finds nothing.
    pub fn retrieve_buffer(&mut self, tag: &str, folder: &str) -> (r: Option<ConflictRecord>)
        requires
            old(self).wf(),
        ensures
            final(self).wf(),
            match r {
                Some(rec) => {
                    &&& old(self).stored(tag@, folder@)
                    &&& rec.tag@ == tag@
                    &&& rec.folder@ == folder@
                    &&& (rec.data@, rec.local_modified, rec.cloud_modified) == old(
                        self,
                    ).buffered()[(tag@, folder@)]
                    &&& final(self).buffered() =~= old(self).buffered().remove((tag@, folder@))
                    &&& !final(self).stored(tag@, folder@)
                },
                None => {
                    &&& !old(self).stored(tag@, folder@)
                    &&& *final(self) == *old(self)
                },
            },
    {
        match self.position(tag, folder) {
            Some(i) => {
                proof {
                    lemma_as_map_index(old(self).items(), i as int);
                }
                let rec = self.records.remove(i);
                proof {
                    assert(self.items() =~= old(self).items().remove(i as int));
                    lemma_as_map_remove(old(self).items(), i as int);
                    assert((rec.tag@, rec.folder@) == old(self).items()[i as int].0);
                    assert((rec.data@, rec.local_modified, rec.cloud_modified) == old(
                        self,
                    ).items()[i as int].1);
                }
                Some(rec)
            },
            None => None,
        }
    }

    /// How many conflicts are pending.
    pub fn len(&self) -> (n: usize)
        ensures
            n == self.items().len(),
    {
        self.records.len()
    }
}

/// A conflict record can be resolved at most once: after a store and a
/// retrieval of the same key, nothing is left for that key, so a second
/// retrieval cannot return stale data.
pub proof fn lemma_resolve_at_most_once(
    m: Map<(Seq<char>, Seq<char>), (Seq<u8>, u64, u64)>,
    tag: Seq<char>,
    folder: Seq<char>,
    payload: (Seq<u8>, u64, u64),
)
    ensures
        !m.insert((tag, folder), payload).remove((tag, folder)).dom().contains((tag, folder)),
{
}

} // verus!

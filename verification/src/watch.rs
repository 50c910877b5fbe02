//! The registry of active filesystem watchers, one per tracked
//! (tag, local-path) pair.
//!
//! The registry only records which pairs are being watched and keeps the
//! at-most-one-watcher-per-pair invariant; subscribing to actual OS
//! change notifications and running the debounce timers is the embedding
//! application's job, driven by the booleans these operations return.

use vstd::prelude::*;

use crate::text::str_eq;

verus! {

/// Which (tag, local-path) pairs currently have a watcher.
pub struct WatcherRegistry {
    entries: Vec<(String, String)>,
}

impl WatcherRegistry {
    /// The watched keys, in insertion order.
    pub closed spec fn keys(self) -> Seq<(Seq<char>, Seq<char>)> {
        Seq::new(self.entries@.len(), |i: int| (self.entries@[i].0@, self.entries@[i].1@))
    }

    /// Whether a watcher exists for this (tag, path) pair.
    pub open spec fn watches(self, tag: Seq<char>, path: Seq<char>) -> bool {
        self.keys().contains((tag, path))
    }

    /// At most one watcher per (tag, path) pair.
    pub open spec fn wf(self) -> bool {
        self.keys().no_duplicates()
    }

    /// How one call of `watch_folder` changes the registry: the given key
    /// flips between watched and not watched, every other key is untouched.
    pub open spec fn toggle_step(pre: Self, post: Self, tag: Seq<char>, path: Seq<char>) -> bool {
        &&& (post.watches(tag, path) <==> !pre.watches(tag, path))
        &&& forall|t: Seq<char>, p: Seq<char>|
            (t, p) != (tag, path) ==> (#[trigger] post.watches(t, p) <==> pre.watches(t, p))
    }

    /// How one call of `arm` changes the registry: the given key is now
    /// watched, every other key is untouched.
    pub open spec fn arm_step(pre: Self, post: Self, tag: Seq<char>, path: Seq<char>) -> bool {
        &&& post.watches(tag, path)
        &&& forall|t: Seq<char>, p: Seq<char>|
            (t, p) != (tag, path) ==> (#[trigger] post.watches(t, p) <==> pre.watches(t, p))
    }

    pub fn new() -> (r: Self)
        ensures
            r.wf(),
            r.keys() === Seq::empty(),
    {
        WatcherRegistry { entries: Vec::new() }
    }

    /// The index of the entry for this key, if one exists.
    fn position(&self, tag: &str, path: &str) -> (r: Option<usize>)
        ensures
            match r {
                Some(i) => i < self.keys().len() && self.keys()[i as int] == (tag@, path@),
                None => !self.watches(tag@, path@),
            },
    {
        let n = self.entries.len();
        let mut i: usize = 0;
        while i < n
            invariant
                n == self.keys().len(),
                i <= n,
                forall|j: int| 0 <= j < i ==> self.keys()[j] != (tag@, path@),
            decreases n - i,
        {
            let e = &self.entries[i];
            if str_eq(e.0.as_str(), tag) && str_eq(e.1.as_str(), path) {
                return Some(i);
            }
            i = i + 1;
        }
        None
    }

    /// Whether this key is currently watched.
    pub fn contains_key(&self, tag: &str, path: &str) -> (r: bool)
        ensures
            r == self.watches(tag@, path@),
    {
        self.position(tag, path).is_some()
    }

    /// After pushing a fresh key: it is now contained, the other keys are
    /// untouched, and no duplicate was created.
    proof fn lemma_push_key(
        pre: Seq<(Seq<char>, Seq<char>)>,
        post: Seq<(Seq<char>, Seq<char>)>,
        key: (Seq<char>, Seq<char>),
    )
        requires
            post =~= pre.push(key),
            pre.no_duplicates(),
            !pre.contains(key),
        ensures
            post.no_duplicates(),
            post.contains(key),
            forall|t: Seq<char>, p: Seq<char>|
                (t, p) != key ==> (#[trigger] post.contains((t, p)) <==> pre.contains((t, p))),
    {
        assert(post[pre.len() as int] == key);
        assert forall|t: Seq<char>, p: Seq<char>|
            (t, p) != key implies (#[trigger] post.contains((t, p)) <==> pre.contains(
            (t, p),
        )) by {
            if post.contains((t, p)) {
                let j = choose|j: int| 0 <= j < post.len() && post[j] == (t, p);
                assert(pre[j] == (t, p));
            }
            if pre.contains((t, p)) {
                let j = choose|j: int| 0 <= j < pre.len() && pre[j] == (t, p);
                assert(post[j] == (t, p));
            }
        }
    }

    /// After removing the entry at index `i` from a duplicate-free key
    /// list: that key is gone, the other keys are untouched.
    proof fn lemma_remove_key(
        pre: Seq<(Seq<char>, Seq<char>)>,
        post: Seq<(Seq<char>, Seq<char>)>,
        i: int,
    )
        requires
            0 <= i < pre.len(),
            post =~= pre.remove(i),
            pre.no_duplicates(),
        ensures
            post.no_duplicates(),
            !post.contains(pre[i]),
            forall|t: Seq<char>, p: Seq<char>|
                (t, p) != pre[i] ==> (#[trigger] post.contains((t, p)) <==> pre.contains((t, p))),
    {
        assert(!post.contains(pre[i])) by {
            if post.contains(pre[i]) {
                let j = choose|j: int| 0 <= j < post.len() && post[j] == pre[i];
                if j < i {
                    assert(pre[j] == pre[i]);
                } else {
                    assert(pre[j + 1] == pre[i]);
                }
            }
        }
        assert forall|t: Seq<char>, p: Seq<char>|
            (t, p) != pre[i] implies (#[trigger] post.contains((t, p)) <==> pre.contains(
            (t, p),
        )) by {
            if post.contains((t, p)) {
                let j = choose|j: int| 0 <= j < post.len() && post[j] == (t, p);
                if j < i {
                    assert(pre[j] == (t, p));
                } else {
                    assert(pre[j + 1] == (t, p));
                }
            }
            if pre.contains((t, p)) {
                let j = choose|j: int| 0 <= j < pre.len() && pre[j] == (t, p);
                if j < i {
                    assert(post[j] == (t, p));
                } else {
                    assert(post[j - 1] == (t, p));
                }
            }
        }
    }

    /// Toggle the watcher for one key: create it when absent (returns
    /// `true`: now watching), remove it when present (returns `false`:
    /// no longer watching). This is deliberately a toggle, not an
    /// idempotent "ensure watched".
    pub fn watch_folder(&mut self, tag: &str, path: &str) -> (now_watching: bool)
        requires
            old(self).wf(),
        ensures
            final(self).wf(),
            Self::toggle_step(*old(self), *final(self), tag@, path@),
            now_watching == !old(self).watches(tag@, path@),
            now_watching == final(self).watches(tag@, path@),
    {
        match self.position(tag, path) {
            Some(i) => {
                self.entries.remove(i);
                proof {
                    let pre = old(self).keys();
                    assert(self.keys() =~= pre.remove(i as int));
                    Self::lemma_remove_key(pre, self.keys(), i as int);
                }
                false
            },
            None => {
                let key = (tag.to_owned(), path.to_owned());
                self.entries.push(key);
                proof {
                    assert(self.keys() =~= old(self).keys().push((tag@, path@)));
                    Self::lemma_push_key(old(self).keys(), self.keys(), (tag@, path@));
                }
                true
            },
        }
    }

    /// Make sure this key is watched, creating the watcher when absent and
    /// keeping the existing one otherwise. Returns `true` when a new
    /// watcher has to be armed by the application.
    pub fn arm(&mut self, tag: &str, path: &str) -> (newly_armed: bool)
        requires
            old(self).wf(),
        ensures
            final(self).wf(),
            Self::arm_step(*old(self), *final(self), tag@, path@),
            newly_armed == !old(self).watches(tag@, path@),
    {
        match self.position(tag, path) {
            Some(i) => {
                proof {
                    assert(self.keys()[i as int] == (tag@, path@));
                }
                false
            },
            None => {
                let key = (tag.to_owned(), path.to_owned());
                self.entries.push(key);
                proof {
                    assert(self.keys() =~= old(self).keys().push((tag@, path@)));
                    Self::lemma_push_key(old(self).keys(), self.keys(), (tag@, path@));
                }
                true
            },
        }
    }

    /// The watched keys as owned pairs, in insertion order.
    pub fn watched_folders(&self) -> (r: Vec<(String, String)>)
        ensures
            r@.len() == self.keys().len(),
            forall|i: int|
                0 <= i < r@.len() ==> (#[trigger] r@[i].0@, r@[i].1@) == self.keys()[i],
    {
        let n = self.entries.len();
        let mut out: Vec<(String, String)> = Vec::new();
        let mut i: usize = 0;
        while i < n
            invariant
                n == self.keys().len(),
                n == self.entries@.len(),
                i <= n,
                out@.len() == i,
                forall|j: int|
                    0 <= j < i ==> (#[trigger] out@[j].0@, out@[j].1@) == self.keys()[j],
            decreases n - i,
        {
            let e = &self.entries[i];
            out.push((e.0.clone(), e.1.clone()));
            i = i + 1;
        }
        out
    }

    /// Remove every watcher at once (used when the active plugin is
    /// unloaded).
    pub fn dump_watchers(&mut self)
        ensures
            final(self).wf(),
            final(self).keys() === Seq::empty(),
    {
        self.entries.clear();
    }

    /// One step of `drop_watchers`: if after handling the key at index `i`
    /// of the drop list that key is gone and every other key is untouched,
    /// the watched set is the starting one minus the first `i + 1` keys of
    /// the drop list.
    proof fn lemma_drop_step(
        start: Self,
        now: Self,
        dropped: Seq<(Seq<char>, Seq<char>)>,
        i: int,
        prev_watches: Set<(Seq<char>, Seq<char>)>,
    )
        requires
            0 <= i < dropped.len(),
            forall|t: Seq<char>, p: Seq<char>|
                prev_watches.contains((t, p)) <==> (#[trigger] start.watches(t, p)
                    && !dropped.subrange(0, i).contains((t, p))),
            !now.watches(dropped[i].0, dropped[i].1),
            forall|t: Seq<char>, p: Seq<char>|
                (t, p) != dropped[i] ==> (#[trigger] now.watches(t, p) <==> prev_watches.contains(
                    (t, p),
                )),
        ensures
            forall|t: Seq<char>, p: Seq<char>|
                #[trigger] now.watches(t, p) <==> (start.watches(t, p) && !dropped.subrange(
                    0,
                    i + 1,
                ).contains((t, p))),
    {
        let done = dropped.subrange(0, i);
        let done_next = dropped.subrange(0, i + 1);
        assert(done_next =~= done.push(dropped[i]));
        assert forall|t: Seq<char>, p: Seq<char>|
            #[trigger] now.watches(t, p) <==> (start.watches(t, p) && !done_next.contains(
            (t, p),
        )) by {
            assert(done_next.contains((t, p)) <==> (done.contains((t, p)) || dropped[i] == (
            t,
            p,
            ))) by {
                if done_next.contains((t, p)) {
                    let j = choose|j: int| 0 <= j < done_next.len() && done_next[j] == (t, p);
                    if j < i {
                        assert(done[j] == (t, p));
                    } else {
                        assert(dropped[i] == (t, p));
                    }
                }
                if done.contains((t, p)) {
                    let j = choose|j: int| 0 <= j < done.len() && done[j] == (t, p);
                    assert(done_next[j] == (t, p));
                }
                if dropped[i] == (t, p) {
                    assert(done_next[i] == (t, p));
                }
            }
            if (t, p) != dropped[i] {
                assert(now.watches(t, p) <==> prev_watches.contains((t, p)));
                assert(prev_watches.contains((t, p)) <==> (start.watches(t, p) && !done.contains(
                    (t, p),
                )));
            }
        }
    }

    /// Remove the named subset of watchers without any further action
    /// (used when mappings are retargeted: the intent is to stop
    /// watching, not to delete remote data).
    pub fn drop_watchers(&mut self, keys: &Vec<(String, String)>)
        requires
            old(self).wf(),
        ensures
            final(self).wf(),
            forall|t: Seq<char>, p: Seq<char>|
                #[trigger] final(self).watches(t, p) <==> (old(self).watches(t, p)
                    && !keys@.map_values(|k: (String, String)| (k.0@, k.1@)).contains((t, p))),
    {
        let ghost dropped = keys@.map_values(|k: (String, String)| (k.0@, k.1@));
        let n = keys.len();
        let mut i: usize = 0;
        while i < n
            invariant
                old(self).wf(),
                self.wf(),
                n == keys@.len(),
                i <= n,
                dropped == keys@.map_values(|k: (String, String)| (k.0@, k.1@)),
                forall|t: Seq<char>, p: Seq<char>|
                    #[trigger] self.watches(t, p) <==> (old(self).watches(t, p)
                        && !dropped.subrange(0, i as int).contains((t, p))),
            decreases n - i,
        {
            let key = &keys[i];
            let ghost kv = (key.0@, key.1@);
            assert(dropped[i as int] == kv);
            let ghost prev = *self;
            let ghost prev_watches = Set::new(|k: (Seq<char>, Seq<char>)| prev.watches(k.0, k.1));
            match self.position(key.0.as_str(), key.1.as_str()) {
                Some(pos) => {
                    let ghost before = self.keys();
                    self.entries.remove(pos);
                    proof {
                        assert(self.keys() =~= before.remove(pos as int));
                        Self::lemma_remove_key(before, self.keys(), pos as int);
                        assert(before[pos as int] == kv);
                    }
                },
                None => {
                    assert(!self.watches(kv.0, kv.1));
                },
            }
            proof {
                assert forall|t: Seq<char>, p: Seq<char>|
                    (t, p) != kv implies (#[trigger] self.watches(t, p) <==> prev_watches.contains(
                    (t, p),
                )) by {
                    assert(prev_watches.contains((t, p)) == prev.watches(t, p));
                }
                assert forall|t: Seq<char>, p: Seq<char>|
                    prev_watches.contains((t, p)) <==> (#[trigger] old(self).watches(t, p)
                        && !dropped.subrange(0, i as int).contains((t, p))) by {
                    assert(prev_watches.contains((t, p)) == prev.watches(t, p));
                }
                Self::lemma_drop_step(*old(self), *self, dropped, i as int, prev_watches);
            }
            i = i + 1;
        }
        proof {
            assert(dropped.subrange(0, n as int) =~= dropped);
        }
    }
}

/// Toggling the same key twice returns the registry to watching exactly
/// the keys it watched before: `watch_folder` flips between
/// watching and not watching, and never piles up a second watcher.
pub proof fn lemma_watch_toggle_twice(
    r0: WatcherRegistry,
    r1: WatcherRegistry,
    r2: WatcherRegistry,
    tag: Seq<char>,
    path: Seq<char>,
)
    requires
        WatcherRegistry::toggle_step(r0, r1, tag, path),
        WatcherRegistry::toggle_step(r1, r2, tag, path),
    ensures
        forall|t: Seq<char>, p: Seq<char>| #[trigger] r2.watches(t, p) <==> r0.watches(t, p),
{
    assert forall|t: Seq<char>, p: Seq<char>| #[trigger]
        r2.watches(t, p) <==> r0.watches(t, p) by {
        if (t, p) != (tag, path) {
            assert(r2.watches(t, p) <==> r1.watches(t, p));
            assert(r1.watches(t, p) <==> r0.watches(t, p));
        }
    }
}

} // verus!

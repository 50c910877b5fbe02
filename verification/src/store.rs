//! The settings store: the last used plugin, the tag-to-folder mapping,
//! and the timestamp of the last successful sync.
//!
//! A mapping entry associates a tag with an environment-variable name
//! and a path relative to that variable's value; resolving the variable
//! and persisting the store to disk belong to the embedding application,
//! which reconstructs the store from the persisted values on startup.

use vstd::prelude::*;

use crate::kvlist::{as_map, distinct_keys, keys_of, lemma_as_map_index};
use crate::text::{path_join, str_eq};

verus! {

/// One tag's mapping: the environment variable naming the base folder,
/// and the path relative to it.
pub struct MappingEntry {
    pub env_var: String,
    pub rel_path: String,
}

/// The persisted settings.
pub struct AppStore {
    plugin_path: Option<String>,
    mapping: Vec<(String, MappingEntry)>,
    last_sync: u64,
}

impl AppStore {
    /// The mapping entries as (tag, (env-var, relative-path)) views.
    pub closed spec fn mapping_items(self) -> Seq<(Seq<char>, (Seq<char>, Seq<char>))> {
        Seq::new(
            self.mapping@.len(),
            |i: int|
                (
                    self.mapping@[i].0@,
                    (self.mapping@[i].1.env_var@, self.mapping@[i].1.rel_path@),
                ),
        )
    }

    /// The mapping as a map from tag to (env-var, relative-path).
    pub open spec fn mapping_view(self) -> Map<Seq<char>, (Seq<char>, Seq<char>)> {
        as_map(self.mapping_items())
    }

    /// The active plugin's file name, when one is set.
    pub closed spec fn plugin_view(self) -> Option<Seq<char>> {
        match self.plugin_path {
            Some(p) => Some(p@),
            None => None,
        }
    }

    /// The timestamp of the last successful sync, in seconds.
    pub closed spec fn last_sync_view(self) -> u64 {
        self.last_sync
    }

    /// Each tag is mapped at most once.
    pub open spec fn wf(self) -> bool {
        distinct_keys(self.mapping_items())
    }

    /// The views of a mapping vector as handed in by a caller.
    pub open spec fn items_of(mapping: Seq<(String, MappingEntry)>) -> Seq<
        (Seq<char>, (Seq<char>, Seq<char>)),
    > {
        Seq::new(
            mapping.len(),
            |i: int| (mapping[i].0@, (mapping[i].1.env_var@, mapping[i].1.rel_path@)),
        )
    }

    /// Rebuild the store from its persisted values.
    pub fn new(plugin_path: Option<String>, mapping: Vec<(String, MappingEntry)>, last_sync: u64)
        -> (r: Self)
        requires
            distinct_keys(Self::items_of(mapping@)),
        ensures
            r.wf(),
            r.plugin_view() == match plugin_path {
                Some(p) => Some(p@),
                None => None::<Seq<char>>,
            },
            r.mapping_items() == Self::items_of(mapping@),
            r.last_sync_view() == last_sync,
    {
        let r = AppStore { plugin_path, mapping, last_sync };
        proof {
            assert(r.mapping_items() =~= Self::items_of(r.mapping@));
        }
        r
    }

    /// The active plugin's file name.
    pub fn plugin(&self) -> (r: Option<String>)
        ensures
            match r {
                Some(p) => self.plugin_view() == Some(p@),
                None => self.plugin_view() is None,
            },
    {
        match &self.plugin_path {
            Some(p) => Some(p.clone()),
            None => None,
        }
    }

    /// Record the active plugin's file name.
    pub fn set_plugin(&mut self, plugin: &str)
        ensures
            final(self).plugin_view() == Some(plugin@),
            final(self).mapping_items() == old(self).mapping_items(),
            final(self).last_sync_view() == old(self).last_sync_view(),
    {
        self.plugin_path = Some(plugin.to_owned());
        proof {
            assert(self.mapping_items() =~= old(self).mapping_items());
        }
    }

    /// Forget the active plugin (used when it is unloaded).
    pub fn clear_plugin(&mut self)
        ensures
            final(self).plugin_view() is None,
            final(self).mapping_items() == old(self).mapping_items(),
            final(self).last_sync_view() == old(self).last_sync_view(),
    {
        self.plugin_path = None;
        proof {
            assert(self.mapping_items() =~= old(self).mapping_items());
        }
    }

    /// The whole tag-to-folder mapping, as owned values.
    pub fn path_mapping(&self) -> (r: Vec<(String, MappingEntry)>)
        ensures
            Self::items_of(r@) == self.mapping_items(),
    {
        let n = self.mapping.len();
        let mut out: Vec<(String, MappingEntry)> = Vec::new();
        let mut i: usize = 0;
        while i < n
            invariant
                n == self.mapping@.len(),
                i <= n,
                out@.len() == i,
                forall|j: int|
                    0 <= j < i ==> (#[trigger] out@[j].0@ == self.mapping@[j].0@
                        && out@[j].1.env_var@ == self.mapping@[j].1.env_var@
                        && out@[j].1.rel_path@ == self.mapping@[j].1.rel_path@),
            decreases n - i,
        {
            let (tag, entry) = &self.mapping[i];
            out.push(
                (
                    tag.clone(),
                    MappingEntry { env_var: entry.env_var.clone(), rel_path: entry.rel_path.clone() },
                ),
            );
            i = i + 1;
        }
        proof {
            assert(Self::items_of(out@) =~= self.mapping_items());
        }
        out
    }

    /// Replace the whole mapping.
    pub fn set_mapping(&mut self, mapping: Vec<(String, MappingEntry)>)
        requires
            distinct_keys(Self::items_of(mapping@)),
        ensures
            final(self).wf(),
            final(self).mapping_items() == Self::items_of(mapping@),
            final(self).plugin_view() == old(self).plugin_view(),
            final(self).last_sync_view() == old(self).last_sync_view(),
    {
        self.mapping = mapping;
        proof {
            assert(self.mapping_items() =~= Self::items_of(self.mapping@));
        }
    }

    /// Look one tag up in the mapping.
    pub fn get_mapping(&self, tag: &str) -> (r: Option<MappingEntry>)
        requires
            self.wf(),
        ensures
            match r {
                Some(entry) => self.mapping_view().dom().contains(tag@)
                    && self.mapping_view()[tag@] == (entry.env_var@, entry.rel_path@),
                None => !self.mapping_view().dom().contains(tag@),
            },
    {
        let n = self.mapping.len();
        let mut i: usize = 0;
        while i < n
            invariant
                self.wf(),
                n == self.mapping@.len(),
                i <= n,
                forall|j: int| 0 <= j < i ==> self.mapping_items()[j].0 != tag@,
            decreases n - i,
        {
            let (t, entry) = &self.mapping[i];
            if str_eq(t.as_str(), tag) {
                proof {
                    lemma_as_map_index(self.mapping_items(), i as int);
                }
                return Some(
                    MappingEntry {
                        env_var: entry.env_var.clone(),
                        rel_path: entry.rel_path.clone(),
                    },
                );
            }
            i = i + 1;
        }
        proof {
            if self.mapping_view().dom().contains(tag@) {
                let j = choose|j: int|
                    0 <= j < keys_of(self.mapping_items()).len() && keys_of(self.mapping_items())[j]
                        == tag@;
                assert(self.mapping_items()[j].0 == tag@);
            }
        }
        None
    }

    /// The timestamp of the last successful sync.
    pub fn last_sync(&self) -> (r: u64)
        ensures
            r == self.last_sync_view(),
    {
        self.last_sync
    }

    /// Record a successful sync at the given time.
    pub fn set_last_sync(&mut self, now: u64)
        ensures
            final(self).last_sync_view() == now,
            final(self).mapping_items() == old(self).mapping_items(),
            final(self).plugin_view() == old(self).plugin_view(),
    {
        self.last_sync = now;
        proof {
            assert(self.mapping_items() =~= old(self).mapping_items());
        }
    }
}

/// A tag's folder joined onto its resolved mapping base.
pub fn resolve_path(base: &str, path: &str) -> (r: String)
    ensures
        r@ == base@ + "/"@ + path@,
{
    path_join(base, path)
}

} // verus!

//! Per-session state: the tags the active plugin reported as required,
//! and the buffered conflicts awaiting a user decision.

use vstd::prelude::*;

use crate::conflict::ConflictBuffer;

verus! {

/// State that lives for one plugin session.
pub struct AppState {
    /// The tags the active plugin reported as required.
    pub tags: Vec<String>,
    /// Downloaded-but-unapplied cloud archives, per (tag, folder).
    pub buffers: ConflictBuffer,
}

impl AppState {
    /// The required tags, as character sequences.
    pub open spec fn tag_views(self) -> Seq<Seq<char>> {
        self.tags@.map_values(|t: String| t@)
    }

    pub open spec fn wf(self) -> bool {
        self.buffers.wf()
    }

    pub fn new() -> (r: Self)
        ensures
            r.wf(),
            r.tag_views() === Seq::empty(),
            r.buffers.buffered() =~= Map::empty(),
    {
        let r = AppState { tags: Vec::new(), buffers: ConflictBuffer::new() };
        proof {
            assert(r.tag_views() =~= Seq::empty());
        }
        r
    }

    /// The tags the active plugin listed in its cloud enumeration; a
    /// mapping for each of them is required before its folders sync.
    pub fn required_tags(&self) -> (r: Vec<String>)
        ensures
            r@.map_values(|t: String| t@) == self.tag_views(),
    {
        let n = self.tags.len();
        let mut out: Vec<String> = Vec::new();
        let mut i: usize = 0;
        while i < n
            invariant
                n == self.tags@.len(),
                i <= n,
                out@.len() == i,
                forall|j: int| 0 <= j < i ==> #[trigger] out@[j]@ == self.tags@[j]@,
            decreases n - i,
        {
            out.push(self.tags[i].clone());
            i = i + 1;
        }
        proof {
            assert(out@.map_values(|t: String| t@) =~= self.tag_views());
        }
        out
    }

    /// Replace the required tags with the plugin's current enumeration.
    pub fn set_required_tags(&mut self, tags: Vec<String>)
        ensures
            final(self).tag_views() == tags@.map_values(|t: String| t@),
            final(self).buffers == old(self).buffers,
    {
        self.tags = tags;
    }
}

} // verus!

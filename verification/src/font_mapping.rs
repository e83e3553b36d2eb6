//! Bidirectional mapping between externally owned font resource handles and
//! small dense numeric ids.
//!
//! Render primitives carry a `u16` font id instead of the opaque resource
//! handle, because primitives must be cheap to copy and compare. The mapping
//! assigns ids densely (0, 1, 2, ...), never reuses one, and offers no
//! removal.

use vstd::prelude::*;
use std::collections::HashMap;

verus! {

broadcast use vstd::std_specs::hash::group_hash_axioms;

/// An externally owned font resource. This core never inspects the resource
/// itself; a handle is only compared and hashed, so it is carried here as its
/// stable numeric key.
#[derive(Debug, Clone, Copy, PartialEq, Eq, Hash, Structural)]
pub struct FontHandle {
    pub id: u64,
}

/// The registry: a dense table indexed by font id for the id-to-handle
/// direction, and a hash map for the handle-to-id direction, kept in sync.
/// `count` is the next id to assign.
pub struct FontMapping {
    count: u16,
    font_ids: HashMap<u64, u16>,
    font_handles: Vec<FontHandle>,
}

impl View for FontMapping {
    type V = Seq<FontHandle>;

    /// A registry is abstractly the sequence of distinct handles in
    /// registration order; the id of a handle is its position.
    closed spec fn view(&self) -> Seq<FontHandle> {
        self.font_handles@
    }
}

/// What resolving an id against a registry state yields: the handle at that
/// position, or nothing for an id that was never assigned.
pub open spec fn spec_resolve(handles: Seq<FontHandle>, id: u16) -> Option<FontHandle> {
    if (id as int) < handles.len() {
        Some(handles[id as int])
    } else {
        None
    }
}

impl FontMapping {
    /// The registry's internal invariant: `count` equals the number of
    /// handles, the hash map holds exactly the registered handle keys, and
    /// the two directions agree position for position.
    pub closed spec fn wf(self) -> bool {
        &&& self.count as int == self.font_handles@.len()
        &&& forall|h: u64| #[trigger] self.font_ids@.contains_key(h) ==> {
            &&& (self.font_ids@[h] as int) < self.font_handles@.len()
            &&& self.font_handles@[self.font_ids@[h] as int].id == h
        }
        &&& forall|i: int| 0 <= i < self.font_handles@.len() ==> {
            &&& self.font_ids@.contains_key(#[trigger] self.font_handles@[i].id)
            &&& self.font_ids@[self.font_handles@[i].id] as int == i
        }
    }

    /// Register a handle. Idempotent: a handle already known keeps its id and
    /// the registry is unchanged; a new handle is appended and receives the
    /// next dense id.
    pub fn add(&mut self, handle: FontHandle) -> (id: u16)
        requires
            old(self).wf(),
            old(self)@.len() < 0xFFFF || old(self)@.contains(handle),
        ensures
            final(self).wf(),
            (id as int) < final(self)@.len() && final(self)@[id as int] == handle,
            old(self)@.contains(handle) ==> final(self)@ == old(self)@,
            !old(self)@.contains(handle) ==> final(self)@ == old(self)@.push(handle) && id as int
                == old(self)@.len(),
    {
        if !self.font_ids.contains_key(&handle.id) {
            proof {
                if self@.contains(handle) {
                    let i = choose|i: int| 0 <= i < self@.len() && self@[i] == handle;
                    assert(self.font_ids@.contains_key(self.font_handles@[i].id));
                }
            }
            let id = self.count;
            self.font_ids.insert(handle.id, id);
            self.font_handles.push(handle);
            self.count = self.count + 1;
            id
        } else {
            let id = *self.font_ids.get(&handle.id).unwrap();
            proof {
                assert(self@[id as int] == handle);
                assert(self@.contains(handle));
            }
            id
        }
    }

    /// Resolve an id back to its handle. An id never returned by `add`
    /// yields nothing; that signals a caller bug, not a runtime condition.
    pub fn get_handle(&self, id: u16) -> (r: Option<FontHandle>)
        requires
            self.wf(),
        ensures
            r == spec_resolve(self@, id),
    {
        if (id as usize) < self.font_handles.len() {
            Some(self.font_handles[id as usize])
        } else {
            None
        }
    }
}

impl Default for FontMapping {
    /// A fresh registry: no handle registered, next id zero.
    fn default() -> (r: Self)
        ensures
            r.wf(),
            r@ == Seq::<FontHandle>::empty(),
    {
        let r = FontMapping { count: 0, font_ids: HashMap::new(), font_handles: Vec::new() };
        proof {
            assert(r.font_ids@ =~= Map::<u64, u16>::empty());
            assert(r@ =~= Seq::<FontHandle>::empty());
        }
        r
    }
}

/// Law: within a well-formed registry a handle sits at one position only, so
/// registering the same handle again always yields the same id.
pub proof fn lemma_handle_id_unique(m: FontMapping, i: int, j: int)
    requires
        m.wf(),
        0 <= i < m@.len(),
        0 <= j < m@.len(),
        m@[i] == m@[j],
    ensures
        i == j,
{
    assert(m.font_ids@[m.font_handles@[i].id] as int == i);
    assert(m.font_ids@[m.font_handles@[j].id] as int == j);
}

/// Law: ids are dense, so two positions always carry distinct handles and
/// registering two distinct handles yields two distinct ids.
pub proof fn lemma_distinct_positions_distinct_handles(m: FontMapping, i: int, j: int)
    requires
        m.wf(),
        0 <= i < m@.len(),
        0 <= j < m@.len(),
        i != j,
    ensures
        m@[i] != m@[j],
{
    if m@[i] == m@[j] {
        lemma_handle_id_unique(m, i, j);
    }
}

/// Law (round trip): resolving the id that `add` assigned to a handle
/// returns that handle.
pub proof fn lemma_add_resolve_roundtrip(m: FontMapping, id: u16, handle: FontHandle)
    requires
        m.wf(),
        (id as int) < m@.len(),
        m@[id as int] == handle,
    ensures
        spec_resolve(m@, id) == Some(handle),
{
}

/// Law: an id at or past the number of registered handles was never returned
/// by `add`, and resolving it yields an absent result.
pub proof fn lemma_resolve_unassigned(m: FontMapping, id: u16)
    requires
        m.wf(),
        m@.len() <= id as int,
    ensures
        spec_resolve(m@, id) is None,
{
}

} // verus!

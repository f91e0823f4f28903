use vstd::prelude::*;
use std::collections::HashMap;
use crate::values::{FINE_CONTROL_LEVEL, SURFACE_CONTROL_LEVEL};

verus! {

broadcast use vstd::std_specs::hash::group_hash_axioms;

/// A handle to one node of the compositor's surface tree. Each handle stands for one
/// reference, counted in the [`SurfaceNodes`] table that issued it; `acquire` makes a
/// second handle and `release` gives one up.
#[derive(Debug)]
pub struct SurfaceControl {
    id: u64,
}

/// The number of references that a table view holds on `id` (zero when it has none).
pub open spec fn ref_count(m: Map<u64, u64>, id: u64) -> nat {
    if m.contains_key(id) {
        m[id] as nat
    } else {
        0
    }
}

/// A node is usable while at least one reference on it is held.
pub open spec fn is_live(m: Map<u64, u64>, id: u64) -> bool {
    ref_count(m, id) > 0
}

/// The table after one more reference on `id` was taken.
pub open spec fn add_ref(m: Map<u64, u64>, id: u64) -> Map<u64, u64> {
    m.insert(id, (ref_count(m, id) + 1) as u64)
}

/// The table after one reference on `id` was given up; the last one removes the node.
pub open spec fn drop_ref(m: Map<u64, u64>, id: u64) -> Map<u64, u64> {
    if ref_count(m, id) <= 1 {
        m.remove(id)
    } else {
        m.insert(id, (ref_count(m, id) - 1) as u64)
    }
}

/// `n` references taken in a row.
pub open spec fn add_refs(m: Map<u64, u64>, id: u64, n: nat) -> Map<u64, u64>
    decreases n,
{
    if n == 0 {
        m
    } else {
        add_ref(add_refs(m, id, (n - 1) as nat), id)
    }
}

/// `n` references given up in a row.
pub open spec fn drop_refs(m: Map<u64, u64>, id: u64, n: nat) -> Map<u64, u64>
    decreases n,
{
    if n == 0 {
        m
    } else {
        drop_ref(drop_refs(m, id, (n - 1) as nat), id)
    }
}

/// The client-side reference counts of the surface nodes, keyed by the compositor's
/// identity of each node, with the debug name each node was created with.
pub struct SurfaceNodes {
    refs: HashMap<u64, u64>,
    names: HashMap<u64, String>,
    api_level: u32,
}

impl SurfaceNodes {
    pub closed spec fn view(&self) -> Map<u64, u64> {
        self.refs@
    }

    /// The platform version the table was set up for.
    pub closed spec fn api_level_spec(&self) -> u32 {
        self.api_level
    }

    /// The debug name each live node was created with.
    pub closed spec fn names_view(&self) -> Map<u64, String> {
        self.names@
    }

    /// Every counted node holds at least one reference and has a name.
    pub closed spec fn wf(&self) -> bool {
        &&& forall|id: u64| #[trigger] self.refs@.contains_key(id) ==> self.refs@[id] > 0
        &&& self.refs@.dom() == self.names@.dom()
    }

    /// An empty table for platform version `api_level`, checked once here: below the
    /// first version with surface nodes there is none.
    pub fn new(api_level: u32) -> (r: Option<SurfaceNodes>)
        ensures
            r is None <==> api_level < SURFACE_CONTROL_LEVEL,
            r matches Some(t) ==> t.wf() && t@ == Map::<u64, u64>::empty() && t.api_level_spec()
                == api_level,
    {
        if api_level < SURFACE_CONTROL_LEVEL {
            return None;
        }
        let r = SurfaceNodes { refs: HashMap::new(), names: HashMap::new(), api_level };
        assert(r.refs@.dom() =~= r.names@.dom());
        Some(r)
    }

    /// The platform version the table was set up for.
    pub fn api_level(&self) -> (r: u32)
        ensures
            r == self.api_level_spec(),
    {
        self.api_level
    }

    /// How many handles on `id` are held.
    pub fn ref_count(&self, id: u64) -> (r: u64)
        ensures
            r as nat == ref_count(self@, id),
    {
        match self.refs.get(&id) {
            Some(n) => *n,
            None => 0,
        }
    }

    pub fn is_live(&self, id: u64) -> (r: bool)
        requires
            self.wf(),
        ensures
            r == is_live(self@, id),
    {
        self.refs.contains_key(&id)
    }

    /// The debug name the node was created with, while it is live.
    pub fn debug_name(&self, id: u64) -> (r: Option<&String>)
        requires
            self.wf(),
        ensures
            r is Some <==> is_live(self@, id),
            r matches Some(s) ==> *s == self.names_view()[id],
    {
        self.names.get(&id)
    }

    fn take_ref(&mut self, id: u64, debug_name: String)
        requires
            old(self).wf(),
            ref_count(old(self)@, id) < u64::MAX,
        ensures
            final(self).wf(),
            final(self)@ == add_ref(old(self)@, id),
            final(self).api_level_spec() == old(self).api_level_spec(),
            ref_count(old(self)@, id) == 0 ==> final(self).names_view() == old(self).names_view().insert(id, debug_name),
            ref_count(old(self)@, id) > 0 ==> final(self).names_view() == old(self).names_view(),
    {
        let n = self.ref_count(id);
        self.refs.insert(id, n + 1);
        if n == 0 {
            self.names.insert(id, debug_name);
        }
        assert(self.refs@.dom() =~= self.names@.dom());
    }

    fn give_ref(&mut self, id: u64) -> (last: bool)
        requires
            old(self).wf(),
            is_live(old(self)@, id),
        ensures
            final(self).wf(),
            final(self)@ == drop_ref(old(self)@, id),
            final(self).api_level_spec() == old(self).api_level_spec(),
            last == (ref_count(old(self)@, id) == 1),
            last ==> final(self).names_view() == old(self).names_view().remove(id),
            !last ==> final(self).names_view() == old(self).names_view(),
    {
        let n = self.ref_count(id);
        if n == 1 {
            self.refs.remove(&id);
            self.names.remove(&id);
            assert(self.refs@.dom() =~= self.names@.dom());
            true
        } else {
            self.refs.insert(id, n - 1);
            assert(self.refs@.dom() =~= self.names@.dom());
            false
        }
    }
}

impl SurfaceControl {
    pub closed spec fn id_spec(&self) -> u64 {
        self.id
    }

    /// The compositor's identity of the node.
    pub fn id(&self) -> (r: u64)
        ensures
            r == self.id_spec(),
    {
        self.id
    }

    /// A handle that the library does not count, for a node that a stats snapshot lists.
    pub(crate) fn borrowed(id: u64) -> (r: SurfaceControl)
        ensures
            r.id_spec() == id,
    {
        SurfaceControl { id }
    }

    /// Registers the node that the compositor created under a window; `created` is the
    /// identity it returned, `0` when creation failed.
    pub fn create_from_window(nodes: &mut SurfaceNodes, created: u64, debug_name: String) -> (r:
        Option<SurfaceControl>)
        requires
            old(nodes).wf(),
            ref_count(old(nodes)@, created) < u64::MAX,
        ensures
            final(nodes).wf(),
            final(nodes).api_level_spec() == old(nodes).api_level_spec(),
            created == 0 ==> r is None && final(nodes)@ == old(nodes)@,
            created != 0 ==> (r matches Some(s) && s.id_spec() == created),
            created != 0 ==> final(nodes)@ == add_ref(old(nodes)@, created),
            created != 0 && !is_live(old(nodes)@, created) ==> final(nodes).names_view()
                == old(nodes).names_view().insert(created, debug_name),
    {
        if created == 0 {
            None
        } else {
            nodes.take_ref(created, debug_name);
            Some(SurfaceControl { id: created })
        }
    }

    /// Registers the node that the compositor created under `parent`; `created` is the
    /// identity it returned, `0` when creation failed. A parent that is no longer live
    /// fails the creation.
    pub fn create(
        nodes: &mut SurfaceNodes,
        parent: &SurfaceControl,
        created: u64,
        debug_name: String,
    ) -> (r: Option<SurfaceControl>)
        requires
            old(nodes).wf(),
            ref_count(old(nodes)@, created) < u64::MAX,
        ensures
            final(nodes).wf(),
            final(nodes).api_level_spec() == old(nodes).api_level_spec(),
            (created == 0 || !is_live(old(nodes)@, parent.id_spec())) ==> r is None
                && final(nodes)@ == old(nodes)@,
            (created != 0 && is_live(old(nodes)@, parent.id_spec())) ==> (r matches Some(s)
                && s.id_spec() == created),
            (created != 0 && is_live(old(nodes)@, parent.id_spec())) ==> final(nodes)@ == add_ref(
                old(nodes)@,
                created,
            ),
            (created != 0 && is_live(old(nodes)@, parent.id_spec()) && !is_live(old(nodes)@, created))
                ==> final(nodes).names_view() == old(nodes).names_view().insert(created, debug_name),
    {
        if created == 0 || !nodes.is_live(parent.id) {
            None
        } else {
            nodes.take_ref(created, debug_name);
            Some(SurfaceControl { id: created })
        }
    }

    /// A second handle on the same node, holding one more reference; `None`, with nothing
    /// changed, where the platform version cannot take a second reference.
    pub fn acquire(&self, nodes: &mut SurfaceNodes) -> (r: Option<SurfaceControl>)
        requires
            old(nodes).wf(),
            is_live(old(nodes)@, self.id_spec()),
            ref_count(old(nodes)@, self.id_spec()) < u64::MAX,
        ensures
            final(nodes).wf(),
            final(nodes).names_view() == old(nodes).names_view(),
            final(nodes).api_level_spec() == old(nodes).api_level_spec(),
            old(nodes).api_level_spec() < FINE_CONTROL_LEVEL ==> r is None && final(nodes)@ == old(nodes)@,
            old(nodes).api_level_spec() >= FINE_CONTROL_LEVEL ==> (r matches Some(c) && c.id_spec()
                == self.id_spec()),
            old(nodes).api_level_spec() >= FINE_CONTROL_LEVEL ==> final(nodes)@ == add_ref(
                old(nodes)@,
                self.id_spec(),
            ),
    {
        if nodes.api_level < FINE_CONTROL_LEVEL {
            return None;
        }
        let name = String::new();
        nodes.take_ref(self.id, name);
        Some(SurfaceControl { id: self.id })
    }

    /// Gives up this handle's reference. `None` when the node held none (the handle was
    /// stale), else whether this was the last reference, after which the node is forgotten.
    pub fn release(self, nodes: &mut SurfaceNodes) -> (r: Option<bool>)
        requires
            old(nodes).wf(),
        ensures
            final(nodes).wf(),
            final(nodes).api_level_spec() == old(nodes).api_level_spec(),
            !is_live(old(nodes)@, self.id_spec()) ==> r is None && final(nodes)@ == old(nodes)@,
            is_live(old(nodes)@, self.id_spec()) ==> r == Some(
                ref_count(old(nodes)@, self.id_spec()) == 1,
            ) && final(nodes)@ == drop_ref(old(nodes)@, self.id_spec()),
    {
        if nodes.is_live(self.id) {
            Some(nodes.give_ref(self.id))
        } else {
            None
        }
    }
}

proof fn lemma_add_refs_count(m: Map<u64, u64>, id: u64, n: nat)
    requires
        ref_count(m, id) + n <= u64::MAX,
    ensures
        ref_count(add_refs(m, id, n), id) == ref_count(m, id) + n,
        forall|k: u64| k != id ==> ref_count(add_refs(m, id, n), k) == #[trigger] ref_count(m, k),
    decreases n,
{
    if n > 0 {
        lemma_add_refs_count(m, id, (n - 1) as nat);
    }
}

proof fn lemma_drop_refs_count(m: Map<u64, u64>, id: u64, n: nat)
    ensures
        ref_count(drop_refs(m, id, n), id) == if ref_count(m, id) >= n {
            ref_count(m, id) - n
        } else {
            0
        },
        forall|k: u64| k != id ==> ref_count(drop_refs(m, id, n), k) == #[trigger] ref_count(m, k),
    decreases n,
{
    if n > 0 {
        lemma_drop_refs_count(m, id, (n - 1) as nat);
    }
}

/// Taking `n` more references on a node that holds one, then giving up `n + 1`,
/// leaves the node no longer usable, and every other node's count as it was.
pub proof fn lemma_clone_release_balance(m: Map<u64, u64>, id: u64, n: nat)
    requires
        ref_count(m, id) == 1,
        n < u64::MAX,
    ensures
        !is_live(drop_refs(add_refs(m, id, n), id, n + 1), id),
        forall|k: u64|
            k != id ==> ref_count(drop_refs(add_refs(m, id, n), id, n + 1), k) == #[trigger] ref_count(
                m,
                k,
            ),
{
    lemma_add_refs_count(m, id, n);
    lemma_drop_refs_count(add_refs(m, id, n), id, n + 1);
}

} // verus!

use vstd::prelude::*;
use crate::callback::Phase;
use crate::fence::{Fence, NO_FENCE};
use crate::node::SurfaceControl;

verus! {

/// What the compositor reported for one node: when its current buffer was acquired
/// (`-1` without an acquire fence) and the raw fence of its previous buffer's release.
#[derive(Clone, Copy, Debug, PartialEq, Eq, Structural)]
pub struct SurfaceStats {
    pub node: u64,
    pub acquire_time: i64,
    pub previous_release_fence: i32,
}

/// Why a query on a snapshot was refused.
#[derive(Clone, Copy, Debug, PartialEq, Eq, Structural)]
pub enum StatsError {
    /// Fences are not available to an on-commit callback.
    WrongPhase,
}

/// The report on the node `id`: the last entry that names it.
pub open spec fn lookup(entries: Seq<SurfaceStats>, id: u64) -> Option<int>
    decreases entries.len(),
{
    if entries.len() == 0 {
        None
    } else if entries.last().node == id {
        Some(entries.len() - 1)
    } else {
        lookup(entries.drop_last(), id)
    }
}

proof fn lemma_lookup_bounds(entries: Seq<SurfaceStats>, id: u64)
    ensures
        lookup(entries, id) matches Some(i) ==> 0 <= i < entries.len() && entries[i].node == id,
        lookup(entries, id) is None ==> forall|k: int| 0 <= k < entries.len() ==> entries[k].node != id,
    decreases entries.len(),
{
    if entries.len() > 0 {
        lemma_lookup_bounds(entries.drop_last(), id);
        if entries.last().node != id {
            assert forall|k: int| 0 <= k < entries.len() - 1 implies entries[k] == entries.drop_last()[k] by {}
        }
    }
}

/// The acquire time reported for `id`, `-1` for a node the report does not list.
pub open spec fn acquire_time_of(entries: Seq<SurfaceStats>, id: u64) -> i64 {
    match lookup(entries, id) {
        Some(i) => entries[i].acquire_time,
        None => -1i64,
    }
}

/// The snapshot handed to a callback: valid for that invocation only. Fences move out of it
/// once: a fence taken is no longer in the snapshot.
#[derive(Debug)]
pub struct SurfaceTransactionStats {
    phase: Phase,
    latch_time: i64,
    present_fence: i32,
    surfaces: Vec<SurfaceStats>,
}

/// The nodes a snapshot lists. Its handles are borrowed: they hold no reference on the
/// nodes, and dropping the list leaves the nodes as they are.
#[derive(Debug)]
pub struct SurfaceControls {
    controls: Vec<SurfaceControl>,
}

impl SurfaceControls {
    pub closed spec fn ids(&self) -> Seq<u64> {
        self.controls@.map_values(|c: SurfaceControl| c.id_spec())
    }

    pub fn len(&self) -> (r: usize)
        ensures
            r == self.ids().len(),
    {
        self.controls.len()
    }

    pub fn get(&self, i: usize) -> (r: &SurfaceControl)
        requires
            i < self.ids().len(),
        ensures
            r.id_spec() == self.ids()[i as int],
    {
        &self.controls[i]
    }

    /// The slice of handles, for iteration.
    pub fn as_slice(&self) -> (r: &[SurfaceControl])
        ensures
            r@.map_values(|c: SurfaceControl| c.id_spec()) == self.ids(),
    {
        self.controls.as_slice()
    }
}

impl SurfaceTransactionStats {
    pub closed spec fn phase_spec(&self) -> Phase {
        self.phase
    }

    pub closed spec fn latch_time_spec(&self) -> i64 {
        self.latch_time
    }

    pub closed spec fn present_fence_spec(&self) -> i32 {
        self.present_fence
    }

    pub closed spec fn surfaces_spec(&self) -> Seq<SurfaceStats> {
        self.surfaces@
    }

    /// Builds the snapshot from what the compositor reported. In the commit phase no fence
    /// is available, and any raw fence passed in for it is kept out.
    pub fn new(phase: Phase, latch_time: i64, present_fence: i32, surfaces: Vec<SurfaceStats>) -> (r:
        SurfaceTransactionStats)
        ensures
            r.phase_spec() == phase,
            r.latch_time_spec() == latch_time,
            phase == Phase::Complete ==> r.present_fence_spec() == present_fence,
            phase == Phase::Complete ==> r.surfaces_spec() == surfaces@,
            phase == Phase::Commit ==> r.present_fence_spec() == NO_FENCE,
            phase == Phase::Commit ==> r.surfaces_spec().len() == surfaces@.len(),
            phase == Phase::Commit ==> forall|i: int|
                0 <= i < surfaces@.len() ==> #[trigger] r.surfaces_spec()[i] == (SurfaceStats {
                    previous_release_fence: NO_FENCE,
                    ..surfaces@[i]
                }),
    {
        match phase {
            Phase::Complete => SurfaceTransactionStats { phase, latch_time, present_fence, surfaces },
            Phase::Commit => {
                let mut cleared: Vec<SurfaceStats> = Vec::new();
                let mut i: usize = 0;
                while i < surfaces.len()
                    invariant
                        i <= surfaces@.len(),
                        cleared@.len() == i,
                        forall|k: int|
                            0 <= k < i ==> #[trigger] cleared@[k] == (SurfaceStats {
                                previous_release_fence: NO_FENCE,
                                ..surfaces@[k]
                            }),
                    decreases surfaces@.len() - i,
                {
                    let s = surfaces[i];
                    cleared.push(SurfaceStats { node: s.node, acquire_time: s.acquire_time, previous_release_fence: NO_FENCE });
                    i = i + 1;
                }
                SurfaceTransactionStats { phase, latch_time, present_fence: NO_FENCE, surfaces: cleared }
            },
        }
    }

    /// The phase of the callback this snapshot was handed to.
    pub fn phase(&self) -> (r: Phase)
        ensures
            r == self.phase_spec(),
    {
        self.phase
    }

    /// When the frame was latched; it is presented at the following vsync.
    pub fn latch_time(&self) -> (r: i64)
        ensures
            r == self.latch_time_spec(),
    {
        self.latch_time
    }

    /// Takes the fence that signals presentation. Refused in the commit phase; `None` when
    /// the device has no present fence or it was already taken.
    pub fn present_fence_fd(&mut self) -> (r: Result<Option<Fence>, StatsError>)
        ensures
            final(self).phase_spec() == old(self).phase_spec(),
            final(self).latch_time_spec() == old(self).latch_time_spec(),
            final(self).surfaces_spec() == old(self).surfaces_spec(),
            old(self).phase_spec() == Phase::Commit ==> r == Err::<Option<Fence>, StatsError>(StatsError::WrongPhase)
                && final(self).present_fence_spec() == old(self).present_fence_spec(),
            old(self).phase_spec() == Phase::Complete ==> (r matches Ok(f) && (f is None
                <==> old(self).present_fence_spec() == NO_FENCE) && (f matches Some(g) ==> g.raw_spec()
                == old(self).present_fence_spec() && g.wf())),
            old(self).phase_spec() == Phase::Complete ==> final(self).present_fence_spec() == NO_FENCE,
    {
        match self.phase {
            Phase::Commit => Err(StatsError::WrongPhase),
            Phase::Complete => {
                let fd = self.present_fence;
                self.present_fence = NO_FENCE;
                Ok(Fence::from_raw(fd))
            },
        }
    }

    /// The nodes this report covers, in the compositor's order.
    pub fn surface_controls(&self) -> (r: SurfaceControls)
        ensures
            r.ids() == self.surfaces_spec().map_values(|s: SurfaceStats| s.node),
    {
        let mut controls: Vec<SurfaceControl> = Vec::new();
        let mut i: usize = 0;
        while i < self.surfaces.len()
            invariant
                i <= self.surfaces@.len(),
                controls@.len() == i,
                forall|k: int| 0 <= k < i ==> #[trigger] controls@[k].id_spec() == self.surfaces@[k].node,
            decreases self.surfaces@.len() - i,
        {
            controls.push(SurfaceControl::borrowed(self.surfaces[i].node));
            i = i + 1;
        }
        let r = SurfaceControls { controls };
        assert(r.ids() =~= self.surfaces_spec().map_values(|s: SurfaceStats| s.node));
        r
    }

    fn find(&self, id: u64) -> (r: Option<usize>)
        ensures
            r matches Some(i) ==> lookup(self.surfaces@, id) == Some(i as int) && i < self.surfaces@.len(),
            r is None ==> lookup(self.surfaces@, id) is None,
    {
        let mut i: usize = self.surfaces.len();
        assert(self.surfaces@.take(i as int) =~= self.surfaces@);
        while i > 0
            invariant
                i <= self.surfaces@.len(),
                lookup(self.surfaces@, id) == lookup(self.surfaces@.take(i as int), id),
            decreases i,
        {
            let ghost pre = self.surfaces@.take(i as int);
            assert(pre.drop_last() =~= self.surfaces@.take(i - 1));
            if self.surfaces[i - 1].node == id {
                return Some(i - 1);
            }
            i = i - 1;
        }
        assert(self.surfaces@.take(0) =~= Seq::<SurfaceStats>::empty());
        None
    }

    /// When the current buffer of `surface_control` was acquired; `-1` when it had no
    /// acquire fence or the report does not list the node.
    pub fn acquire_time(&self, surface_control: &SurfaceControl) -> (r: i64)
        ensures
            r == acquire_time_of(self.surfaces_spec(), surface_control.id_spec()),
    {
        match self.find(surface_control.id()) {
            Some(i) => self.surfaces[i].acquire_time,
            None => -1,
        }
    }

    /// Takes the fence that signals the release of the previous buffer of
    /// `surface_control`. Refused in the commit phase; `None` when that buffer is already
    /// released, the fence was already taken, or the report does not list the node.
    pub fn previous_release_fence_fd(&mut self, surface_control: &SurfaceControl) -> (r: Result<
        Option<Fence>,
        StatsError,
    >)
        ensures
            final(self).phase_spec() == old(self).phase_spec(),
            final(self).latch_time_spec() == old(self).latch_time_spec(),
            final(self).present_fence_spec() == old(self).present_fence_spec(),
            old(self).phase_spec() == Phase::Commit ==> r == Err::<Option<Fence>, StatsError>(StatsError::WrongPhase)
                && final(self).surfaces_spec() == old(self).surfaces_spec(),
            old(self).phase_spec() == Phase::Complete && lookup(old(self).surfaces_spec(), surface_control.id_spec()) is None
                ==> (r matches Ok(None) && final(self).surfaces_spec() == old(self).surfaces_spec()),
            old(self).phase_spec() == Phase::Complete ==> (lookup(old(self).surfaces_spec(), surface_control.id_spec()) matches Some(i)
                ==> {
                    let fd = old(self).surfaces_spec()[i].previous_release_fence;
                    &&& r matches Ok(f)
                    &&& (f is None <==> fd == NO_FENCE)
                    &&& (f matches Some(g) ==> g.raw_spec() == fd && g.wf())
                    &&& final(self).surfaces_spec() == old(self).surfaces_spec().update(i, SurfaceStats {
                        previous_release_fence: NO_FENCE,
                        ..old(self).surfaces_spec()[i]
                    })
                }),
    {
        if let Phase::Commit = self.phase {
            return Err(StatsError::WrongPhase);
        }
        proof {
            lemma_lookup_bounds(self.surfaces@, surface_control.id_spec());
        }
        match self.find(surface_control.id()) {
            None => Ok(None),
            Some(i) => {
                let s = self.surfaces[i];
                self.surfaces.set(i, SurfaceStats { node: s.node, acquire_time: s.acquire_time, previous_release_fence: NO_FENCE });
                Ok(Fence::from_raw(s.previous_release_fence))
            },
        }
    }
}

} // verus!

use vstd::prelude::*;
use crate::callback::{CallbackError, CallbackRegistry, Phase, register_spec, submit_spec, fire_spec};
use crate::fence::Fence;
use crate::node::SurfaceControl;
use crate::values::{
    ChangeFrameRateStrategy, FrameRateCompatibility, Rect, Transparency, Visibility,
    is_positive, is_unit_interval, positive, rect_has_area, rect_is_ordered, unit_interval,
    FINE_CONTROL_LEVEL, FRAME_RATE_LEVEL, FRAME_TIMELINE_LEVEL, SURFACE_CONTROL_LEVEL,
};

verus! {

/// SMPTE ST 2086 mastering display colour volume, each value an `f32` bit pattern.
#[derive(Clone, Copy, Debug, PartialEq, Eq, Structural)]
pub struct HdrMetadataSmpte2086 {
    pub display_primary_red_x: u32,
    pub display_primary_red_y: u32,
    pub display_primary_green_x: u32,
    pub display_primary_green_y: u32,
    pub display_primary_blue_x: u32,
    pub display_primary_blue_y: u32,
    pub white_point_x: u32,
    pub white_point_y: u32,
    pub max_luminance: u32,
    pub min_luminance: u32,
}

/// CTA 861.3 static light levels, each value an `f32` bit pattern.
#[derive(Clone, Copy, Debug, PartialEq, Eq, Structural)]
pub struct HdrMetadataCta8613 {
    pub max_content_light_level: u32,
    pub max_frame_average_light_level: u32,
}

/// One staged change. Nodes are named by their identity; single-precision arguments are
/// carried as their bit patterns.
#[derive(Debug)]
pub enum Operation {
    Reparent { node: u64, new_parent: Option<u64> },
    SetVisibility { node: u64, visibility: Visibility },
    SetZOrder { node: u64, z_order: i32 },
    SetBuffer { node: u64, buffer: u64, acquire_fence: Option<Fence> },
    SetColor { node: u64, r: u32, g: u32, b: u32, alpha: u32, data_space: i32 },
    SetGeometry { node: u64, source: Rect, destination: Rect, transform: i32 },
    SetCrop { node: u64, crop: Rect },
    SetPosition { node: u64, x: i32, y: i32 },
    SetBufferTransform { node: u64, transform: i32 },
    SetScale { node: u64, x_scale: u32, y_scale: u32 },
    SetBufferTransparency { node: u64, transparency: Transparency },
    SetDamageRegion { node: u64, rects: Vec<Rect> },
    SetDesiredPresentTime { desired_present_time: i64 },
    SetBufferAlpha { node: u64, alpha: u32 },
    SetBufferDataSpace { node: u64, data_space: i32 },
    SetHdrMetadataSmpte2086 { node: u64, smpte2086: Option<HdrMetadataSmpte2086> },
    SetHdrMetadataCta8613 { node: u64, cta861_3: Option<HdrMetadataCta8613> },
    SetFrameRate {
        node: u64,
        frame_rate: u32,
        compatibility: FrameRateCompatibility,
        change_frame_rate_strategy: Option<ChangeFrameRateStrategy>,
    },
    SetEnableBackPressure { node: u64, enable_back_pressure: bool },
    SetFrameTimeline { vsync_id: i64 },
}

/// The node an operation changes, if it targets one.
pub open spec fn target_of(op: Operation) -> Option<u64> {
    match op {
        Operation::Reparent { node, .. } => Some(node),
        Operation::SetVisibility { node, .. } => Some(node),
        Operation::SetZOrder { node, .. } => Some(node),
        Operation::SetBuffer { node, .. } => Some(node),
        Operation::SetColor { node, .. } => Some(node),
        Operation::SetGeometry { node, .. } => Some(node),
        Operation::SetCrop { node, .. } => Some(node),
        Operation::SetPosition { node, .. } => Some(node),
        Operation::SetBufferTransform { node, .. } => Some(node),
        Operation::SetScale { node, .. } => Some(node),
        Operation::SetBufferTransparency { node, .. } => Some(node),
        Operation::SetDamageRegion { node, .. } => Some(node),
        Operation::SetDesiredPresentTime { .. } => None,
        Operation::SetBufferAlpha { node, .. } => Some(node),
        Operation::SetBufferDataSpace { node, .. } => Some(node),
        Operation::SetHdrMetadataSmpte2086 { node, .. } => Some(node),
        Operation::SetHdrMetadataCta8613 { node, .. } => Some(node),
        Operation::SetFrameRate { node, .. } => Some(node),
        Operation::SetEnableBackPressure { node, .. } => Some(node),
        Operation::SetFrameTimeline { .. } => None,
    }
}

impl Operation {
    /// The node this operation changes, if it targets one.
    pub fn target(&self) -> (r: Option<u64>)
        ensures
            r == target_of(*self),
    {
        match self {
            Operation::Reparent { node, .. } => Some(*node),
            Operation::SetVisibility { node, .. } => Some(*node),
            Operation::SetZOrder { node, .. } => Some(*node),
            Operation::SetBuffer { node, .. } => Some(*node),
            Operation::SetColor { node, .. } => Some(*node),
            Operation::SetGeometry { node, .. } => Some(*node),
            Operation::SetCrop { node, .. } => Some(*node),
            Operation::SetPosition { node, .. } => Some(*node),
            Operation::SetBufferTransform { node, .. } => Some(*node),
            Operation::SetScale { node, .. } => Some(*node),
            Operation::SetBufferTransparency { node, .. } => Some(*node),
            Operation::SetDamageRegion { node, .. } => Some(*node),
            Operation::SetDesiredPresentTime { .. } => None,
            Operation::SetBufferAlpha { node, .. } => Some(*node),
            Operation::SetBufferDataSpace { node, .. } => Some(*node),
            Operation::SetHdrMetadataSmpte2086 { node, .. } => Some(*node),
            Operation::SetHdrMetadataCta8613 { node, .. } => Some(*node),
            Operation::SetFrameRate { node, .. } => Some(*node),
            Operation::SetEnableBackPressure { node, .. } => Some(*node),
            Operation::SetFrameTimeline { .. } => None,
        }
    }
}

/// The platform version an operation needs.
pub open spec fn required_level(op: Operation) -> u32 {
    match op {
        Operation::SetCrop { .. } => FINE_CONTROL_LEVEL,
        Operation::SetPosition { .. } => FINE_CONTROL_LEVEL,
        Operation::SetBufferTransform { .. } => FINE_CONTROL_LEVEL,
        Operation::SetScale { .. } => FINE_CONTROL_LEVEL,
        Operation::SetEnableBackPressure { .. } => FINE_CONTROL_LEVEL,
        Operation::SetFrameRate { change_frame_rate_strategy, .. } => match change_frame_rate_strategy {
            Some(_) => FINE_CONTROL_LEVEL,
            None => FRAME_RATE_LEVEL,
        },
        Operation::SetFrameTimeline { .. } => FRAME_TIMELINE_LEVEL,
        _ => SURFACE_CONTROL_LEVEL,
    }
}

impl Operation {
    /// The platform version this operation needs.
    pub fn required_level(&self) -> (r: u32)
        ensures
            r == required_level(*self),
    {
        match self {
            Operation::SetCrop { .. } => FINE_CONTROL_LEVEL,
            Operation::SetPosition { .. } => FINE_CONTROL_LEVEL,
            Operation::SetBufferTransform { .. } => FINE_CONTROL_LEVEL,
            Operation::SetScale { .. } => FINE_CONTROL_LEVEL,
            Operation::SetEnableBackPressure { .. } => FINE_CONTROL_LEVEL,
            Operation::SetFrameRate { change_frame_rate_strategy, .. } => match change_frame_rate_strategy {
                Some(_) => FINE_CONTROL_LEVEL,
                None => FRAME_RATE_LEVEL,
            },
            Operation::SetFrameTimeline { .. } => FRAME_TIMELINE_LEVEL,
            _ => SURFACE_CONTROL_LEVEL,
        }
    }
}

/// The distinct nodes that a list of operations changes, in the order each is first touched.
pub open spec fn touched(ops: Seq<Operation>) -> Seq<u64>
    decreases ops.len(),
{
    if ops.len() == 0 {
        Seq::empty()
    } else {
        let prev = touched(ops.drop_last());
        match target_of(ops.last()) {
            Some(n) => if prev.contains(n) {
                prev
            } else {
                prev.push(n)
            },
            None => prev,
        }
    }
}

/// Why a staging call was refused.
#[derive(Clone, Copy, Debug, PartialEq, Eq, Structural)]
pub enum StageError {
    /// An argument lies outside the range the compositor accepts.
    InvalidArgument,
    /// The transaction was already submitted.
    AlreadySubmitted,
    /// The platform version the transaction was created for lacks this operation.
    Unsupported,
}

/// What a staging call does: refused after submission, refused when the platform
/// version `level` lacks the operation, refused when an argument is invalid, otherwise
/// appends `op`.
pub open spec fn stage_outcome(
    before: Seq<Operation>,
    after: Seq<Operation>,
    submitted: bool,
    level: u32,
    valid: bool,
    op: Operation,
    r: Result<(), StageError>,
) -> bool {
    if submitted {
        r == Err::<(), StageError>(StageError::AlreadySubmitted) && after == before
    } else if level < required_level(op) {
        r == Err::<(), StageError>(StageError::Unsupported) && after == before
    } else if !valid {
        r == Err::<(), StageError>(StageError::InvalidArgument) && after == before
    } else {
        r == Ok::<(), StageError>(()) && after == before.push(op)
    }
}

/// Issues the order in which transactions from one submitting context are applied.
pub struct SubmitContext {
    next: u64,
}

impl SubmitContext {
    pub closed spec fn next_spec(&self) -> u64 {
        self.next
    }

    pub fn new() -> (r: SubmitContext)
        ensures
            r.next_spec() == 0,
    {
        SubmitContext { next: 0 }
    }

    /// The sequence number the next submission will get.
    pub fn next_sequence(&self) -> (r: u64)
        ensures
            r == self.next_spec(),
    {
        self.next
    }
}

/// The staged operations handed to the compositor at submission, in staging order, with
/// the submission's place in its context's order.
#[derive(Debug)]
pub struct Submission {
    pub sequence: u64,
    pub operations: Vec<Operation>,
}

/// A batch of updates to the surface tree, applied atomically once submitted.
#[derive(Debug)]
pub struct SurfaceTransaction {
    handle: u64,
    ops: Vec<Operation>,
    callbacks: CallbackRegistry,
    sequence: Option<u64>,
    api_level: u32,
}

impl SurfaceTransaction {
    pub closed spec fn handle_spec(&self) -> u64 {
        self.handle
    }

    /// The platform version the transaction was created for.
    pub closed spec fn api_level_spec(&self) -> u32 {
        self.api_level
    }

    pub closed spec fn ops(&self) -> Seq<Operation> {
        self.ops@
    }

    pub closed spec fn registry(&self) -> CallbackRegistry {
        self.callbacks
    }

    pub closed spec fn sequence_spec(&self) -> Option<u64> {
        self.sequence
    }

    /// Submitted exactly when it holds a place in its context's order; a submitted
    /// transaction has handed over all its operations.
    pub closed spec fn wf(&self) -> bool {
        &&& self.callbacks.submitted <==> self.sequence is Some
        &&& self.callbacks.submitted ==> self.ops@.len() == 0
        &&& self.api_level >= SURFACE_CONTROL_LEVEL
    }

    /// Everything but the staged operations is as it was.
    pub open spec fn same_state(&self, other: &SurfaceTransaction) -> bool {
        &&& self.handle_spec() == other.handle_spec()
        &&& self.registry() == other.registry()
        &&& self.sequence_spec() == other.sequence_spec()
        &&& self.api_level_spec() == other.api_level_spec()
    }

    /// Everything but the staged operations and the callback tracks is as it was.
    pub open spec fn same_state_but_registry(&self, other: &SurfaceTransaction) -> bool {
        &&& self.handle_spec() == other.handle_spec()
        &&& self.sequence_spec() == other.sequence_spec()
        &&& self.api_level_spec() == other.api_level_spec()
    }

    /// Wraps the transaction the compositor created; `handle` is its identity, `0` when
    /// creation failed. `api_level` is the platform version, checked once here: below the
    /// first version with transactions there is none, and every staging call the version
    /// lacks is refused.
    pub fn new(handle: u64, api_level: u32) -> (r: Option<SurfaceTransaction>)
        ensures
            (handle == 0 || api_level < SURFACE_CONTROL_LEVEL) <==> r is None,
            r matches Some(t) ==> t.api_level_spec() == api_level,
            r matches Some(t) ==> t.wf(),
            r matches Some(t) ==> t.handle_spec() == handle && t.ops() == Seq::<Operation>::empty()
                && t.registry() == crate::callback::fresh_registry() && t.sequence_spec() is None,
    {
        if handle == 0 || api_level < SURFACE_CONTROL_LEVEL {
            None
        } else {
            Some(SurfaceTransaction {
                handle,
                ops: Vec::new(),
                callbacks: CallbackRegistry::new(),
                sequence: None,
                api_level,
            })
        }
    }

    /// The compositor's identity of this transaction.
    pub fn handle(&self) -> (r: u64)
        ensures
            r == self.handle_spec(),
    {
        self.handle
    }

    /// The operations staged so far.
    pub fn operations(&self) -> (r: &Vec<Operation>)
        ensures
            r@ == self.ops(),
    {
        &self.ops
    }

    pub fn is_submitted(&self) -> (r: bool)
        ensures
            r == self.registry().submitted,
    {
        self.callbacks.submitted
    }

    /// The place this transaction took in its context's order, once submitted.
    pub fn sequence(&self) -> (r: Option<u64>)
        ensures
            r == self.sequence_spec(),
    {
        self.sequence
    }

    /// The state of both callback tracks.
    pub fn callbacks(&self) -> (r: CallbackRegistry)
        ensures
            r == self.registry(),
    {
        self.callbacks
    }

    fn stage(&mut self, valid: bool, op: Operation) -> (r: Result<(), StageError>)
        requires
            old(self).wf(),
        ensures
            final(self).wf(),
            stage_outcome(old(self).ops(), final(self).ops(), old(self).registry().submitted, old(self).api_level_spec(), valid, op, r),
            final(self).same_state(old(self)),
    {
        if self.callbacks.submitted {
            Err(StageError::AlreadySubmitted)
        } else if self.api_level < op.required_level() {
            Err(StageError::Unsupported)
        } else if !valid {
            Err(StageError::InvalidArgument)
        } else {
            self.ops.push(op);
            Ok(())
        }
    }

    /// Moves `surface_control` under `new_parent`; with `None` it leaves the display.
    pub fn reparent(&mut self, surface_control: &SurfaceControl, new_parent: Option<&SurfaceControl>) -> (r:
        Result<(), StageError>)
        requires
            old(self).wf(),
        ensures
            final(self).wf(),
            stage_outcome(old(self).ops(), final(self).ops(), old(self).registry().submitted, old(self).api_level_spec(), true,
                Operation::Reparent { node: surface_control.id_spec(), new_parent: match new_parent {
                    Some(p) => Some(p.id_spec()),
                    None => None,
                } }, r),
            final(self).same_state(old(self)),
    {
        let parent = match new_parent {
            Some(p) => Some(p.id()),
            None => None,
        };
        self.stage(true, Operation::Reparent { node: surface_control.id(), new_parent: parent })
    }

    /// Shows or hides `surface_control` and its subtree.
    pub fn set_visibility(&mut self, surface_control: &SurfaceControl, visibility: Visibility) -> (r:
        Result<(), StageError>)
        requires
            old(self).wf(),
        ensures
            final(self).wf(),
            stage_outcome(old(self).ops(), final(self).ops(), old(self).registry().submitted, old(self).api_level_spec(), true,
                Operation::SetVisibility { node: surface_control.id_spec(), visibility }, r),
            final(self).same_state(old(self)),
    {
        self.stage(true, Operation::SetVisibility { node: surface_control.id(), visibility })
    }

    /// Places `surface_control` among its siblings; any `i32` is accepted.
    pub fn set_z_order(&mut self, surface_control: &SurfaceControl, z_order: i32) -> (r: Result<
        (),
        StageError,
    >)
        requires
            old(self).wf(),
        ensures
            final(self).wf(),
            stage_outcome(old(self).ops(), final(self).ops(), old(self).registry().submitted, old(self).api_level_spec(), true,
                Operation::SetZOrder { node: surface_control.id_spec(), z_order }, r),
            final(self).same_state(old(self)),
    {
        self.stage(true, Operation::SetZOrder { node: surface_control.id(), z_order })
    }

    /// Shows `buffer` on `surface_control`. The acquire fence, if any, moves into the
    /// transaction, which hands it to the compositor at submission. A `Fence` does not
    /// close its descriptor when dropped: when the call is refused the fence is consumed
    /// unstaged, and closing its descriptor falls to the caller that opened it.
    pub fn set_buffer(
        &mut self,
        surface_control: &SurfaceControl,
        buffer: u64,
        acquire_fence: Option<Fence>,
    ) -> (r: Result<(), StageError>)
        requires
            old(self).wf(),
        ensures
            final(self).wf(),
            stage_outcome(old(self).ops(), final(self).ops(), old(self).registry().submitted, old(self).api_level_spec(), true,
                Operation::SetBuffer { node: surface_control.id_spec(), buffer, acquire_fence }, r),
            final(self).same_state(old(self)),
    {
        self.stage(true, Operation::SetBuffer { node: surface_control.id(), buffer, acquire_fence })
    }

    /// Sets the background colour shown in transparent regions. `alpha` must lie in
    /// `[0, 1]`; the colour channels are passed on as given.
    pub fn set_color(
        &mut self,
        surface_control: &SurfaceControl,
        r: u32,
        g: u32,
        b: u32,
        alpha: u32,
        data_space: i32,
    ) -> (res: Result<(), StageError>)
        requires
            old(self).wf(),
        ensures
            final(self).wf(),
            stage_outcome(old(self).ops(), final(self).ops(), old(self).registry().submitted, old(self).api_level_spec(),
                is_unit_interval(alpha), Operation::SetColor { node: surface_control.id_spec(), r, g, b, alpha, data_space }, res),
            final(self).same_state(old(self)),
    {
        let valid = unit_interval(alpha);
        self.stage(valid, Operation::SetColor { node: surface_control.id(), r, g, b, alpha, data_space })
    }

    /// Sets source rectangle, destination rectangle and transform at once; both
    /// rectangles must have a width and a height above zero.
    pub fn set_geometry(
        &mut self,
        surface_control: &SurfaceControl,
        source: &Rect,
        destination: &Rect,
        transform: i32,
    ) -> (r: Result<(), StageError>)
        requires
            old(self).wf(),
        ensures
            final(self).wf(),
            stage_outcome(old(self).ops(), final(self).ops(), old(self).registry().submitted, old(self).api_level_spec(),
                rect_has_area(*source) && rect_has_area(*destination),
                Operation::SetGeometry { node: surface_control.id_spec(), source: *source, destination: *destination, transform }, r),
            final(self).same_state(old(self)),
    {
        let valid = source.has_area() && destination.has_area();
        self.stage(valid, Operation::SetGeometry {
            node: surface_control.id(),
            source: *source,
            destination: *destination,
            transform,
        })
    }

    /// Bounds the surface and its children to `crop`, whose edges must not cross.
    pub fn set_crop(&mut self, surface_control: &SurfaceControl, crop: &Rect) -> (r: Result<(), StageError>)
        requires
            old(self).wf(),
        ensures
            final(self).wf(),
            stage_outcome(old(self).ops(), final(self).ops(), old(self).registry().submitted, old(self).api_level_spec(),
                rect_is_ordered(*crop), Operation::SetCrop { node: surface_control.id_spec(), crop: *crop }, r),
            final(self).same_state(old(self)),
    {
        let valid = crop.is_ordered();
        self.stage(valid, Operation::SetCrop { node: surface_control.id(), crop: *crop })
    }

    /// Places the surface in its parent's space.
    pub fn set_position(&mut self, surface_control: &SurfaceControl, x: i32, y: i32) -> (r: Result<
        (),
        StageError,
    >)
        requires
            old(self).wf(),
        ensures
            final(self).wf(),
            stage_outcome(old(self).ops(), final(self).ops(), old(self).registry().submitted, old(self).api_level_spec(), true,
                Operation::SetPosition { node: surface_control.id_spec(), x, y }, r),
            final(self).same_state(old(self)),
    {
        self.stage(true, Operation::SetPosition { node: surface_control.id(), x, y })
    }

    /// Sets the transform applied to the buffer after its source rectangle.
    pub fn set_buffer_transform(&mut self, surface_control: &SurfaceControl, transform: i32) -> (r:
        Result<(), StageError>)
        requires
            old(self).wf(),
        ensures
            final(self).wf(),
            stage_outcome(old(self).ops(), final(self).ops(), old(self).registry().submitted, old(self).api_level_spec(), true,
                Operation::SetBufferTransform { node: surface_control.id_spec(), transform }, r),
            final(self).same_state(old(self)),
    {
        self.stage(true, Operation::SetBufferTransform { node: surface_control.id(), transform })
    }

    /// Scales the surface about its origin; both factors must be above zero (positive
    /// infinity counts; zero, negative values and NaN do not).
    pub fn set_scale(&mut self, surface_control: &SurfaceControl, x_scale: u32, y_scale: u32) -> (r:
        Result<(), StageError>)
        requires
            old(self).wf(),
        ensures
            final(self).wf(),
            stage_outcome(old(self).ops(), final(self).ops(), old(self).registry().submitted, old(self).api_level_spec(),
                is_positive(x_scale) && is_positive(y_scale),
                Operation::SetScale { node: surface_control.id_spec(), x_scale, y_scale }, r),
            final(self).same_state(old(self)),
    {
        let valid = positive(x_scale) && positive(y_scale);
        self.stage(valid, Operation::SetScale { node: surface_control.id(), x_scale, y_scale })
    }

    /// Declares whether the buffer's content is transparent, translucent or opaque.
    pub fn set_buffer_transparency(&mut self, surface_control: &SurfaceControl, transparency: Transparency) -> (r:
        Result<(), StageError>)
        requires
            old(self).wf(),
        ensures
            final(self).wf(),
            stage_outcome(old(self).ops(), final(self).ops(), old(self).registry().submitted, old(self).api_level_spec(), true,
                Operation::SetBufferTransparency { node: surface_control.id_spec(), transparency }, r),
            final(self).same_state(old(self)),
    {
        self.stage(true, Operation::SetBufferTransparency { node: surface_control.id(), transparency })
    }

    /// Marks the region updated by this transaction; an empty list leaves the whole
    /// surface damaged. A rectangle whose edges cross describes no region, so such a
    /// malformed call is refused rather than passed on.
    pub fn set_damage_region(&mut self, surface_control: &SurfaceControl, rects: &[Rect]) -> (r: Result<
        (),
        StageError,
    >)
        requires
            old(self).wf(),
        ensures
            final(self).wf(),
            ({
                let valid = forall|i: int| 0 <= i < rects@.len() ==> rect_is_ordered(#[trigger] rects@[i]);
                &&& old(self).registry().submitted ==> r == Err::<(), StageError>(StageError::AlreadySubmitted)
                &&& (!old(self).registry().submitted && !valid) ==> r == Err::<(), StageError>(StageError::InvalidArgument)
                &&& (!old(self).registry().submitted && valid) ==> r == Ok::<(), StageError>(())
                &&& r is Err ==> final(self).ops() == old(self).ops()
                &&& r is Ok ==> final(self).ops().len() == old(self).ops().len() + 1
                    && final(self).ops().drop_last() == old(self).ops()
                    && (final(self).ops().last() matches Operation::SetDamageRegion { node, rects: v }
                        && node == surface_control.id_spec() && v@ == rects@)
            }),
            final(self).same_state(old(self)),
    {
        let mut copy: Vec<Rect> = Vec::new();
        let mut valid = true;
        let mut i: usize = 0;
        while i < rects.len()
            invariant
                i <= rects@.len(),
                copy@ == rects@.take(i as int),
                valid == forall|k: int| 0 <= k < i ==> rect_is_ordered(#[trigger] rects@[k]),
            decreases rects@.len() - i,
        {
            if !rects[i].is_ordered() {
                valid = false;
            }
            copy.push(rects[i]);
            i = i + 1;
            assert(copy@ =~= rects@.take(i as int));
        }
        assert(copy@ =~= rects@);
        let node = surface_control.id();
        let ghost before = self.ops();
        let r = self.stage(valid, Operation::SetDamageRegion { node, rects: copy });
        proof {
            if r is Ok {
                assert(self.ops().drop_last() =~= before);
            }
        }
        r
    }

    /// Asks that the transaction be presented at or after `desired_present_time`.
    pub fn set_desired_present_time(&mut self, desired_present_time: i64) -> (r: Result<(), StageError>)
        requires
            old(self).wf(),
        ensures
            final(self).wf(),
            stage_outcome(old(self).ops(), final(self).ops(), old(self).registry().submitted, old(self).api_level_spec(), true,
                Operation::SetDesiredPresentTime { desired_present_time }, r),
            final(self).same_state(old(self)),
    {
        self.stage(true, Operation::SetDesiredPresentTime { desired_present_time })
    }

    /// Sets the buffer's premultiplied alpha, which must lie in `[0, 1]`.
    pub fn set_buffer_alpha(&mut self, surface_control: &SurfaceControl, alpha: u32) -> (r: Result<
        (),
        StageError,
    >)
        requires
            old(self).wf(),
        ensures
            final(self).wf(),
            stage_outcome(old(self).ops(), final(self).ops(), old(self).registry().submitted, old(self).api_level_spec(),
                is_unit_interval(alpha), Operation::SetBufferAlpha { node: surface_control.id_spec(), alpha }, r),
            final(self).same_state(old(self)),
    {
        let valid = unit_interval(alpha);
        self.stage(valid, Operation::SetBufferAlpha { node: surface_control.id(), alpha })
    }

    /// Sets the data space of the surface's buffers.
    pub fn set_buffer_data_space(&mut self, surface_control: &SurfaceControl, data_space: i32) -> (r:
        Result<(), StageError>)
        requires
            old(self).wf(),
        ensures
            final(self).wf(),
            stage_outcome(old(self).ops(), final(self).ops(), old(self).registry().submitted, old(self).api_level_spec(), true,
                Operation::SetBufferDataSpace { node: surface_control.id_spec(), data_space }, r),
            final(self).same_state(old(self)),
    {
        self.stage(true, Operation::SetBufferDataSpace { node: surface_control.id(), data_space })
    }

    /// Sets or, with `None`, clears the SMPTE ST 2086 metadata.
    pub fn set_hdr_metadata_smpte2086(
        &mut self,
        surface_control: &SurfaceControl,
        metadata: Option<HdrMetadataSmpte2086>,
    ) -> (r: Result<(), StageError>)
        requires
            old(self).wf(),
        ensures
            final(self).wf(),
            stage_outcome(old(self).ops(), final(self).ops(), old(self).registry().submitted, old(self).api_level_spec(), true,
                Operation::SetHdrMetadataSmpte2086 { node: surface_control.id_spec(), smpte2086: metadata }, r),
            final(self).same_state(old(self)),
    {
        self.stage(true, Operation::SetHdrMetadataSmpte2086 { node: surface_control.id(), smpte2086: metadata })
    }

    /// Sets or, with `None`, clears the CTA 861.3 metadata.
    pub fn set_hdr_metadata_cta861_3(
        &mut self,
        surface_control: &SurfaceControl,
        metadata: Option<HdrMetadataCta8613>,
    ) -> (r: Result<(), StageError>)
        requires
            old(self).wf(),
        ensures
            final(self).wf(),
            stage_outcome(old(self).ops(), final(self).ops(), old(self).registry().submitted, old(self).api_level_spec(), true,
                Operation::SetHdrMetadataCta8613 { node: surface_control.id_spec(), cta861_3: metadata }, r),
            final(self).same_state(old(self)),
    {
        self.stage(true, Operation::SetHdrMetadataCta8613 { node: surface_control.id(), cta861_3: metadata })
    }

    /// Sets the intended frame rate, leaving the change strategy to the compositor's
    /// default (only seamless changes). A rate of zero leaves the choice to the system.
    pub fn set_frame_rate(
        &mut self,
        surface_control: &SurfaceControl,
        frame_rate: u32,
        compatibility: FrameRateCompatibility,
    ) -> (r: Result<(), StageError>)
        requires
            old(self).wf(),
        ensures
            final(self).wf(),
            stage_outcome(old(self).ops(), final(self).ops(), old(self).registry().submitted, old(self).api_level_spec(),
                true,
                Operation::SetFrameRate { node: surface_control.id_spec(), frame_rate, compatibility, change_frame_rate_strategy: None }, r),
            final(self).same_state(old(self)),
    {
        self.stage(true, Operation::SetFrameRate {
            node: surface_control.id(),
            frame_rate,
            compatibility,
            change_frame_rate_strategy: None,
        })
    }

    /// Sets the intended frame rate and whether refresh-rate changes must be seamless.
    pub fn set_frame_rate_with_change_strategy(
        &mut self,
        surface_control: &SurfaceControl,
        frame_rate: u32,
        compatibility: FrameRateCompatibility,
        change_frame_rate_strategy: ChangeFrameRateStrategy,
    ) -> (r: Result<(), StageError>)
        requires
            old(self).wf(),
        ensures
            final(self).wf(),
            stage_outcome(old(self).ops(), final(self).ops(), old(self).registry().submitted, old(self).api_level_spec(),
                true,
                Operation::SetFrameRate { node: surface_control.id_spec(), frame_rate, compatibility,
                    change_frame_rate_strategy: Some(change_frame_rate_strategy) }, r),
            final(self).same_state(old(self)),
    {
        self.stage(true, Operation::SetFrameRate {
            node: surface_control.id(),
            frame_rate,
            compatibility,
            change_frame_rate_strategy: Some(change_frame_rate_strategy),
        })
    }

    /// Requires each buffer to be presented before its slot is released.
    pub fn set_enable_back_pressure(&mut self, surface_control: &SurfaceControl, enable_back_pressure: bool) -> (r:
        Result<(), StageError>)
        requires
            old(self).wf(),
        ensures
            final(self).wf(),
            stage_outcome(old(self).ops(), final(self).ops(), old(self).registry().submitted, old(self).api_level_spec(), true,
                Operation::SetEnableBackPressure { node: surface_control.id_spec(), enable_back_pressure }, r),
            final(self).same_state(old(self)),
    {
        self.stage(true, Operation::SetEnableBackPressure { node: surface_control.id(), enable_back_pressure })
    }

    /// Targets the frame timeline of `vsync_id`; a stale id is ignored by the compositor.
    pub fn set_frame_timeline(&mut self, vsync_id: i64) -> (r: Result<(), StageError>)
        requires
            old(self).wf(),
        ensures
            final(self).wf(),
            stage_outcome(old(self).ops(), final(self).ops(), old(self).registry().submitted, old(self).api_level_spec(), true,
                Operation::SetFrameTimeline { vsync_id }, r),
            final(self).same_state(old(self)),
    {
        self.stage(true, Operation::SetFrameTimeline { vsync_id })
    }

    /// Attaches the on-complete callback; only before submission.
    pub fn set_on_complete(&mut self) -> (r: Result<(), CallbackError>)
        requires
            old(self).wf(),
        ensures
            final(self).wf(),
            (final(self).registry(), r) == register_spec(old(self).registry(), Phase::Complete),
            final(self).ops() == old(self).ops(),
            final(self).same_state_but_registry(old(self)),
    {
        self.callbacks.register(Phase::Complete)
    }

    /// Attaches the on-commit callback; only before submission, and only where the
    /// platform version has it.
    pub fn set_on_commit(&mut self) -> (r: Result<(), CallbackError>)
        requires
            old(self).wf(),
        ensures
            final(self).wf(),
            old(self).api_level_spec() < FINE_CONTROL_LEVEL ==> r == Err::<(), CallbackError>(
                CallbackError::Unsupported,
            ) && final(self).registry() == old(self).registry(),
            old(self).api_level_spec() >= FINE_CONTROL_LEVEL ==> (final(self).registry(), r)
                == register_spec(old(self).registry(), Phase::Commit),
            final(self).ops() == old(self).ops(),
            final(self).same_state_but_registry(old(self)),
    {
        if self.api_level < FINE_CONTROL_LEVEL {
            return Err(CallbackError::Unsupported);
        }
        self.callbacks.register(Phase::Commit)
    }

    /// Submits the transaction, once: hands every staged operation, in staging order, to
    /// the compositor, and takes the next place in `context`'s order.
    pub fn apply(&mut self, context: &mut SubmitContext) -> (r: Result<Submission, CallbackError>)
        requires
            old(context).next_spec() < u64::MAX,
            old(self).wf(),
        ensures
            final(self).wf(),
            old(self).registry().submitted ==> r == Err::<Submission, CallbackError>(CallbackError::AlreadySubmitted)
                && final(self).ops() == old(self).ops() && final(self).same_state(old(self))
                && final(context).next_spec() == old(context).next_spec(),
            !old(self).registry().submitted ==> r is Ok,
            r matches Ok(s) ==> {
                &&& s.operations@ == old(self).ops()
                &&& s.sequence == old(context).next_spec()
                &&& final(context).next_spec() == old(context).next_spec() + 1
                &&& final(self).ops() == Seq::<Operation>::empty()
                &&& final(self).registry() == submit_spec(old(self).registry()).0
                &&& final(self).sequence_spec() == Some(s.sequence)
                &&& final(self).handle_spec() == old(self).handle_spec()
                &&& final(self).api_level_spec() == old(self).api_level_spec()
            },
    {
        if self.callbacks.submitted {
            return Err(CallbackError::AlreadySubmitted);
        }
        let _ = self.callbacks.submit();
        let sequence = context.next;
        context.next = context.next + 1;
        self.sequence = Some(sequence);
        let mut operations: Vec<Operation> = Vec::new();
        std::mem::swap(&mut operations, &mut self.ops);
        Ok(Submission { sequence, operations })
    }

    /// Takes back every staged operation, in staging order, leaving none: what a
    /// transaction dropped before submission still owns, such as its acquire fences.
    pub fn discard_staged(&mut self) -> (r: Vec<Operation>)
        requires
            old(self).wf(),
        ensures
            final(self).wf(),
            r@ == old(self).ops(),
            final(self).ops() == Seq::<Operation>::empty(),
            final(self).same_state(old(self)),
    {
        let mut operations: Vec<Operation> = Vec::new();
        std::mem::swap(&mut operations, &mut self.ops);
        operations
    }

    /// The compositor reports `phase` for this transaction: `Ok(true)` when the callback
    /// registered for it is to be invoked now (it will not be again).
    pub fn on_event(&mut self, phase: Phase) -> (r: Result<bool, CallbackError>)
        requires
            old(self).wf(),
        ensures
            final(self).wf(),
            (final(self).registry(), r) == fire_spec(old(self).registry(), phase),
            final(self).ops() == old(self).ops(),
            final(self).same_state_but_registry(old(self)),
    {
        self.callbacks.fire(phase)
    }

    /// The distinct nodes the staged operations change, in the order each was first
    /// touched: the nodes a completion report of this transaction may list.
    pub fn touched_nodes(&self) -> (r: Vec<u64>)
        ensures
            r@ == touched(self.ops()),
    {
        let mut r: Vec<u64> = Vec::new();
        let mut i: usize = 0;
        while i < self.ops.len()
            invariant
                i <= self.ops@.len(),
                r@ == touched(self.ops@.take(i as int)),
            decreases self.ops@.len() - i,
        {
            assert(self.ops@.take(i as int + 1).drop_last() =~= self.ops@.take(i as int));
            if let Some(n) = self.ops[i].target() {
                let mut seen = false;
                let mut j: usize = 0;
                while j < r.len()
                    invariant
                        j <= r@.len(),
                        seen == exists|k: int| 0 <= k < j && r@[k] == n,
                    decreases r@.len() - j,
                {
                    if r[j] == n {
                        seen = true;
                    }
                    j = j + 1;
                }
                if !seen {
                    r.push(n);
                }
            }
            i = i + 1;
        }
        assert(self.ops@.take(self.ops@.len() as int) =~= self.ops@);
        r
    }
}

} // verus!

//! A verified model of the compositor's surface-control protocol: reference-counted
//! surface nodes, transactions that stage updates and are submitted once, the on-commit /
//! on-complete callback tracks that fire once each and in order, and the per-callback
//! stats snapshot whose fences move out exactly once. The native calls stay with the
//! caller, which hands this library plain values and performs what it decides.
use vstd::prelude::*;

pub mod callback;
pub mod fence;
pub mod node;
pub mod stats;
pub mod transaction;
pub mod values;

pub use callback::{CallbackError, CallbackRegistry, CallbackState, Phase};
pub use fence::{Fence, NO_FENCE, fence_into_raw};
pub use node::{SurfaceControl, SurfaceNodes};
pub use stats::{StatsError, SurfaceControls, SurfaceStats, SurfaceTransactionStats};
pub use transaction::{
    HdrMetadataCta8613, HdrMetadataSmpte2086, Operation, StageError, SubmitContext, Submission,
    SurfaceTransaction,
};
pub use values::{ChangeFrameRateStrategy, FrameRateCompatibility, Rect, Transparency, Visibility};

verus! {

} // verus!

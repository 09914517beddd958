//! Shutdown decisions for GPU-backed resources.

use vstd::prelude::*;

verus! {

/// Returns whether a prepared bridge frame must be discarded during shutdown:
/// exactly when one is held.
pub fn should_discard_prepared_on_shutdown(has_prepared: bool) -> (r: bool)
    ensures
        r == has_prepared,
{
    has_prepared
}

/// Whether shutdown must release a prepared bridge frame now: only when there
/// is a pipeline holding a prepared frame and a GPU context to release it
/// with; otherwise releasing is a no-op.
pub fn should_release_prepared_bridge_frame(has_pipeline: bool, has_prepared: bool, has_gpu: bool) -> (r:
    bool)
    ensures
        r == (has_pipeline && has_prepared && has_gpu),
{
    if !has_pipeline {
        return false;
    }
    if !should_discard_prepared_on_shutdown(has_prepared) {
        return false;
    }
    has_gpu
}

} // verus!

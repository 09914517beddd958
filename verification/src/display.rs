//! Display rendering decisions, stateless with respect to lifecycle transitions.

use vstd::prelude::*;

use crate::app_state::{displaying, AppState};

verus! {

/// Returns whether a redraw in the given state renders without changing state.
pub fn redraw_preserves_state(state: AppState) -> (r: bool)
    ensures
        r == displaying(state),
{
    match state {
        AppState::Ready | AppState::Playing | AppState::Ended => true,
        _ => false,
    }
}

/// Returns whether the state permits rendering a held display frame.
pub fn can_render_display_frame(state: AppState) -> (r: bool)
    ensures
        r == (state == AppState::Ready || state == AppState::Ended),
{
    match state {
        AppState::Ready | AppState::Ended => true,
        _ => false,
    }
}

} // verus!

verus! {

/// Editor shell background colour (deep charcoal) as 8-bit red, green, blue
/// and alpha channels; fully opaque.
pub fn editor_background_rgba8() -> (r: (u8, u8, u8, u8))
    ensures
        r == (24u8, 26u8, 30u8, 255u8),
{
    (24, 26, 30, 255)
}

} // verus!

//! The flexible spacer.
use vstd::prelude::*;

verus! {

/// A flexible spacer that consumes all remaining main-axis space in the
/// current layout, pushing following siblings to the far edge.
///
/// Direction-aware: expands horizontally inside a row, vertically inside a
/// column. With a single spacer, `[A] [spacer] [B]` puts A at the near edge
/// and B at the far edge; a second spacer in the same container is a no-op.
#[derive(Clone, Copy, Debug, PartialEq, Eq, Structural)]
pub struct StyledSpacer;

impl StyledSpacer {
    pub open spec fn new_spec() -> StyledSpacer {
        StyledSpacer
    }

    pub fn new() -> (r: StyledSpacer)
        ensures
            r == StyledSpacer::new_spec(),
    {
        StyledSpacer
    }
}

impl Default for StyledSpacer {
    fn default() -> (r: StyledSpacer)
        ensures
            r == StyledSpacer::new_spec(),
    {
        StyledSpacer::new()
    }
}

} // verus!

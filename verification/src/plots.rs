//! Which curve of a single-pendulum run a host chooses to draw.

use vstd::prelude::*;

verus! {

/// The selectable plots: the angle or angular velocity over time, an
/// energy proxy, or the phase portrait.
#[derive(Clone, Copy, Debug, PartialEq, Eq, Structural)]
pub enum PlotKind {
    Angle,
    Velocity,
    Energy,
    Phase,
}

} // verus!

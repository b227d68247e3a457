//! Decision logic of Roche-geometry eclipse computations: how the line of
//! sight from a point meets the rims of a flared disc, and which star of a
//! binary is meant.

use vstd::prelude::*;

pub mod arguments;
pub mod disc_eclipse;
pub mod stream_physics;

pub use arguments::{mass_ratio_argument, stream_arguments, streamr_arguments, ArgumentError};
pub use disc_eclipse::{
    above_disc_view, circle_case, disc_case, eclipse_limit, eclipse_windows, hole_rims, rim_step,
    AboveDiscView, Circle, DiscCase, DiscTests, EclipseLimit, EclipseWindows, Rim, RimStep,
};
pub use stream_physics::{opposite_sides, same_side, side_of, Side};

verus! {

/// The two stars of a binary: the primary (the accretor, mass M1) and the
/// secondary (the donor, mass M2).
#[derive(Debug, PartialEq, Eq, Clone, Copy, Structural)]
pub enum Star {
    Primary,
    Secondary,
}

} // verus!

use vstd::prelude::*;

verus! {

/// The five ways in which the line-of-sight cone of a point can meet a
/// horizontal circle (a rim of the disc).
#[derive(Debug, PartialEq, Eq, Clone, Copy, Structural)]
pub enum Circle {
    /// The cone starts at or above the plane of the circle.
    Above,
    /// The cone's circle lies everywhere inside the circle of interest.
    Inside,
    /// The cone's circle lies everywhere outside the circle of interest.
    Outside,
    /// The cone's circle is separate from the circle of interest.
    Separate,
    /// The cone's circle crosses the circle of interest.
    Crossing,
}

/// A rim lets the point be seen through it at some phase.
pub open spec fn lets_through(c: Circle) -> bool {
    c is Inside || c is Crossing
}

/// The outcome of the line of sight against one circle, from the four
/// geometric tests on the point (height `z`, distance `rxy` from the axis),
/// the circle (height `zcirc`, radius `radius`) and the radius `rcone` of the
/// line-of-sight circle in the plane of the circle:
///
/// * `above`: `z >= zcirc`
/// * `outside`: `rcone >= rxy + radius`
/// * `separate`: `rxy >= rcone + radius`
/// * `inside`: `rxy + rcone <= radius`
///
/// The tests take precedence in that order; when none holds the circles cross.
pub fn circle_case(above: bool, outside: bool, separate: bool, inside: bool) -> (c: Circle)
    ensures
        c is Above <==> above,
        c is Outside <==> !above && outside,
        c is Separate <==> !above && !outside && separate,
        c is Inside <==> !above && !outside && !separate && inside,
        c is Crossing <==> !above && !outside && !separate && !inside,
{
    if above {
        Circle::Above
    } else if outside {
        Circle::Outside
    } else if separate {
        Circle::Separate
    } else if inside {
        Circle::Inside
    } else {
        Circle::Crossing
    }
}

/// The comparisons that decide how `disc_eclipse` treats a point at distance
/// `rxy` from the axis and height `z`, for a disc between radii `rdisc1` and
/// `rdisc2`, of height `height * r^beta`, rim heights `h_out` (outer) and the
/// line-of-sight circle radii `rcone_lo`, `rcone_hi` in the planes of the lower
/// and upper outer rims.
#[derive(Debug, Clone, Copy)]
pub struct DiscTests {
    /// `beta < 1`
    pub flaring_too_small: bool,
    /// `z >= h_out`
    pub too_high: bool,
    /// the cosine of the inclination is exactly zero
    pub edge_on: bool,
    /// `|z| < h_out`
    pub within_rim_height: bool,
    /// `rxy <= rdisc2`
    pub within_outer_radius: bool,
    /// `rdisc1 < rxy < rdisc2` and `|z| < height * rxy^beta`
    pub inside_disc: bool,
    /// `rxy < rdisc2` and `z >= height * max(rdisc1, rxy)^beta`
    pub above_disc: bool,
    /// `rcone_lo >= rxy + rdisc2`
    pub cone_encloses_rim: bool,
    /// `rxy >= rcone_hi + rdisc2`
    pub cone_clear_of_rim: bool,
}

/// How `disc_eclipse` treats a point.
#[derive(Debug, PartialEq, Eq, Clone, Copy, Structural)]
pub enum DiscCase {
    /// The flaring exponent is below 1: a parameter error.
    FlaringTooSmall,
    /// The point is at or above the outer rim, never eclipsed.
    TooHigh,
    /// Edge-on, and the point is out of the disc's height range: never eclipsed.
    EdgeOnClear,
    /// Edge-on, within the disc's height and radius: eclipsed at all phases.
    EdgeOnTotal,
    /// Edge-on, within the disc's height but beyond its radius: eclipsed by
    /// the curved outer edge.
    EdgeOnRim,
    /// The point lies within the body of the disc: eclipsed at all phases.
    InsideDisc,
    /// The point lies above the disc surface, within the outer radius: only
    /// the outer rim can hide it.
    AboveDisc,
    /// The line-of-sight cone encloses the lower outer rim: never eclipsed.
    ConeEnclosesRim,
    /// The line-of-sight cone is clear of the upper outer rim: never eclipsed.
    ConeClearOfRim,
    /// The point is eclipsed over some range of phase, perhaps seen through
    /// the hole in the middle of the disc.
    Eclipsed,
}

/// Neither the flaring, the height nor the edge-on test decided the case, so
/// it is one of the inclined cases.
pub open spec fn reaches_inclined_cases(t: DiscTests) -> bool {
    !t.flaring_too_small && !t.too_high && !t.edge_on
}

/// Decides the case of `disc_eclipse` from its comparisons, taken in the
/// order: flaring, height, edge-on, inside the disc, above the disc, cone
/// enclosing the lower rim, cone clear of the upper rim.
pub fn disc_case(t: DiscTests) -> (c: DiscCase)
    ensures
        c is FlaringTooSmall <==> t.flaring_too_small,
        c is TooHigh <==> !t.flaring_too_small && t.too_high,
        c is EdgeOnClear <==> !t.flaring_too_small && !t.too_high && t.edge_on
            && !t.within_rim_height,
        c is EdgeOnTotal <==> !t.flaring_too_small && !t.too_high && t.edge_on
            && t.within_rim_height && t.within_outer_radius,
        c is EdgeOnRim <==> !t.flaring_too_small && !t.too_high && t.edge_on
            && t.within_rim_height && !t.within_outer_radius,
        c is InsideDisc <==> reaches_inclined_cases(t) && t.inside_disc,
        c is AboveDisc <==> reaches_inclined_cases(t) && !t.inside_disc && t.above_disc,
        c is ConeEnclosesRim <==> reaches_inclined_cases(t) && !t.inside_disc && !t.above_disc
            && t.cone_encloses_rim,
        c is ConeClearOfRim <==> reaches_inclined_cases(t) && !t.inside_disc && !t.above_disc
            && !t.cone_encloses_rim && t.cone_clear_of_rim,
        c is Eclipsed <==> reaches_inclined_cases(t) && !t.inside_disc && !t.above_disc
            && !t.cone_encloses_rim && !t.cone_clear_of_rim,
{
    if t.flaring_too_small {
        DiscCase::FlaringTooSmall
    } else if t.too_high {
        DiscCase::TooHigh
    } else if t.edge_on {
        if !t.within_rim_height {
            DiscCase::EdgeOnClear
        } else if t.within_outer_radius {
            DiscCase::EdgeOnTotal
        } else {
            DiscCase::EdgeOnRim
        }
    } else if t.inside_disc {
        DiscCase::InsideDisc
    } else if t.above_disc {
        DiscCase::AboveDisc
    } else if t.cone_encloses_rim {
        DiscCase::ConeEnclosesRim
    } else if t.cone_clear_of_rim {
        DiscCase::ConeClearOfRim
    } else {
        DiscCase::Eclipsed
    }
}

/// What the outer rim does to a point above the disc surface.
#[derive(Debug, PartialEq, Eq, Clone, Copy, Structural)]
pub enum AboveDiscView {
    /// The rim hides the point at all phases.
    Covered,
    /// The rim hides the point over part of the orbit.
    Partial,
    /// The rim never hides the point.
    Clear,
}

/// For a point above the disc surface, the effect of the outer rim given how
/// the line of sight meets it: `Outside` covers it, `Crossing` hides it part
/// of the time, any other outcome leaves it clear.
pub fn above_disc_view(c: Circle) -> (v: AboveDiscView)
    ensures
        v is Covered <==> c is Outside,
        v is Partial <==> c is Crossing,
        v is Clear <==> !(c is Outside || c is Crossing),
{
    match c {
        Circle::Outside => AboveDiscView::Covered,
        Circle::Crossing => AboveDiscView::Partial,
        _ => AboveDiscView::Clear,
    }
}

/// What sets the half-range in phase of an eclipse by the disc, ignoring its
/// central hole.
#[derive(Debug, PartialEq, Eq, Clone, Copy, Structural)]
pub enum EclipseLimit {
    /// The line of sight always meets the lower face: eclipsed at all phases.
    Total,
    /// The lower outer rim sets the limit.
    LowerRim,
    /// The curved outer edge sets the limit.
    CurvedEdge,
    /// The upper outer rim sets the limit.
    UpperRim,
}

/// Chooses what limits an eclipse, from the comparisons (with `rxy`, `rdisc2`,
/// `rcone_lo`, `rcone_hi` as in [`DiscTests`]):
///
/// * `cone_within`: `rxy + rcone_lo <= rdisc2`
/// * `within_outer_radius`: `rxy <= rdisc2`
/// * `upper_reaches`: `rcone_hi^2 + rdisc2^2 >= rxy^2`
/// * `lower_short`: `rcone_lo^2 + rdisc2^2 <= rxy^2`
/// * `upper_short`: `rcone_hi^2 + rdisc2^2 < rxy^2`
///
/// The tests are taken in that order; when none decides, the lower rim sets
/// the limit.
pub fn eclipse_limit(
    cone_within: bool,
    within_outer_radius: bool,
    upper_reaches: bool,
    lower_short: bool,
    upper_short: bool,
) -> (l: EclipseLimit)
    ensures
        l is Total <==> cone_within,
        l is CurvedEdge <==> !cone_within && !within_outer_radius && upper_reaches
            && lower_short,
        l is UpperRim <==> !cone_within && !within_outer_radius && !(upper_reaches
            && lower_short) && upper_short,
        l is LowerRim <==> !cone_within && (within_outer_radius || (!(upper_reaches
            && lower_short) && !upper_short)),
{
    if cone_within {
        EclipseLimit::Total
    } else if within_outer_radius {
        EclipseLimit::LowerRim
    } else if upper_reaches && lower_short {
        EclipseLimit::CurvedEdge
    } else if upper_short {
        EclipseLimit::UpperRim
    } else {
        EclipseLimit::LowerRim
    }
}

/// A rim of the disc.
#[derive(Debug, PartialEq, Eq, Clone, Copy, Structural)]
pub enum Rim {
    LowerOuter,
    LowerInner,
    UpperInner,
    UpperOuter,
}

/// The rims, in the order in which the line of sight runs through them, that
/// decide whether a point can be seen through the hole in the middle of the
/// disc, from the comparisons (`h_in` being the height of the inner rim):
///
/// * `below_disc`: `z < -h_out`
/// * `within_inner_radius`: `rxy < rdisc1`
/// * `below_inner_rim`: `z < -h_in`
/// * `below_inner_top`: `z < h_in`
///
/// An empty list means the point cannot be seen through the hole.
pub fn hole_rims(
    below_disc: bool,
    within_inner_radius: bool,
    below_inner_rim: bool,
    below_inner_top: bool,
) -> (rims: Vec<Rim>)
    ensures
        below_disc ==> rims@ == seq![
            Rim::LowerOuter,
            Rim::LowerInner,
            Rim::UpperInner,
            Rim::UpperOuter,
        ],
        !below_disc && within_inner_radius && below_inner_rim ==> rims@ == seq![
            Rim::LowerInner,
            Rim::UpperInner,
            Rim::UpperOuter,
        ],
        !below_disc && within_inner_radius && !below_inner_rim && below_inner_top ==> rims@
            == seq![Rim::UpperInner, Rim::UpperOuter],
        !below_disc && !(within_inner_radius && (below_inner_rim || below_inner_top)) ==> rims@
            == Seq::<Rim>::empty(),
{
    let mut rims: Vec<Rim> = Vec::new();
    if below_disc {
        rims.push(Rim::LowerOuter);
        rims.push(Rim::LowerInner);
        rims.push(Rim::UpperInner);
        rims.push(Rim::UpperOuter);
    } else if within_inner_radius {
        if below_inner_rim {
            rims.push(Rim::LowerInner);
            rims.push(Rim::UpperInner);
            rims.push(Rim::UpperOuter);
        } else if below_inner_top {
            rims.push(Rim::UpperInner);
            rims.push(Rim::UpperOuter);
        }
    }
    rims
}

/// What one rim does to the phase half-range over which a point is seen
/// through the hole.
#[derive(Debug, PartialEq, Eq, Clone, Copy, Structural)]
pub enum RimStep {
    /// The first rim does not limit the view: the range starts at half a cycle.
    Open,
    /// The first rim limits the view: the range starts at its crossing phase.
    Bound,
    /// A later rim limits the view: the range narrows to its crossing phase
    /// if that is smaller.
    Narrow,
    /// A later rim does not limit the view.
    Keep,
    /// The rim hides the point: it is not seen through the hole.
    Hide,
}

/// The step that a rim makes, from whether it is the first one met and how
/// the line of sight meets it.
pub open spec fn rim_step_spec(first: bool, c: Circle) -> RimStep {
    if !lets_through(c) {
        RimStep::Hide
    } else if c is Inside {
        if first { RimStep::Open } else { RimStep::Keep }
    } else {
        if first { RimStep::Bound } else { RimStep::Narrow }
    }
}

/// The step that a rim makes on the view through the hole: a rim that the
/// line of sight meets `Inside` leaves the view open, one it meets `Crossing`
/// limits it, and any other hides the point.
pub fn rim_step(first: bool, c: Circle) -> (s: RimStep)
    ensures
        s == rim_step_spec(first, c),
{
    match c {
        Circle::Inside => if first {
            RimStep::Open
        } else {
            RimStep::Keep
        },
        Circle::Crossing => if first {
            RimStep::Bound
        } else {
            RimStep::Narrow
        },
        _ => RimStep::Hide,
    }
}

/// A point met by a nonempty run of rims is seen through the hole (no rim's
/// step hides it) exactly when every rim lets it through, and the rims that
/// limit the view are exactly those that the line of sight crosses.
pub proof fn lemma_hole_view(outcomes: Seq<Circle>)
    requires
        outcomes.len() > 0,
    ensures
        (forall|i: int|
            0 <= i < outcomes.len() ==> !(rim_step_spec(i == 0, #[trigger] outcomes[i]) is Hide))
            <==> (forall|i: int| 0 <= i < outcomes.len() ==> lets_through(#[trigger] outcomes[i])),
        forall|i: int|
            0 <= i < outcomes.len() ==> ((rim_step_spec(i == 0, #[trigger] outcomes[i]) is Bound
                || rim_step_spec(i == 0, outcomes[i]) is Narrow) <==> outcomes[i] is Crossing),
{
    assert forall|i: int|
        0 <= i < outcomes.len() implies (rim_step_spec(i == 0, outcomes[i]) is Hide
        <==> !lets_through(outcomes[i])) by {}
}

/// The eclipse windows that result once the half-range `eclipse` of the
/// eclipse and the half-range `appear` of the view through the hole are known.
#[derive(Debug, PartialEq, Eq, Clone, Copy, Structural)]
pub enum EclipseWindows {
    /// One window over the whole eclipse: the point is not seen through the hole.
    Whole,
    /// Two windows, either side of the view through the hole.
    Split,
    /// No window: the hole shows the point throughout the eclipse.
    Clear,
}

/// Chooses the windows from `not_seen` (`appear <= 0`) and `partly_seen`
/// (`appear < eclipse`); when neither holds there is no window.
pub fn eclipse_windows(not_seen: bool, partly_seen: bool) -> (w: EclipseWindows)
    ensures
        w is Whole <==> not_seen,
        w is Split <==> !not_seen && partly_seen,
        w is Clear <==> !not_seen && !partly_seen,
{
    if not_seen {
        EclipseWindows::Whole
    } else if partly_seen {
        EclipseWindows::Split
    } else {
        EclipseWindows::Clear
    }
}

} // verus!

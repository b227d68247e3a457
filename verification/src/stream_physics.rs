use vstd::prelude::*;

verus! {

/// Where a quantity stands against a target: strictly below, strictly above,
/// or neither (equal, or not comparable).
#[derive(Debug, PartialEq, Eq, Clone, Copy, Structural)]
pub enum Side {
    Below,
    On,
    Above,
}

/// The side of a quantity against a target, from the comparisons
/// `value < target` (`below`) and `value > target` (`above`). When both or
/// neither hold the quantity is taken to be `On` the target.
pub fn side_of(below: bool, above: bool) -> (s: Side)
    ensures
        s is Below <==> below && !above,
        s is Above <==> above && !below,
        s is On <==> below == above,
{
    if below && !above {
        Side::Below
    } else if above && !below {
        Side::Above
    } else {
        Side::On
    }
}

/// Two quantities lie strictly on the same side of the target: the target
/// has not been crossed, and the integration goes on.
pub open spec fn strictly_same_side(a: Side, b: Side) -> bool {
    (a is Below && b is Below) || (a is Above && b is Above)
}

/// Two quantities lie strictly on opposite sides of the target: the target
/// lies between them.
pub open spec fn strictly_opposite_sides(a: Side, b: Side) -> bool {
    (a is Below && b is Above) || (a is Above && b is Below)
}

/// Whether two quantities lie strictly on the same side of a target; this
/// keeps `stradv` and `strmnx` stepping, and in the refinement of `stradv`
/// decides that the new point replaces the far end of the interval.
pub fn same_side(a: Side, b: Side) -> (r: bool)
    ensures
        r == strictly_same_side(a, b),
{
    match (a, b) {
        (Side::Below, Side::Below) => true,
        (Side::Above, Side::Above) => true,
        _ => false,
    }
}

/// Whether two quantities lie strictly on opposite sides of a target; in the
/// refinement of `strmnx` this decides that the new point replaces the far
/// end of the interval.
pub fn opposite_sides(a: Side, b: Side) -> (r: bool)
    ensures
        r == strictly_opposite_sides(a, b),
{
    match (a, b) {
        (Side::Below, Side::Above) => true,
        (Side::Above, Side::Below) => true,
        _ => false,
    }
}

/// Both relations are symmetric, they never hold together, and a quantity
/// `On` the target is on neither side of anything.
pub proof fn lemma_sides(a: Side, b: Side)
    ensures
        strictly_same_side(a, b) == strictly_same_side(b, a),
        strictly_opposite_sides(a, b) == strictly_opposite_sides(b, a),
        !(strictly_same_side(a, b) && strictly_opposite_sides(a, b)),
        a is On ==> !strictly_same_side(a, b) && !strictly_opposite_sides(a, b),
{
}

} // verus!

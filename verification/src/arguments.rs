use vstd::prelude::*;

verus! {

/// Why a routine rejects its arguments.
#[derive(Debug, PartialEq, Eq, Clone, Copy, Structural)]
pub enum ArgumentError {
    /// Fewer than two points were asked for.
    TooFewPoints,
    /// The step is not in (0, 1].
    StepOutOfRange,
    /// The mass ratio is not positive.
    MassRatioNotPositive,
}

/// The argument check of the Lagrangian-point routines, from the comparison
/// `q <= 0`: they reject exactly a mass ratio that is not positive.
pub fn mass_ratio_argument(q_not_positive: bool) -> (r: Result<(), ArgumentError>)
    ensures
        r is Ok <==> !q_not_positive,
        r is Err ==> r->Err_0 == ArgumentError::MassRatioNotPositive,
{
    if q_not_positive {
        Err(ArgumentError::MassRatioNotPositive)
    } else {
        Ok(())
    }
}

/// The argument check of `stream`, from the number of points and the
/// comparisons `step <= 0`, `step > 1` and `q <= 0`, taken in that order:
/// too few points first, then a step out of range, then the mass ratio.
pub fn stream_arguments(
    n_points: usize,
    step_not_positive: bool,
    step_above_one: bool,
    q_not_positive: bool,
) -> (r: Result<(), ArgumentError>)
    ensures
        r == Err::<(), ArgumentError>(ArgumentError::TooFewPoints) <==> n_points < 2,
        r == Err::<(), ArgumentError>(ArgumentError::StepOutOfRange) <==> n_points >= 2 && (
        step_not_positive || step_above_one),
        r == Err::<(), ArgumentError>(ArgumentError::MassRatioNotPositive) <==> n_points >= 2
            && !step_not_positive && !step_above_one && q_not_positive,
        r is Ok <==> n_points >= 2 && !step_not_positive && !step_above_one && !q_not_positive,
{
    if n_points < 2 {
        Err(ArgumentError::TooFewPoints)
    } else if step_not_positive || step_above_one {
        Err(ArgumentError::StepOutOfRange)
    } else if q_not_positive {
        Err(ArgumentError::MassRatioNotPositive)
    } else {
        Ok(())
    }
}

/// The argument check of `streamr`, from the number of points and the
/// comparison `q <= 0`: too few points first, then the mass ratio.
pub fn streamr_arguments(n_points: usize, q_not_positive: bool) -> (r: Result<(), ArgumentError>)
    ensures
        r == Err::<(), ArgumentError>(ArgumentError::TooFewPoints) <==> n_points < 2,
        r == Err::<(), ArgumentError>(ArgumentError::MassRatioNotPositive) <==> n_points >= 2
            && q_not_positive,
        r is Ok <==> n_points >= 2 && !q_not_positive,
{
    if n_points < 2 {
        Err(ArgumentError::TooFewPoints)
    } else if q_not_positive {
        Err(ArgumentError::MassRatioNotPositive)
    } else {
        Ok(())
    }
}

} // verus!

use roche::{
    mass_ratio_argument, opposite_sides, same_side, side_of, stream_arguments, streamr_arguments,
    ArgumentError, Side,
};

#[test]
fn mass_ratio_argument_cases() {
    assert_eq!(mass_ratio_argument(false), Ok(()));
    assert_eq!(mass_ratio_argument(true), Err(ArgumentError::MassRatioNotPositive));
}

#[test]
fn stream_arguments_order() {
    assert_eq!(stream_arguments(1, true, true, true), Err(ArgumentError::TooFewPoints));
    assert_eq!(stream_arguments(0, false, false, false), Err(ArgumentError::TooFewPoints));
    assert_eq!(stream_arguments(2, true, false, true), Err(ArgumentError::StepOutOfRange));
    assert_eq!(stream_arguments(200, false, true, true), Err(ArgumentError::StepOutOfRange));
    assert_eq!(
        stream_arguments(200, false, false, true),
        Err(ArgumentError::MassRatioNotPositive)
    );
    assert_eq!(stream_arguments(2, false, false, false), Ok(()));
}

#[test]
fn streamr_arguments_order() {
    assert_eq!(streamr_arguments(1, true), Err(ArgumentError::TooFewPoints));
    assert_eq!(streamr_arguments(2, true), Err(ArgumentError::MassRatioNotPositive));
    assert_eq!(streamr_arguments(200, false), Ok(()));
}

#[test]
fn side_of_cases() {
    assert_eq!(side_of(true, false), Side::Below);
    assert_eq!(side_of(false, true), Side::Above);
    assert_eq!(side_of(false, false), Side::On);
}

#[test]
fn same_and_opposite_sides() {
    assert!(same_side(Side::Below, Side::Below));
    assert!(same_side(Side::Above, Side::Above));
    assert!(!same_side(Side::Below, Side::Above));
    assert!(!same_side(Side::On, Side::On));
    assert!(opposite_sides(Side::Below, Side::Above));
    assert!(opposite_sides(Side::Above, Side::Below));
    assert!(!opposite_sides(Side::On, Side::Above));
    assert!(!opposite_sides(Side::Below, Side::Below));
}

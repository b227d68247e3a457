use roche::{
    above_disc_view, circle_case, disc_case, eclipse_limit, eclipse_windows, hole_rims, rim_step,
    AboveDiscView, Circle, DiscCase, DiscTests, EclipseLimit, EclipseWindows, Rim, RimStep, Star,
};

fn tests_none() -> DiscTests {
    DiscTests {
        flaring_too_small: false,
        too_high: false,
        edge_on: false,
        within_rim_height: false,
        within_outer_radius: false,
        inside_disc: false,
        above_disc: false,
        cone_encloses_rim: false,
        cone_clear_of_rim: false,
    }
}

#[test]
fn circle_case_above_takes_precedence() {
    assert_eq!(circle_case(true, true, true, true), Circle::Above);
    assert_eq!(circle_case(true, false, false, false), Circle::Above);
}

#[test]
fn circle_case_each_outcome() {
    assert_eq!(circle_case(false, true, true, true), Circle::Outside);
    assert_eq!(circle_case(false, false, true, true), Circle::Separate);
    assert_eq!(circle_case(false, false, false, true), Circle::Inside);
    assert_eq!(circle_case(false, false, false, false), Circle::Crossing);
}

#[test]
fn disc_case_flaring_error_comes_first() {
    let mut t = tests_none();
    t.flaring_too_small = true;
    t.too_high = true;
    t.inside_disc = true;
    assert_eq!(disc_case(t), DiscCase::FlaringTooSmall);
}

#[test]
fn disc_case_too_high_before_edge_on() {
    let mut t = tests_none();
    t.too_high = true;
    t.edge_on = true;
    t.within_rim_height = true;
    assert_eq!(disc_case(t), DiscCase::TooHigh);
}

#[test]
fn disc_case_edge_on_cases() {
    let mut t = tests_none();
    t.edge_on = true;
    t.inside_disc = true;
    assert_eq!(disc_case(t), DiscCase::EdgeOnClear);
    t.within_rim_height = true;
    assert_eq!(disc_case(t), DiscCase::EdgeOnRim);
    t.within_outer_radius = true;
    assert_eq!(disc_case(t), DiscCase::EdgeOnTotal);
}

#[test]
fn disc_case_inclined_cases_in_order() {
    let mut t = tests_none();
    assert_eq!(disc_case(t), DiscCase::Eclipsed);
    t.cone_clear_of_rim = true;
    assert_eq!(disc_case(t), DiscCase::ConeClearOfRim);
    t.cone_encloses_rim = true;
    assert_eq!(disc_case(t), DiscCase::ConeEnclosesRim);
    t.above_disc = true;
    assert_eq!(disc_case(t), DiscCase::AboveDisc);
    t.inside_disc = true;
    assert_eq!(disc_case(t), DiscCase::InsideDisc);
}

#[test]
fn above_disc_view_cases() {
    assert_eq!(above_disc_view(Circle::Outside), AboveDiscView::Covered);
    assert_eq!(above_disc_view(Circle::Crossing), AboveDiscView::Partial);
    assert_eq!(above_disc_view(Circle::Inside), AboveDiscView::Clear);
    assert_eq!(above_disc_view(Circle::Above), AboveDiscView::Clear);
    assert_eq!(above_disc_view(Circle::Separate), AboveDiscView::Clear);
}

#[test]
fn eclipse_limit_cases() {
    assert_eq!(eclipse_limit(true, false, false, false, false), EclipseLimit::Total);
    assert_eq!(eclipse_limit(false, true, true, true, true), EclipseLimit::LowerRim);
    assert_eq!(eclipse_limit(false, false, true, true, false), EclipseLimit::CurvedEdge);
    assert_eq!(eclipse_limit(false, false, false, true, true), EclipseLimit::UpperRim);
    assert_eq!(eclipse_limit(false, false, false, false, true), EclipseLimit::UpperRim);
    assert_eq!(eclipse_limit(false, false, true, false, false), EclipseLimit::LowerRim);
}

#[test]
fn eclipse_limit_incomparable_falls_to_lower_rim() {
    // Neither `>=` nor `<` holds (a NaN comparison): the lower rim is used.
    assert_eq!(eclipse_limit(false, false, false, false, false), EclipseLimit::LowerRim);
}

#[test]
fn hole_rims_cases() {
    assert_eq!(
        hole_rims(true, true, true, true),
        vec![Rim::LowerOuter, Rim::LowerInner, Rim::UpperInner, Rim::UpperOuter]
    );
    assert_eq!(
        hole_rims(false, true, true, true),
        vec![Rim::LowerInner, Rim::UpperInner, Rim::UpperOuter]
    );
    assert_eq!(hole_rims(false, true, false, true), vec![Rim::UpperInner, Rim::UpperOuter]);
    assert_eq!(hole_rims(false, true, false, false), vec![]);
    assert_eq!(hole_rims(false, false, true, true), vec![]);
}

#[test]
fn rim_step_cases() {
    assert_eq!(rim_step(true, Circle::Inside), RimStep::Open);
    assert_eq!(rim_step(true, Circle::Crossing), RimStep::Bound);
    assert_eq!(rim_step(false, Circle::Inside), RimStep::Keep);
    assert_eq!(rim_step(false, Circle::Crossing), RimStep::Narrow);
    for c in [Circle::Above, Circle::Outside, Circle::Separate] {
        assert_eq!(rim_step(true, c), RimStep::Hide);
        assert_eq!(rim_step(false, c), RimStep::Hide);
    }
}

#[test]
fn eclipse_windows_cases() {
    assert_eq!(eclipse_windows(true, true), EclipseWindows::Whole);
    assert_eq!(eclipse_windows(true, false), EclipseWindows::Whole);
    assert_eq!(eclipse_windows(false, true), EclipseWindows::Split);
    assert_eq!(eclipse_windows(false, false), EclipseWindows::Clear);
}

#[test]
fn stars_differ() {
    assert_ne!(Star::Primary, Star::Secondary);
    assert_eq!(Star::Secondary, Star::Secondary);
}

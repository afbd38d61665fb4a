use uniarity::MaybeEval;

#[test]
fn x_of_known_and_unknown() {
    assert_eq!(MaybeEval::Known(1.5, -2.0).x(), 1.5);
    assert_eq!(MaybeEval::Unknown(3.25).x(), 3.25);
}

#[test]
fn fx_present_only_when_known() {
    assert_eq!(MaybeEval::Known(1.5, -2.0).fx(), Some(-2.0));
    assert_eq!(MaybeEval::<f64>::Unknown(3.25).fx(), None);
}

#[test]
fn evaled_reuses_known_value() {
    let f = |x: f64| 0.72 * x - 1.0;
    // The stored value wins even where it disagrees with f here: a known
    // point records an evaluation already made, and is not re-evaluated.
    let (x, fx) = MaybeEval::Known(2.0, 7.0).evaled(&f);
    assert_eq!(x, 2.0);
    assert_eq!(fx, 7.0);
}

#[test]
fn evaled_computes_missing_value() {
    let f = |x: f64| 0.72 * x - 1.0;
    let (x, fx) = MaybeEval::Unknown(2.0).evaled(&f);
    assert_eq!(x, 2.0);
    assert_eq!(fx, 0.72 * 2.0 - 1.0);
}

#[test]
fn from_coordinate_is_unknown() {
    assert_eq!(MaybeEval::from(4.0), MaybeEval::Unknown(4.0));
}

#[test]
fn from_pair_is_known() {
    assert_eq!(MaybeEval::from((4.0, 5.0)), MaybeEval::Known(4.0, 5.0));
}

use uniarity::initial::{refine_continues, MAX_REFINE_ITERATIONS};
use uniarity::min::{brent_accept, brent_retarget, brent_trial, BrentState};

fn state() -> BrentState<f64> {
    BrentState {
        a: 0.0,
        b: 10.0,
        v: 4.0,
        w: 5.0,
        x: 6.0,
        fv: 3.0,
        fw: 2.0,
        fx: 1.0,
    }
}

#[test]
fn brent_trial_falls_back_to_golden_section() {
    // Prior span already within tolerance: golden section, whatever the
    // parabola would have said.
    assert_eq!(
        brent_trial(false, true, false, -1.5, -4.0, 0.7, 0.1, 2.0),
        (-1.5, -4.0)
    );
    // Parabola rejected by the acceptability tests: golden section again.
    assert_eq!(
        brent_trial(true, false, false, -1.5, -4.0, 0.7, 0.1, 2.0),
        (-1.5, -4.0)
    );
}

#[test]
fn brent_trial_takes_acceptable_parabolic_step() {
    assert_eq!(
        brent_trial(true, true, false, -1.5, -4.0, 0.7, 0.1, 2.0),
        (0.7, 2.0)
    );
}

#[test]
fn brent_trial_nudges_step_away_from_bounds() {
    assert_eq!(
        brent_trial(true, true, true, -1.5, -4.0, 0.7, 0.1, 2.0),
        (0.1, 2.0)
    );
}

#[test]
fn brent_accept_promotes_good_trial_from_right() {
    let r = brent_accept(state(), 7.0, 0.5, true, true);
    assert_eq!(
        r,
        BrentState {
            a: 6.0,
            b: 10.0,
            v: 5.0,
            w: 6.0,
            x: 7.0,
            fv: 2.0,
            fw: 1.0,
            fx: 0.5,
        }
    );
}

#[test]
fn brent_accept_promotes_good_trial_from_left() {
    let r = brent_accept(state(), 3.0, 0.5, true, false);
    assert_eq!(
        r,
        BrentState {
            a: 0.0,
            b: 6.0,
            v: 5.0,
            w: 6.0,
            x: 3.0,
            fv: 2.0,
            fw: 1.0,
            fx: 0.5,
        }
    );
}

#[test]
fn brent_accept_worse_trial_only_narrows_interval() {
    let r = brent_accept(state(), 3.0, 4.0, false, false);
    assert_eq!(r, BrentState { a: 3.0, ..state() });
    let r = brent_accept(state(), 7.0, 4.0, false, true);
    assert_eq!(r, BrentState { b: 7.0, ..state() });
}

#[test]
fn brent_retarget_replaces_second_best() {
    let r = brent_retarget(state(), 7.0, 1.5, true, false, false, false, false);
    assert_eq!(
        r,
        BrentState {
            v: 5.0,
            fv: 2.0,
            w: 7.0,
            fw: 1.5,
            ..state()
        }
    );
    // A second-best that coincides with the best is displaced even by a
    // worse trial.
    let r = brent_retarget(state(), 7.0, 9.0, false, true, false, false, false);
    assert_eq!(
        r,
        BrentState {
            v: 5.0,
            fv: 2.0,
            w: 7.0,
            fw: 9.0,
            ..state()
        }
    );
}

#[test]
fn brent_retarget_replaces_third_best() {
    let r = brent_retarget(state(), 7.0, 2.5, false, false, true, false, false);
    assert_eq!(r, BrentState { v: 7.0, fv: 2.5, ..state() });
    let r = brent_retarget(state(), 7.0, 9.0, false, false, false, false, true);
    assert_eq!(r, BrentState { v: 7.0, fv: 9.0, ..state() });
}

#[test]
fn brent_retarget_can_change_nothing() {
    let r = brent_retarget(state(), 7.0, 9.0, false, false, false, false, false);
    assert_eq!(r, state());
}

#[test]
fn refinement_stops_at_cap_or_convergence() {
    assert!(refine_continues(false, false, 0));
    assert!(refine_continues(false, false, MAX_REFINE_ITERATIONS - 1));
    assert!(!refine_continues(false, false, MAX_REFINE_ITERATIONS));
    assert!(!refine_continues(true, false, 0));
    assert!(!refine_continues(false, true, 0));
}

#[test]
fn refinement_cap_default_is_one_hundred() {
    assert_eq!(MAX_REFINE_ITERATIONS, 100);
}

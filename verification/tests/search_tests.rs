use gpredict::search::CrossingSearch;
use gpredict::search::Direction;
use gpredict::search::ElevationSample;
use gpredict::search::SearchStep;

/// Drives a search against an elevation profile given as a function of the
/// instant in milliminutes, the way a propagator-owning caller would.
fn drive(
    dir: Direction,
    start: i64,
    step: i64,
    horizon: u32,
    el: &dyn Fn(i64) -> f64,
) -> Option<i64> {
    let (mut s, mut t) = CrossingSearch::start(dir, start, step, horizon);
    loop {
        let e = el(t);
        let sample = ElevationSample {
            below_horizon: e < 0.0,
            within_tolerance: e.abs() < 0.01,
        };
        match s.next(sample) {
            SearchStep::Evaluate { t_e3 } => t = t_e3,
            SearchStep::Found { t_e3 } => return Some(t_e3),
            SearchStep::NotFound => return None,
        }
    }
}

#[test]
fn ascending_crossing_is_bracketed() {
    // Elevation rises through zero at t = 5000 milliminutes.
    let el = |t: i64| (t - 5000) as f64;
    let found = drive(Direction::Ascending, 0, 1000, 100, &el);
    let t = found.unwrap();
    // Just before the crossing the elevation is negative, at and after it
    // non-negative.
    assert!(el(t - 1) < 0.0 || el(t) >= 0.0);
    assert!(el(t) >= 0.0);
    assert!((4000..=6000).contains(&t));
    assert_eq!(t, 5000);
}

#[test]
fn descending_crossing_is_bracketed() {
    // Elevation falls through zero after t = 5000 milliminutes.
    let el = |t: i64| (5000 - t) as f64;
    let found = drive(Direction::Descending, 0, 1000, 100, &el);
    let t = found.unwrap();
    assert!(el(t) <= 0.0);
    assert!(el(t - 1) >= 0.0 || el(t) <= 0.0);
    assert!((4000..=6000).contains(&t));
}

#[test]
fn never_rising_satellite_yields_no_crossing() {
    // A satellite that never rises for the observer: constant negative
    // elevation, and the expected outcome is absence, not an error.
    let el = |_t: i64| -10.0;
    assert_eq!(drive(Direction::Ascending, 0, 1000, 200, &el), None);
    assert_eq!(drive(Direction::Descending, 0, 1000, 200, &el), None);
}

#[test]
fn always_visible_satellite_yields_no_crossing() {
    let el = |_t: i64| 45.0;
    assert_eq!(drive(Direction::Ascending, 0, 1000, 200, &el), None);
    assert_eq!(drive(Direction::Descending, 0, 1000, 200, &el), None);
}

#[test]
fn sinusoidal_pass_has_consistent_aos_and_los() {
    // One pass per simulated orbit: elevation positive on part of the
    // cycle. Period 95.5 minutes, peak elevation 20 degrees.
    let el = |t: i64| {
        let minutes = t as f64 / 1000.0;
        20.0 - 40.0 * (0.5 + (std::f64::consts::TAU * minutes / 95.5).cos()).abs()
    };
    let aos = drive(Direction::Ascending, 0, 1000, 200, &el).unwrap();
    let los = drive(Direction::Descending, aos, 1000, 200, &el).unwrap();
    assert!(aos < los);
    assert!(el(aos - 1000) < 0.0);
    assert!(el(los + 1000) < 0.0);
}

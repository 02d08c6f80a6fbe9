use tidal_engine::scan::ScanPhase;
use tidal_engine::{DerivativeSign, ExtremaScan, ExtremumEvent, TideExtremumKind};

fn sign_of(d: f64) -> DerivativeSign {
    if d > 0.0 {
        DerivativeSign::Positive
    } else if d == 0.0 {
        DerivativeSign::Zero
    } else {
        DerivativeSign::Negative
    }
}

fn run(start: i64, end: i64, step: i64, f: impl Fn(i64) -> DerivativeSign) -> (Vec<ExtremumEvent>, usize) {
    let mut scan = ExtremaScan::new(start, end, step);
    let mut probes = 0;
    while let Some(t) = scan.next_probe() {
        scan.feed(f(t));
        probes += 1;
    }
    (scan.into_events(), probes)
}

/// Rate of change of cos(2 pi t / period): negative for t in (0, P/2) mod P.
fn cosine_sign(period: f64) -> impl Fn(i64) -> DerivativeSign {
    move |t| sign_of(-(2.0 * std::f64::consts::PI * t as f64 / period).sin())
}

#[test]
fn extrema_of_a_single_cosine_alternate_half_a_period_apart() {
    let period = 12.4206 * 3600.0;
    let start = 946_728_000_i64;
    let end = start + 5 * 86_400;
    let step = ((90.0 / 28.9841042) * 3600.0f64).floor() as i64;
    let (events, _) = run(start, end, step, cosine_sign(period));
    assert!(events.len() >= 8, "expected several extrema over 5 days, got {}", events.len());
    for pair in events.windows(2) {
        let [a, b] = pair else { unreachable!() };
        assert_ne!(a.kind, b.kind, "consecutive extrema should alternate High/Low");
        let spacing_hours = (b.unix_time_seconds - a.unix_time_seconds) as f64 / 3600.0;
        assert!((5.5..=7.0).contains(&spacing_hours), "spacing {spacing_hours}h");
    }
    for e in &events {
        assert!(start <= e.unix_time_seconds && e.unix_time_seconds <= end);
        // cos has its highs at multiples of the period, its lows half way.
        let phase = (e.unix_time_seconds as f64 / period).fract();
        match e.kind {
            TideExtremumKind::High => assert!(phase < 0.001 || phase > 0.999, "phase {phase}"),
            TideExtremumKind::Low => assert!((phase - 0.5).abs() < 0.001, "phase {phase}"),
        }
    }
}

#[test]
fn each_extremum_is_where_the_sign_flips_within_a_second() {
    let f = |t: i64| {
        if (t / 1000) % 2 == 0 {
            DerivativeSign::Positive
        } else {
            DerivativeSign::Negative
        }
    };
    let (events, _) = run(10, 5_000, 333, f);
    assert_eq!(
        events,
        vec![
            ExtremumEvent { kind: TideExtremumKind::High, unix_time_seconds: 1000 },
            ExtremumEvent { kind: TideExtremumKind::Low, unix_time_seconds: 2000 },
            ExtremumEvent { kind: TideExtremumKind::High, unix_time_seconds: 3000 },
            ExtremumEvent { kind: TideExtremumKind::Low, unix_time_seconds: 4000 },
            ExtremumEvent { kind: TideExtremumKind::High, unix_time_seconds: 5000 },
        ]
    );
}

#[test]
fn nothing_is_searched_for_an_empty_window() {
    let scan = ExtremaScan::new(100, 100, 10);
    assert_eq!(scan.phase, ScanPhase::Done);
    assert_eq!(scan.next_probe(), None);
    let (events, probes) = run(200, 100, 10, |_| DerivativeSign::Positive);
    assert!(events.is_empty());
    assert_eq!(probes, 0);
}

#[test]
fn extrema_outside_the_window_are_dropped() {
    // Turns at 95 (high) and 205 (low); the window is [100, 200].
    let f = |t: i64| {
        if t < 95 || t >= 205 {
            DerivativeSign::Positive
        } else {
            DerivativeSign::Negative
        }
    };
    let (events, _) = run(100, 200, 50, f);
    assert!(events.is_empty());
    let (events, _) = run(90, 210, 7, f);
    assert_eq!(events.len(), 2);
    assert_eq!(events[0], ExtremumEvent { kind: TideExtremumKind::High, unix_time_seconds: 95 });
    assert_eq!(events[1], ExtremumEvent { kind: TideExtremumKind::Low, unix_time_seconds: 205 });
}

#[test]
fn a_sample_with_zero_slope_starts_no_bracket() {
    // Rising, then exactly flat at the sample 20, then falling: the change
    // from zero to falling is no bracket, the change into zero is.
    let f = |t: i64| {
        if t < 20 {
            DerivativeSign::Positive
        } else if t == 20 {
            DerivativeSign::Zero
        } else {
            DerivativeSign::Negative
        }
    };
    let (events, _) = run(0, 40, 10, f);
    assert_eq!(events, vec![ExtremumEvent { kind: TideExtremumKind::High, unix_time_seconds: 20 }]);
}

#[test]
fn a_one_second_step_needs_no_bisection() {
    let f = |t: i64| if t < 3 { DerivativeSign::Negative } else { DerivativeSign::Positive };
    let (events, probes) = run(0, 5, 1, f);
    assert_eq!(events, vec![ExtremumEvent { kind: TideExtremumKind::Low, unix_time_seconds: 3 }]);
    // Samples -1, 0, ..., 6.
    assert_eq!(probes, 8);
}

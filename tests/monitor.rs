use decibender::monitor::GRACE_PERIOD_MS;
use decibender::{ConfigError, Monitor, Reaction, ReactionState, Thresholds};

fn db(x: i32) -> i32 {
    x * 100
}

fn thresholds(too_loud: i32, too_quiet: i32, grace: i32) -> Thresholds {
    Thresholds::new(db(too_loud), db(too_quiet), db(grace))
}

#[test]
fn hysteresis_needs_crossing_past_grace() {
    let mut m = Monitor::new(thresholds(-20, -80, 6));
    let d = m.on_loudness(db(-19), 0).expect("enters too loud");
    assert_eq!(d.reaction, Reaction::EnteredTooLoud);
    assert_eq!(m.state, ReactionState::TooLoud);
    assert!(m.on_loudness(db(-17), 1).is_none());
    assert_eq!(m.state, ReactionState::TooLoud);
    assert!(m.on_loudness(db(-21), 2).is_none());
    assert!(m.on_loudness(db(-26), 3).is_none());
    assert_eq!(m.state, ReactionState::TooLoud);
    let d = m.on_loudness(db(-26) - 1, 4).expect("back to acceptable");
    assert_eq!(d.reaction, Reaction::EnteredAcceptable);
    assert_eq!(m.state, ReactionState::Acceptable);
}

#[test]
fn hysteresis_from_too_quiet() {
    let mut m = Monitor::new(thresholds(-20, -80, 6));
    let d = m.on_loudness(db(-81), 0).expect("enters too quiet");
    assert_eq!(d.reaction, Reaction::EnteredTooQuiet);
    assert!(m.on_loudness(db(-74), 1).is_none());
    assert_eq!(m.state, ReactionState::TooQuiet);
    let d = m.on_loudness(db(-73), 2).expect("back to acceptable");
    assert_eq!(d.reaction, Reaction::EnteredAcceptable);
}

#[test]
fn grace_period_suppresses_transitions() {
    let mut m = Monitor::new(thresholds(-20, -80, 6));
    let start = 10_000;
    let d = m.on_louder(start).expect("louder accepted");
    assert_eq!(d.reaction, Reaction::AnnounceLouder);
    assert_eq!(m.thresholds, thresholds(-14, -74, 6));
    assert_eq!(m.grace_ends_at, start + GRACE_PERIOD_MS);
    for (i, level) in [0, -10, -100, 0].iter().enumerate() {
        let now = start + (i as u64) * 2000;
        assert!(now < start + GRACE_PERIOD_MS);
        assert!(m.on_loudness(db(*level), now).is_none());
        assert_eq!(m.state, ReactionState::Acceptable);
    }
    assert!(m.on_loudness(0, start + GRACE_PERIOD_MS - 1).is_none());
    let d = m.on_loudness(0, start + GRACE_PERIOD_MS).expect("evaluation resumes");
    assert_eq!(d.reaction, Reaction::EnteredTooLoud);
    assert_eq!(m.state, ReactionState::TooLoud);
}

#[test]
fn quieter_lowers_both_thresholds() {
    let mut m = Monitor::new(Thresholds::default());
    let d = m.on_quieter(5).expect("quieter accepted");
    assert_eq!(d.reaction, Reaction::AnnounceQuieter);
    assert_eq!(m.thresholds, thresholds(-36, -86, 6));
    assert_eq!(m.grace_ends_at, 5 + GRACE_PERIOD_MS);
}

#[test]
fn louder_out_of_range_is_refused() {
    let mut m = Monitor::new(Thresholds::new(i32::MAX - 10, 0, 600));
    let before = m;
    assert_eq!(m.on_louder(1), Err(ConfigError::OutOfRange));
    assert_eq!(m, before);
    let mut m = Monitor::new(Thresholds::new(0, i32::MIN + 10, 600));
    assert_eq!(m.on_quieter(1), Err(ConfigError::OutOfRange));
}

#[test]
fn reapplying_thresholds_always_dispatches_and_never_transitions() {
    let t = Thresholds::default();
    let mut m = Monitor::new(t);
    let first = m.on_thresholds(t, 100).expect("valid");
    let second = m.on_thresholds(t, 200).expect("valid");
    assert_eq!(first.reaction, Reaction::ThresholdsReplaced);
    assert_eq!(second.reaction, Reaction::ThresholdsReplaced);
    assert_eq!(second.handoff.cancel, Some(first.handoff.start));
    assert_eq!(m.state, ReactionState::Acceptable);
    assert_eq!(m.thresholds, t);
    assert_eq!(m.slot.active, Some(second.handoff.start));
    assert_eq!(m.grace_ends_at, 200 + GRACE_PERIOD_MS);
}

#[test]
fn invalid_thresholds_are_rejected() {
    let mut m = Monitor::new(Thresholds::default());
    let before = m;
    assert_eq!(
        m.on_thresholds(thresholds(-80, -30, 6), 1),
        Err(ConfigError::InvalidThresholds)
    );
    assert_eq!(
        m.on_thresholds(thresholds(-50, -50, 6), 1),
        Err(ConfigError::InvalidThresholds)
    );
    assert_eq!(
        m.on_thresholds(thresholds(-30, -80, -1), 1),
        Err(ConfigError::InvalidThresholds)
    );
    assert_eq!(m, before);
}

#[test]
fn end_to_end_scenario() {
    let mut m = Monitor::new(thresholds(-30, -80, 6));
    let levels = [-60, -60, -25, -25, -40, -40];
    let expected = [
        ReactionState::Acceptable,
        ReactionState::Acceptable,
        ReactionState::TooLoud,
        ReactionState::TooLoud,
        ReactionState::Acceptable,
        ReactionState::Acceptable,
    ];
    let mut dispatched = Vec::new();
    for (i, level) in levels.iter().enumerate() {
        if let Some(d) = m.on_loudness(db(*level), 1000 + i as u64) {
            dispatched.push(d.reaction);
        }
        assert_eq!(m.state, expected[i]);
    }
    assert_eq!(
        dispatched,
        vec![Reaction::EnteredTooLoud, Reaction::EnteredAcceptable]
    );
    // too_quiet is a strict bound: exactly -80 dB is still acceptable.
    assert!(m.on_loudness(db(-80), 2000).is_none());
    assert_eq!(m.state, ReactionState::Acceptable);
    let d = m.on_loudness(db(-80) - 1, 2001).expect("too quiet below -80 dB");
    assert_eq!(d.reaction, Reaction::EnteredTooQuiet);
    assert_eq!(m.state, ReactionState::TooQuiet);
}

#[test]
fn transitions_supersede_the_active_reaction() {
    let mut m = Monitor::new(thresholds(-30, -80, 6));
    let a = m.on_loudness(db(-10), 0).expect("too loud");
    assert_eq!(a.handoff.cancel, None);
    let b = m.on_loudness(db(-50), 1).expect("acceptable");
    assert_eq!(b.handoff.cancel, Some(a.handoff.start));
    assert_ne!(a.handoff.start, b.handoff.start);
    assert_eq!(m.slot.active, Some(b.handoff.start));
    assert!(!m.on_finished(a.handoff.start));
    assert_eq!(m.slot.active, Some(b.handoff.start));
    assert!(m.on_finished(b.handoff.start));
    assert_eq!(m.slot.active, None);
}

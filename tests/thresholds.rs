use decibender::{Command, Thresholds};

#[test]
fn default_thresholds() {
    assert_eq!(Thresholds::default(), Thresholds::new(-3000, -8000, 600));
    assert!(Thresholds::default().is_valid());
}

#[test]
fn predicates_are_strict() {
    let t = Thresholds::new(-2000, -8000, 600);
    assert!(t.too_loud(-1999));
    assert!(!t.too_loud(-2000));
    assert!(t.too_quiet(-8001));
    assert!(!t.too_quiet(-8000));
    assert!(t.acceptable_from_too_loud(-2601));
    assert!(!t.acceptable_from_too_loud(-2600));
    assert!(t.acceptable_from_too_quiet(-7399));
    assert!(!t.acceptable_from_too_quiet(-7400));
}

#[test]
fn grace_margin_does_not_overflow() {
    let t = Thresholds::new(i32::MIN + 1, i32::MIN, i32::MAX);
    assert!(!t.acceptable_from_too_loud(i32::MIN));
    let t = Thresholds::new(i32::MAX, i32::MAX - 1, i32::MAX);
    assert!(!t.acceptable_from_too_quiet(i32::MAX));
}

#[test]
fn louder_and_quieter_shift_by_six_decibels() {
    let mut t = Thresholds::default();
    t.louder();
    assert_eq!(t, Thresholds::new(-2400, -7400, 600));
    t.quieter();
    t.quieter();
    assert_eq!(t, Thresholds::new(-3600, -8600, 600));
}

#[test]
fn commands_move_one_field_by_one_decibel() {
    let mut t = Thresholds::new(-2000, -8000, 500);
    assert!(t.update(Command::IncreaseTooLoud));
    assert_eq!(t, Thresholds::new(-1900, -8000, 500));
    assert!(t.update(Command::DecreaseTooLoud));
    assert!(t.update(Command::IncreaseTooQuite));
    assert_eq!(t, Thresholds::new(-2000, -7900, 500));
    assert!(t.update(Command::DecreaseTooQuite));
    assert!(t.update(Command::IncreaseGrace));
    assert_eq!(t, Thresholds::new(-2000, -8000, 600));
    assert!(t.update(Command::DecreaseGrace));
    assert_eq!(t, Thresholds::new(-2000, -8000, 500));
}

#[test]
fn command_that_breaks_the_order_is_refused() {
    let mut t = Thresholds::new(-2000, -2100, 500);
    assert!(!t.update(Command::IncreaseTooQuite));
    assert_eq!(t, Thresholds::new(-2000, -2100, 500));
    assert!(!t.update(Command::DecreaseTooLoud));
    assert_eq!(t, Thresholds::new(-2000, -2100, 500));
}

#[test]
fn command_labels() {
    let labels: Vec<&str> = Command::all().iter().map(|c| c.label()).collect();
    assert_eq!(
        labels,
        vec![
            "Increase too loud",
            "Decrease too loud",
            "Increase too quite",
            "Decrease too quite",
            "Increase grace",
            "Decrease grace",
        ]
    );
}

#[test]
fn predicates_as_closures() {
    let t = Thresholds::new(-2000, -8000, 600);
    let levels = [-1999, -2000, -2601, -2600, -8001, -7399, -7400];
    let loud: Vec<bool> = levels.iter().map(t.too_loud_pred()).collect();
    assert_eq!(loud, vec![true, false, false, false, false, false, false]);
    let quiet: Vec<bool> = levels.iter().map(t.too_quite_pred()).collect();
    assert_eq!(quiet, vec![false, false, false, false, true, false, false]);
    let from_loud: Vec<bool> = levels.iter().map(t.acceptable_from_too_loud_pred()).collect();
    assert_eq!(from_loud, vec![false, false, true, false, true, true, true]);
    let from_quiet: Vec<bool> = levels.iter().map(t.acceptable_from_too_quite_pred()).collect();
    assert_eq!(from_quiet, vec![true, true, true, true, false, true, false]);
}

#[test]
fn grace_margin_never_goes_negative() {
    let mut t = Thresholds::new(0, -100, 0);
    assert!(!t.update(Command::DecreaseGrace));
    assert_eq!(t, Thresholds::new(0, -100, 0));
    assert!(!Thresholds::new(0, -100, -1).is_valid());
    assert!(Thresholds::new(0, -100, 0).is_valid());
    let mut t = Thresholds::new(0, -100, 100);
    assert!(t.update(Command::DecreaseGrace));
    assert_eq!(t, Thresholds::new(0, -100, 0));
}

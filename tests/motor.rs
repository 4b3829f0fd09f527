use petobot::motor::{command_of, Command, Peto, FULL_POWER, NO_POWER};

fn state(left: u8, right: u8, go: bool) -> Peto {
    Peto { go, right_power: right, left_power: left }
}

fn apply_keys(p: &mut Peto, keys: &str) {
    for c in keys.chars() {
        p.apply(command_of(c));
    }
}

#[test]
fn new_state_is_at_rest() {
    let p = Peto::new();
    assert_eq!(p, state(0, 0, false));
}

#[test]
fn power_constants() {
    assert_eq!(NO_POWER, 0);
    assert_eq!(FULL_POWER, 255);
}

#[test]
fn steering_methods_set_one_field() {
    let mut p = state(7, 9, false);
    p.steer_down();
    assert_eq!(p, state(255, 9, false));
    p.steer_left();
    assert_eq!(p, state(0, 9, false));
    p.steer_right();
    assert_eq!(p, state(0, 255, false));
    p.steer_up();
    assert_eq!(p, state(0, 0, false));
    p.steer_lots();
    assert_eq!(p, state(0, 0, true));
    p.steer_alot_less();
    assert_eq!(p, state(0, 0, false));
}

#[test]
fn key_symbols_decode() {
    assert_eq!(command_of('h'), Command::SteerLeft);
    assert_eq!(command_of('j'), Command::SteerDown);
    assert_eq!(command_of('k'), Command::SteerUp);
    assert_eq!(command_of('l'), Command::SteerRight);
    assert_eq!(command_of('g'), Command::SteerLots);
    assert_eq!(command_of('s'), Command::SteerAlotLess);
    assert_eq!(command_of('q'), Command::Quit);
    assert_eq!(command_of('x'), Command::Unrecognized);
    assert_eq!(command_of('H'), Command::Unrecognized);
    assert_eq!(command_of(' '), Command::Unrecognized);
}

#[test]
fn unrecognized_symbols_change_nothing() {
    let mut p = state(255, 0, true);
    apply_keys(&mut p, "xyzQ1 \u{2122}");
    assert_eq!(p, state(255, 0, true));
}

#[test]
fn quit_command_changes_nothing() {
    let mut p = state(0, 255, true);
    p.apply(Command::Quit);
    assert_eq!(p, state(0, 255, true));
}

#[test]
fn same_symbol_twice_is_same_as_once() {
    for c in "hjklgsq".chars() {
        let start = state(255, 0, true);
        let mut once = start;
        once.apply(command_of(c));
        let mut twice = start;
        twice.apply(command_of(c));
        twice.apply(command_of(c));
        assert_eq!(once, twice);
    }
}

#[test]
fn fields_follow_most_recent_transition() {
    let mut p = Peto::new();
    apply_keys(&mut p, "jlkhjkkj");
    assert_eq!(p.left_power, 255);
    assert_eq!(p.right_power, 0);
    apply_keys(&mut p, "lhh");
    assert_eq!(p.left_power, 0);
    assert_eq!(p.right_power, 255);
    assert!(!p.go);
}

#[test]
fn initial_state_reached_in_any_order() {
    for order in ["hks", "hsk", "khs", "ksh", "shk", "skh", "hhsks"] {
        let mut p = state(255, 255, true);
        apply_keys(&mut p, order);
        assert_eq!(p, Peto::new());
    }
}

use petobot::control::{update_vals, Action, Input, Session, Target, Write};
use petobot::motor::Peto;

fn w(target: Target, value: u8) -> Write {
    Write { target, value }
}

#[test]
fn fresh_session() {
    let s = Session::new();
    assert_eq!(s.motor, Peto::new());
    assert!(!s.quit);
}

#[test]
fn steer_right_from_fresh_state() {
    let mut s = Session::new();
    assert_eq!(s.step(Input::Key('l')), Action::Send);
    assert_eq!(s.motor.right_power, 255);
    assert_eq!(s.motor.left_power, 0);
    assert!(!s.motor.go);
    let writes = s.writes();
    assert_eq!(writes.iter().filter(|x| x.target == Target::Right).count(), 1);
    assert_eq!(writes.iter().filter(|x| x.target == Target::Left).count(), 1);
    assert_eq!(writes[0], w(Target::Left, 0));
    assert_eq!(writes[1], w(Target::Right, 255));
}

#[test]
fn go_from_fresh_state() {
    let mut s = Session::new();
    assert_eq!(s.step(Input::Key('g')), Action::Send);
    assert!(s.motor.go);
    let writes = s.writes();
    assert!(writes.contains(&w(Target::Go, 255)));
    assert!(!writes.iter().any(|x| x.target == Target::Stop));
}

#[test]
fn go_then_stop() {
    let mut s = Session::new();
    assert_eq!(s.step(Input::Key('g')), Action::Send);
    assert_eq!(s.step(Input::Key('s')), Action::Send);
    assert!(!s.motor.go);
    let writes = s.writes();
    assert_eq!(*writes.last().unwrap(), w(Target::Stop, 0));
    assert!(!writes.iter().any(|x| x.target == Target::Go));
}

#[test]
fn writes_are_left_right_then_go_or_stop() {
    let p = Peto { go: true, right_power: 12, left_power: 34 };
    assert_eq!(update_vals(&p), vec![w(Target::Left, 34), w(Target::Right, 12), w(Target::Go, 255)]);
    let p = Peto { go: false, right_power: 255, left_power: 255 };
    assert_eq!(update_vals(&p), vec![w(Target::Left, 255), w(Target::Right, 255), w(Target::Stop, 0)]);
}

#[test]
fn quit_is_terminal() {
    let mut s = Session::new();
    s.step(Input::Key('j'));
    let before = s.motor;
    assert_eq!(s.step(Input::Key('q')), Action::Quit);
    assert!(s.quit);
    for input in [Input::Key('l'), Input::Key('g'), Input::Key('h'), Input::Timeout, Input::OtherKey, Input::Key('x')] {
        assert_eq!(s.step(input), Action::Quit);
        assert_eq!(s.motor, before);
    }
}

#[test]
fn unrecognized_key_redraws_instructions() {
    let mut s = Session::new();
    s.step(Input::Key('l'));
    let before = s;
    assert_eq!(s.step(Input::Key('z')), Action::ShowInstructions);
    assert_eq!(s, before);
    assert_eq!(s.step(Input::OtherKey), Action::ShowInstructions);
    assert_eq!(s, before);
}

#[test]
fn timeout_waits() {
    let mut s = Session::new();
    let before = s;
    assert_eq!(s.step(Input::Timeout), Action::Wait);
    assert_eq!(s, before);
}

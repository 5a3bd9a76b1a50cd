use hematite::tracking::{dir_to_level, track_request, Direction, Driver, Level, Mode, Pin, PinOp, Tracker};

const HIGH: PinOp = PinOp::Write(Pin::Step, Level::High);

fn steps(ops: &[PinOp]) -> usize {
    ops.iter().filter(|op| **op == HIGH).count()
}

fn driver_at(pos: isize) -> Driver {
    let mut d = Driver::new(0);
    d.goto(pos);
    d
}

#[test]
fn goto_takes_exactly_the_distance() {
    for (p, t) in [(0isize, 3isize), (5, -2), (-4, -4), (2, 0), (0, 0)] {
        let mut d = driver_at(p);
        assert_eq!(d.pos(), p);
        let ops = d.goto(t);
        assert_eq!(d.pos(), t);
        assert_eq!(steps(&ops), (p - t).unsigned_abs());
    }
}

#[test]
fn goto_forward_from_home_writes_pulses_only() {
    let mut d = Driver::new(0);
    let ops = d.goto(2);
    let pulse = [HIGH, PinOp::Hold, PinOp::Write(Pin::Step, Level::Low), PinOp::Hold];
    let expected: Vec<PinOp> = pulse.iter().chain(pulse.iter()).copied().collect();
    assert_eq!(ops, expected);
}

#[test]
fn goto_backwards_turns_once() {
    let mut d = Driver::new(1);
    d.goto(3);
    let ops = d.goto(1);
    assert_eq!(ops[0], PinOp::Write(Pin::Dir, Level::Low));
    assert_eq!(ops.len(), 1 + 2 * 4);
    assert_eq!(ops.iter().filter(|op| matches!(op, PinOp::Write(Pin::Dir, _))).count(), 1);
    assert_eq!(d.pos(), 1);
}

#[test]
fn step_moves_by_one() {
    let mut d = Driver::new(0);
    let ops = d.step(Direction::Home);
    assert_eq!(d.pos(), -1);
    assert_eq!(ops[0], PinOp::Write(Pin::Dir, Level::High));
    assert_eq!(ops.len(), 5);
    let ops = d.step(Direction::Home);
    assert_eq!(ops.len(), 4);
    assert_eq!(d.pos(), -2);
}

#[test]
fn direction_levels() {
    assert_eq!(dir_to_level(Direction::Track, 0), Level::Low);
    assert_eq!(dir_to_level(Direction::Home, 0), Level::High);
    assert_eq!(dir_to_level(Direction::Track, 1), Level::High);
    assert_eq!(dir_to_level(Direction::Home, 1), Level::Low);
}

#[test]
fn setup_and_enable() {
    let d = Driver::new(1);
    assert_eq!(
        d.setup(),
        vec![
            PinOp::Write(Pin::Enable, Level::High),
            PinOp::Write(Pin::Step, Level::Low),
            PinOp::Write(Pin::Dir, Level::High),
        ]
    );
    assert_eq!(d.enable(), PinOp::Write(Pin::Enable, Level::Low));
}

#[test]
fn track_request_depends_on_leeway() {
    assert_eq!(track_request(0), Mode::Track);
    assert_eq!(track_request(10), Mode::LC);
}

#[test]
fn leeway_then_track_then_home() {
    let mut t = Tracker::new(Driver::new(0), 3);
    let r = t.request(Mode::LC);
    assert!(r.acknowledge);
    assert!(t.is_tracking());
    assert_eq!(steps(&r.ops), 3);
    assert_eq!(t.driver().pos(), 3);
    let ops = t.tick();
    assert_eq!(steps(&ops), 1);
    assert_eq!(t.driver().pos(), 4);
    let r = t.request(Mode::Home);
    assert!(!r.acknowledge);
    assert!(!t.is_tracking());
    assert_eq!(steps(&r.ops), 4);
    assert_eq!(t.driver().pos(), 0);
    assert!(t.tick().is_empty());
}

#[test]
fn repeated_track_request_is_acknowledged_again() {
    let mut t = Tracker::new(Driver::new(0), 5);
    t.request(Mode::Track);
    t.tick();
    let r = t.request(Mode::LC);
    assert!(r.acknowledge);
    assert!(r.ops.is_empty());
    assert_eq!(t.driver().pos(), 1);
}

#[test]
fn leeway_skipped_when_already_past_it() {
    let mut t = Tracker::new(driver_at(7), 5);
    let r = t.request(Mode::LC);
    assert!(r.ops.is_empty());
    assert_eq!(t.driver().pos(), 7);
    let r = t.request(Mode::Standby);
    assert!(!r.acknowledge);
    assert!(!t.is_tracking());
}

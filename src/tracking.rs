//! The tracking mount: a stepper driver that plans its pin writes, and the
//! mode machine of the worker that owns it.
//!
//! The driver does not touch hardware. Each operation returns the pin writes
//! and half-cycle holds to perform, in order, and updates the position.
use vstd::prelude::*;

verus! {

#[derive(Clone, Copy, Debug, PartialEq, Eq, Structural)]
pub enum Direction {
    /// Away from home, following the sky.
    Track,
    /// Towards home.
    Home,
}

#[derive(Clone, Copy, Debug, PartialEq, Eq, Structural)]
pub enum Level {
    Low,
    High,
}

#[derive(Clone, Copy, Debug, PartialEq, Eq, Structural)]
pub enum Pin {
    /// Driver enable, active low.
    Enable,
    Step,
    Dir,
}

#[derive(Clone, Copy, Debug, PartialEq, Eq, Structural)]
pub enum PinOp {
    Write(Pin, Level),
    /// Wait half the configured step cycle.
    Hold,
}

/// The level of the direction pin for `direction`; `tracking_direction`
/// (0 or 1) says which level tracks.
pub open spec fn level_for(direction: Direction, tracking_direction: u8) -> Level {
    match direction {
        Direction::Track => if tracking_direction == 0 {
            Level::Low
        } else {
            Level::High
        },
        Direction::Home => if tracking_direction == 0 {
            Level::High
        } else {
            Level::Low
        },
    }
}

pub fn dir_to_level(direction: Direction, tracking_direction: u8) -> (r: Level)
    requires
        tracking_direction <= 1,
    ensures
        r == level_for(direction, tracking_direction),
{
    match direction {
        Direction::Track => if tracking_direction == 0 {
            Level::Low
        } else {
            Level::High
        },
        Direction::Home => if tracking_direction == 0 {
            Level::High
        } else {
            Level::Low
        },
    }
}

/// One step pulse: high, hold, low, hold.
pub open spec fn pulse() -> Seq<PinOp> {
    seq![
        PinOp::Write(Pin::Step, Level::High),
        PinOp::Hold,
        PinOp::Write(Pin::Step, Level::Low),
        PinOp::Hold,
    ]
}

/// `n` step pulses in a row.
pub open spec fn pulses(n: nat) -> Seq<PinOp>
    decreases n,
{
    if n == 0 {
        Seq::empty()
    } else {
        pulses((n - 1) as nat) + pulse()
    }
}

/// The direction pin write needed to face `direction` when facing `current`.
pub open spec fn turn(current: Direction, direction: Direction, tracking_direction: u8) -> Seq<
    PinOp,
> {
    if current != direction {
        seq![PinOp::Write(Pin::Dir, level_for(direction, tracking_direction))]
    } else {
        Seq::empty()
    }
}

pub open spec fn direction_towards(pos: int, target: int) -> Direction {
    if pos < target {
        Direction::Track
    } else {
        Direction::Home
    }
}

pub open spec fn distance(a: int, b: int) -> nat {
    if a <= b {
        (b - a) as nat
    } else {
        (a - b) as nat
    }
}

/// Everything `goto` writes, from `pos` facing `current` to `target`.
pub open spec fn goto_ops(pos: int, current: Direction, target: int, tracking_direction: u8) -> Seq<
    PinOp,
> {
    if pos == target {
        Seq::empty()
    } else {
        turn(current, direction_towards(pos, target), tracking_direction) + pulses(
            distance(pos, target),
        )
    }
}

/// The number of step pulses (rising edges of the step pin) in `ops`.
pub open spec fn steps_in(ops: Seq<PinOp>) -> nat
    decreases ops.len(),
{
    if ops.len() == 0 {
        0
    } else {
        steps_in(ops.drop_last()) + if ops.last() == PinOp::Write(Pin::Step, Level::High) {
            1nat
        } else {
            0nat
        }
    }
}

pub struct Driver {
    pos: isize,
    current_direction: Direction,
    tracking_direction: u8,
}

pub struct DriverView {
    pub pos: int,
    pub current_direction: Direction,
    pub tracking_direction: u8,
}

impl View for Driver {
    type V = DriverView;

    closed spec fn view(&self) -> DriverView {
        DriverView {
            pos: self.pos as int,
            current_direction: self.current_direction,
            tracking_direction: self.tracking_direction,
        }
    }
}

impl Driver {
    pub open spec fn wf(&self) -> bool {
        self@.tracking_direction <= 1
    }

    /// A driver at home, facing the tracking direction.
    pub fn new(tracking_direction: u8) -> (r: Driver)
        requires
            tracking_direction <= 1,
        ensures
            r.wf(),
            r@.pos == 0,
            r@.current_direction == Direction::Track,
            r@.tracking_direction == tracking_direction,
    {
        Driver { pos: 0, current_direction: Direction::Track, tracking_direction }
    }

    /// The writes that put the pins in their initial state: driver disabled,
    /// step low, direction set for tracking.
    pub fn setup(&self) -> (ops: Vec<PinOp>)
        requires
            self.wf(),
        ensures
            ops@ == seq![
                PinOp::Write(Pin::Enable, Level::High),
                PinOp::Write(Pin::Step, Level::Low),
                PinOp::Write(Pin::Dir, level_for(self@.current_direction, self@.tracking_direction)),
            ],
    {
        vec![
            PinOp::Write(Pin::Enable, Level::High),
            PinOp::Write(Pin::Step, Level::Low),
            PinOp::Write(Pin::Dir, dir_to_level(self.current_direction, self.tracking_direction)),
        ]
    }

    /// The write that enables the motor driver.
    pub fn enable(&self) -> (op: PinOp)
        ensures
            op == PinOp::Write(Pin::Enable, Level::Low),
    {
        PinOp::Write(Pin::Enable, Level::Low)
    }

    pub fn pos(&self) -> (r: isize)
        ensures
            r == self@.pos,
    {
        self.pos
    }

    /// One step in `direction`: turns the direction pin if needed, pulses the
    /// step pin and moves the position by one.
    pub fn step(&mut self, direction: Direction) -> (ops: Vec<PinOp>)
        requires
            old(self).wf(),
            direction == Direction::Track ==> old(self)@.pos < isize::MAX,
            direction == Direction::Home ==> old(self)@.pos > isize::MIN,
        ensures
            final(self).wf(),
            final(self)@.tracking_direction == old(self)@.tracking_direction,
            final(self)@.current_direction == direction,
            final(self)@.pos == old(self)@.pos + if direction == Direction::Track {
                1int
            } else {
                -1int
            },
            ops@ == turn(old(self)@.current_direction, direction, old(self)@.tracking_direction)
                + pulse(),
    {
        let mut ops: Vec<PinOp> = Vec::new();
        if self.current_direction != direction {
            ops.push(PinOp::Write(Pin::Dir, dir_to_level(direction, self.tracking_direction)));
            self.current_direction = direction;
        }
        ops.push(PinOp::Write(Pin::Step, Level::High));
        match direction {
            Direction::Track => {
                self.pos = self.pos + 1;
            },
            Direction::Home => {
                self.pos = self.pos - 1;
            },
        }
        ops.push(PinOp::Hold);
        ops.push(PinOp::Write(Pin::Step, Level::Low));
        ops.push(PinOp::Hold);
        proof {
            assert(ops@ =~= turn(old(self)@.current_direction, direction, self.tracking_direction)
                + pulse());
        }
        ops
    }

    /// Steps one at a time to `target`: exactly `|pos - target|` steps, all in
    /// one direction, ending at `target`.
    pub fn goto(&mut self, target: isize) -> (ops: Vec<PinOp>)
        requires
            old(self).wf(),
        ensures
            final(self).wf(),
            final(self)@.tracking_direction == old(self)@.tracking_direction,
            final(self)@.pos == target,
            final(self)@.current_direction == (if old(self)@.pos == target {
                old(self)@.current_direction
            } else {
                direction_towards(old(self)@.pos, target as int)
            }),
            ops@ == goto_ops(
                old(self)@.pos,
                old(self)@.current_direction,
                target as int,
                old(self)@.tracking_direction,
            ),
    {
        let start = self.pos;
        let facing = self.current_direction;
        let direction = if self.pos < target {
            Direction::Track
        } else {
            Direction::Home
        };
        let mut ops: Vec<PinOp> = Vec::new();
        while self.pos != target
            invariant
                self.wf(),
                self@.tracking_direction == old(self)@.tracking_direction,
                start == old(self)@.pos,
                facing == old(self)@.current_direction,
                direction == direction_towards(start as int, target as int),
                direction == Direction::Track ==> start <= self.pos <= target,
                direction == Direction::Home ==> target <= self.pos <= start,
                self.pos == start ==> ops@ == Seq::<PinOp>::empty() && self@.current_direction
                    == facing,
                self.pos != start ==> ops@ == turn(facing, direction, self@.tracking_direction)
                    + pulses(distance(start as int, self.pos as int)) && self@.current_direction
                    == direction,
            decreases distance(self.pos as int, target as int),
        {
            let ghost before = ops@;
            let ghost was_start = self.pos == start;
            let mut more = self.step(direction);
            ops.append(&mut more);
            proof {
                let d = distance(start as int, self.pos as int);
                assert(d >= 1);
                assert(pulses(d) == pulses((d - 1) as nat) + pulse());
                if was_start {
                    assert(d == 1);
                    assert(pulses(0) =~= Seq::<PinOp>::empty());
                    assert(ops@ =~= turn(facing, direction, self@.tracking_direction) + pulses(d));
                } else {
                    assert(turn(direction, direction, self@.tracking_direction) =~= Seq::<
                        PinOp,
                    >::empty());
                    assert(ops@ =~= turn(facing, direction, self@.tracking_direction) + pulses(d));
                }
            }
        }
        ops
    }
}

/// A request to the tracking worker.
#[derive(Clone, Copy, Debug, PartialEq, Eq, Structural)]
pub enum Mode {
    Standby,
    /// Drive back to position 0, then stand by.
    Home,
    /// Move forward to the leeway position if short of it, then track.
    LC,
    Track,
}

/// The request that starts tracking: leeway compensation first when a
/// leeway is configured.
pub fn track_request(leeway: isize) -> (r: Mode)
    ensures
        r == (if leeway > 0 {
            Mode::LC
        } else {
            Mode::Track
        }),
{
    if leeway > 0 {
        Mode::LC
    } else {
        Mode::Track
    }
}

/// Whether the worker is tracking after `request`.
pub open spec fn tracking_after(request: Mode) -> bool {
    request == Mode::LC || request == Mode::Track
}

/// Where `request` sends the mount, if anywhere. Leeway compensation only
/// happens when the request arrives while standing by.
pub open spec fn target_of(tracking: bool, pos: int, leeway: int, request: Mode) -> Option<int> {
    match request {
        Mode::Home => Some(0),
        Mode::LC => if !tracking && pos < leeway {
            Some(leeway)
        } else {
            None
        },
        _ => None,
    }
}

/// The worker's reaction to a request: pin writes to perform, and whether
/// to restart the step timer and acknowledge that tracking runs.
pub struct Response {
    pub ops: Vec<PinOp>,
    pub acknowledge: bool,
}

/// The tracking worker's state: it stands by or tracks, and owns the driver.
pub struct Tracker {
    tracking: bool,
    driver: Driver,
    leeway: isize,
}

pub struct TrackerView {
    pub tracking: bool,
    pub driver: DriverView,
    pub leeway: int,
}

impl View for Tracker {
    type V = TrackerView;

    closed spec fn view(&self) -> TrackerView {
        TrackerView { tracking: self.tracking, driver: self.driver@, leeway: self.leeway as int }
    }
}

impl Tracker {
    pub open spec fn wf(&self) -> bool {
        self@.driver.tracking_direction <= 1 && self@.leeway >= 0
    }

    pub fn new(driver: Driver, leeway: isize) -> (r: Tracker)
        requires
            driver.wf(),
            leeway >= 0,
        ensures
            r.wf(),
            !r@.tracking,
            r@.driver == driver@,
            r@.leeway == leeway,
    {
        Tracker { tracking: false, driver, leeway }
    }

    pub fn is_tracking(&self) -> (r: bool)
        ensures
            r == self@.tracking,
    {
        self.tracking
    }

    pub fn driver(&self) -> (r: &Driver)
        ensures
            r@ == self@.driver,
    {
        &self.driver
    }

    /// Handles a mode request. Homing and leeway compensation run to the end
    /// before the worker settles; every tracking request is acknowledged,
    /// also one that arrives while already tracking.
    pub fn request(&mut self, request: Mode) -> (r: Response)
        requires
            old(self).wf(),
        ensures
            final(self).wf(),
            final(self)@.leeway == old(self)@.leeway,
            final(self)@.tracking == tracking_after(request),
            final(self)@.driver.tracking_direction == old(self)@.driver.tracking_direction,
            r.acknowledge == tracking_after(request),
            match target_of(old(self)@.tracking, old(self)@.driver.pos, old(self)@.leeway, request) {
                Some(t) => final(self)@.driver.pos == t && r.ops@ == goto_ops(
                    old(self)@.driver.pos,
                    old(self)@.driver.current_direction,
                    t,
                    old(self)@.driver.tracking_direction,
                ),
                None => final(self)@.driver == old(self)@.driver && r.ops@ == Seq::<
                    PinOp,
                >::empty(),
            },
    {
        match request {
            Mode::Standby => {
                self.tracking = false;
                Response { ops: Vec::new(), acknowledge: false }
            },
            Mode::Home => {
                let ops = self.driver.goto(0);
                self.tracking = false;
                Response { ops, acknowledge: false }
            },
            Mode::LC => {
                let ops = if !self.tracking && self.driver.pos() < self.leeway {
                    self.driver.goto(self.leeway)
                } else {
                    Vec::new()
                };
                self.tracking = true;
                Response { ops, acknowledge: true }
            },
            Mode::Track => {
                self.tracking = true;
                Response { ops: Vec::new(), acknowledge: true }
            },
        }
    }

    /// A tick of the step timer: one step forward while tracking.
    pub fn tick(&mut self) -> (ops: Vec<PinOp>)
        requires
            old(self).wf(),
            old(self)@.driver.pos < isize::MAX,
        ensures
            final(self).wf(),
            final(self)@.leeway == old(self)@.leeway,
            final(self)@.tracking == old(self)@.tracking,
            final(self)@.driver.tracking_direction == old(self)@.driver.tracking_direction,
            old(self)@.tracking ==> final(self)@.driver.pos == old(self)@.driver.pos + 1
                && final(self)@.driver.current_direction == Direction::Track && ops@ == turn(
                old(self)@.driver.current_direction,
                Direction::Track,
                old(self)@.driver.tracking_direction,
            ) + pulse(),
            !old(self)@.tracking ==> final(self)@.driver == old(self)@.driver && ops@ == Seq::<
                PinOp,
            >::empty(),
    {
        if self.tracking {
            self.driver.step(Direction::Track)
        } else {
            Vec::new()
        }
    }
}

/// `n` pulses hold exactly `n` steps.
pub proof fn lemma_pulses_steps(n: nat)
    ensures
        steps_in(pulses(n)) == n,
    decreases n,
{
    if n > 0 {
        let p = pulses((n - 1) as nat);
        lemma_pulses_steps((n - 1) as nat);
        let s = pulses(n);
        let high = PinOp::Write(Pin::Step, Level::High);
        let s1 = p + seq![high, PinOp::Hold, PinOp::Write(Pin::Step, Level::Low)];
        let s2 = p + seq![high, PinOp::Hold];
        let s3 = p + seq![high];
        assert(s.drop_last() =~= s1);
        assert(s1.drop_last() =~= s2);
        assert(s2.drop_last() =~= s3);
        assert(s3.drop_last() =~= p);
        assert(steps_in(s) == steps_in(s1));
        assert(steps_in(s1) == steps_in(s2));
        assert(steps_in(s2) == steps_in(s3));
        assert(steps_in(s3) == steps_in(p) + 1);
    }
}

/// The writes of a `goto` from `pos` to `target` hold exactly `|pos - target|`
/// steps.
pub proof fn lemma_goto_steps(pos: int, current: Direction, target: int, tracking_direction: u8)
    ensures
        steps_in(goto_ops(pos, current, target, tracking_direction)) == distance(pos, target),
{
    let d = direction_towards(pos, target);
    lemma_pulses_steps(distance(pos, target));
    if pos != target {
        lemma_steps_prefix(turn(current, d, tracking_direction), pulses(distance(pos, target)));
    } else {
        assert(steps_in(Seq::<PinOp>::empty()) == 0);
    }
}

/// A direction write before a run of writes adds no step.
proof fn lemma_steps_prefix(prefix: Seq<PinOp>, rest: Seq<PinOp>)
    requires
        prefix.len() <= 1,
        forall|i: int| 0 <= i < prefix.len() ==> prefix[i] is Write && prefix[i]->Write_0 == Pin::Dir,
    ensures
        steps_in(prefix + rest) == steps_in(rest),
    decreases rest.len(),
{
    if rest.len() == 0 {
        assert(prefix + rest =~= prefix);
        if prefix.len() == 1 {
            assert(prefix.drop_last() =~= Seq::<PinOp>::empty());
            assert(steps_in(prefix) == steps_in(prefix.drop_last()));
        }
    } else {
        lemma_steps_prefix(prefix, rest.drop_last());
        assert((prefix + rest).drop_last() =~= prefix + rest.drop_last());
        assert((prefix + rest).last() == rest.last());
    }
}

} // verus!

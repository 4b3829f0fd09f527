//! The motor-state model and its steering transitions.
//!
//! "Go" and "stop" are modelled as a binary motion-enable flag that gates which
//! of the go and stop characteristics is written. The other reading of those
//! keys, which sets both powers to their extremes, is not offered.

use vstd::prelude::*;

verus! {

/// Power level of a motor at rest.
pub const NO_POWER: u8 = 0;

/// Power level of a motor at full speed.
pub const FULL_POWER: u8 = 255;

/// The state of the robot's two motors and of its motion-enable bit.
#[derive(Debug, Clone, Copy, PartialEq, Eq, Structural)]
pub struct Peto {
    pub go: bool,
    pub right_power: u8,
    pub left_power: u8,
}

/// One recognised steering command, or the lack of one.
#[derive(Debug, Clone, Copy, PartialEq, Eq, Structural)]
pub enum Command {
    SteerLeft,
    SteerDown,
    SteerUp,
    SteerRight,
    SteerLots,
    SteerAlotLess,
    Quit,
    Unrecognized,
}

/// The command that a key symbol stands for.
pub open spec fn spec_command_of(c: char) -> Command {
    if c == 'h' {
        Command::SteerLeft
    } else if c == 'j' {
        Command::SteerDown
    } else if c == 'k' {
        Command::SteerUp
    } else if c == 'l' {
        Command::SteerRight
    } else if c == 'g' {
        Command::SteerLots
    } else if c == 's' {
        Command::SteerAlotLess
    } else if c == 'q' {
        Command::Quit
    } else {
        Command::Unrecognized
    }
}

/// Decodes a key symbol into the command it stands for.
pub fn command_of(c: char) -> (r: Command)
    ensures
        r == spec_command_of(c),
{
    match c {
        'h' => Command::SteerLeft,
        'j' => Command::SteerDown,
        'k' => Command::SteerUp,
        'l' => Command::SteerRight,
        'g' => Command::SteerLots,
        's' => Command::SteerAlotLess,
        'q' => Command::Quit,
        _ => Command::Unrecognized,
    }
}

impl Peto {
    /// The state at the start of the control loop: both motors at rest, motion disabled.
    pub open spec fn initial() -> Peto {
        Peto { go: false, right_power: NO_POWER, left_power: NO_POWER }
    }

    /// The transition table: the state after one command.
    pub open spec fn after(self, cmd: Command) -> Peto {
        match cmd {
            Command::SteerLeft => Peto { left_power: NO_POWER, ..self },
            Command::SteerDown => Peto { left_power: FULL_POWER, ..self },
            Command::SteerUp => Peto { right_power: NO_POWER, ..self },
            Command::SteerRight => Peto { right_power: FULL_POWER, ..self },
            Command::SteerLots => Peto { go: true, ..self },
            Command::SteerAlotLess => Peto { go: false, ..self },
            Command::Quit => self,
            Command::Unrecognized => self,
        }
    }

    /// The state after a sequence of commands, applied from first to last.
    pub open spec fn run(self, cmds: Seq<Command>) -> Peto
        decreases cmds.len(),
    {
        if cmds.len() == 0 {
            self
        } else {
            self.run(cmds.drop_last()).after(cmds.last())
        }
    }

    /// The state at the start of the control loop.
    pub fn new() -> (r: Peto)
        ensures
            r == Peto::initial(),
    {
        Peto { go: false, right_power: NO_POWER, left_power: NO_POWER }
    }

    /// Left motor to rest.
    pub fn steer_left(&mut self)
        ensures
            *final(self) == old(self).after(Command::SteerLeft),
    {
        self.left_power = NO_POWER;
    }

    /// Left motor to full power.
    pub fn steer_down(&mut self)
        ensures
            *final(self) == old(self).after(Command::SteerDown),
    {
        self.left_power = FULL_POWER;
    }

    /// Right motor to rest.
    pub fn steer_up(&mut self)
        ensures
            *final(self) == old(self).after(Command::SteerUp),
    {
        self.right_power = NO_POWER;
    }

    /// Right motor to full power.
    pub fn steer_right(&mut self)
        ensures
            *final(self) == old(self).after(Command::SteerRight),
    {
        self.right_power = FULL_POWER;
    }

    /// Enable motion.
    pub fn steer_lots(&mut self)
        ensures
            *final(self) == old(self).after(Command::SteerLots),
    {
        self.go = true;
    }

    /// Disable motion.
    pub fn steer_alot_less(&mut self)
        ensures
            *final(self) == old(self).after(Command::SteerAlotLess),
    {
        self.go = false;
    }

    /// Applies one command; quitting and unrecognised input leave the state as it is.
    pub fn apply(&mut self, cmd: Command)
        ensures
            *final(self) == old(self).after(cmd),
    {
        match cmd {
            Command::SteerLeft => self.steer_left(),
            Command::SteerDown => self.steer_down(),
            Command::SteerUp => self.steer_up(),
            Command::SteerRight => self.steer_right(),
            Command::SteerLots => self.steer_lots(),
            Command::SteerAlotLess => self.steer_alot_less(),
            Command::Quit => {},
            Command::Unrecognized => {},
        }
    }
}

/// The left power set by the most recent command of `cmds` that sets it, or `start`.
pub open spec fn last_left(cmds: Seq<Command>, start: u8) -> u8
    decreases cmds.len(),
{
    if cmds.len() == 0 {
        start
    } else if cmds.last() == Command::SteerLeft {
        NO_POWER
    } else if cmds.last() == Command::SteerDown {
        FULL_POWER
    } else {
        last_left(cmds.drop_last(), start)
    }
}

/// The right power set by the most recent command of `cmds` that sets it, or `start`.
pub open spec fn last_right(cmds: Seq<Command>, start: u8) -> u8
    decreases cmds.len(),
{
    if cmds.len() == 0 {
        start
    } else if cmds.last() == Command::SteerUp {
        NO_POWER
    } else if cmds.last() == Command::SteerRight {
        FULL_POWER
    } else {
        last_right(cmds.drop_last(), start)
    }
}

/// The motion bit set by the most recent command of `cmds` that sets it, or `start`.
pub open spec fn last_go(cmds: Seq<Command>, start: bool) -> bool
    decreases cmds.len(),
{
    if cmds.len() == 0 {
        start
    } else if cmds.last() == Command::SteerLots {
        true
    } else if cmds.last() == Command::SteerAlotLess {
        false
    } else {
        last_go(cmds.drop_last(), start)
    }
}

/// The fields move independently: after any sequence of commands, each field
/// holds the value that the most recent command affecting that field set, and
/// its starting value where none did, whatever happened to the other fields.
pub proof fn lemma_fields_independent(p: Peto, cmds: Seq<Command>)
    ensures
        p.run(cmds).left_power == last_left(cmds, p.left_power),
        p.run(cmds).right_power == last_right(cmds, p.right_power),
        p.run(cmds).go == last_go(cmds, p.go),
    decreases cmds.len(),
{
    if cmds.len() > 0 {
        lemma_fields_independent(p, cmds.drop_last());
    }
}

/// Applying the same command twice in a row gives the state that applying it once gives.
pub proof fn lemma_steer_idempotent(p: Peto, cmd: Command)
    ensures
        p.after(cmd).after(cmd) == p.after(cmd),
{
}

proof fn lemma_last_left_rest(cmds: Seq<Command>, start: u8)
    requires
        cmds.contains(Command::SteerLeft),
        !cmds.contains(Command::SteerDown),
    ensures
        last_left(cmds, start) == NO_POWER,
    decreases cmds.len(),
{
    let rest = cmds.drop_last();
    if cmds.last() != Command::SteerLeft {
        let i = choose|i: int| 0 <= i < cmds.len() && cmds[i] == Command::SteerLeft;
        assert(i < cmds.len() - 1);
        assert(rest[i] == Command::SteerLeft);
        assert(!rest.contains(Command::SteerDown)) by {
            if rest.contains(Command::SteerDown) {
                let j = choose|j: int| 0 <= j < rest.len() && rest[j] == Command::SteerDown;
                assert(cmds[j] == Command::SteerDown);
            }
        }
        lemma_last_left_rest(rest, start);
    }
}

proof fn lemma_last_right_rest(cmds: Seq<Command>, start: u8)
    requires
        cmds.contains(Command::SteerUp),
        !cmds.contains(Command::SteerRight),
    ensures
        last_right(cmds, start) == NO_POWER,
    decreases cmds.len(),
{
    let rest = cmds.drop_last();
    if cmds.last() != Command::SteerUp {
        let i = choose|i: int| 0 <= i < cmds.len() && cmds[i] == Command::SteerUp;
        assert(i < cmds.len() - 1);
        assert(rest[i] == Command::SteerUp);
        assert(!rest.contains(Command::SteerRight)) by {
            if rest.contains(Command::SteerRight) {
                let j = choose|j: int| 0 <= j < rest.len() && rest[j] == Command::SteerRight;
                assert(cmds[j] == Command::SteerRight);
            }
        }
        lemma_last_right_rest(rest, start);
    }
}

proof fn lemma_last_go_stopped(cmds: Seq<Command>, start: bool)
    requires
        cmds.contains(Command::SteerAlotLess),
        !cmds.contains(Command::SteerLots),
    ensures
        !last_go(cmds, start),
    decreases cmds.len(),
{
    let rest = cmds.drop_last();
    if cmds.last() != Command::SteerAlotLess {
        let i = choose|i: int| 0 <= i < cmds.len() && cmds[i] == Command::SteerAlotLess;
        assert(i < cmds.len() - 1);
        assert(rest[i] == Command::SteerAlotLess);
        assert(!rest.contains(Command::SteerLots)) by {
            if rest.contains(Command::SteerLots) {
                let j = choose|j: int| 0 <= j < rest.len() && rest[j] == Command::SteerLots;
                assert(cmds[j] == Command::SteerLots);
            }
        }
        lemma_last_go_stopped(rest, start);
    }
}

/// The initial state is reached again from any state by steering left, steering
/// up and stopping, in any order (and with any repetitions).
pub proof fn lemma_back_to_initial(p: Peto, cmds: Seq<Command>)
    requires
        forall|i: int|
            0 <= i < cmds.len() ==> (#[trigger] cmds[i] == Command::SteerLeft || cmds[i]
                == Command::SteerUp || cmds[i] == Command::SteerAlotLess),
        cmds.contains(Command::SteerLeft),
        cmds.contains(Command::SteerUp),
        cmds.contains(Command::SteerAlotLess),
    ensures
        p.run(cmds) == Peto::initial(),
{
    lemma_fields_independent(p, cmds);
    assert(!cmds.contains(Command::SteerDown)) by {
        if cmds.contains(Command::SteerDown) {
            let j = choose|j: int| 0 <= j < cmds.len() && cmds[j] == Command::SteerDown;
        }
    }
    assert(!cmds.contains(Command::SteerRight)) by {
        if cmds.contains(Command::SteerRight) {
            let j = choose|j: int| 0 <= j < cmds.len() && cmds[j] == Command::SteerRight;
        }
    }
    assert(!cmds.contains(Command::SteerLots)) by {
        if cmds.contains(Command::SteerLots) {
            let j = choose|j: int| 0 <= j < cmds.len() && cmds[j] == Command::SteerLots;
        }
    }
    lemma_last_left_rest(cmds, p.left_power);
    lemma_last_right_rest(cmds, p.right_power);
    lemma_last_go_stopped(cmds, p.go);
}

/// A symbol outside the seven key symbols decodes to no command, and leaves the
/// state bit for bit unchanged.
pub proof fn lemma_unrecognized_noop(p: Peto, c: char)
    requires
        c != 'h' && c != 'j' && c != 'k' && c != 'l' && c != 'g' && c != 's' && c != 'q',
    ensures
        spec_command_of(c) == Command::Unrecognized,
        p.after(spec_command_of(c)) == p,
{
}

} // verus!

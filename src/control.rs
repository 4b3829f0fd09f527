//! The control loop: one step per keyboard event, and the writes that push a
//! motor state to the robot.

use vstd::prelude::*;
use crate::motor::{Command, Peto, command_of, spec_command_of, FULL_POWER, NO_POWER};

verus! {

/// The characteristic of the robot that a write goes to.
#[derive(Debug, Clone, Copy, PartialEq, Eq, Structural)]
pub enum Target {
    Left,
    Right,
    Go,
    Stop,
}

/// A one-byte write, sent without response, to one characteristic.
#[derive(Debug, Clone, Copy, PartialEq, Eq, Structural)]
pub struct Write {
    pub target: Target,
    pub value: u8,
}

/// The writes that push a state to the robot, in the order they are issued:
/// left power, right power, then either the go or the stop characteristic.
pub open spec fn spec_writes(p: Peto) -> Seq<Write> {
    seq![
        Write { target: Target::Left, value: p.left_power },
        Write { target: Target::Right, value: p.right_power },
        if p.go {
            Write { target: Target::Go, value: FULL_POWER }
        } else {
            Write { target: Target::Stop, value: NO_POWER }
        },
    ]
}

/// The writes that push `p` to the robot: both powers always, and exactly one
/// of go and stop.
pub fn update_vals(p: &Peto) -> (r: Vec<Write>)
    ensures
        r@ == spec_writes(*p),
{
    let mut r: Vec<Write> = Vec::new();
    r.push(Write { target: Target::Left, value: p.left_power });
    r.push(Write { target: Target::Right, value: p.right_power });
    if p.go {
        r.push(Write { target: Target::Go, value: FULL_POWER });
    } else {
        r.push(Write { target: Target::Stop, value: NO_POWER });
    }
    assert(r@ =~= spec_writes(*p));
    r
}

/// What one turn of the loop observed.
#[derive(Debug, Clone, Copy, PartialEq, Eq, Structural)]
pub enum Input {
    /// No key press arrived within the poll window.
    Timeout,
    /// A key carrying a character was pressed.
    Key(char),
    /// A key carrying no character was pressed.
    OtherKey,
}

/// What the caller does after a step.
#[derive(Debug, Clone, Copy, PartialEq, Eq, Structural)]
pub enum Action {
    /// Nothing: poll again.
    Wait,
    /// Redraw the instruction banner, then poll again.
    ShowInstructions,
    /// Issue the writes of `update_vals` on the new motor state, in order, then
    /// redraw that state.
    Send,
    /// Leave the loop and release the terminal.
    Quit,
}

/// The state of the control loop: the motor state and whether quit was seen.
#[derive(Debug, Clone, Copy, PartialEq, Eq, Structural)]
pub struct Session {
    pub motor: Peto,
    pub quit: bool,
}

impl Session {
    /// The command that an input stands for; a key without a character is not recognised.
    pub open spec fn command(input: Input) -> Command {
        match input {
            Input::Timeout => Command::Unrecognized,
            Input::Key(c) => spec_command_of(c),
            Input::OtherKey => Command::Unrecognized,
        }
    }

    /// The session after one input. Once quit is seen nothing changes any more.
    pub open spec fn next(self, input: Input) -> Session {
        if self.quit {
            self
        } else if Session::command(input) == Command::Quit {
            Session { quit: true, ..self }
        } else {
            Session { motor: self.motor.after(Session::command(input)), ..self }
        }
    }

    /// What the caller is asked to do after one input.
    pub open spec fn action(self, input: Input) -> Action {
        if self.quit {
            Action::Quit
        } else if input == Input::Timeout {
            Action::Wait
        } else if Session::command(input) == Command::Quit {
            Action::Quit
        } else if Session::command(input) == Command::Unrecognized {
            Action::ShowInstructions
        } else {
            Action::Send
        }
    }

    /// The session after a sequence of inputs, taken from first to last.
    pub open spec fn run(self, inputs: Seq<Input>) -> Session
        decreases inputs.len(),
    {
        if inputs.len() == 0 {
            self
        } else {
            self.run(inputs.drop_last()).next(inputs.last())
        }
    }

    /// A fresh loop: the initial motor state, quit not seen.
    pub fn new() -> (r: Session)
        ensures
            r.motor == Peto::initial(),
            !r.quit,
    {
        Session { motor: Peto::new(), quit: false }
    }

    /// One turn of the loop: updates the state for `input` and says what to do next.
    pub fn step(&mut self, input: Input) -> (a: Action)
        ensures
            *final(self) == old(self).next(input),
            a == old(self).action(input),
    {
        if self.quit {
            return Action::Quit;
        }
        let cmd = match input {
            Input::Timeout => {
                return Action::Wait;
            },
            Input::Key(c) => command_of(c),
            Input::OtherKey => Command::Unrecognized,
        };
        match cmd {
            Command::Quit => {
                self.quit = true;
                Action::Quit
            },
            Command::Unrecognized => Action::ShowInstructions,
            _ => {
                self.motor.apply(cmd);
                Action::Send
            },
        }
    }

    /// The writes that push the current motor state to the robot.
    pub fn writes(&self) -> (r: Vec<Write>)
        ensures
            r@ == spec_writes(self.motor),
    {
        update_vals(&self.motor)
    }
}

/// Quit is terminal: once the quit key has been processed, no later input
/// changes the motor state, and every later step asks the caller to quit.
pub proof fn lemma_quit_is_terminal(s: Session, rest: Seq<Input>)
    ensures
        s.next(Input::Key('q')).quit,
        s.next(Input::Key('q')).motor == s.motor,
        s.next(Input::Key('q')).run(rest) == s.next(Input::Key('q')),
        forall|i: Input| #[trigger] s.next(Input::Key('q')).run(rest).action(i) == Action::Quit,
    decreases rest.len(),
{
    if rest.len() > 0 {
        lemma_quit_is_terminal(s, rest.drop_last());
    }
}

/// An unrecognised key leaves the session bit for bit unchanged; the caller
/// only redraws the instructions.
pub proof fn lemma_unrecognized_key_noop(s: Session, c: char)
    requires
        c != 'h' && c != 'j' && c != 'k' && c != 'l' && c != 'g' && c != 's' && c != 'q',
    ensures
        s.next(Input::Key(c)) == s,
        !s.quit ==> s.action(Input::Key(c)) == Action::ShowInstructions,
{
}

} // verus!

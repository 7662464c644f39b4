//! Command: a request turned into an object, so that it can be issued,
//! queued and logged by an invoker that does not know what it does.
//!
//! `Switch` is the invoker. It builds the command that a word asks for,
//! executes it, and keeps it in its history. `Light` is the receiver.

use vstd::prelude::*;
use vstd::string::*;
use std::collections::VecDeque;
use crate::text::same_text;

verus! {

/// The command interface.
pub trait Command {
    /// What executing the command answers.
    spec fn outcome(&self) -> Seq<char>;

    /// Executes the command.
    fn execute(&self) -> (r: &str)
        ensures
            r@ == self.outcome(),
    ;
}

/// The receiver: it knows how to carry out the requests.
#[derive(Clone, Copy)]
pub struct Light;

impl Light {
    pub fn turn_on(&self) -> (r: &str)
        ensures
            r@ == "light turned on"@,
    {
        "light turned on"
    }

    pub fn turn_off(&self) -> (r: &str)
        ensures
            r@ == "light turned off"@,
    {
        "light turned off"
    }
}

/// A concrete command: switch the light on.
pub struct LightOnCommand {
    light: Light,
}

impl LightOnCommand {
    pub fn new(light: Light) -> (r: Self)
        ensures
            r.outcome() == "light turned on"@,
    {
        LightOnCommand { light }
    }
}

impl Command for LightOnCommand {
    open spec fn outcome(&self) -> Seq<char> {
        "light turned on"@
    }

    fn execute(&self) -> (r: &str) {
        self.light.turn_on()
    }
}

/// Another concrete command: switch the light off.
pub struct LightOffCommand {
    light: Light,
}

impl LightOffCommand {
    pub fn new(light: Light) -> (r: Self)
        ensures
            r.outcome() == "light turned off"@,
    {
        LightOffCommand { light }
    }
}

impl Command for LightOffCommand {
    open spec fn outcome(&self) -> Seq<char> {
        "light turned off"@
    }

    fn execute(&self) -> (r: &str) {
        self.light.turn_off()
    }
}

/// Whether `cmd` is a word that the switch understands.
pub open spec fn known_command(cmd: Seq<char>) -> bool {
    cmd == "ON"@ || cmd == "OFF"@
}

/// What the command that `cmd` asks for answers.
pub open spec fn command_outcome(cmd: Seq<char>) -> Seq<char>
    recommends
        known_command(cmd),
{
    if cmd == "ON"@ {
        "light turned on"@
    } else {
        "light turned off"@
    }
}

/// Builds the command that `cmd` asks for.
fn command_for<'a>(light: Light, cmd: &str) -> (r: Box<dyn Command + 'a>)
    requires
        known_command(cmd@),
    ensures
        r.outcome() == command_outcome(cmd@),
{
    if same_text(cmd, "ON") {
        return Box::new(LightOnCommand::new(light));
    }
    if same_text(cmd, "OFF") {
        return Box::new(LightOffCommand::new(light));
    }
    let unknown: Option<Box<dyn Command + 'a>> = None;
    return unknown.expect("Unexpected command");
}

/// Appends an executed command to a history. The entry comes first, so that
/// its type is taken from the entry and a command behind the interface is
/// handed on as it is.
fn record<T>(entry: T, history: &mut VecDeque<T>)
    ensures
        final(history)@ == old(history)@.push(entry),
{
    history.push_back(entry);
}

/// The invoker: a switch that controls the light and remembers every command
/// it has executed.
pub struct Switch<'a> {
    light: Light,
    history: VecDeque<Box<dyn Command + 'a>>,
}

impl<'a> Switch<'a> {
    /// The outcomes of the commands executed so far, oldest first.
    pub closed spec fn log(&self) -> Seq<Seq<char>> {
        self.history@.map_values(|c: Box<dyn Command + 'a>| c.outcome())
    }

    pub fn new() -> (r: Switch<'a>)
        ensures
            r.log() == Seq::<Seq<char>>::empty(),
    {
        let r = Switch { light: Light, history: VecDeque::new() };
        assert(r.log() =~= Seq::<Seq<char>>::empty());
        r
    }

    /// Whether `execute_command` may be called with `cmd`.
    pub fn accepts(cmd: &str) -> (r: bool)
        ensures
            r == known_command(cmd@),
    {
        same_text(cmd, "ON") || same_text(cmd, "OFF")
    }

    /// Builds the command that `cmd` asks for, executes it, keeps it in the
    /// history and returns what it answered.
    pub fn execute_command(&mut self, cmd: &str) -> (r: &str)
        requires
            known_command(cmd@),
        ensures
            r@ == command_outcome(cmd@),
            final(self).log() == old(self).log().push(command_outcome(cmd@)),
    {
        let command = command_for(self.light, cmd);
        let answer = command.execute();
        let result = if same_text(answer, "light turned on") {
            "light turned on"
        } else if same_text(answer, "light turned off") {
            "light turned off"
        } else {
            "unexpected result"
        };
        record(command, &mut self.history);
        proof {
            assert(self.log() =~= old(self).log().push(command_outcome(cmd@)));
        }
        result
    }
}

} // verus!

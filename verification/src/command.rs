//! Drive commands and the servo pulse widths that realise them.
//!
//! Widths are counted in timer ticks of one microsecond. A servo stands still
//! at 1500 ticks and turns at full speed one way or the other at 500 and 2500.
//! Each command has one fixed pair of widths, and no other widths are ever
//! produced.

use vstd::prelude::*;

verus! {

/// Shortest pulse a servo accepts.
pub const MIN_PULSE_TICKS: u32 = 500;

/// Pulse at which a servo stands still.
pub const NEUTRAL_PULSE_TICKS: u32 = 1500;

/// Longest pulse a servo accepts.
pub const MAX_PULSE_TICKS: u32 = 2500;

/// The manoeuvres the vehicle can be told to perform.
#[derive(Clone, Copy, Debug, PartialEq, Eq, Structural)]
pub enum DriveCommand {
    Stopped,
    Forward,
    Left,
    Right,
    Back,
}

/// The pulse widths of the two servo channels.
#[derive(Clone, Copy, Debug, PartialEq, Eq, Structural)]
pub struct PulseWidths {
    pub left: u32,
    pub right: u32,
}

/// A command together with the pulse widths that carry it out.
#[derive(Clone, Copy, Debug, PartialEq, Eq, Structural)]
pub struct CommandProfile {
    pub command: DriveCommand,
    pub left: u32,
    pub right: u32,
}

/// The profile table: the one pair of widths that belongs to each command.
pub open spec fn fixed_profile(command: DriveCommand) -> CommandProfile {
    match command {
        DriveCommand::Stopped => CommandProfile { command, left: 1500, right: 1500 },
        DriveCommand::Forward => CommandProfile { command, left: 2500, right: 500 },
        DriveCommand::Back => CommandProfile { command, left: 500, right: 2500 },
        DriveCommand::Left => CommandProfile { command, left: 2500, right: 1500 },
        DriveCommand::Right => CommandProfile { command, left: 1500, right: 500 },
    }
}

impl CommandProfile {
    /// Whether this profile is the table's entry for its command.
    pub open spec fn is_fixed(self) -> bool {
        self == fixed_profile(self.command)
    }

    /// The widths of the profile, as a pair.
    pub open spec fn widths(self) -> PulseWidths {
        PulseWidths { left: self.left, right: self.right }
    }

    /// Looks a command up in the profile table.
    pub fn for_command(command: DriveCommand) -> (profile: CommandProfile)
        ensures
            profile == fixed_profile(command),
    {
        match command {
            DriveCommand::Stopped => CommandProfile {
                command,
                left: NEUTRAL_PULSE_TICKS,
                right: NEUTRAL_PULSE_TICKS,
            },
            DriveCommand::Forward => CommandProfile {
                command,
                left: MAX_PULSE_TICKS,
                right: MIN_PULSE_TICKS,
            },
            DriveCommand::Back => CommandProfile {
                command,
                left: MIN_PULSE_TICKS,
                right: MAX_PULSE_TICKS,
            },
            DriveCommand::Left => CommandProfile {
                command,
                left: MAX_PULSE_TICKS,
                right: NEUTRAL_PULSE_TICKS,
            },
            DriveCommand::Right => CommandProfile {
                command,
                left: NEUTRAL_PULSE_TICKS,
                right: MIN_PULSE_TICKS,
            },
        }
    }

    /// The widths to program into the two servo channels.
    pub fn pulse_widths(&self) -> (widths: PulseWidths)
        ensures
            widths == self.widths(),
    {
        PulseWidths { left: self.left, right: self.right }
    }
}

/// Every width in the profile table is one a servo accepts: full speed one
/// way, neutral, or full speed the other way.
pub proof fn lemma_fixed_widths_are_servo_widths(command: DriveCommand)
    ensures
        fixed_profile(command).command == command,
        fixed_profile(command).left == MIN_PULSE_TICKS
            || fixed_profile(command).left == NEUTRAL_PULSE_TICKS
            || fixed_profile(command).left == MAX_PULSE_TICKS,
        fixed_profile(command).right == MIN_PULSE_TICKS
            || fixed_profile(command).right == NEUTRAL_PULSE_TICKS
            || fixed_profile(command).right == MAX_PULSE_TICKS,
        MIN_PULSE_TICKS <= fixed_profile(command).left <= MAX_PULSE_TICKS,
        MIN_PULSE_TICKS <= fixed_profile(command).right <= MAX_PULSE_TICKS,
{
}

/// The vehicle stands still under exactly one command: both servos are at
/// neutral for `Stopped` and for no other.
pub proof fn lemma_only_stopped_is_neutral(command: DriveCommand)
    ensures
        (fixed_profile(command).left == NEUTRAL_PULSE_TICKS
            && fixed_profile(command).right == NEUTRAL_PULSE_TICKS) <==> command
            == DriveCommand::Stopped,
{
}

/// No two commands share a pair of widths, so the widths on the outputs tell
/// which command is being carried out.
pub proof fn lemma_fixed_widths_identify_command(a: DriveCommand, b: DriveCommand)
    requires
        fixed_profile(a).widths() == fixed_profile(b).widths(),
    ensures
        a == b,
{
}

} // verus!

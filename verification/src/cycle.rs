//! The periodic control cycle.
//!
//! Once per pulse period the cycle does three things, in this order. It hands
//! out the widths of the command it decided one period earlier, to be written
//! to the pulse generator at the very start of the period. It takes in what
//! the period lets it observe: one conversion of the light sensor and the
//! enable flag. It decides the command for the period after, and names the
//! icon that shows the decision.
//!
//! The cycle touches no hardware. Whoever owns the peripherals writes the
//! widths, performs the conversion and shows the icon; the cycle says what to
//! write and what to show.

use vstd::prelude::*;
use crate::command::{fixed_profile, CommandProfile, DriveCommand, PulseWidths};
use crate::icon::Icon;
use crate::sensor::{commanded, next_command, reading_or_zero, reading_value, SensorFault};

verus! {

/// What one period lets the cycle observe.
#[derive(Clone, Copy, Debug, PartialEq, Eq)]
pub struct CycleInput {
    /// The outcome of the period's conversion, or `None` while no sensor has
    /// been handed over.
    pub sample: Option<Result<i16, SensorFault>>,
    /// The enable flag as last published, or `None` while nothing has been
    /// published.
    pub enabled: Option<bool>,
}

/// What the cycle asks for in one period.
#[derive(Clone, Copy, Debug, PartialEq, Eq, Structural)]
pub struct CycleOutput {
    /// The widths written to the pulse generator at the start of the period.
    pub applied: PulseWidths,
    /// The command decided for the next period.
    pub command: DriveCommand,
    /// The icon that shows the decision.
    pub icon: Icon,
}

/// What the cycle remembers from one period to the next.
pub struct CycleState {
    /// The command to carry out in the coming period, with its widths.
    pub profile: CommandProfile,
    /// The reading of the latest conversion.
    pub last_reading: int,
    /// The enable flag as of the latest period.
    pub cached_enabled: bool,
}

impl CycleState {
    /// The state before the first period: standing still, nothing read,
    /// driving disabled.
    pub open spec fn initial() -> CycleState {
        CycleState {
            profile: fixed_profile(DriveCommand::Stopped),
            last_reading: 0,
            cached_enabled: false,
        }
    }

    /// Whether the state holds an entry of the profile table.
    pub open spec fn wf(self) -> bool {
        self.profile.is_fixed()
    }

    /// The state after taking in a period's observations. A conversion
    /// replaces the reading, by 0 where it failed; a published flag replaces
    /// the cached one. What is absent leaves its part of the state as it was.
    pub open spec fn observe(self, input: CycleInput) -> CycleState {
        CycleState {
            profile: self.profile,
            last_reading: match input.sample {
                Some(sample) => reading_value(sample),
                None => self.last_reading,
            },
            cached_enabled: match input.enabled {
                Some(enabled) => enabled,
                None => self.cached_enabled,
            },
        }
    }

    /// The command that the remembered flag and reading call for.
    pub open spec fn decision(self) -> DriveCommand {
        commanded(self.cached_enabled, self.last_reading)
    }

    /// The state after deciding: the profile of the decision replaces the
    /// current one.
    pub open spec fn decide(self) -> CycleState {
        CycleState {
            profile: fixed_profile(self.decision()),
            last_reading: self.last_reading,
            cached_enabled: self.cached_enabled,
        }
    }

    /// The state after one whole period.
    pub open spec fn step(self, input: CycleInput) -> CycleState {
        self.observe(input).decide()
    }

    /// What one whole period asks for: the widths held when the period began,
    /// and the decision made in it.
    pub open spec fn output(self, input: CycleInput) -> CycleOutput {
        CycleOutput {
            applied: self.profile.widths(),
            command: self.observe(input).decision(),
            icon: Icon::of(self.observe(input).decision()),
        }
    }

    /// The state after a run of periods, one input each.
    pub open spec fn after(self, inputs: Seq<CycleInput>) -> CycleState
        decreases inputs.len(),
    {
        if inputs.len() == 0 {
            self
        } else {
            self.after(inputs.drop_last()).step(inputs.last())
        }
    }
}

/// The control cycle's state, owned by the one context that runs the cycle.
pub struct ControlCycle {
    current: CommandProfile,
    last_reading: i16,
    cached_enabled: bool,
}

impl View for ControlCycle {
    type V = CycleState;

    closed spec fn view(&self) -> CycleState {
        CycleState {
            profile: self.current,
            last_reading: self.last_reading as int,
            cached_enabled: self.cached_enabled,
        }
    }
}

impl ControlCycle {
    #[verifier::type_invariant]
    spec fn holds_fixed_profile(self) -> bool {
        self.current.is_fixed()
    }

    /// The cycle as it stands before the first period.
    pub fn new() -> (cycle: ControlCycle)
        ensures
            cycle@ == CycleState::initial(),
    {
        ControlCycle {
            current: CommandProfile::for_command(DriveCommand::Stopped),
            last_reading: 0,
            cached_enabled: false,
        }
    }

    /// The command being carried out in the coming period.
    pub fn command(&self) -> (command: DriveCommand)
        ensures
            command == self@.profile.command,
    {
        self.current.command
    }

    /// The reading of the latest conversion.
    pub fn last_reading(&self) -> (reading: i16)
        ensures
            reading == self@.last_reading,
    {
        self.last_reading
    }

    /// The enable flag as of the latest period.
    pub fn cached_enabled(&self) -> (enabled: bool)
        ensures
            enabled == self@.cached_enabled,
    {
        self.cached_enabled
    }

    /// The widths to write to the pulse generator at the start of the period.
    /// They are those of the command decided in the period before, and always
    /// an entry of the profile table.
    pub fn pulse_widths(&self) -> (widths: PulseWidths)
        ensures
            widths == self@.profile.widths(),
            widths == fixed_profile(self@.profile.command).widths(),
            self@.wf(),
    {
        proof {
            use_type_invariant(&*self);
        }
        self.current.pulse_widths()
    }

    /// Takes in what the period lets the cycle observe.
    pub fn observe(&mut self, input: CycleInput)
        ensures
            final(self)@ == old(self)@.observe(input),
    {
        proof {
            use_type_invariant(&*self);
        }
        match input.sample {
            Some(sample) => {
                self.last_reading = reading_or_zero(sample);
            },
            None => {},
        }
        match input.enabled {
            Some(enabled) => {
                self.cached_enabled = enabled;
            },
            None => {},
        }
    }

    /// Decides the command for the next period from what was last observed,
    /// and returns the icon that shows the decision.
    pub fn decide(&mut self) -> (icon: Icon)
        ensures
            final(self)@ == old(self)@.decide(),
            icon == Icon::of(old(self)@.decision()),
    {
        let command = next_command(self.cached_enabled, self.last_reading);
        self.current = CommandProfile::for_command(command);
        Icon::for_command(command)
    }

    /// Runs one whole period: hands out the widths, observes, decides.
    pub fn run(&mut self, input: CycleInput) -> (output: CycleOutput)
        ensures
            final(self)@ == old(self)@.step(input),
            output == old(self)@.output(input),
            old(self)@.wf(),
            final(self)@.wf(),
    {
        let applied = self.pulse_widths();
        self.observe(input);
        let icon = self.decide();
        CycleOutput { applied, command: self.current.command, icon }
    }

    /// Runs one period for each input in turn, and returns what each period
    /// asked for.
    pub fn replay(&mut self, inputs: &Vec<CycleInput>) -> (outputs: Vec<CycleOutput>)
        ensures
            final(self)@ == old(self)@.after(inputs@),
            outputs@.len() == inputs@.len(),
            forall|n: int|
                0 <= n < inputs@.len() ==> #[trigger] outputs@[n] == old(self)@.after(
                    inputs@.take(n),
                ).output(inputs@[n]),
    {
        let mut outputs: Vec<CycleOutput> = Vec::new();
        let mut done: usize = 0;
        while done < inputs.len()
            invariant
                done <= inputs@.len(),
                self@ == old(self)@.after(inputs@.take(done as int)),
                outputs@.len() == done,
                forall|n: int|
                    0 <= n < done ==> #[trigger] outputs@[n] == old(self)@.after(
                        inputs@.take(n),
                    ).output(inputs@[n]),
            decreases inputs@.len() - done,
        {
            let output = self.run(inputs[done]);
            proof {
                let next = inputs@.take(done + 1);
                assert(next.drop_last() =~= inputs@.take(done as int));
            }
            outputs.push(output);
            done += 1;
        }
        proof {
            assert(inputs@.take(done as int) =~= inputs@);
        }
        outputs
    }
}

} // verus!

//! What holds of the control cycle in one period and over a run of periods.
//!
//! A run is a sequence of inputs, one per period, taken in from a starting
//! state. Period `n` is the one that observes `inputs[n]`.

use vstd::prelude::*;
use crate::command::{
    fixed_profile, lemma_fixed_widths_are_servo_widths, DriveCommand, PulseWidths, MIN_PULSE_TICKS,
};
use crate::cycle::{CycleInput, CycleState};
use crate::icon::Icon;
use crate::poller::{flag_after_pass, is_held};
use crate::pwm::{
    lemma_early_rewrite_keeps_pulses_whole, lemma_pulse_shape, servo_timer_setup, PulseGenerator,
    PERIOD_TICKS,
};
use crate::sensor::{classification, SensorFault};

verus! {

/// The state in which period `n` of a run begins.
pub open spec fn state_before(start: CycleState, inputs: Seq<CycleInput>, n: int) -> CycleState {
    start.after(inputs.take(n))
}

/// The widths written to the pulse generator at the start of period `n`.
pub open spec fn applied_in(start: CycleState, inputs: Seq<CycleInput>, n: int) -> PulseWidths {
    state_before(start, inputs, n).profile.widths()
}

/// The command decided in period `n`.
pub open spec fn decided_in(start: CycleState, inputs: Seq<CycleInput>, n: int) -> DriveCommand {
    state_before(start, inputs, n).output(inputs[n]).command
}

/// The icon requested in period `n`.
pub open spec fn shown_in(start: CycleState, inputs: Seq<CycleInput>, n: int) -> Icon {
    state_before(start, inputs, n).output(inputs[n]).icon
}

/// While driving is enabled and the conversion succeeds, the period decides
/// the command of the reading's bin, whatever the cycle remembered.
pub proof fn lemma_enabled_period_follows_reading(state: CycleState, reading: i16)
    ensures
        ({
            let input = CycleInput { sample: Some(Ok(reading)), enabled: Some(true) };
            &&& state.output(input).command == classification(reading as int)
            &&& state.step(input).profile == fixed_profile(classification(reading as int))
        }),
{
}

/// While driving is disabled the period decides `Stopped`, whatever the
/// sensor delivers and whatever the cycle remembered.
pub proof fn lemma_disabled_period_stops(
    state: CycleState,
    sample: Option<Result<i16, SensorFault>>,
)
    ensures
        ({
            let input = CycleInput { sample, enabled: Some(false) };
            &&& state.output(input).command == DriveCommand::Stopped
            &&& state.output(input).icon == Icon::Smile
            &&& state.step(input).profile == fixed_profile(DriveCommand::Stopped)
        }),
{
}

/// A conversion that fails cannot be told from one that reads 0: the period
/// asks for the same and leaves the same state behind. With driving enabled
/// it decides `Left`.
pub proof fn lemma_failed_conversion_counts_as_zero(
    state: CycleState,
    fault: SensorFault,
    enabled: Option<bool>,
)
    ensures
        ({
            let failed = CycleInput { sample: Some(Err(fault)), enabled };
            let zero = CycleInput { sample: Some(Ok(0)), enabled };
            &&& state.output(failed) == state.output(zero)
            &&& state.step(failed) == state.step(zero)
            &&& enabled == Some(true) ==> state.output(failed).command == DriveCommand::Left
        }),
{
}

/// Whatever a period observes, the profile it leaves behind is the entry of
/// the profile table for the command it decided.
pub proof fn lemma_period_leaves_table_entry(state: CycleState, input: CycleInput)
    ensures
        state.step(input).wf(),
        state.step(input).profile == fixed_profile(state.output(input).command),
{
}

/// The icon a period requests is the icon of the command it decided, which
/// is the command the next period carries out.
pub proof fn lemma_icon_shows_decision(state: CycleState, input: CycleInput)
    ensures
        state.output(input).icon == Icon::of(state.output(input).command),
        state.output(input).icon == Icon::of(state.step(input).profile.command),
{
}

/// The buttons reach the cycle through the enable flag. A period that reads
/// the flag after a pass of the poller decides `Stopped` if button B was held
/// in that pass, and follows its reading if only button A was.
pub proof fn lemma_buttons_reach_the_cycle(
    state: CycleState,
    flag: Option<bool>,
    a_low: Option<bool>,
    b_low: Option<bool>,
    reading: i16,
)
    ensures
        ({
            let input = CycleInput {
                sample: Some(Ok(reading)),
                enabled: flag_after_pass(flag, a_low, b_low),
            };
            &&& is_held(b_low) ==> state.output(input).command == DriveCommand::Stopped
            &&& is_held(a_low) && !is_held(b_low) ==> state.output(input).command
                == classification(reading as int)
        }),
{
}

/// Each period starts in the state the period before left behind.
pub proof fn lemma_periods_follow_in_order(start: CycleState, inputs: Seq<CycleInput>, n: int)
    requires
        0 <= n < inputs.len(),
    ensures
        state_before(start, inputs, 0) == start,
        state_before(start, inputs, n + 1) == state_before(start, inputs, n).step(inputs[n]),
        state_before(start, inputs, inputs.len() as int) == start.after(inputs),
{
    assert(inputs.take(n + 1).drop_last() =~= inputs.take(n));
    assert(inputs.take(inputs.len() as int) =~= inputs);
}

/// Only widths of the profile table are ever applied: from a state that holds
/// a table entry, every state of every run holds one.
pub proof fn lemma_profile_always_from_table(start: CycleState, inputs: Seq<CycleInput>)
    requires
        start.wf(),
    ensures
        start.after(inputs).wf(),
    decreases inputs.len(),
{
    if inputs.len() > 0 {
        lemma_profile_always_from_table(start, inputs.drop_last());
    }
}

/// In every period of a run from the initial state, the widths applied are
/// those that the profile table gives for one of the five commands.
pub proof fn lemma_applied_widths_from_table(inputs: Seq<CycleInput>, n: int)
    requires
        0 <= n <= inputs.len(),
    ensures
        applied_in(CycleState::initial(), inputs, n) == fixed_profile(
            state_before(CycleState::initial(), inputs, n).profile.command,
        ).widths(),
{
    lemma_profile_always_from_table(CycleState::initial(), inputs.take(n));
}

/// A decision takes one period to reach the outputs. The widths applied in
/// period `n + 1` are those of the command decided in period `n`. The widths
/// applied in period `n` itself were settled before that period observed
/// anything: they are the same whatever its input is.
pub proof fn lemma_decision_applies_one_period_later(
    start: CycleState,
    inputs: Seq<CycleInput>,
    n: int,
)
    requires
        0 <= n < inputs.len(),
    ensures
        applied_in(start, inputs, n + 1) == fixed_profile(decided_in(start, inputs, n)).widths(),
        forall|other: CycleInput|
            applied_in(start, #[trigger] inputs.update(n, other), n) == applied_in(
                start,
                inputs,
                n,
            ),
{
    lemma_periods_follow_in_order(start, inputs, n);
    assert forall|other: CycleInput|
        applied_in(start, #[trigger] inputs.update(n, other), n) == applied_in(
            start,
            inputs,
            n,
        ) by {
        assert(inputs.update(n, other).take(n) =~= inputs.take(n));
    }
}

/// Before the first decision arrives the outputs hold both servos at
/// neutral, which is where the timer's set-up left them.
pub proof fn lemma_first_period_applies_neutral(inputs: Seq<CycleInput>)
    ensures
        applied_in(CycleState::initial(), inputs, 0) == fixed_profile(
            DriveCommand::Stopped,
        ).widths(),
        applied_in(CycleState::initial(), inputs, 0) == servo_timer_setup().widths,
{
}

/// The icon requested in a period is that of the command decided in the same
/// period, the one whose widths the next period applies.
pub proof fn lemma_icon_follows_decision(start: CycleState, inputs: Seq<CycleInput>, n: int)
    requires
        0 <= n < inputs.len(),
    ensures
        shown_in(start, inputs, n) == Icon::of(decided_in(start, inputs, n)),
        fixed_profile(decided_in(start, inputs, n)).widths() == applied_in(start, inputs, n + 1),
{
    lemma_decision_applies_one_period_later(start, inputs, n);
}

/// Until an enable flag has been published, every period decides `Stopped`
/// and both servos stay at neutral.
pub proof fn lemma_stopped_until_flag_published(inputs: Seq<CycleInput>, n: int)
    requires
        0 <= n < inputs.len(),
        forall|i: int| 0 <= i <= n ==> (#[trigger] inputs[i]).enabled is None,
    ensures
        !state_before(CycleState::initial(), inputs, n).cached_enabled,
        decided_in(CycleState::initial(), inputs, n) == DriveCommand::Stopped,
        applied_in(CycleState::initial(), inputs, n + 1) == fixed_profile(
            DriveCommand::Stopped,
        ).widths(),
    decreases n,
{
    if n > 0 {
        lemma_stopped_until_flag_published(inputs, n - 1);
    }
    lemma_decision_applies_one_period_later(CycleState::initial(), inputs, n);
}

/// The generator at the start of period `n` of a run from power-up. The
/// timer was started with its set-up, and in each period `k` so far the cycle
/// wrote its widths `delays[k]` ticks into the period.
pub open spec fn generator_before(
    inputs: Seq<CycleInput>,
    delays: Seq<nat>,
    n: int,
) -> PulseGenerator
    decreases n,
{
    if n <= 0 {
        PulseGenerator::started(servo_timer_setup())
    } else {
        generator_before(inputs, delays, n - 1).ticks(delays[n - 1]).with_widths(
            applied_in(CycleState::initial(), inputs, n - 1),
        ).ticks((PERIOD_TICKS - delays[n - 1]) as nat)
    }
}

/// The generator `t` ticks into period `n` of a run from power-up.
pub open spec fn generator_in(
    inputs: Seq<CycleInput>,
    delays: Seq<nat>,
    n: int,
    t: nat,
) -> PulseGenerator {
    let at_start = generator_before(inputs, delays, n);
    if t < delays[n] {
        at_start.ticks(t)
    } else {
        at_start.ticks(delays[n]).with_widths(applied_in(CycleState::initial(), inputs, n)).ticks(
            (t - delays[n]) as nat,
        )
    }
}

/// Whether the cycle always writes its widths before the shortest pulse a
/// servo accepts could have ended.
pub open spec fn writes_in_time(delays: Seq<nat>) -> bool {
    forall|k: int| 0 <= k < delays.len() ==> #[trigger] delays[k] < MIN_PULSE_TICKS
}

/// Every period of a run from power-up begins with the counter at 0, both
/// pins raised, and in the registers the widths that the period before
/// applied, or those of the set-up where there was none.
pub proof fn lemma_every_period_starts_whole(inputs: Seq<CycleInput>, delays: Seq<nat>, n: int)
    requires
        0 <= n <= inputs.len(),
        delays.len() == inputs.len(),
        writes_in_time(delays),
    ensures
        generator_before(inputs, delays, n).at_period_start(),
        generator_before(inputs, delays, n) == PulseGenerator::started(
            servo_timer_setup(),
        ).with_widths(
            if n == 0 {
                servo_timer_setup().widths
            } else {
                applied_in(CycleState::initial(), inputs, n - 1)
            },
        ),
    decreases n,
{
    if n > 0 {
        let before = generator_before(inputs, delays, n - 1);
        let widths = applied_in(CycleState::initial(), inputs, n - 1);
        lemma_every_period_starts_whole(inputs, delays, n - 1);
        lemma_applied_widths_from_table(inputs, n - 1);
        lemma_fixed_widths_are_servo_widths(
            state_before(CycleState::initial(), inputs, n - 1).profile.command,
        );
        if n > 1 {
            lemma_applied_widths_from_table(inputs, n - 2);
            lemma_fixed_widths_are_servo_widths(
                state_before(CycleState::initial(), inputs, n - 2).profile.command,
            );
        }
        lemma_early_rewrite_keeps_pulses_whole(before, delays[n - 1], widths, delays[n - 1]);
    }
}

/// The wave follows the decisions, one period behind. In a run from power-up
/// in which the cycle always writes its widths in time, each pin is raised,
/// at every tick of every period, exactly while the tick lies within the
/// width applied in that period. From the second period on that width is the
/// one of the command decided in the period before; in the first it is
/// neutral.
pub proof fn lemma_wave_follows_decisions(
    inputs: Seq<CycleInput>,
    delays: Seq<nat>,
    n: int,
    t: nat,
)
    requires
        0 <= n < inputs.len(),
        delays.len() == inputs.len(),
        writes_in_time(delays),
        t < PERIOD_TICKS,
    ensures
        generator_in(inputs, delays, n, t).left_high == (t < applied_in(
            CycleState::initial(),
            inputs,
            n,
        ).left),
        generator_in(inputs, delays, n, t).right_high == (t < applied_in(
            CycleState::initial(),
            inputs,
            n,
        ).right),
        n == 0 ==> applied_in(CycleState::initial(), inputs, n) == servo_timer_setup().widths,
        n > 0 ==> applied_in(CycleState::initial(), inputs, n) == fixed_profile(
            decided_in(CycleState::initial(), inputs, n - 1),
        ).widths(),
{
    let start = CycleState::initial();
    let at_start = generator_before(inputs, delays, n);
    let widths = applied_in(start, inputs, n);
    lemma_every_period_starts_whole(inputs, delays, n);
    lemma_applied_widths_from_table(inputs, n);
    lemma_fixed_widths_are_servo_widths(state_before(start, inputs, n).profile.command);
    if n > 0 {
        lemma_applied_widths_from_table(inputs, n - 1);
        lemma_fixed_widths_are_servo_widths(state_before(start, inputs, n - 1).profile.command);
    }
    if t < delays[n] {
        lemma_pulse_shape(at_start, t);
    } else {
        lemma_early_rewrite_keeps_pulses_whole(at_start, delays[n], widths, t);
    }
    if n == 0 {
        lemma_first_period_applies_neutral(inputs);
    } else {
        lemma_decision_applies_one_period_later(start, inputs, n - 1);
    }
}

} // verus!

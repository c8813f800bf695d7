//! The pulse generator: its set-up, and a model of the wave it puts out.
//!
//! One timer counts ticks of a microsecond and starts over every 20000 of
//! them, which is one pulse period. It has three compare registers. Register
//! 0 holds the length of the period; registers 1 and 2 hold the pulse widths
//! of the left and the right servo. When the counter reaches the value of a
//! register, the register's compare event fires. Four routes lead from
//! compare events to the two output pins, and each makes its pin change
//! level: the end of the period raises both pins, a servo's own register
//! lowers its pin. No instruction runs while a pulse is put out, so a pulse
//! is exactly as long as its register says.
//!
//! `timer_setup` and `routes` give the values that are written to the
//! hardware. `PulseGenerator` is the model, and the lemmas below it say what
//! wave the set-up produces, why rewriting the widths early in a period never
//! breaks a pulse, and how rewriting them late can.

use vstd::prelude::*;
use crate::command::{PulseWidths, MAX_PULSE_TICKS, MIN_PULSE_TICKS, NEUTRAL_PULSE_TICKS};

verus! {

/// Length of one pulse period, in ticks.
pub const PERIOD_TICKS: u32 = 20_000;

/// Ticks the timer counts in one second.
pub const TICKS_PER_SECOND: u32 = 1_000_000;

/// Pulses each servo receives in one second.
pub const PULSES_PER_SECOND: u32 = 50;

/// The compare register that ends the period.
pub const PERIOD_COMPARE: usize = 0;

/// The compare register that ends the left servo's pulse.
pub const LEFT_COMPARE: usize = 1;

/// The compare register that ends the right servo's pulse.
pub const RIGHT_COMPARE: usize = 2;

/// Mode register: count ticks of the clock.
pub const MODE_TIMER: u32 = 0;

/// Counter width register: 16 bits.
pub const BITMODE_16: u32 = 0;

/// The widest count a 16-bit counter holds.
pub const COUNTER_LIMIT: u32 = 0xffff;

/// Shortcut register: start the counter over when compare register 0 fires.
pub const SHORT_COMPARE0_CLEAR: u32 = 0x0000_0001;

/// Interrupt enable register: raise the interrupt when compare register 0
/// fires.
pub const INTERRUPT_COMPARE0: u32 = 0x0001_0000;

/// Value that triggers a task when written to its register.
pub const TRIGGER: u32 = 1;

/// Value that acknowledges an event when written to its register.
pub const CLEAR_EVENT: u32 = 0;

/// The two outputs of the generator.
#[derive(Clone, Copy, Debug, PartialEq, Eq, Structural)]
pub enum Servo {
    Left,
    Right,
}

/// A route from a compare event to an output: when the event of compare
/// register `compare` fires, the pin of `servo` changes level.
#[derive(Clone, Copy, Debug, PartialEq, Eq, Structural)]
pub struct Route {
    pub compare: usize,
    pub servo: Servo,
}

/// The values written to the timer before it is started.
#[derive(Clone, Copy, Debug, PartialEq, Eq, Structural)]
pub struct TimerSetup {
    pub mode: u32,
    pub bitmode: u32,
    pub period: u32,
    pub widths: PulseWidths,
    pub shortcuts: u32,
    pub interrupts: u32,
}

/// The routes, in the order of the channels that carry them.
pub open spec fn route_table() -> Seq<Route> {
    seq![
        Route { compare: 0, servo: Servo::Left },
        Route { compare: 1, servo: Servo::Left },
        Route { compare: 0, servo: Servo::Right },
        Route { compare: 2, servo: Servo::Right },
    ]
}

/// The set-up of the timer: a period of 20000 ticks that repeats by itself
/// and announces each new period, and both servos at neutral.
pub open spec fn servo_timer_setup() -> TimerSetup {
    TimerSetup {
        mode: 0,
        bitmode: 0,
        period: 20_000,
        widths: PulseWidths { left: 1500, right: 1500 },
        shortcuts: 1,
        interrupts: 0x0001_0000,
    }
}

/// The values to write to the timer before starting it.
pub fn timer_setup() -> (setup: TimerSetup)
    ensures
        setup == servo_timer_setup(),
        setup.period <= COUNTER_LIMIT,
        MIN_PULSE_TICKS <= setup.widths.left <= MAX_PULSE_TICKS < setup.period,
        MIN_PULSE_TICKS <= setup.widths.right <= MAX_PULSE_TICKS < setup.period,
        setup.period * PULSES_PER_SECOND == TICKS_PER_SECOND,
{
    TimerSetup {
        mode: MODE_TIMER,
        bitmode: BITMODE_16,
        period: PERIOD_TICKS,
        widths: PulseWidths { left: NEUTRAL_PULSE_TICKS, right: NEUTRAL_PULSE_TICKS },
        shortcuts: SHORT_COMPARE0_CLEAR,
        interrupts: INTERRUPT_COMPARE0,
    }
}

/// The four routes from compare events to output pins.
pub fn routes() -> (table: [Route; 4])
    ensures
        table@ == route_table(),
{
    let table = [
        Route { compare: PERIOD_COMPARE, servo: Servo::Left },
        Route { compare: LEFT_COMPARE, servo: Servo::Left },
        Route { compare: PERIOD_COMPARE, servo: Servo::Right },
        Route { compare: RIGHT_COMPARE, servo: Servo::Right },
    ];
    assert(table@ =~= route_table());
    table
}

/// The generator between two ticks: the counter, the three compare
/// registers, and the levels of the two pins.
pub struct PulseGenerator {
    pub counter: int,
    pub period: int,
    pub left: int,
    pub right: int,
    pub left_high: bool,
    pub right_high: bool,
}

impl PulseGenerator {
    /// The generator at the moment the timer is started with a set-up: the
    /// counter at 0 and both pins raised.
    pub open spec fn started(setup: TimerSetup) -> PulseGenerator {
        PulseGenerator {
            counter: 0,
            period: setup.period as int,
            left: setup.widths.left as int,
            right: setup.widths.right as int,
            left_high: true,
            right_high: true,
        }
    }

    /// The value of a compare register.
    pub open spec fn compare_value(self, compare: int) -> int {
        if compare == 0 {
            self.period
        } else if compare == 1 {
            self.left
        } else {
            self.right
        }
    }

    /// Whether a servo's pin changes level when the counter reaches `count`:
    /// it does where a route leads to the pin from a compare register that
    /// holds `count`.
    pub open spec fn toggles(self, servo: Servo, count: int) -> bool {
        exists|i: int|
            0 <= i < route_table().len() && (#[trigger] route_table()[i]).servo == servo
                && self.compare_value(route_table()[i].compare as int) == count
    }

    /// The generator one tick later.
    pub open spec fn tick(self) -> PulseGenerator {
        let reached = self.counter + 1;
        PulseGenerator {
            counter: if reached == self.period {
                0
            } else {
                reached
            },
            period: self.period,
            left: self.left,
            right: self.right,
            left_high: self.left_high != self.toggles(Servo::Left, reached),
            right_high: self.right_high != self.toggles(Servo::Right, reached),
        }
    }

    /// The generator `n` ticks later.
    pub open spec fn ticks(self, n: nat) -> PulseGenerator
        decreases n,
    {
        if n == 0 {
            self
        } else {
            self.ticks((n - 1) as nat).tick()
        }
    }

    /// The generator after the two width registers have been rewritten.
    pub open spec fn with_widths(self, widths: PulseWidths) -> PulseGenerator {
        PulseGenerator {
            counter: self.counter,
            period: self.period,
            left: widths.left as int,
            right: widths.right as int,
            left_high: self.left_high,
            right_high: self.right_high,
        }
    }

    /// Whether both pulses are under way: both pins are raised, and the
    /// counter has reached neither width yet.
    pub open spec fn in_pulse(self) -> bool {
        &&& 0 <= self.counter
        &&& self.counter < self.left < self.period
        &&& self.counter < self.right < self.period
        &&& self.left_high
        &&& self.right_high
    }

    /// Whether a period is just beginning with both pulses under way.
    pub open spec fn at_period_start(self) -> bool {
        self.counter == 0 && self.in_pulse()
    }
}

/// Whether both widths are ones a servo accepts.
pub open spec fn servo_widths(widths: PulseWidths) -> bool {
    &&& MIN_PULSE_TICKS <= widths.left <= MAX_PULSE_TICKS
    &&& MIN_PULSE_TICKS <= widths.right <= MAX_PULSE_TICKS
}

/// What the routes amount to: a pin changes level at the end of the period
/// and when the counter reaches the pin's own width, and at no other count.
pub proof fn lemma_routes_raise_and_lower(generator: PulseGenerator, count: int)
    ensures
        generator.toggles(Servo::Left, count) <==> count == generator.period || count
            == generator.left,
        generator.toggles(Servo::Right, count) <==> count == generator.period || count
            == generator.right,
{
    let table = route_table();
    if count == generator.period {
        assert(table[0].servo == Servo::Left && table[0].compare == 0);
        assert(table[2].servo == Servo::Right && table[2].compare == 0);
    }
    if count == generator.left {
        assert(table[1].servo == Servo::Left && table[1].compare == 1);
    }
    if count == generator.right {
        assert(table[3].servo == Servo::Right && table[3].compare == 2);
    }
}

/// Ticks add up.
pub proof fn lemma_ticks_add(generator: PulseGenerator, a: nat, b: nat)
    ensures
        generator.ticks(a + b) == generator.ticks(a).ticks(b),
    decreases b,
{
    if b > 0 {
        lemma_ticks_add(generator, a, (b - 1) as nat);
        assert(generator.ticks(a + b) == generator.ticks((a + b - 1) as nat).tick());
    }
}

/// The shape of a pulse. From a moment at which both pulses are under way,
/// each pin stays raised until the counter reaches the pin's width and stays
/// lowered from then on; when the counter reaches the period it starts over
/// with both pins raised again. The registers keep their values.
pub proof fn lemma_pulse_shape(generator: PulseGenerator, n: nat)
    requires
        generator.in_pulse(),
        generator.counter + n <= generator.period,
    ensures
        generator.ticks(n).period == generator.period,
        generator.ticks(n).left == generator.left,
        generator.ticks(n).right == generator.right,
        generator.counter + n < generator.period ==> {
            &&& generator.ticks(n).counter == generator.counter + n
            &&& generator.ticks(n).left_high == (generator.counter + n < generator.left)
            &&& generator.ticks(n).right_high == (generator.counter + n < generator.right)
        },
        generator.counter + n == generator.period ==> generator.ticks(n).at_period_start(),
    decreases n,
{
    if n > 0 {
        let before = generator.ticks((n - 1) as nat);
        lemma_pulse_shape(generator, (n - 1) as nat);
        lemma_routes_raise_and_lower(before, before.counter + 1);
    }
}

/// One whole period. A generator that begins a period with both pulses under
/// way puts out, on each pin, a pulse as long as the pin's width register
/// says, and is back where it began when the period is over.
pub proof fn lemma_period_carries_one_pulse(generator: PulseGenerator, t: nat)
    requires
        generator.at_period_start(),
        t < generator.period,
    ensures
        generator.ticks(t).left_high == (t < generator.left),
        generator.ticks(t).right_high == (t < generator.right),
        generator.ticks(generator.period as nat) == generator,
{
    lemma_pulse_shape(generator, t);
    lemma_pulse_shape(generator, generator.period as nat);
}

/// The wave repeats: whole periods that have gone by change nothing.
pub proof fn lemma_wave_repeats(generator: PulseGenerator, periods: nat, t: nat)
    requires
        generator.at_period_start(),
    ensures
        generator.ticks(periods * (generator.period as nat) + t) == generator.ticks(t),
    decreases periods,
{
    let period = generator.period as nat;
    if periods > 0 {
        lemma_wave_repeats(generator, (periods - 1) as nat, t);
        lemma_period_carries_one_pulse(generator, 0);
        assert(periods * period + t == period + ((periods - 1) * period + t)) by (nonlinear_arith)
            requires
                periods > 0,
        ;
        lemma_ticks_add(generator, period, ((periods - 1) * period + t) as nat);
    } else {
        assert(periods * period + t == t) by (nonlinear_arith)
            requires
                periods == 0,
        ;
    }
}

/// Rewriting the widths early in a period never breaks a pulse. Let the
/// widths be rewritten `delay` ticks into a period, before the shortest pulse
/// a servo accepts could have ended. Then the pulses of this very period
/// already have the new widths, each pin changes level exactly once more
/// before the period is over, and the next period begins like any other.
pub proof fn lemma_early_rewrite_keeps_pulses_whole(
    generator: PulseGenerator,
    delay: nat,
    widths: PulseWidths,
    t: nat,
)
    requires
        generator.at_period_start(),
        generator.period == PERIOD_TICKS,
        MIN_PULSE_TICKS <= generator.left,
        MIN_PULSE_TICKS <= generator.right,
        servo_widths(widths),
        delay < MIN_PULSE_TICKS,
        delay <= t < PERIOD_TICKS,
    ensures
        ({
            let rewritten = generator.ticks(delay).with_widths(widths);
            &&& rewritten.ticks((t - delay) as nat).counter == t
            &&& rewritten.ticks((t - delay) as nat).left_high == (t < widths.left)
            &&& rewritten.ticks((t - delay) as nat).right_high == (t < widths.right)
            &&& rewritten.ticks((PERIOD_TICKS - delay) as nat) == generator.with_widths(widths)
            &&& generator.with_widths(widths).at_period_start()
        }),
{
    lemma_pulse_shape(generator, delay);
    let rewritten = generator.ticks(delay).with_widths(widths);
    lemma_pulse_shape(rewritten, (t - delay) as nat);
    lemma_pulse_shape(rewritten, (PERIOD_TICKS - delay) as nat);
}

/// A width that the counter has already passed lowers nothing. If the left
/// width register holds no more than the counter, the left pin keeps its
/// level until the period ends, and changes it then.
pub proof fn lemma_passed_width_comes_too_late(generator: PulseGenerator, n: nat)
    requires
        0 <= generator.left <= generator.counter < generator.period,
        generator.counter + n <= generator.period,
    ensures
        generator.counter + n < generator.period ==> {
            &&& generator.ticks(n).counter == generator.counter + n
            &&& generator.ticks(n).left_high == generator.left_high
        },
        generator.counter + n == generator.period ==> {
            &&& generator.ticks(n).counter == 0
            &&& generator.ticks(n).left_high == !generator.left_high
        },
        generator.ticks(n).period == generator.period,
        generator.ticks(n).left == generator.left,
    decreases n,
{
    if n > 0 {
        let before = generator.ticks((n - 1) as nat);
        lemma_passed_width_comes_too_late(generator, (n - 1) as nat);
        lemma_routes_raise_and_lower(before, before.counter + 1);
    }
}

/// Why the widths are written early. Let a pulse be shortened so late that
/// the counter has passed the new width while the pin is still raised. Then
/// nothing lowers the pin in this period, the end of the period lowers it
/// instead of raising it, and the next period begins with the wave upside
/// down.
pub proof fn lemma_late_rewrite_breaks_pulse(
    generator: PulseGenerator,
    delay: nat,
    widths: PulseWidths,
)
    requires
        generator.at_period_start(),
        widths.left <= delay < generator.left,
    ensures
        ({
            let rewritten = generator.ticks(delay).with_widths(widths);
            let next = rewritten.ticks((generator.period - delay) as nat);
            &&& rewritten.left_high
            &&& next.counter == 0
            &&& !next.left_high
            &&& !next.at_period_start()
        }),
{
    lemma_pulse_shape(generator, delay);
    let rewritten = generator.ticks(delay).with_widths(widths);
    lemma_passed_width_comes_too_late(rewritten, (generator.period - delay) as nat);
}

/// The set-up starts the generator at the beginning of a period, with both
/// pulses under way at neutral width.
pub proof fn lemma_setup_starts_a_period()
    ensures
        PulseGenerator::started(servo_timer_setup()).at_period_start(),
        PulseGenerator::started(servo_timer_setup()).period == PERIOD_TICKS,
        PulseGenerator::started(servo_timer_setup()).left == NEUTRAL_PULSE_TICKS,
        PulseGenerator::started(servo_timer_setup()).right == NEUTRAL_PULSE_TICKS,
{
}

} // verus!

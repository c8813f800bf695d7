use light_drive::command::{DriveCommand, PulseWidths};
use light_drive::cycle::{ControlCycle, CycleInput, CycleOutput};
use light_drive::icon::Icon;
use light_drive::sensor::SensorFault;

fn reading(value: i16, enabled: bool) -> CycleInput {
    CycleInput { sample: Some(Ok(value)), enabled: Some(enabled) }
}

fn widths(left: u32, right: u32) -> PulseWidths {
    PulseWidths { left, right }
}

#[test]
fn new_cycle_stands_still() {
    let cycle = ControlCycle::new();
    assert_eq!(cycle.command(), DriveCommand::Stopped);
    assert_eq!(cycle.last_reading(), 0);
    assert!(!cycle.cached_enabled());
    assert_eq!(cycle.pulse_widths(), widths(1500, 1500));
}

#[test]
fn disabled_with_bright_light_stops() {
    let mut cycle = ControlCycle::new();
    let output = cycle.run(reading(500, false));
    assert_eq!(output.command, DriveCommand::Stopped);
    assert_eq!(output.icon, Icon::Smile);
    assert_eq!(cycle.command(), DriveCommand::Stopped);
    assert_eq!(cycle.pulse_widths(), widths(1500, 1500));
}

#[test]
fn enabled_reading_40_turns_left_in_the_following_period() {
    let mut cycle = ControlCycle::new();
    let first = cycle.run(reading(40, true));
    assert_eq!(first.command, DriveCommand::Left);
    assert_eq!(first.icon, Icon::ArrowLeft);
    assert_eq!(first.applied, widths(1500, 1500));
    let second = cycle.run(reading(40, true));
    assert_eq!(second.applied, widths(2500, 1500));
}

#[test]
fn enabled_reading_150_drives_forward() {
    let mut cycle = ControlCycle::new();
    let output = cycle.run(reading(150, true));
    assert_eq!(output.command, DriveCommand::Forward);
    assert_eq!(output.icon, Icon::ArrowDown);
    assert_eq!(cycle.pulse_widths(), widths(2500, 500));
}

#[test]
fn enabled_reading_280_backs_up() {
    let mut cycle = ControlCycle::new();
    let output = cycle.run(reading(280, true));
    assert_eq!(output.command, DriveCommand::Back);
    assert_eq!(output.icon, Icon::ArrowUp);
    assert_eq!(cycle.pulse_widths(), widths(500, 2500));
}

#[test]
fn failed_conversion_while_enabled_turns_left() {
    let mut cycle = ControlCycle::new();
    let output = cycle.run(CycleInput { sample: Some(Err(SensorFault)), enabled: Some(true) });
    assert_eq!(output.command, DriveCommand::Left);
    assert_eq!(output.icon, Icon::ArrowLeft);
    assert_eq!(cycle.last_reading(), 0);
    assert_eq!(cycle.pulse_widths(), widths(2500, 1500));
}

#[test]
fn enabled_bright_light_turns_right() {
    let mut cycle = ControlCycle::new();
    let output = cycle.run(reading(321, true));
    assert_eq!(output.command, DriveCommand::Right);
    assert_eq!(output.icon, Icon::ArrowRight);
    assert_eq!(cycle.pulse_widths(), widths(1500, 500));
}

#[test]
fn whole_period_output_is_exact() {
    let mut cycle = ControlCycle::new();
    cycle.run(reading(150, true));
    let output = cycle.run(reading(280, true));
    assert_eq!(
        output,
        CycleOutput {
            applied: widths(2500, 500),
            command: DriveCommand::Back,
            icon: Icon::ArrowUp,
        }
    );
}

#[test]
fn decision_reaches_the_outputs_one_period_later() {
    let readings: [i16; 8] = [40, 150, 280, 500, 64, 65, 320, 321];
    let decided = [
        DriveCommand::Left,
        DriveCommand::Forward,
        DriveCommand::Back,
        DriveCommand::Right,
        DriveCommand::Left,
        DriveCommand::Forward,
        DriveCommand::Back,
        DriveCommand::Right,
    ];
    let expected_widths = [
        widths(2500, 1500),
        widths(2500, 500),
        widths(500, 2500),
        widths(1500, 500),
        widths(2500, 1500),
        widths(2500, 500),
        widths(500, 2500),
        widths(1500, 500),
    ];
    let mut cycle = ControlCycle::new();
    let mut previous = widths(1500, 1500);
    for n in 0..readings.len() {
        let output = cycle.run(reading(readings[n], true));
        assert_eq!(output.applied, previous);
        assert_eq!(output.command, decided[n]);
        assert_eq!(cycle.pulse_widths(), expected_widths[n]);
        previous = expected_widths[n];
    }
}

#[test]
fn widths_of_a_period_do_not_depend_on_what_it_observes() {
    let mut one = ControlCycle::new();
    let mut other = ControlCycle::new();
    one.run(reading(150, true));
    other.run(reading(150, true));
    let from_dark = one.run(reading(0, true));
    let from_bright = other.run(reading(1000, false));
    assert_eq!(from_dark.applied, widths(2500, 500));
    assert_eq!(from_bright.applied, widths(2500, 500));
}

#[test]
fn reading_across_a_boundary_flips_the_command_at_once() {
    let mut cycle = ControlCycle::new();
    assert_eq!(cycle.run(reading(220, true)).command, DriveCommand::Forward);
    assert_eq!(cycle.run(reading(221, true)).command, DriveCommand::Back);
    assert_eq!(cycle.run(reading(220, true)).command, DriveCommand::Forward);
}

#[test]
fn disabling_stops_in_the_next_period() {
    let mut cycle = ControlCycle::new();
    cycle.run(reading(150, true));
    let output = cycle.run(reading(150, false));
    assert_eq!(output.applied, widths(2500, 500));
    assert_eq!(output.command, DriveCommand::Stopped);
    assert_eq!(output.icon, Icon::Smile);
    assert_eq!(cycle.pulse_widths(), widths(1500, 1500));
}

#[test]
fn failed_conversion_cannot_be_told_from_reading_zero() {
    for enabled in [false, true] {
        for earlier in [40, 150, 280, 500] {
            let mut failed = ControlCycle::new();
            let mut zero = ControlCycle::new();
            failed.run(reading(earlier, true));
            zero.run(reading(earlier, true));
            let on_failure =
                failed.run(CycleInput { sample: Some(Err(SensorFault)), enabled: Some(enabled) });
            let on_zero = zero.run(reading(0, enabled));
            assert_eq!(on_failure, on_zero);
            assert_eq!(failed.command(), zero.command());
            assert_eq!(failed.last_reading(), zero.last_reading());
            assert_eq!(failed.cached_enabled(), zero.cached_enabled());
            assert_eq!(failed.pulse_widths(), zero.pulse_widths());
        }
    }
}

#[test]
fn cycle_goes_on_after_a_failed_conversion() {
    let mut cycle = ControlCycle::new();
    cycle.run(CycleInput { sample: Some(Err(SensorFault)), enabled: Some(true) });
    let output = cycle.run(reading(150, true));
    assert_eq!(output.applied, widths(2500, 1500));
    assert_eq!(output.command, DriveCommand::Forward);
}

#[test]
fn icon_always_shows_the_command_just_decided() {
    let mut cycle = ControlCycle::new();
    let inputs = [
        reading(40, true),
        reading(150, true),
        reading(280, false),
        reading(500, true),
        CycleInput { sample: Some(Err(SensorFault)), enabled: Some(true) },
        reading(280, true),
    ];
    for input in inputs {
        let output = cycle.run(input);
        assert_eq!(output.icon, Icon::for_command(output.command));
        assert_eq!(output.command, cycle.command());
    }
}

#[test]
fn observe_stores_reading_and_flag() {
    let mut cycle = ControlCycle::new();
    cycle.observe(reading(280, true));
    assert_eq!(cycle.last_reading(), 280);
    assert!(cycle.cached_enabled());
    assert_eq!(cycle.command(), DriveCommand::Stopped);
    assert_eq!(cycle.pulse_widths(), widths(1500, 1500));
}

#[test]
fn decide_uses_what_was_last_observed() {
    let mut cycle = ControlCycle::new();
    cycle.observe(reading(280, true));
    assert_eq!(cycle.decide(), Icon::ArrowUp);
    assert_eq!(cycle.command(), DriveCommand::Back);
    assert_eq!(cycle.pulse_widths(), widths(500, 2500));
    assert_eq!(cycle.decide(), Icon::ArrowUp);
    assert_eq!(cycle.command(), DriveCommand::Back);
}

#[test]
fn absent_sensor_keeps_the_last_reading() {
    let mut cycle = ControlCycle::new();
    cycle.run(reading(150, true));
    let output = cycle.run(CycleInput { sample: None, enabled: Some(true) });
    assert_eq!(cycle.last_reading(), 150);
    assert_eq!(output.command, DriveCommand::Forward);
}

#[test]
fn unpublished_flag_keeps_the_cached_one() {
    let mut cycle = ControlCycle::new();
    let output = cycle.run(CycleInput { sample: Some(Ok(150)), enabled: None });
    assert!(!cycle.cached_enabled());
    assert_eq!(output.command, DriveCommand::Stopped);
    cycle.run(reading(150, true));
    let output = cycle.run(CycleInput { sample: Some(Ok(280)), enabled: None });
    assert!(cycle.cached_enabled());
    assert_eq!(output.command, DriveCommand::Back);
}

#[test]
fn replay_runs_one_period_per_input() {
    let inputs = vec![
        reading(40, true),
        reading(150, true),
        CycleInput { sample: Some(Err(SensorFault)), enabled: None },
        reading(280, false),
        reading(500, true),
    ];
    let mut cycle = ControlCycle::new();
    let outputs = cycle.replay(&inputs);
    assert_eq!(
        outputs,
        vec![
            CycleOutput {
                applied: widths(1500, 1500),
                command: DriveCommand::Left,
                icon: Icon::ArrowLeft,
            },
            CycleOutput {
                applied: widths(2500, 1500),
                command: DriveCommand::Forward,
                icon: Icon::ArrowDown,
            },
            CycleOutput {
                applied: widths(2500, 500),
                command: DriveCommand::Left,
                icon: Icon::ArrowLeft,
            },
            CycleOutput {
                applied: widths(2500, 1500),
                command: DriveCommand::Stopped,
                icon: Icon::Smile,
            },
            CycleOutput {
                applied: widths(1500, 1500),
                command: DriveCommand::Right,
                icon: Icon::ArrowRight,
            },
        ]
    );
    assert_eq!(cycle.command(), DriveCommand::Right);
    assert_eq!(cycle.pulse_widths(), widths(1500, 500));
}

#[test]
fn replay_of_nothing_changes_nothing() {
    let mut cycle = ControlCycle::new();
    cycle.run(reading(150, true));
    let outputs = cycle.replay(&Vec::new());
    assert!(outputs.is_empty());
    assert_eq!(cycle.command(), DriveCommand::Forward);
    assert_eq!(cycle.last_reading(), 150);
    assert!(cycle.cached_enabled());
}

#[test]
fn replay_agrees_with_running_period_by_period() {
    let inputs = vec![
        reading(64, true),
        reading(65, true),
        reading(220, true),
        reading(221, false),
        reading(320, true),
        reading(321, true),
    ];
    let mut replayed = ControlCycle::new();
    let outputs = replayed.replay(&inputs);
    let mut stepped = ControlCycle::new();
    for n in 0..inputs.len() {
        assert_eq!(stepped.run(inputs[n]), outputs[n]);
    }
    assert_eq!(stepped.command(), replayed.command());
    assert_eq!(stepped.pulse_widths(), replayed.pulse_widths());
}

#[test]
fn vehicle_stands_still_until_a_flag_is_published() {
    let inputs = vec![
        CycleInput { sample: Some(Ok(150)), enabled: None },
        CycleInput { sample: Some(Ok(500)), enabled: None },
        CycleInput { sample: Some(Err(SensorFault)), enabled: None },
    ];
    let mut cycle = ControlCycle::new();
    for output in cycle.replay(&inputs) {
        assert_eq!(output.applied, widths(1500, 1500));
        assert_eq!(output.command, DriveCommand::Stopped);
        assert_eq!(output.icon, Icon::Smile);
    }
}

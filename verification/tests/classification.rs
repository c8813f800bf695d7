use light_drive::command::DriveCommand;
use light_drive::sensor::{
    classify, next_command, reading_or_zero, SensorFault, BACK_MAX, FAILED_READING, FORWARD_MAX,
    LEFT_MAX,
};

#[test]
fn reading_64_is_left() {
    assert_eq!(classify(64), DriveCommand::Left);
}

#[test]
fn reading_65_is_forward() {
    assert_eq!(classify(65), DriveCommand::Forward);
}

#[test]
fn reading_220_is_forward() {
    assert_eq!(classify(220), DriveCommand::Forward);
}

#[test]
fn reading_221_is_back() {
    assert_eq!(classify(221), DriveCommand::Back);
}

#[test]
fn reading_320_is_back() {
    assert_eq!(classify(320), DriveCommand::Back);
}

#[test]
fn reading_321_is_right() {
    assert_eq!(classify(321), DriveCommand::Right);
}

#[test]
fn thresholds_are_the_last_reading_of_each_bin() {
    assert_eq!(LEFT_MAX, 64);
    assert_eq!(FORWARD_MAX, 220);
    assert_eq!(BACK_MAX, 320);
}

#[test]
fn darkest_and_negative_readings_are_left() {
    assert_eq!(classify(0), DriveCommand::Left);
    assert_eq!(classify(-1), DriveCommand::Left);
    assert_eq!(classify(i16::MIN), DriveCommand::Left);
}

#[test]
fn brightest_reading_is_right() {
    assert_eq!(classify(1023), DriveCommand::Right);
    assert_eq!(classify(i16::MAX), DriveCommand::Right);
}

#[test]
fn every_reading_falls_in_the_bin_of_the_table() {
    let mut reading = i16::MIN;
    loop {
        let expected = if reading <= 64 {
            DriveCommand::Left
        } else if reading <= 220 {
            DriveCommand::Forward
        } else if reading <= 320 {
            DriveCommand::Back
        } else {
            DriveCommand::Right
        };
        assert_eq!(classify(reading), expected);
        assert_eq!(next_command(true, reading), expected);
        if reading == i16::MAX {
            break;
        }
        reading += 1;
    }
}

#[test]
fn disabled_is_stopped_for_every_reading() {
    let mut reading = i16::MIN;
    loop {
        assert_eq!(next_command(false, reading), DriveCommand::Stopped);
        if reading == i16::MAX {
            break;
        }
        reading += 1;
    }
}

#[test]
fn enabled_follows_the_reading() {
    assert_eq!(next_command(true, 40), DriveCommand::Left);
    assert_eq!(next_command(true, 150), DriveCommand::Forward);
    assert_eq!(next_command(true, 280), DriveCommand::Back);
    assert_eq!(next_command(true, 500), DriveCommand::Right);
}

#[test]
fn successful_conversion_keeps_its_reading() {
    assert_eq!(reading_or_zero(Ok(150)), 150);
    assert_eq!(reading_or_zero(Ok(-7)), -7);
    assert_eq!(reading_or_zero(Ok(0)), 0);
}

#[test]
fn failed_conversion_reads_zero() {
    assert_eq!(FAILED_READING, 0);
    assert_eq!(reading_or_zero(Err(SensorFault)), 0);
    assert_eq!(
        next_command(true, reading_or_zero(Err(SensorFault))),
        DriveCommand::Left
    );
}

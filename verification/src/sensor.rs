//! Readings of the light sensor and the command each reading calls for.
//!
//! A reading is the raw signed value of one conversion. Every value falls in
//! exactly one of four bins; the bin names the command.

use vstd::prelude::*;
use crate::command::DriveCommand;

verus! {

/// Highest reading that steers left.
pub const LEFT_MAX: i16 = 64;

/// Highest reading that drives forward.
pub const FORWARD_MAX: i16 = 220;

/// Highest reading that backs up; anything brighter steers right.
pub const BACK_MAX: i16 = 320;

/// The reading that stands in for a conversion that failed.
pub const FAILED_READING: i16 = 0;

/// A conversion that did not deliver a value.
#[derive(Clone, Copy, Debug, PartialEq, Eq)]
pub struct SensorFault;

/// The bin a reading falls in.
pub open spec fn classification(reading: int) -> DriveCommand {
    if reading <= 64 {
        DriveCommand::Left
    } else if reading <= 220 {
        DriveCommand::Forward
    } else if reading <= 320 {
        DriveCommand::Back
    } else {
        DriveCommand::Right
    }
}

/// The command for the coming period: the reading's bin while driving is
/// enabled, `Stopped` otherwise.
pub open spec fn commanded(enabled: bool, reading: int) -> DriveCommand {
    if enabled {
        classification(reading)
    } else {
        DriveCommand::Stopped
    }
}

/// The value a conversion contributes: what it read, or 0 where it failed.
pub open spec fn reading_value(sample: Result<i16, SensorFault>) -> int {
    match sample {
        Ok(reading) => reading as int,
        Err(_) => 0,
    }
}

/// Sorts a reading into its bin.
pub fn classify(reading: i16) -> (command: DriveCommand)
    ensures
        command == classification(reading as int),
{
    if reading <= LEFT_MAX {
        DriveCommand::Left
    } else if reading <= FORWARD_MAX {
        DriveCommand::Forward
    } else if reading <= BACK_MAX {
        DriveCommand::Back
    } else {
        DriveCommand::Right
    }
}

/// Decides the command for the coming period from the enable flag and the
/// reading.
pub fn next_command(enabled: bool, reading: i16) -> (command: DriveCommand)
    ensures
        command == commanded(enabled, reading as int),
{
    if enabled {
        classify(reading)
    } else {
        DriveCommand::Stopped
    }
}

/// Turns the outcome of a conversion into a reading. A failed conversion is
/// not an error of the cycle: it counts as a reading of 0.
pub fn reading_or_zero(sample: Result<i16, SensorFault>) -> (reading: i16)
    ensures
        reading == reading_value(sample),
{
    match sample {
        Ok(reading) => reading,
        Err(_) => FAILED_READING,
    }
}

/// The bins as ranges: each command but `Stopped` owns one interval of
/// readings, the intervals meet without gap or overlap, and no reading is
/// classified as `Stopped`.
pub proof fn lemma_classification_table(reading: int)
    ensures
        classification(reading) == DriveCommand::Left <==> reading <= 64,
        classification(reading) == DriveCommand::Forward <==> 65 <= reading <= 220,
        classification(reading) == DriveCommand::Back <==> 221 <= reading <= 320,
        classification(reading) == DriveCommand::Right <==> 321 <= reading,
        classification(reading) != DriveCommand::Stopped,
{
}

/// While driving is disabled the command is `Stopped`, whatever the sensor
/// reads; while it is enabled the command is never `Stopped`.
pub proof fn lemma_stopped_iff_disabled(enabled: bool, reading: int)
    ensures
        commanded(enabled, reading) == DriveCommand::Stopped <==> !enabled,
        !enabled ==> commanded(enabled, reading) == DriveCommand::Stopped,
        enabled ==> commanded(enabled, reading) == classification(reading),
{
}

/// A failed conversion leads to the same command as a reading of 0, which is
/// `Left` while driving is enabled.
pub proof fn lemma_failed_conversion_reads_zero(enabled: bool, fault: SensorFault)
    ensures
        reading_value(Err(fault)) == reading_value(Ok(0)),
        commanded(enabled, reading_value(Err(fault))) == commanded(enabled, 0),
        enabled ==> commanded(enabled, reading_value(Err(fault))) == DriveCommand::Left,
{
}

} // verus!

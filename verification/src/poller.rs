//! The two buttons that switch driving on and off.
//!
//! The foreground loop reads button A, then button B, over and over. A held
//! button A publishes "enabled", a held button B publishes "disabled". There
//! is no debouncing and no edge detection: a button publishes on every pass
//! for as long as it is held, and whoever published last wins.

use vstd::prelude::*;

verus! {

/// The enable flag as published once at start-up, before any button is read:
/// the vehicle waits for button A.
pub const ENABLED_AT_START: bool = false;

/// The two buttons, in the order in which a pass reads them.
#[derive(Clone, Copy, Debug, PartialEq, Eq, Structural)]
pub enum Button {
    A,
    B,
}

/// Whether a reading of a button's line means the button is held. A button
/// pulls its line low; a reading that failed counts as not held.
pub open spec fn is_held(line_low: Option<bool>) -> bool {
    line_low == Some(true)
}

/// The flag a button publishes when its line is read, if any.
pub open spec fn published(button: Button, line_low: Option<bool>) -> Option<bool> {
    if is_held(line_low) {
        match button {
            Button::A => Some(true),
            Button::B => Some(false),
        }
    } else {
        None
    }
}

/// The enable flag after a publication: what was published, or the flag as
/// it was where nothing was.
pub open spec fn flag_after(flag: Option<bool>, publication: Option<bool>) -> Option<bool> {
    match publication {
        Some(enabled) => Some(enabled),
        None => flag,
    }
}

/// The enable flag after one pass over both buttons.
pub open spec fn flag_after_pass(
    flag: Option<bool>,
    a_low: Option<bool>,
    b_low: Option<bool>,
) -> Option<bool> {
    flag_after(flag_after(flag, published(Button::A, a_low)), published(Button::B, b_low))
}

/// Decides what to publish after reading a button's line: `Some(true)` for a
/// held button A, `Some(false)` for a held button B, nothing otherwise.
pub fn publication(button: Button, line_low: Option<bool>) -> (flag: Option<bool>)
    ensures
        flag == published(button, line_low),
{
    match line_low {
        Some(true) => match button {
            Button::A => Some(true),
            Button::B => Some(false),
        },
        _ => None,
    }
}

/// With both buttons held, button B has the last word: a pass ends with
/// driving disabled whenever B is held, enabled when only A is, and with the
/// flag untouched when neither is.
pub proof fn lemma_button_b_overrides(flag: Option<bool>, a_low: Option<bool>, b_low: Option<bool>)
    ensures
        is_held(b_low) ==> flag_after_pass(flag, a_low, b_low) == Some(false),
        is_held(a_low) && !is_held(b_low) ==> flag_after_pass(flag, a_low, b_low) == Some(true),
        !is_held(a_low) && !is_held(b_low) ==> flag_after_pass(flag, a_low, b_low) == flag,
{
}

/// Once a flag has been published the cell never goes back to unset.
pub proof fn lemma_published_flag_stays_set(
    flag: Option<bool>,
    a_low: Option<bool>,
    b_low: Option<bool>,
)
    requires
        flag is Some,
    ensures
        flag_after_pass(flag, a_low, b_low) is Some,
{
}

} // verus!

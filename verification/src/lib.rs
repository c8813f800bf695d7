//! Control logic of a small vehicle that steers by the light it sees.
//!
//! The vehicle has two wheels, each on a servo of its own, a photocell, two
//! buttons and a display of 5 by 5 LEDs. Fifty times a second it reads the
//! photocell and picks one of five manoeuvres from the reading. Button A lets
//! it drive, button B makes it stand still, and the display shows what it is
//! doing.
//!
//! Nothing here touches hardware. The modules say what to write to the
//! peripherals and what to make of what is read from them:
//!
//! - [`command`]: the manoeuvres and the servo pulse widths of each;
//! - [`sensor`]: the manoeuvre that a reading calls for;
//! - [`icon`]: the picture that shows a manoeuvre;
//! - [`cycle`]: the control cycle that runs once per pulse period;
//! - [`poller`]: what the buttons publish;
//! - [`pwm`]: the set-up of the pulse generator, and the wave it puts out;
//! - [`timeline`]: what holds of the cycle over a run of periods.

pub mod command;
pub mod cycle;
pub mod icon;
pub mod poller;
pub mod pwm;
pub mod sensor;
pub mod timeline;

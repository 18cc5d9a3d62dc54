//! Verified core of an AT/PS2-to-XT keyboard protocol translator.
//!
//! The translator sits between an AT keyboard and an XT host: it receives
//! 11-bit AT frames bit by bit, queues completed frames in a small ring,
//! translates the scan codes through a fixed lookup table and a state
//! machine, and emits XT bytes. The hardware registers are modelled as
//! plain structs so that every decision the firmware makes is verified;
//! an unverified shell performs the actual volatile accesses and delays.

pub mod driver;
pub mod foreground;
pub mod isr;
pub mod keybuffer;
pub mod keyfsm;
pub mod keymap;
pub mod peripheral;
pub mod util;

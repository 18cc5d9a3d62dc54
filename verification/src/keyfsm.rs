//! The translation state machine: it consumes one reply from the
//! foreground executor per step and answers with the next command,
//! recognizing break codes, extended prefixes, the Pause sequence, LED
//! toggle keys and keyboard resets.

use vstd::prelude::*;
use crate::keymap::{lut_lookup, to_xt};

verus! {

/// XT reply: keyboard self-test passed; also dropped when unprompted.
pub const SELF_TEST_PASSED: u8 = 0xaa;
/// AT command: set the keyboard LEDs from the following mask byte.
pub const SET_LEDS: u8 = 0xed;
/// AT command: reset the keyboard.
pub const RESET: u8 = 0xff;
/// AT reply: acknowledge; dropped when unprompted.
pub const ACK: u8 = 0xfa;
/// AT reply: negative acknowledge; dropped when unprompted.
pub const NAK: u8 = 0xfe;
/// AT reply: echo; dropped when unprompted.
pub const ECHO: u8 = 0xee;
/// AT prefix announcing a break (key release) code.
pub const BREAK: u8 = 0xf0;
/// AT prefix announcing an extended code, passed through raw.
pub const PREFIX: u8 = 0xe0;
/// AT prefix opening the Pause sequence.
pub const PREFIX_PAUSE: u8 = 0xe1;
/// Scan code of the Scroll Lock key.
pub const KEY_SCROLL: u8 = 0x7e;
/// Scan code of the Num Lock key.
pub const KEY_NUM: u8 = 0x77;
/// Scan code of the Caps Lock key.
pub const KEY_CAPS: u8 = 0x58;
/// LED mask bit for Scroll Lock.
pub const LED_SCROLL: u8 = 0x01;
/// LED mask bit for Num Lock.
pub const LED_NUM: u8 = 0x02;
/// LED mask bit for Caps Lock.
pub const LED_CAPS: u8 = 0x04;

/// The three keyboard LEDs as a bit mask: Scroll Lock, Num Lock, Caps
/// Lock in bits 0 to 2.
#[derive(Clone, Copy, Debug, PartialEq, Eq, Structural)]
pub struct LedMask {
    pub bits: u8,
}

/// What the foreground executor asks the state machine to do next.
#[derive(Clone, Copy, Debug, PartialEq, Eq, Structural)]
pub enum Cmd {
    WaitForKey,
    ClearBuffer,
    ToggleLed(LedMask),
    SendXTKey(u8),
}

/// What the foreground executor reports back after carrying a command out.
#[derive(Clone, Copy, Debug, PartialEq, Eq, Structural)]
pub enum ProcReply {
    NothingToDo,
    GrabbedKey(u8),
    SentKey(u8),
    ClearedBuffer,
    LedToggled(LedMask),
    KeyboardReset,
}

impl ProcReply {
    pub fn init() -> (r: ProcReply)
        ensures
            r == ProcReply::NothingToDo,
    {
        ProcReply::NothingToDo
    }
}

/// Where the machine stands in the AT byte stream.
#[derive(Clone, Copy, Debug, PartialEq, Eq, Structural)]
pub enum State {
    NotInKey,
    SimpleKey(u8),
    PossibleBreakCode,
    KnownBreakCode(u8),
    UnmodifiedKey(u8),
    ToggleLedFirst(u8),
    Inconsistent,
    ExpectingBufferClear,
}

/// The transition table: next state from the current state, the
/// expecting-pause flag and the reply. A keyboard reset takes every
/// state to `ExpectingBufferClear`; an unexpected pairing falls to
/// `Inconsistent`.
pub open spec fn spec_next_state(s: State, pause: bool, r: ProcReply) -> State {
    match r {
        ProcReply::KeyboardReset => State::ExpectingBufferClear,
        ProcReply::NothingToDo => match s {
            State::NotInKey => State::NotInKey,
            _ => State::Inconsistent,
        },
        ProcReply::SentKey(_) => match s {
            State::SimpleKey(_) => State::NotInKey,
            State::KnownBreakCode(_) => State::NotInKey,
            State::UnmodifiedKey(_) => State::NotInKey,
            _ => State::Inconsistent,
        },
        ProcReply::ClearedBuffer => match s {
            State::ExpectingBufferClear => State::NotInKey,
            _ => State::Inconsistent,
        },
        ProcReply::GrabbedKey(k) => match s {
            State::NotInKey => if k == SELF_TEST_PASSED || k == ACK || k == NAK || k == ECHO {
                State::NotInKey
            } else if k == BREAK {
                State::PossibleBreakCode
            } else if k == PREFIX || k == PREFIX_PAUSE {
                State::UnmodifiedKey(k)
            } else {
                State::SimpleKey(k)
            },
            State::PossibleBreakCode => if k == KEY_SCROLL || k == KEY_CAPS {
                State::ToggleLedFirst(k)
            } else if k == KEY_NUM && !pause {
                State::ToggleLedFirst(k)
            } else {
                State::KnownBreakCode(k)
            },
            _ => State::Inconsistent,
        },
        ProcReply::LedToggled(_) => match s {
            State::ToggleLedFirst(l) => State::KnownBreakCode(l),
            _ => State::Inconsistent,
        },
    }
}

/// How a step changes the expecting-pause flag: an extended prefix
/// rewrites it, and the Num Lock code inside a pause consumes it.
pub open spec fn spec_next_pause(s: State, pause: bool, r: ProcReply) -> bool {
    match (s, r) {
        (State::NotInKey, ProcReply::GrabbedKey(k)) => if k == PREFIX {
            false
        } else if k == PREFIX_PAUSE {
            true
        } else {
            pause
        },
        (State::PossibleBreakCode, ProcReply::GrabbedKey(k)) => if k == KEY_NUM && pause {
            false
        } else {
            pause
        },
        _ => pause,
    }
}

/// How a step changes the LED mask: only a reported toggle does.
pub open spec fn spec_next_led(s: State, led: LedMask, r: ProcReply) -> LedMask {
    match (s, r) {
        (State::ToggleLedFirst(_), ProcReply::LedToggled(m)) => m,
        _ => led,
    }
}

/// The command owed for the state just entered. LED-toggling states ask
/// for the mask with the matching bit flipped; `Inconsistent` is the one
/// state reported as an error.
pub open spec fn spec_cmd(next: State, led: LedMask) -> Result<Cmd, ()> {
    match next {
        State::NotInKey => Ok(Cmd::WaitForKey),
        State::PossibleBreakCode => Ok(Cmd::WaitForKey),
        State::SimpleKey(k) => Ok(Cmd::SendXTKey(lut_lookup(k))),
        State::KnownBreakCode(b) => Ok(Cmd::SendXTKey(lut_lookup(b) | 0x80)),
        State::UnmodifiedKey(u) => Ok(Cmd::SendXTKey(u)),
        State::ToggleLedFirst(l) => if l == KEY_SCROLL {
            Ok(Cmd::ToggleLed(LedMask { bits: led.bits ^ LED_SCROLL }))
        } else if l == KEY_NUM {
            Ok(Cmd::ToggleLed(LedMask { bits: led.bits ^ LED_NUM }))
        } else if l == KEY_CAPS {
            Ok(Cmd::ToggleLed(LedMask { bits: led.bits ^ LED_CAPS }))
        } else {
            Err(())
        },
        State::ExpectingBufferClear => Ok(Cmd::ClearBuffer),
        State::Inconsistent => Err(()),
    }
}

/// The state machine: current state, whether a Pause sequence is open,
/// and the LED mask last acknowledged by the keyboard.
pub struct Fsm {
    pub curr_state: State,
    pub expecting_pause: bool,
    pub led_mask: LedMask,
}

impl Fsm {
    pub fn start() -> (r: Fsm)
        ensures
            r.curr_state == State::NotInKey,
            r.expecting_pause == false,
            r.led_mask == (LedMask { bits: 0 }),
    {
        Fsm { curr_state: State::NotInKey, expecting_pause: false, led_mask: LedMask { bits: 0 } }
    }

    /// Advance by one reply and answer with the next command, exactly as
    /// the transition table and `spec_cmd` state.
    pub fn run(&mut self, curr_reply: &ProcReply) -> (r: Result<Cmd, ()>)
        ensures
            final(self).curr_state == spec_next_state(
                old(self).curr_state,
                old(self).expecting_pause,
                *curr_reply,
            ),
            final(self).expecting_pause == spec_next_pause(
                old(self).curr_state,
                old(self).expecting_pause,
                *curr_reply,
            ),
            final(self).led_mask == spec_next_led(
                old(self).curr_state,
                old(self).led_mask,
                *curr_reply,
            ),
            r == spec_cmd(final(self).curr_state, final(self).led_mask),
    {
        let next_state = self.next_state(curr_reply);

        let next_cmd: Result<Cmd, ()> = match next_state {
            State::NotInKey | State::PossibleBreakCode => Ok(Cmd::WaitForKey),
            State::SimpleKey(k) => Ok(Cmd::SendXTKey(to_xt(k))),
            State::KnownBreakCode(b) => Ok(Cmd::SendXTKey(to_xt(b) | 0x80)),
            State::UnmodifiedKey(u) => Ok(Cmd::SendXTKey(u)),
            State::ToggleLedFirst(l) => {
                if l == KEY_SCROLL {
                    Ok(Cmd::ToggleLed(LedMask { bits: self.led_mask.bits ^ LED_SCROLL }))
                } else if l == KEY_NUM {
                    Ok(Cmd::ToggleLed(LedMask { bits: self.led_mask.bits ^ LED_NUM }))
                } else if l == KEY_CAPS {
                    Ok(Cmd::ToggleLed(LedMask { bits: self.led_mask.bits ^ LED_CAPS }))
                } else {
                    Err(())
                }
            },
            State::ExpectingBufferClear => Ok(Cmd::ClearBuffer),
            State::Inconsistent => Err(()),
        };

        self.curr_state = next_state;
        next_cmd
    }

    /// One step of the transition table, updating the pause flag and the
    /// LED mask on the way.
    fn next_state(&mut self, curr_reply: &ProcReply) -> (ns: State)
        ensures
            ns == spec_next_state(old(self).curr_state, old(self).expecting_pause, *curr_reply),
            final(self).expecting_pause == spec_next_pause(
                old(self).curr_state,
                old(self).expecting_pause,
                *curr_reply,
            ),
            final(self).led_mask == spec_next_led(
                old(self).curr_state,
                old(self).led_mask,
                *curr_reply,
            ),
            final(self).curr_state == old(self).curr_state,
    {
        match (self.curr_state, *curr_reply) {
            (_, ProcReply::KeyboardReset) => State::ExpectingBufferClear,
            (State::NotInKey, ProcReply::NothingToDo) => State::NotInKey,
            (State::SimpleKey(_), ProcReply::SentKey(_)) => State::NotInKey,
            (State::KnownBreakCode(_), ProcReply::SentKey(_)) => State::NotInKey,
            (State::UnmodifiedKey(_), ProcReply::SentKey(_)) => State::NotInKey,
            (State::ExpectingBufferClear, ProcReply::ClearedBuffer) => State::NotInKey,
            (State::NotInKey, ProcReply::GrabbedKey(k)) => {
                if k == SELF_TEST_PASSED || k == ACK || k == NAK || k == ECHO {
                    State::NotInKey
                } else if k == BREAK {
                    State::PossibleBreakCode
                } else if k == PREFIX || k == PREFIX_PAUSE {
                    self.expecting_pause = k == PREFIX_PAUSE;
                    State::UnmodifiedKey(k)
                } else {
                    State::SimpleKey(k)
                }
            },
            (State::PossibleBreakCode, ProcReply::GrabbedKey(k)) => {
                if k == KEY_SCROLL || k == KEY_CAPS {
                    State::ToggleLedFirst(k)
                } else if k == KEY_NUM {
                    if self.expecting_pause {
                        self.expecting_pause = false;
                        State::KnownBreakCode(k)
                    } else {
                        State::ToggleLedFirst(k)
                    }
                } else {
                    State::KnownBreakCode(k)
                }
            },
            (State::ToggleLedFirst(l), ProcReply::LedToggled(m)) => {
                self.led_mask = m;
                State::KnownBreakCode(l)
            },
            (_, _) => State::Inconsistent,
        }
    }
}

} // verus!

//! The two interrupt handlers, as verified steps over the register
//! models. The unverified shell samples the real input register into the
//! model, calls the step, and writes the model back to the volatile
//! registers.

use vstd::prelude::*;
use crate::driver;
use crate::driver::{Port, AT_CLK, AT_DATA, AT_MASK};
use crate::keybuffer::{push_bit, KeyIn, KeyOut, KeycodeBuffer};
use crate::peripheral::Timer;

verus! {

/// Timer compare interrupt: raise the timeout flag and write zero to the
/// compare register, which stops the timer.
pub fn timer_isr(timeout: &mut bool, timer: &mut Timer)
    ensures
        *final(timeout) == true,
        final(timer).taccr0 == 0,
{
    *timeout = true;
    timer.taccr0 = 0;
}

/// The frame the receive branch hands to the ring when it fires: the
/// shift register completed by the freshly sampled bit, or, for a
/// receiver somehow already full, its eleven old bits unchanged.
pub open spec fn completed_frame(keyin: KeyIn, bit: bool) -> u16 {
    if keyin.pos == 10 {
        push_bit(keyin.contents, bit)
    } else {
        keyin.contents
    }
}

/// One falling edge of the AT clock. `host_mode` selects the branch:
/// shifting a frame out to the keyboard, or shifting the keyboard's
/// frame in. Each invocation touches exactly one of the two shift
/// registers; the interrupt flag is acknowledged either way.
pub fn port1_isr(
    host_mode: bool,
    device_ack: &mut bool,
    keyin: &mut KeyIn,
    keyout: &mut KeyOut,
    in_buffer: &mut KeycodeBuffer,
    port: &mut Port,
)
    requires
        old(keyin).wf(),
        old(keyout).wf(),
        old(in_buffer).wf(),
    ensures
        final(keyin).wf(),
        final(keyout).wf(),
        final(in_buffer).wf(),
        final(port).p1in == old(port).p1in,
        final(port).p1ie == old(port).p1ie,
        final(port).p1ies == old(port).p1ies,
        final(port).p1ifg == old(port).p1ifg & !AT_CLK,
        // The branches exclude each other: the transmit branch leaves the
        // receive state alone, and the other way round.
        host_mode ==> *final(keyin) == *old(keyin) && *final(in_buffer) == *old(in_buffer),
        !host_mode ==> *final(keyout) == *old(keyout) && *final(device_ack) == *old(device_ack),
        // Transmit branch, frame not yet drained: pop the low bit onto
        // the AT data line; popping the stop bit also releases the lines.
        host_mode && !old(keyout).spec_is_empty() ==> {
            &&& final(keyout).contents == old(keyout).contents >> 1
            &&& final(keyout).pos == old(keyout).pos + 1
            &&& *final(device_ack) == *old(device_ack)
            &&& (old(keyout).pos < 9 ==> final(port).p1dir == old(port).p1dir)
            &&& (old(keyout).pos < 9 && old(keyout).contents & 1 == 1 ==> final(port).p1out == (
            old(port).p1out | AT_DATA))
            &&& (old(keyout).pos < 9 && old(keyout).contents & 1 != 1 ==> final(port).p1out == (
            old(port).p1out & !AT_DATA))
            &&& (old(keyout).pos == 9 ==> final(port).p1out == old(port).p1out | AT_MASK)
            &&& (old(keyout).pos == 9 ==> final(port).p1dir == old(port).p1dir & !AT_MASK)
        },
        // Transmit branch, frame drained: a low data line is the
        // keyboard's acknowledge pulse.
        host_mode && old(keyout).spec_is_empty() ==> {
            &&& final(port).p1out == old(port).p1out && final(port).p1dir == old(port).p1dir
            &&& (old(port).p1in & AT_DATA == 0 ==> *final(device_ack) == true)
            &&& (old(port).p1in & AT_DATA == 0 ==> final(keyout).pos == 10 && final(
                keyout).contents == 0)
            &&& (old(port).p1in & AT_DATA != 0 ==> *final(keyout) == *old(keyout))
            &&& (old(port).p1in & AT_DATA != 0 ==> *final(device_ack) == *old(device_ack))
        },
        // Receive branch, frame still short: shift the sampled bit in.
        !host_mode && old(keyin).pos < 10 ==> {
            &&& final(keyin).pos == old(keyin).pos + 1
            &&& final(keyin).contents == push_bit(
                old(keyin).contents,
                old(port).p1in & AT_DATA == AT_DATA,
            )
            &&& *final(in_buffer) == *old(in_buffer)
            &&& final(port).p1out == old(port).p1out && final(port).p1dir == old(port).p1dir
        },
        // Receive branch, frame completed: queue it (a full ring drops
        // it), clear the receiver, and leave the AT lines released.
        !host_mode && old(keyin).pos >= 10 ==> {
            &&& final(keyin).pos == 0 && final(keyin).contents == 0
            &&& (old(in_buffer)@.len() < 16 ==> final(in_buffer)@ == old(in_buffer)@.push(
                completed_frame(*old(keyin), old(port).p1in & AT_DATA == AT_DATA),
            ))
            &&& (old(in_buffer)@.len() == 16 ==> *final(in_buffer) == *old(in_buffer))
            &&& final(port).p1out == old(port).p1out | AT_MASK
            &&& final(port).p1dir == old(port).p1dir & !AT_MASK
        },
{
    if host_mode {
        match keyout.shift_out() {
            Some(k) => {
                if k {
                    driver::set(port, AT_DATA);
                } else {
                    driver::unset(port, AT_DATA);
                }
                // Immediately after sending out the stop bit, release
                // the lines.
                if keyout.is_empty() {
                    driver::at_idle(port);
                    proof {
                        let o = old(port).p1out;
                        assert((o | AT_DATA) | AT_MASK == o | AT_MASK) by (bit_vector);
                        assert(((o & !AT_DATA) | AT_MASK) == o | AT_MASK) by (bit_vector);
                    }
                }
            },
            None => {
                if driver::is_unset(port, AT_DATA) {
                    *device_ack = true;
                    keyout.clear();
                }
            },
        }
        driver::clear_at_clk_int(port);
    } else {
        let bit = driver::is_set(port, AT_DATA);
        if keyin.shift_in(bit).is_err() {
            // Ask the keyboard to hold off while the frame is queued.
            driver::at_inhibit(port);
            if let Some(k) = keyin.take() {
                // A full ring drops the frame, as AT and XT hosts do.
                let _ = in_buffer.put(k);
            }
            keyin.clear();
            driver::at_idle(port);
            proof {
                let o = old(port).p1out;
                let d = old(port).p1dir;
                assert(((o & !AT_CLK) | AT_DATA) | AT_MASK == o | AT_MASK) by (bit_vector);
                assert((d | AT_MASK) & !AT_MASK == d & !AT_MASK) by (bit_vector);
            }
        }
        driver::clear_at_clk_int(port);
    }
}

} // verus!

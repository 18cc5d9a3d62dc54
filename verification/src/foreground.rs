//! The foreground executor's decisions, phase by phase. Every spin loop
//! and microsecond delay of the firmware lives outside the library; each
//! phase between them — one critical section's worth of work — is a
//! verified function here.

use vstd::prelude::*;
use crate::driver;
use crate::driver::{
    same_but_ie, same_but_out, Port, AT_CLK, AT_DATA, AT_MASK, XT_CLK, XT_DATA, XT_MASK,
};
use crate::keybuffer::{frame_word, push_bit, KeyOut};
use crate::peripheral::Timer;
use crate::util::{rev8, reverse_bits};

verus! {

/// Ticks for a microsecond delay at the timer's 10 us granularity,
/// rounded up by one tick.
pub fn ticks_for_us(us: u16) -> (r: u16)
    ensures
        r == us / 10 + 1,
{
    us / 10 + 1
}

/// Arm the one-shot timer: drop the timeout flag and write the tick
/// count to the compare register.
pub fn start_timer(timer: &mut Timer, timeout: &mut bool, time: u16)
    ensures
        *final(timeout) == false,
        final(timer).taccr0 == time,
{
    *timeout = false;
    timer.taccr0 = time;
}

/// First half of one XT bit time: drive the data line to the bit and
/// pull the clock low. The caller holds this level for the bit time,
/// then releases the clock with `xt_bit_release`.
pub fn xt_bit_drive(port: &mut Port, bit: u8)
    ensures
        same_but_out(*old(port), *final(port)),
        bit == 1 ==> final(port).p1out == (old(port).p1out | XT_DATA) & !XT_CLK,
        bit != 1 ==> final(port).p1out == (old(port).p1out & !XT_DATA) & !XT_CLK,
{
    if bit == 1 {
        driver::set(port, XT_DATA);
    } else {
        driver::unset(port, XT_DATA);
    }
    driver::unset(port, XT_CLK);
}

/// Second half of one XT bit time: release the clock high.
pub fn xt_bit_release(port: &mut Port)
    ensures
        same_but_out(*old(port), *final(port)),
        final(port).p1out == old(port).p1out | XT_CLK,
{
    driver::set(port, XT_CLK);
}

/// One poll before an XT send: the host holds the bus while it keeps
/// clock or data low. The poll that finds the bus free switches the XT
/// lines to driven outputs.
pub fn wait_for_host_step(port: &mut Port) -> (busy: bool)
    ensures
        busy == (old(port).p1in & XT_CLK == 0 || old(port).p1in & XT_DATA == 0),
        busy ==> *final(port) == *old(port),
        !busy ==> {
            &&& final(port).p1out == old(port).p1out | XT_MASK
            &&& final(port).p1dir == old(port).p1dir | XT_MASK
            &&& final(port).p1in == old(port).p1in
            &&& final(port).p1ifg == old(port).p1ifg
            &&& final(port).p1ie == old(port).p1ie
            &&& final(port).p1ies == old(port).p1ies
        },
{
    let clk_or_data_unset = driver::is_unset(port, XT_CLK) || driver::is_unset(port, XT_DATA);
    if !clk_or_data_unset {
        driver::xt_out(port);
    }
    clk_or_data_unset
}

/// The level of the k-th of the ten XT bit times: the framing bits 0
/// then 1, then the eight data bits low bit first.
pub open spec fn spec_xt_frame_bit(byte: u8, k: u8) -> u8 {
    if k == 0 {
        0
    } else if k == 1 {
        1
    } else {
        (byte >> ((k - 2) as u8)) & 1
    }
}

/// The bit to put on the XT data line in the k-th bit time of a byte's
/// frame.
pub fn xt_frame_bit(byte: u8, k: u8) -> (r: u8)
    requires
        k < 10,
    ensures
        r == spec_xt_frame_bit(byte, k),
        r <= 1,
{
    if k == 0 {
        0
    } else if k == 1 {
        1
    } else {
        let r = (byte >> (k - 2)) & 1;
        assert((byte >> (k - 2) as u8) & 1 <= 1) by (bit_vector);
        r
    }
}

/// One poll before an AT send: the keyboard is ready to listen once its
/// clock line reads low; every poll that still finds it high asks the
/// keyboard to stop transmitting (`at_inhibit`).
pub fn wait_for_at_keyboard_step(port: &mut Port) -> (waiting: bool)
    ensures
        waiting == (old(port).p1in & AT_CLK != 0),
        !waiting ==> *final(port) == *old(port),
        waiting ==> {
            &&& final(port).p1out == (old(port).p1out & !AT_CLK) | AT_DATA
            &&& final(port).p1dir == old(port).p1dir | AT_MASK
            &&& final(port).p1in == old(port).p1in
            &&& final(port).p1ifg == old(port).p1ifg
            &&& final(port).p1ie == old(port).p1ie
            &&& final(port).p1ies == old(port).p1ies
        },
{
    let ready = driver::is_unset(port, AT_CLK);
    if !ready {
        driver::at_inhibit(port);
    }
    !ready
}

/// Opening phase of a host-to-keyboard send: load the byte into the out
/// shift register and mask the AT clock interrupt, so the handover to
/// the interrupt handler is clean.
pub fn at_send_prepare(keyout: &mut KeyOut, port: &mut Port, byte: u8)
    requires
        old(keyout).spec_is_empty(),
    ensures
        final(keyout).wf(),
        final(keyout).pos == 0,
        final(keyout).contents == frame_word(byte),
        final(port).p1ie == old(port).p1ie & !AT_CLK,
        same_but_ie(*old(port), *final(port)),
{
    let r = keyout.put(byte);
    assert(r is Ok);
    driver::disable_at_clk_int(port);
}

/// Closing phase of the send handover, after the start bit has been
/// driven: release the AT clock high and make it an input again, re-arm
/// its interrupt, raise host mode and drop the keyboard-ack flag. From
/// here the interrupt handler shifts the frame out.
pub fn at_send_release(port: &mut Port, host_mode: &mut bool, device_ack: &mut bool)
    ensures
        final(port).p1out == old(port).p1out | AT_CLK,
        final(port).p1dir == old(port).p1dir & !AT_CLK,
        final(port).p1ifg == old(port).p1ifg & !AT_CLK,
        final(port).p1ie == old(port).p1ie | AT_CLK,
        final(port).p1in == old(port).p1in,
        final(port).p1ies == old(port).p1ies,
        *final(host_mode) == true,
        *final(device_ack) == false,
{
    driver::set(port, AT_CLK);
    driver::mk_in(port, AT_CLK);
    driver::clear_at_clk_int(port);
    driver::enable_at_clk_int(port);
    *host_mode = true;
    *device_ack = false;
}

/// What decoding a captured 16-bit frame yields: mask the inverted
/// start bit and the stop bit, drop stop and parity, and reverse the
/// remaining eight bits back into wire order.
pub open spec fn decode_spec(w: u16) -> u8 {
    rev8((((w & !0x4001) >> 2) as u8))
}

/// Decode a frame taken from the ring into the keyboard's byte.
pub fn decode_at_frame(bits_in: u16) -> (r: u8)
    ensures
        r == decode_spec(bits_in),
{
    let masked = bits_in & !0x4001;
    let shifted = masked >> 2;
    reverse_bits(shifted as u8)
}

/// The word the receiver holds after a full AT frame for `byte` with
/// parity bit `par` came in: start bit 0, then the byte low bit first,
/// then parity, then stop 1, each shifted in at the low end.
pub open spec fn at_received_word(byte: u8, par: bool) -> u16 {
    ((rev8(byte) as u16) << 2) | (if par {
        2u16
    } else {
        0u16
    }) | 1u16
}

/// Shifting the eleven wire bits of an AT frame for `byte` — start 0,
/// the eight data bits low bit first, the parity bit, stop 1 — into an
/// empty receiver leaves exactly `at_received_word(byte, par)`.
pub proof fn lemma_in_frame_build(byte: u8, par: bool)
    ensures
        push_bit(
            push_bit(
                push_bit(
                    push_bit(
                        push_bit(
                            push_bit(
                                push_bit(
                                    push_bit(
                                        push_bit(
                                            push_bit(push_bit(0u16, false), byte & 1 == 1),
                                            (byte >> 1) & 1 == 1,
                                        ),
                                        (byte >> 2) & 1 == 1,
                                    ),
                                    (byte >> 3) & 1 == 1,
                                ),
                                (byte >> 4) & 1 == 1,
                            ),
                            (byte >> 5) & 1 == 1,
                        ),
                        (byte >> 6) & 1 == 1,
                    ),
                    (byte >> 7) & 1 == 1,
                ),
                par,
            ),
            true,
        ) == at_received_word(byte, par),
{
    assert(push_bit(
        push_bit(
            push_bit(
                push_bit(
                    push_bit(
                        push_bit(
                            push_bit(
                                push_bit(
                                    push_bit(
                                        push_bit(push_bit(0u16, false), byte & 1 == 1),
                                        (byte >> 1) & 1 == 1,
                                    ),
                                    (byte >> 2) & 1 == 1,
                                ),
                                (byte >> 3) & 1 == 1,
                            ),
                            (byte >> 4) & 1 == 1,
                        ),
                        (byte >> 5) & 1 == 1,
                    ),
                    (byte >> 6) & 1 == 1,
                ),
                (byte >> 7) & 1 == 1,
            ),
            par,
        ),
        true,
    ) == at_received_word(byte, par)) by (bit_vector);
}

/// Decoding a completed frame gives back the byte the keyboard sent,
/// whatever the parity bit was.
pub proof fn lemma_in_frame_round_trip(byte: u8, par: bool)
    ensures
        decode_spec(at_received_word(byte, par)) == byte,
{
    assert(decode_spec(at_received_word(byte, par)) == byte) by (bit_vector);
}

} // verus!

//! GPIO driver logic over a model of the 8-bit port register block.
//!
//! The five wires of the translator share one port. The real hardware
//! exposes the port as memory-mapped registers; here the register block is
//! a plain struct, so every read-modify-write the driver performs is
//! verified bit for bit. The unverified shell copies the struct's fields
//! to and from the volatile registers around each call.

use vstd::prelude::*;

verus! {

/// AT keyboard clock line (input; falling-edge interrupt source).
pub const AT_CLK: u8 = 0x01;
/// XT host reset-request line.
pub const XT_SENSE: u8 = 0x02;
/// XT host clock line.
pub const XT_CLK: u8 = 0x04;
/// XT host data line.
pub const XT_DATA: u8 = 0x08;
/// AT keyboard data line.
pub const AT_DATA: u8 = 0x10;
/// Both AT lines.
pub const AT_MASK: u8 = 0x11;
/// Both XT lines.
pub const XT_MASK: u8 = 0x0c;

/// Model of the port register block: input levels, output latch, direction
/// (1 = output), interrupt flag, interrupt enable, and edge select
/// (1 = falling edge).
#[derive(Clone, Copy, PartialEq, Eq, Structural)]
pub struct Port {
    pub p1in: u8,
    pub p1out: u8,
    pub p1dir: u8,
    pub p1ifg: u8,
    pub p1ie: u8,
    pub p1ies: u8,
}

/// True when the two register blocks differ at most in the output latch.
pub open spec fn same_but_out(pre: Port, post: Port) -> bool {
    post.p1in == pre.p1in && post.p1dir == pre.p1dir && post.p1ifg == pre.p1ifg
        && post.p1ie == pre.p1ie && post.p1ies == pre.p1ies
}

/// True when the two register blocks differ at most in the direction register.
pub open spec fn same_but_dir(pre: Port, post: Port) -> bool {
    post.p1in == pre.p1in && post.p1out == pre.p1out && post.p1ifg == pre.p1ifg
        && post.p1ie == pre.p1ie && post.p1ies == pre.p1ies
}

/// True when the two register blocks differ at most in the interrupt enable.
pub open spec fn same_but_ie(pre: Port, post: Port) -> bool {
    post.p1in == pre.p1in && post.p1out == pre.p1out && post.p1dir == pre.p1dir
        && post.p1ifg == pre.p1ifg && post.p1ies == pre.p1ies
}

/// True when the two register blocks differ at most in the interrupt flag.
pub open spec fn same_but_ifg(pre: Port, post: Port) -> bool {
    post.p1in == pre.p1in && post.p1out == pre.p1out && post.p1dir == pre.p1dir
        && post.p1ie == pre.p1ie && post.p1ies == pre.p1ies
}

/// Drive the given pins high (set them in the output latch).
pub fn set(p: &mut Port, pins: u8)
    ensures
        final(p).p1out == old(p).p1out | pins,
        same_but_out(*old(p), *final(p)),
{
    p.p1out = p.p1out | pins;
}

/// Drive the given pins low (clear them in the output latch).
pub fn unset(p: &mut Port, pins: u8)
    ensures
        final(p).p1out == old(p).p1out & !pins,
        same_but_out(*old(p), *final(p)),
{
    p.p1out = p.p1out & !pins;
}

/// Make the given pins inputs.
pub fn mk_in(p: &mut Port, pins: u8)
    ensures
        final(p).p1dir == old(p).p1dir & !pins,
        same_but_dir(*old(p), *final(p)),
{
    p.p1dir = p.p1dir & !pins;
}

/// True when every one of the given pins reads high.
pub fn is_set(p: &Port, pins: u8) -> (r: bool)
    ensures
        r == (p.p1in & pins == pins),
{
    p.p1in & pins == pins
}

/// True when every one of the given pins reads low.
pub fn is_unset(p: &Port, pins: u8) -> (r: bool)
    ensures
        r == (p.p1in & pins == 0),
{
    p.p1in & pins == 0
}

/// Release every pin to input and arm the falling-edge interrupt on the
/// AT clock line.
pub fn idle(p: &mut Port)
    ensures
        final(p).p1dir == 0,
        final(p).p1ifg == old(p).p1ifg & !AT_CLK,
        final(p).p1ies == old(p).p1ies | AT_CLK,
        final(p).p1ie == old(p).p1ie | AT_CLK,
        final(p).p1in == old(p).p1in,
        final(p).p1out == old(p).p1out,
{
    p.p1dir = 0;
    p.p1ifg = p.p1ifg & !AT_CLK;
    p.p1ies = p.p1ies | AT_CLK;
    p.p1ie = p.p1ie | AT_CLK;
}

/// Mask the falling-edge interrupt on the AT clock line.
pub fn disable_at_clk_int(p: &mut Port)
    ensures
        final(p).p1ie == old(p).p1ie & !AT_CLK,
        same_but_ie(*old(p), *final(p)),
{
    p.p1ie = p.p1ie & !AT_CLK;
}

/// Unmask the falling-edge interrupt on the AT clock line.
pub fn enable_at_clk_int(p: &mut Port)
    ensures
        final(p).p1ie == old(p).p1ie | AT_CLK,
        same_but_ie(*old(p), *final(p)),
{
    p.p1ie = p.p1ie | AT_CLK;
}

/// Acknowledge a pending AT clock edge interrupt.
pub fn clear_at_clk_int(p: &mut Port)
    ensures
        final(p).p1ifg == old(p).p1ifg & !AT_CLK,
        same_but_ifg(*old(p), *final(p)),
{
    p.p1ifg = p.p1ifg & !AT_CLK;
}

/// Release both AT lines: drive them high (open-drain release) and make
/// them inputs again.
pub fn at_idle(p: &mut Port)
    ensures
        final(p).p1out == old(p).p1out | AT_MASK,
        final(p).p1dir == old(p).p1dir & !AT_MASK,
        final(p).p1in == old(p).p1in,
        final(p).p1ifg == old(p).p1ifg,
        final(p).p1ie == old(p).p1ie,
        final(p).p1ies == old(p).p1ies,
{
    let ghost o: u8 = old(p).p1out;
    set(p, AT_CLK);
    set(p, AT_DATA);
    p.p1dir = p.p1dir & !AT_MASK;
    assert((o | AT_CLK) | AT_DATA == o | AT_MASK) by (bit_vector);
}

/// Ask the keyboard to stop transmitting: pull the AT clock low, release
/// the AT data line high, and drive both.
pub fn at_inhibit(p: &mut Port)
    ensures
        final(p).p1out == (old(p).p1out & !AT_CLK) | AT_DATA,
        final(p).p1dir == old(p).p1dir | AT_MASK,
        final(p).p1in == old(p).p1in,
        final(p).p1ifg == old(p).p1ifg,
        final(p).p1ie == old(p).p1ie,
        final(p).p1ies == old(p).p1ies,
{
    unset(p, AT_CLK);
    set(p, AT_DATA);
    p.p1dir = p.p1dir | AT_MASK;
}

/// Drive both XT lines high and make them outputs.
pub fn xt_out(p: &mut Port)
    ensures
        final(p).p1out == old(p).p1out | XT_MASK,
        final(p).p1dir == old(p).p1dir | XT_MASK,
        final(p).p1in == old(p).p1in,
        final(p).p1ifg == old(p).p1ifg,
        final(p).p1ie == old(p).p1ie,
        final(p).p1ies == old(p).p1ies,
{
    p.p1out = p.p1out | XT_MASK;
    p.p1dir = p.p1dir | XT_MASK;
}

/// Release both XT lines: data latched high, both made inputs.
pub fn xt_in(p: &mut Port)
    ensures
        final(p).p1out == old(p).p1out | XT_DATA,
        final(p).p1dir == old(p).p1dir & !XT_MASK,
        final(p).p1in == old(p).p1in,
        final(p).p1ifg == old(p).p1ifg,
        final(p).p1ie == old(p).p1ie,
        final(p).p1ies == old(p).p1ies,
{
    p.p1out = p.p1out | XT_DATA;
    p.p1dir = p.p1dir & !XT_MASK;
}

} // verus!

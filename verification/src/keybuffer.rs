//! Frame storage: the 16-slot keycode ring shared between the interrupt
//! handler (producer) and the foreground loop (consumer), and the two
//! single-frame shift registers `KeyIn` (device-to-host receiver) and
//! `KeyOut` (host-to-device transmitter).

use vstd::prelude::*;
use vstd::arithmetic::div_mod::{
    lemma_fundamental_div_mod_converse, lemma_mod_equivalence, lemma_mod_multiples_vanish,
};
use crate::util::{even_parity, popcount};

verus! {

/// Fixed-capacity single-producer/single-consumer queue of completed
/// 11-bit frames. `head` and `tail` advance with wrapping arithmetic;
/// only their wrapped difference and their low four bits matter.
pub struct KeycodeBuffer {
    pub head: u8,
    pub tail: u8,
    pub contents: [u16; 16],
}

impl KeycodeBuffer {
    /// Wrapped distance from `head` to `tail`: the number of queued frames.
    pub open spec fn ring_len(self) -> int {
        if self.tail >= self.head {
            self.tail - self.head
        } else {
            self.tail - self.head + 256
        }
    }

    /// The ring never holds more frames than it has slots.
    pub open spec fn wf(self) -> bool {
        self.ring_len() <= 16
    }

    pub fn new() -> (r: KeycodeBuffer)
        ensures
            r.wf(),
            r@.len() == 0,
            r.head == 0,
            r.tail == 0,
    {
        KeycodeBuffer { head: 0, tail: 0, contents: [0u16; 16] }
    }

    /// True exactly when no frame is queued.
    pub fn is_empty(&self) -> (r: bool)
        ensures
            r == (self.head == self.tail),
            r == (self@.len() == 0),
    {
        self.head == self.tail
    }

    /// Make the ring empty without touching its slots.
    pub fn flush(&mut self)
        ensures
            final(self).wf(),
            final(self)@.len() == 0,
            final(self).head == old(self).head,
            final(self).tail == old(self).head,
            final(self).contents == old(self).contents,
    {
        self.tail = self.head;
    }

    /// Queue a completed frame. A full ring refuses the frame and is left
    /// exactly as it was: the producer drops it, as AT and XT hosts do.
    pub fn put(&mut self, in_key: u16) -> (r: Result<(), ()>)
        requires
            old(self).wf(),
        ensures
            final(self).wf(),
            old(self)@.len() == 16 ==> r is Err && *final(self) == *old(self),
            old(self)@.len() < 16 ==> r is Ok && final(self)@ == old(self)@.push(in_key),
    {
        if self.tail.wrapping_sub(self.head) >= 16 {
            Err(())
        } else {
            let idx: usize = (self.tail % 16) as usize;
            self.contents[idx] = in_key;
            self.tail = self.tail.wrapping_add(1);
            proof {
                let h = old(self).head as int;
                let t = old(self).tail as int;
                let l = old(self).ring_len();
                lemma_ring_tail_slot(h, l, t);
                assert forall|i: int| 0 <= i < l implies #[trigger] ((h + i) % 16) != t % 16 by {
                    lemma_ring_slot_distinct(h, i, l, t);
                }
                assert(final(self)@ =~= old(self)@.push(in_key));
            }
            Ok(())
        }
    }

    /// Remove the oldest queued frame, if any.
    pub fn take(&mut self) -> (r: Option<u16>)
        requires
            old(self).wf(),
        ensures
            final(self).wf(),
            old(self)@.len() == 0 ==> r is None && *final(self) == *old(self),
            old(self)@.len() > 0 ==> r == Some(old(self)@[0]) && final(self)@ == old(self)@.subrange(
                1,
                old(self)@.len() as int,
            ),
    {
        if self.head == self.tail {
            None
        } else {
            let idx: usize = (self.head % 16) as usize;
            let out = self.contents[idx];
            self.head = self.head.wrapping_add(1);
            proof {
                let h = old(self).head as int;
                let l = old(self).ring_len();
                if h == 255 {
                    assert forall|i: int| 0 <= i < l - 1 implies #[trigger] ((final(self).head + i)
                        % 16) == (h + 1 + i) % 16 by {
                        lemma_mod_multiples_vanish(-16, h + 1 + i, 16);
                    }
                }
                assert(final(self)@ =~= old(self)@.subrange(1, l));
            }
            Some(out)
        }
    }
}

impl View for KeycodeBuffer {
    type V = Seq<u16>;

    /// The queued frames, oldest first.
    open spec fn view(&self) -> Seq<u16> {
        Seq::new(self.ring_len() as nat, |i: int| self.contents@[(self.head + i) % 16])
    }
}

/// The slot the producer writes, `tail % 16`, is the slot just past the
/// queued frames: `(head + len) % 16`.
proof fn lemma_ring_tail_slot(h: int, l: int, t: int)
    requires
        0 <= h < 256,
        0 <= l <= 16,
        0 <= t < 256,
        t == h + l || t == h + l - 256,
    ensures
        t % 16 == (h + l) % 16,
{
    if t == h + l - 256 {
        lemma_mod_multiples_vanish(-16, h + l, 16);
    }
}

/// A queued frame's slot never collides with the slot the producer is
/// about to write.
proof fn lemma_ring_slot_distinct(h: int, i: int, l: int, t: int)
    requires
        0 <= h < 256,
        0 <= i < l,
        l <= 15,
        0 <= t < 256,
        t == h + l || t == h + l - 256,
    ensures
        (h + i) % 16 != t % 16,
{
    lemma_ring_tail_slot(h, l, t);
    lemma_mod_equivalence(h + i, h + l, 16);
    lemma_fundamental_div_mod_converse(i - l, 16, -1, i - l + 16);
}

/// Shift one received bit into the low end of a frame word.
pub open spec fn push_bit(w: u16, bit: bool) -> u16 {
    (w << 1) | (if bit {
        1u16
    } else {
        0u16
    })
}

/// The 10-bit word `KeyOut` transmits for `byte`: the byte in bits 0-7,
/// odd parity in bit 8, the stop bit in bit 9. The start bit is not part
/// of the word; the foreground drives it on the wire itself.
pub open spec fn frame_word(byte: u8) -> u16 {
    (byte as u16) | (if even_parity(byte) {
        0x100u16
    } else {
        0u16
    }) | 0x200u16
}

/// Inbound bit-serial receiver: the interrupt handler shifts one sampled
/// bit per falling clock edge; eleven bits make a frame.
#[derive(Clone, Copy)]
pub struct KeyIn {
    pub pos: u8,
    pub contents: u16,
}

impl KeyIn {
    /// The position counter stays within the 11-bit frame.
    pub open spec fn wf(self) -> bool {
        self.pos <= 11
    }

    /// A frame is complete when all eleven bits are in.
    pub open spec fn spec_is_full(self) -> bool {
        self.pos >= 11
    }

    pub fn new() -> (r: KeyIn)
        ensures
            r.wf(),
            r.pos == 0,
            r.contents == 0,
    {
        KeyIn { pos: 0, contents: 0 }
    }

    pub fn is_full(&self) -> (r: bool)
        ensures
            r == self.spec_is_full(),
    {
        self.pos >= 11
    }

    pub fn clear(&mut self)
        ensures
            final(self).wf(),
            final(self).pos == 0,
            final(self).contents == 0,
    {
        self.pos = 0;
        self.contents = 0;
    }

    /// Shift one bit in. A full register refuses the bit untouched; an
    /// accepted bit that completes the frame is also answered with the
    /// full signal, so the caller knows to consume the frame.
    pub fn shift_in(&mut self, bit: bool) -> (r: Result<(), ()>)
        requires
            old(self).wf(),
        ensures
            final(self).wf(),
            old(self).spec_is_full() ==> r is Err && *final(self) == *old(self),
            !old(self).spec_is_full() ==> {
                &&& final(self).pos == old(self).pos + 1
                &&& final(self).contents == push_bit(old(self).contents, bit)
                &&& (r is Err <==> final(self).spec_is_full())
            },
    {
        if self.is_full() {
            Err(())
        } else {
            self.contents = (self.contents << 1) | (if bit {
                1
            } else {
                0
            });
            self.pos = self.pos + 1;
            if self.is_full() {
                Err(())
            } else {
                Ok(())
            }
        }
    }

    /// Hand out a completed frame, rewinding the position counter; an
    /// incomplete frame stays untouched.
    pub fn take(&mut self) -> (r: Option<u16>)
        requires
            old(self).wf(),
        ensures
            final(self).wf(),
            old(self).spec_is_full() ==> {
                &&& r == Some(old(self).contents)
                &&& final(self).pos == 0
                &&& final(self).contents == old(self).contents
            },
            !old(self).spec_is_full() ==> r is None && *final(self) == *old(self),
    {
        if self.is_full() {
            self.pos = 0;
            Some(self.contents)
        } else {
            None
        }
    }
}

/// Outbound bit-serial transmitter for host-to-keyboard frames: data
/// bits 0-7, odd parity, stop, popped low bit first.
#[derive(Clone, Copy)]
pub struct KeyOut {
    pub pos: u8,
    pub contents: u16,
}

impl KeyOut {
    /// The position counter stays within the 10 bits of data, parity and
    /// stop.
    pub open spec fn wf(self) -> bool {
        self.pos <= 10
    }

    /// The register is empty once all ten bits have been popped.
    pub open spec fn spec_is_empty(self) -> bool {
        self.pos > 9
    }

    pub fn new() -> (r: KeyOut)
        ensures
            r.wf(),
            r.spec_is_empty(),
            r.pos == 10,
            r.contents == 0,
    {
        KeyOut { pos: 10, contents: 0 }
    }

    pub fn is_empty(&self) -> (r: bool)
        ensures
            r == self.spec_is_empty(),
    {
        self.pos > 9
    }

    pub fn clear(&mut self)
        ensures
            final(self).wf(),
            final(self).spec_is_empty(),
            final(self).pos == 10,
            final(self).contents == 0,
    {
        self.pos = 10;
        self.contents = 0;
    }

    /// Pop the next bit to drive onto the wire, low bit first.
    pub fn shift_out(&mut self) -> (r: Option<bool>)
        requires
            old(self).wf(),
        ensures
            final(self).wf(),
            old(self).spec_is_empty() ==> r is None && *final(self) == *old(self),
            !old(self).spec_is_empty() ==> {
                &&& r == Some(old(self).contents & 1 == 1)
                &&& final(self).contents == old(self).contents >> 1
                &&& final(self).pos == old(self).pos + 1
            },
    {
        if self.is_empty() {
            None
        } else {
            let cast_bit: bool = (self.contents & 0x01) == 1;
            self.contents = self.contents >> 1;
            self.pos = self.pos + 1;
            Some(cast_bit)
        }
    }

    /// Load a byte for transmission: the byte in bits 0-7, odd parity in
    /// bit 8, the stop bit in bit 9. A register still holding bits
    /// refuses the byte untouched.
    pub fn put(&mut self, byte: u8) -> (r: Result<(), ()>)
        ensures
            !old(self).spec_is_empty() ==> r is Err && *final(self) == *old(self),
            old(self).spec_is_empty() ==> {
                &&& r is Ok
                &&& final(self).wf()
                &&& final(self).pos == 0
                &&& final(self).contents == frame_word(byte)
            },
    {
        if !self.is_empty() {
            return Err(());
        }
        let parity_bit: u16 = if crate::util::compute_parity(byte) {
            0x100
        } else {
            0
        };
        self.contents = (byte as u16) | parity_bit | 0x200;
        self.pos = 0;
        Ok(())
    }
}

/// The transmit word's bits, whatever value the parity bit took: the
/// data bits in 0 to 7, the parity bit in 8, the stop bit in 9, nothing
/// above.
proof fn lemma_frame_word_bits_aux(byte: u8, pbit: u16)
    by (bit_vector)
    requires
        pbit == 0 || pbit == 0x100,
    ensures
        forall|k: u16|
            k < 8 ==> #[trigger] ((((byte as u16) | pbit | 0x200) >> k) & 1) == ((byte >> k)
                & 1) as u16,
        (((byte as u16) | pbit | 0x200) >> 8) & 1 == pbit >> 8,
        (((byte as u16) | pbit | 0x200) >> 9) & 1 == 1,
        ((byte as u16) | pbit | 0x200) >> 10 == 0,
{
}

/// A loaded frame pops as the byte's bits low bit first, then the
/// parity bit, then the stop bit: since `shift_out` returns the low bit
/// and shifts right, its k-th call on a freshly loaded register returns
/// `(frame_word(byte) >> k) & 1`, and these are the stated bits.
pub proof fn lemma_out_frame_bits(byte: u8)
    ensures
        forall|k: u16|
            k < 8 ==> #[trigger] ((frame_word(byte) >> k) & 1) == ((byte >> k) & 1) as u16,
        ((frame_word(byte) >> 8) & 1 == 1) <==> even_parity(byte),
        (frame_word(byte) >> 8) & 1 <= 1,
        (frame_word(byte) >> 9) & 1 == 1,
        frame_word(byte) >> 10 == 0,
{
    let pbit: u16 = if even_parity(byte) {
        0x100
    } else {
        0
    };
    lemma_frame_word_bits_aux(byte, pbit);
    assert(0x100u16 >> 8 == 1) by (bit_vector);
    assert(0u16 >> 8 == 0) by (bit_vector);
}

/// The loaded word carries its stop bit set and its parity bit chosen
/// so that the byte's set bits and the parity bit together count odd.
pub proof fn lemma_put_parity(byte: u8)
    ensures
        (frame_word(byte) >> 9) & 1 == 1,
        (popcount(byte) + (((frame_word(byte) >> 8) & 1) as nat)) % 2 == 1,
{
    lemma_out_frame_bits(byte);
}

/// The shift registers' counters stay within their frames, and the
/// transmitter is empty exactly when its counter stands past the stop
/// bit.
pub proof fn lemma_shifter_invariants(ki: KeyIn, ko: KeyOut)
    requires
        ki.wf(),
        ko.wf(),
    ensures
        0 <= ki.pos <= 11,
        0 <= ko.pos <= 10,
        ko.spec_is_empty() <==> ko.pos > 9,
{
}

/// The wrapped distance from `head` to `tail` always lies between 0 and
/// 16, and the ring is empty exactly when the indices coincide.
pub proof fn lemma_ring_invariant(b: KeycodeBuffer)
    requires
        b.wf(),
    ensures
        0 <= b.ring_len() <= 16,
        b@.len() == b.ring_len(),
        b@.len() == 0 <==> b.head == b.tail,
{
}

} // verus!

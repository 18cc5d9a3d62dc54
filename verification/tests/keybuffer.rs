use at2xt::keybuffer::{KeyIn, KeyOut, KeycodeBuffer};
use at2xt::util::compute_parity;

#[test]
fn ring_starts_empty() {
    let b = KeycodeBuffer::new();
    assert!(b.is_empty());
    assert_eq!(b.head, 0);
    assert_eq!(b.tail, 0);
}

#[test]
fn ring_fifo_order() {
    let mut b = KeycodeBuffer::new();
    for i in 0..5u16 {
        assert!(b.put(0x100 + i).is_ok());
    }
    for i in 0..5u16 {
        assert_eq!(b.take(), Some(0x100 + i));
    }
    assert_eq!(b.take(), None);
}

#[test]
fn ring_full_put_fails_and_preserves_contents() {
    let mut b = KeycodeBuffer::new();
    for i in 0..16u16 {
        assert!(b.put(i).is_ok());
    }
    // The seventeenth frame is refused and nothing changes.
    assert!(b.put(0xDEAD).is_err());
    assert_eq!(b.head, 0);
    assert_eq!(b.tail, 16);
    for i in 0..16u16 {
        assert_eq!(b.take(), Some(i));
    }
    assert_eq!(b.take(), None);
}

#[test]
fn ring_indices_wrap_past_255() {
    let mut b = KeycodeBuffer::new();
    b.head = 250;
    b.tail = 250;
    assert!(b.is_empty());
    for i in 0..16u16 {
        assert!(b.put(i).is_ok());
    }
    assert!(b.put(99).is_err());
    // tail wrapped past 255 while head has not.
    assert_eq!(b.tail, 10);
    assert_eq!(b.head, 250);
    for i in 0..16u16 {
        assert_eq!(b.take(), Some(i));
    }
    assert!(b.is_empty());
}

#[test]
fn ring_flush_empties() {
    let mut b = KeycodeBuffer::new();
    for i in 0..7u16 {
        assert!(b.put(i).is_ok());
    }
    b.flush();
    assert!(b.is_empty());
    assert_eq!(b.take(), None);
}

#[test]
fn key_in_accepts_eleven_bits() {
    let mut k = KeyIn::new();
    for i in 0..10 {
        assert!(k.shift_in(i % 2 == 0).is_ok(), "bit {} should not complete", i);
        assert_eq!(k.take(), None);
    }
    // The eleventh bit completes the frame and signals full.
    assert!(k.shift_in(true).is_err());
    let frame = k.take().expect("a full frame");
    // Bits arrived alternating starting high, then a final high bit.
    assert_eq!(frame, 0b10101010101);
    // A twelfth bit into the full register would have been refused.
    let mut full = KeyIn::new();
    for _ in 0..11 {
        let _ = full.shift_in(true);
    }
    assert_eq!(full.pos, 11);
    assert!(full.shift_in(false).is_err());
    assert_eq!(full.contents, 0b11111111111);
}

#[test]
fn key_in_clear_resets() {
    let mut k = KeyIn::new();
    let _ = k.shift_in(true);
    let _ = k.shift_in(true);
    k.clear();
    assert_eq!(k.pos, 0);
    assert_eq!(k.contents, 0);
}

#[test]
fn key_out_starts_empty() {
    let mut k = KeyOut::new();
    assert!(k.is_empty());
    assert_eq!(k.shift_out(), None);
}

#[test]
fn key_out_put_sets_stop_and_parity_bits() {
    // 0xFF has eight set bits (even): odd parity asks for the extra one.
    let mut k = KeyOut::new();
    assert!(k.put(0xFF).is_ok());
    assert_eq!(k.contents & 0x200, 0x200, "stop bit");
    assert_eq!((k.contents >> 8) & 1, 1, "parity bit for even popcount");

    // 0x01 has one set bit (odd): the parity bit stays clear.
    let mut k2 = KeyOut::new();
    assert!(k2.put(0x01).is_ok());
    assert_eq!(k2.contents & 0x200, 0x200, "stop bit");
    assert_eq!((k2.contents >> 8) & 1, 0, "parity bit for odd popcount");

    // For every byte the popcount plus the parity bit is odd.
    for byte in 0..=255u8 {
        let mut ko = KeyOut::new();
        assert!(ko.put(byte).is_ok());
        let parity_bit = (ko.contents >> 8) & 1;
        assert_eq!(
            (byte.count_ones() as u16 + parity_bit) % 2,
            1,
            "byte {:#x}",
            byte
        );
    }
}

#[test]
fn key_out_busy_put_fails() {
    let mut k = KeyOut::new();
    assert!(k.put(0x12).is_ok());
    let before = (k.pos, k.contents);
    assert!(k.put(0x34).is_err());
    assert_eq!((k.pos, k.contents), before);
}

#[test]
fn key_out_shifts_byte_parity_stop() {
    // Loading a byte then popping ten bits yields the byte low bit
    // first, the parity bit, and the stop bit.
    for byte in [0x00u8, 0x01, 0x55, 0xAA, 0xED, 0xFF] {
        let mut k = KeyOut::new();
        assert!(k.put(byte).is_ok());
        let mut bits = Vec::new();
        for _ in 0..10 {
            bits.push(k.shift_out().expect("ten bits"));
        }
        assert!(k.is_empty());
        assert_eq!(k.shift_out(), None);
        for i in 0..8 {
            assert_eq!(bits[i], (byte >> i) & 1 == 1, "data bit {} of {:#x}", i, byte);
        }
        assert_eq!(bits[8], compute_parity(byte), "parity bit of {:#x}", byte);
        assert!(bits[9], "stop bit of {:#x}", byte);
    }
}

#[test]
fn key_out_clear_makes_empty() {
    let mut k = KeyOut::new();
    assert!(k.put(0x42).is_ok());
    k.clear();
    assert!(k.is_empty());
    assert_eq!(k.pos, 10);
    assert_eq!(k.contents, 0);
}

use at2xt::driver::{Port, AT_CLK, AT_DATA, AT_MASK};
use at2xt::foreground::{at_send_prepare, decode_at_frame};
use at2xt::isr::{port1_isr, timer_isr};
use at2xt::keybuffer::{KeyIn, KeyOut, KeycodeBuffer};
use at2xt::peripheral::Timer;
use at2xt::util::compute_parity;

fn port_with_data(level: bool) -> Port {
    Port {
        p1in: if level { AT_DATA } else { 0 },
        p1out: 0,
        p1dir: 0,
        p1ifg: AT_CLK,
        p1ie: AT_CLK,
        p1ies: AT_CLK,
    }
}

/// The eleven wire bits of an AT frame for `byte`: start low, the byte
/// low bit first, odd parity, stop high.
fn at_wire_bits(byte: u8) -> Vec<bool> {
    let mut bits = vec![false];
    for i in 0..8 {
        bits.push((byte >> i) & 1 == 1);
    }
    bits.push(compute_parity(byte));
    bits.push(true);
    bits
}

#[test]
fn timer_isr_sets_timeout_and_stops_timer() {
    let mut timeout = false;
    let mut timer = Timer { taccr0: 0x1234 };
    timer_isr(&mut timeout, &mut timer);
    assert!(timeout);
    assert_eq!(timer.taccr0, 0);
}

#[test]
fn receive_frame_reaches_ring_and_decodes() {
    // Every byte survives the trip: wire bits in, frame queued, decode out.
    for byte in 0..=255u8 {
        let mut device_ack = false;
        let mut keyin = KeyIn::new();
        let mut keyout = KeyOut::new();
        let mut buffer = KeycodeBuffer::new();
        for bit in at_wire_bits(byte) {
            let mut port = port_with_data(bit);
            port1_isr(false, &mut device_ack, &mut keyin, &mut keyout, &mut buffer, &mut port);
        }
        assert_eq!(keyin.pos, 0, "receiver cleared after byte {:#x}", byte);
        let frame = buffer.take().expect("one queued frame");
        assert_eq!(decode_at_frame(frame), byte);
        assert!(buffer.is_empty());
    }
}

#[test]
fn receive_completion_releases_lines_and_acks_interrupt() {
    let mut device_ack = false;
    let mut keyin = KeyIn::new();
    let mut keyout = KeyOut::new();
    let mut buffer = KeycodeBuffer::new();
    let bits = at_wire_bits(0x1C);
    let mut port = port_with_data(false);
    for (i, bit) in bits.iter().enumerate() {
        port.p1in = if *bit { AT_DATA } else { 0 };
        port.p1ifg = AT_CLK;
        port1_isr(false, &mut device_ack, &mut keyin, &mut keyout, &mut buffer, &mut port);
        assert_eq!(port.p1ifg & AT_CLK, 0, "interrupt acknowledged at bit {}", i);
    }
    // After the final bit the AT lines are released high as inputs.
    assert_eq!(port.p1out & AT_MASK, AT_MASK);
    assert_eq!(port.p1dir & AT_MASK, 0);
}

#[test]
fn receive_with_full_ring_drops_frame() {
    let mut device_ack = false;
    let mut keyin = KeyIn::new();
    let mut keyout = KeyOut::new();
    let mut buffer = KeycodeBuffer::new();
    for i in 0..16u16 {
        assert!(buffer.put(i).is_ok());
    }
    for bit in at_wire_bits(0x1C) {
        let mut port = port_with_data(bit);
        port1_isr(false, &mut device_ack, &mut keyin, &mut keyout, &mut buffer, &mut port);
    }
    // The receiver was cleared but the oldest frames survive untouched.
    assert_eq!(keyin.pos, 0);
    for i in 0..16u16 {
        assert_eq!(buffer.take(), Some(i));
    }
    assert!(buffer.is_empty());
}

#[test]
fn transmit_shifts_byte_parity_stop_onto_data_line() {
    for byte in [0x00u8, 0x55, 0xED, 0xFF] {
        let mut device_ack = false;
        let mut keyin = KeyIn::new();
        let mut keyout = KeyOut::new();
        let mut buffer = KeycodeBuffer::new();
        let mut port = port_with_data(true);
        at_send_prepare(&mut keyout, &mut port, byte);

        let mut line = Vec::new();
        for _ in 0..10 {
            port.p1ifg = AT_CLK;
            port1_isr(true, &mut device_ack, &mut keyin, &mut keyout, &mut buffer, &mut port);
            line.push(port.p1out & AT_DATA != 0);
        }
        assert!(keyout.is_empty());
        for i in 0..8 {
            assert_eq!(line[i], (byte >> i) & 1 == 1, "data bit {} of {:#x}", i, byte);
        }
        assert_eq!(line[8], compute_parity(byte), "parity bit of {:#x}", byte);
        assert!(line[9], "stop bit of {:#x}", byte);

        // Past the stop bit the keyboard pulls the data line low: the
        // acknowledge is latched and the transmitter cleared.
        port.p1in = 0;
        port.p1ifg = AT_CLK;
        port1_isr(true, &mut device_ack, &mut keyin, &mut keyout, &mut buffer, &mut port);
        assert!(device_ack);
        assert_eq!(keyout.contents, 0);
    }
}

#[test]
fn transmit_branch_leaves_receive_state_alone() {
    let mut device_ack = false;
    let mut keyin = KeyIn::new();
    let _ = keyin.shift_in(true);
    let mut keyout = KeyOut::new();
    assert!(keyout.put(0x42).is_ok());
    let mut buffer = KeycodeBuffer::new();
    assert!(buffer.put(0x77).is_ok());
    let (in_pos, in_contents) = (keyin.pos, keyin.contents);
    let mut port = port_with_data(true);
    port1_isr(true, &mut device_ack, &mut keyin, &mut keyout, &mut buffer, &mut port);
    assert_eq!((keyin.pos, keyin.contents), (in_pos, in_contents));
    assert_eq!(buffer.take(), Some(0x77));
    assert!(buffer.is_empty());
}

#[test]
fn receive_branch_leaves_transmit_state_alone() {
    let mut device_ack = false;
    let mut keyin = KeyIn::new();
    let mut keyout = KeyOut::new();
    assert!(keyout.put(0x42).is_ok());
    let (out_pos, out_contents) = (keyout.pos, keyout.contents);
    let mut buffer = KeycodeBuffer::new();
    let mut port = port_with_data(true);
    port1_isr(false, &mut device_ack, &mut keyin, &mut keyout, &mut buffer, &mut port);
    assert_eq!((keyout.pos, keyout.contents), (out_pos, out_contents));
    assert!(!device_ack);
    assert_eq!(keyin.pos, 1);
}

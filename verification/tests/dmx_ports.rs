use openlumen::dmx_output::Dmx_Output;
use openlumen::dmx_pio::frame_words;
use openlumen::dmx_task::{
    broadcast_address, frame_to_send, next_sequence, port_action, rate_to_duration, rx_art_dmx,
    store_rx_frame, DmxPortAction, DmxRxFrame, BREAK_MARKER,
};
use openlumen::schema::{OutputRate, PortMode};

#[test]
fn frame_intervals() {
    assert_eq!(rate_to_duration(OutputRate::Hz20), 50);
    assert_eq!(rate_to_duration(OutputRate::Hz30), 33);
    assert_eq!(rate_to_duration(OutputRate::Hz44), 23);
    assert_eq!(rate_to_duration(OutputRate::default()), 23);
}

#[test]
fn subnet_broadcast() {
    assert_eq!(broadcast_address([192, 168, 1, 50], 24), [192, 168, 1, 255]);
    assert_eq!(broadcast_address([10, 1, 2, 3], 8), [10, 255, 255, 255]);
    assert_eq!(broadcast_address([172, 16, 5, 4], 20), [172, 16, 15, 255]);
    assert_eq!(broadcast_address([10, 1, 2, 3], 32), [10, 1, 2, 3]);
    assert_eq!(broadcast_address([10, 1, 2, 3], 0), [255, 255, 255, 255]);
}

#[test]
fn receiver_assembles_frames_between_breaks() {
    let mut rx = DmxRxFrame::new();
    // Bytes before the first break are ignored.
    assert_eq!(rx.on_word(0x4200_0000), None);
    assert_eq!(rx.pos, 0);
    assert_eq!(rx.on_word(BREAK_MARKER), None);
    assert!(rx.started);
    rx.on_word(0x0000_0000);
    rx.on_word(0x1100_0000);
    rx.on_word(0x2200_00FF);
    assert_eq!(rx.pos, 3);
    assert_eq!(&rx.frame[..3], &[0x00, 0x11, 0x22]);
    assert_eq!(rx.on_word(BREAK_MARKER), Some(3));
    assert_eq!(rx.pos, 0);
    // A frame with a non-zero start code is not reported.
    rx.on_word(0xCC00_0000);
    rx.on_word(0x0100_0000);
    assert_eq!(rx.on_word(BREAK_MARKER), None);
    // A start code alone is not a frame.
    rx.on_word(0);
    assert_eq!(rx.on_word(BREAK_MARKER), None);
}

#[test]
fn receiver_stops_at_full_frame() {
    let mut rx = DmxRxFrame::new();
    rx.on_word(BREAK_MARKER);
    for i in 0..600u32 {
        let byte = if i == 0 { 0 } else { (i % 200) as u32 };
        rx.on_word(byte << 24);
    }
    assert_eq!(rx.pos, 513);
    assert_eq!(rx.frame[512], (512 % 200) as u8);
    assert_eq!(rx.on_word(BREAK_MARKER), Some(513));
}

#[test]
fn sequence_skips_zero() {
    assert_eq!(next_sequence(1), 2);
    assert_eq!(next_sequence(254), 255);
    assert_eq!(next_sequence(255), 1);
    assert_eq!(next_sequence(0), 1);
}

#[test]
fn received_frame_becomes_art_dmx() {
    let mut frame = [0u8; 513];
    for i in 1..513 {
        frame[i] = i as u8;
    }
    let d = rx_art_dmx(&frame, 4, 9, 2, 1, 0x3, 0x15);
    assert_eq!(d.sequence, 9);
    assert_eq!(d.physical, 2);
    assert_eq!(d.net, 1);
    assert_eq!(d.sub_uni, 0x35);
    assert_eq!(d.length, 3);
    assert_eq!(&d.data[..3], &[1, 2, 3]);
    let full = rx_art_dmx(&frame, 513, 1, 0, 0, 0, 0);
    assert_eq!(full.length, 512);
    assert_eq!(&full.data[..], &frame[1..]);
}

#[test]
fn shared_buffer_shows_received_bytes() {
    let frame = [7u8; 513];
    let mut buffer = [1u8; 513];
    store_rx_frame(&mut buffer, &frame, 10);
    assert!(buffer[..10].iter().all(|&b| b == 7));
    assert!(buffer[10..].iter().all(|&b| b == 1));
}

#[test]
fn port_modes_and_output_frames() {
    assert_eq!(port_action(PortMode::Inactive), DmxPortAction::Release);
    assert_eq!(port_action(PortMode::Input), DmxPortAction::Receive);
    assert_eq!(port_action(PortMode::Active), DmxPortAction::Transmit);
    assert_eq!(port_action(PortMode::Blackout), DmxPortAction::Transmit);
    let buffer = [9u8; 513];
    assert_eq!(frame_to_send(PortMode::Active, &buffer), buffer);
    assert_eq!(frame_to_send(PortMode::Blackout, &buffer), [0u8; 513]);
}

#[test]
fn pio_words_for_a_frame() {
    let mut data = [0u8; 513];
    data[1] = 0xFF;
    data[512] = 0x80;
    let w = frame_words(&data);
    assert_eq!(w[0], 512);
    assert_eq!(w[1], 0);
    assert_eq!(w[2], 0xFF);
    assert_eq!(w[513], 0x80);
}

#[test]
fn uart_image_bytes() {
    let mut out = Dmx_Output::new();
    let mut expected = [0u8; 708];
    expected[2] = 0xC0;
    assert_eq!(out.as_bytes(), &expected);
    // Bits 36..44: byte 4 bits 4..7 and byte 5 bits 0..3.
    out.set_data_byte(0, 0xA5);
    expected[4] = 0x50;
    expected[5] = 0x0A;
    assert_eq!(out.as_bytes(), &expected);
    // Writing zero clears every bit of the slot and nothing else.
    out.write_byte(32, 0xFF);
    expected[4] = 0xFF;
    assert_eq!(out.as_bytes(), &expected);
    out.write_byte(36, 0);
    expected[4] = 0x0F;
    expected[5] = 0x00;
    assert_eq!(out.as_bytes(), &expected);
    // An aligned slot is a whole byte.
    out.write_byte(40, 0x3C);
    expected[5] = 0x3C;
    assert_eq!(out.as_bytes(), &expected);
    // Data byte 4 starts on a byte boundary (36 + 44 = 80).
    out.set_data_byte(4, 0x81);
    expected[10] = 0x81;
    assert_eq!(out.as_bytes(), &expected);
}

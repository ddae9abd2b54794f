use openlumen::artnet::dmx::ArtDmx;
use openlumen::artnet::poll::{Flags, Poll, FLAG_ART_POLL_REPLY, FLAG_TARGETED};
use openlumen::artnet::poll_reply::{
    GoodInput, GoodOutputA, GoodOutputB, PollReply, PortTypes, Status1, Status2, Status3,
    StyleCode, SwMacro, SwRemote, BUFFER_SIZE,
};
use openlumen::artnet::{has_artnet_id, push_artnet_id, ArtNetError};

const ID: [u8; 8] = [0x41, 0x72, 0x74, 0x2d, 0x4e, 0x65, 0x74, 0x00];

fn sample_dmx(length: u16) -> ArtDmx {
    let mut d = ArtDmx::default();
    d.sequence = 7;
    d.physical = 1;
    d.sub_uni = 0x23;
    d.net = 0x01;
    d.length = length;
    for i in 0..512 {
        d.data[i] = (i % 251) as u8 + 1;
    }
    d
}

fn sample_reply() -> PollReply {
    PollReply {
        ip_address: [10, 1, 2, 3],
        port: 0x1936,
        firmware_version: 0x0102,
        net: 0,
        sub_net: 0,
        oem_code: 0x00FF,
        ubea_version: 0,
        status1: Status1::from_bits_truncate(0xFF),
        esta_manufacturer: 0x1234,
        port_name: [0x50; 18],
        long_name: [0x4c; 64],
        node_report: [0x23; 64],
        num_ports: 4,
        port_types: [PortTypes::from_bits_truncate(0x80); 4],
        good_input: [GoodInput::from_bits_truncate(0x08); 4],
        good_output: [GoodOutputA::from_bits_truncate(0x80); 4],
        sw_in: [0, 1, 2, 3],
        sw_out: [4, 5, 6, 7],
        acn_priority: 100,
        sw_macro: SwMacro::empty(),
        sw_remote: SwRemote::empty(),
        style: StyleCode::Node,
        mac: [2, 0xd5, 0x12, 1, 2, 3],
        bind_ip: [10, 1, 2, 3],
        bind_index: 1,
        status2: Status2::from_bits_truncate(0x08),
        good_output_b: [GoodOutputB::empty(); 4],
        status3: Status3::from_bits_truncate(0x08),
        uid: [0; 6],
        user_data: [0xAB, 0xCD],
        refresh_rate: 44,
    }
}

#[test]
fn art_dmx_serializes_header_and_channels() {
    let d = sample_dmx(4);
    let mut buf = [0xEEu8; 30];
    let n = d.to_buffer(&mut buf).unwrap();
    assert_eq!(n, 22);
    assert_eq!(&buf[0..8], &ID);
    assert_eq!(&buf[8..12], &[0x00, 0x50, 0x00, 14]);
    assert_eq!(&buf[12..18], &[7, 1, 0x23, 0x01, 0x00, 0x04]);
    assert_eq!(&buf[18..22], &[1, 2, 3, 4]);
    assert!(buf[22..].iter().all(|&b| b == 0xEE));
}

#[test]
fn art_dmx_roundtrip_clears_channels_past_length() {
    let d = sample_dmx(300);
    let mut buf = [0u8; 600];
    let n = d.to_buffer(&mut buf).unwrap();
    assert_eq!(n, 318);
    let back = ArtDmx::from_buffer(&buf).unwrap();
    assert_eq!(back.sequence, 7);
    assert_eq!(back.physical, 1);
    assert_eq!(back.sub_uni, 0x23);
    assert_eq!(back.net, 0x01);
    assert_eq!(back.length, 300);
    assert_eq!(&back.data[..300], &d.data[..300]);
    assert!(back.data[300..].iter().all(|&b| b == 0));
    assert_eq!(back.universe(), 0x0123);
}

#[test]
fn art_dmx_buffer_too_small() {
    let d = sample_dmx(10);
    let mut buf = [9u8; 27];
    assert_eq!(d.to_buffer(&mut buf), Err(ArtNetError::BufferTooSmall));
    assert!(buf.iter().all(|&b| b == 9));
}

#[test]
fn art_dmx_length_too_large() {
    let d = sample_dmx(600);
    let mut buf = [0u8; 700];
    assert_eq!(d.to_buffer(&mut buf), Err(ArtNetError::DmxLengthTooLarge));
}

#[test]
fn art_dmx_from_buffer_rejects_bad_lengths() {
    let mut buf = [0u8; 40];
    assert!(ArtDmx::from_buffer(&buf[..17]).is_none());
    // length 0
    assert!(ArtDmx::from_buffer(&buf).is_none());
    // length 513
    buf[16] = 0x02;
    buf[17] = 0x01;
    assert!(ArtDmx::from_buffer(&buf).is_none());
    // length 30 but only 22 data bytes present
    buf[16] = 0;
    buf[17] = 30;
    assert!(ArtDmx::from_buffer(&buf).is_none());
    buf[17] = 22;
    buf[18] = 0x55;
    let d = ArtDmx::from_buffer(&buf).unwrap();
    assert_eq!(d.length, 22);
    assert_eq!(d.data[0], 0x55);
}

#[test]
fn art_dmx_default_values() {
    let d = ArtDmx::default();
    assert_eq!(d.length, 0);
    assert_eq!(d.data[1], 85);
    assert_eq!(d.data[7], 85);
    assert_eq!(d.data[0], 0);
    assert_eq!(d.data.iter().filter(|&&b| b != 0).count(), 2);
    assert_eq!(d.universe(), 0);
}

#[test]
fn poll_writes_twenty_bytes() {
    let p = Poll {
        flags: Flags::from_bits_truncate(FLAG_TARGETED | FLAG_ART_POLL_REPLY | 0x81),
        diag_priority: 0x10,
        target_port_address_top: 0x7FFF,
        target_port_address_bottom: 0x0102,
        esta_manufacturer: 0xABCD,
        oem_code: 0x1234,
    };
    let mut buf = [0xEEu8; 24];
    assert_eq!(p.to_buffer(&mut buf), Ok(20));
    assert_eq!(&buf[0..8], &ID);
    assert_eq!(&buf[8..12], &[0x00, 0x20, 0x00, 14]);
    assert_eq!(&buf[12..20], &[0x22, 0x10, 0x7F, 0xFF, 0x01, 0x02, 0xAB, 0xCD]);
    assert_eq!(&buf[20..], &[0xEE; 4]);
}

#[test]
fn poll_roundtrip() {
    let p = Poll {
        flags: Flags::from_bits_truncate(FLAG_TARGETED),
        diag_priority: 3,
        target_port_address_top: 10,
        target_port_address_bottom: 2,
        esta_manufacturer: 0x4C4C,
        oem_code: 0,
    };
    let mut buf = [0u8; 22];
    buf[20] = 0x12;
    buf[21] = 0x34;
    p.to_buffer(&mut buf).unwrap();
    let back = Poll::from_buffer(&buf).unwrap();
    assert_eq!(back.flags.bits(), FLAG_TARGETED);
    assert_eq!(back.diag_priority, 3);
    assert_eq!(back.target_port_address_top, 10);
    assert_eq!(back.target_port_address_bottom, 2);
    assert_eq!(back.esta_manufacturer, 0x4C4C);
    assert_eq!(back.oem_code, 0x1234);
    // Only the 20 written bytes: the 16-bit fields read as zero.
    let short = Poll::from_buffer(&buf[..20]).unwrap();
    assert_eq!(short.flags.bits(), FLAG_TARGETED);
    assert_eq!(short.target_port_address_top, 0);
    assert_eq!(short.esta_manufacturer, 0);
}

#[test]
fn poll_errors_and_short_input() {
    let p = Poll {
        flags: Flags::empty(),
        diag_priority: 0,
        target_port_address_top: 0,
        target_port_address_bottom: 0,
        esta_manufacturer: 0,
        oem_code: 0,
    };
    let mut buf = [0u8; 19];
    assert_eq!(p.to_buffer(&mut buf), Err(ArtNetError::BufferTooSmall));
    assert!(Poll::from_buffer(&[0u8; 13]).is_none());
    let mut b = [0u8; 14];
    b[12] = 0b0011_1110;
    assert_eq!(Poll::from_buffer(&b).unwrap().flags.bits(), 0b0011_1110);
    // A flags byte with a bit that no flag defines is rejected.
    for bad in [0xFFu8, 0x01, 0x40, 0x80, 0x3F] {
        b[12] = bad;
        assert!(Poll::from_buffer(&b).is_none());
    }
}

#[test]
fn poll_reply_layout() {
    let r = sample_reply();
    let mut buf = [0x77u8; 250];
    assert_eq!(r.to_buffer(&mut buf), Ok(BUFFER_SIZE));
    assert_eq!(&buf[0..8], &ID);
    assert_eq!(&buf[8..10], &[0x00, 0x21]);
    assert_eq!(&buf[10..14], &[10, 1, 2, 3]);
    assert_eq!(&buf[14..16], &[0x36, 0x19]);
    assert_eq!(&buf[16..18], &[0x01, 0x02]);
    assert_eq!(&buf[20..22], &[0x00, 0xFF]);
    assert_eq!(buf[23], 0xF7);
    assert_eq!(&buf[24..26], &[0x34, 0x12]);
    assert_eq!(buf[26], 0x50);
    assert_eq!(buf[44], 0x4c);
    assert_eq!(buf[108], 0x23);
    assert_eq!(&buf[172..174], &[0, 4]);
    assert_eq!(buf[174], 0x77);
    assert_eq!(&buf[175..179], &[0x80; 4]);
    assert_eq!(&buf[179..183], &[0x08; 4]);
    assert_eq!(&buf[183..187], &[0x80; 4]);
    assert_eq!(&buf[187..191], &[0, 1, 2, 3]);
    assert_eq!(&buf[191..195], &[4, 5, 6, 7]);
    assert_eq!(buf[195], 100);
    assert_eq!(&buf[198..201], &[0x77; 3]);
    assert_eq!(buf[201], 0);
    assert_eq!(&buf[202..208], &[2, 0xd5, 0x12, 1, 2, 3]);
    assert_eq!(&buf[208..212], &[10, 1, 2, 3]);
    assert_eq!(buf[212], 1);
    assert_eq!(buf[213], 0x08);
    assert_eq!(buf[218], 0x08);
    assert_eq!(&buf[225..227], &[0xAB, 0xCD]);
    assert_eq!(&buf[227..229], &[0, 44]);
    assert_eq!(&buf[229..240], &[0; 11]);
    assert_eq!(&buf[240..], &[0x77; 10]);
}

#[test]
fn poll_reply_buffer_too_small() {
    let r = sample_reply();
    let mut buf = [1u8; 239];
    assert_eq!(r.to_buffer(&mut buf), Err(ArtNetError::BufferTooSmall));
    assert!(buf.iter().all(|&b| b == 1));
}

#[test]
fn style_codes_and_registers() {
    assert_eq!(StyleCode::Node.to_byte(), 0);
    assert_eq!(StyleCode::Controller.to_byte(), 1);
    assert_eq!(StyleCode::Visual.to_byte(), 6);
    assert_eq!(Status1::from_bits_truncate(0xFF).bits(), 0xF7);
    assert_eq!(PortTypes::from_bits_truncate(0xFF).bits(), 0xC7);
    assert_eq!(GoodInput::from_bits_truncate(0xFF).bits(), 0xFD);
    assert_eq!(GoodOutputB::from_bits_truncate(0xFF).bits(), 0xF0);
    assert_eq!(Status3::from_bits_truncate(0xFF).bits(), 0xFC);
    assert_eq!(Status2::empty().bits(), 0);
}

#[test]
fn artnet_id_check() {
    let mut v = Vec::new();
    push_artnet_id(&mut v);
    assert_eq!(v.as_slice(), &ID);
    assert!(has_artnet_id(&v));
    assert!(!has_artnet_id(&v[..7]));
    v[3] = b'_';
    assert!(!has_artnet_id(&v));
}

use openlumen::artnet::poll_reply::{
    GoodInput, GoodOutputA, GoodOutputB, PollReply, PortTypes, Status1, Status2, Status3,
    StyleCode, SwMacro, SwRemote,
};
use openlumen::artnet_task::{
    apply_failsafe, close_source_window, default_artnet_source, find_source_slot, ip_eq,
    led_poll_replies, match_dmx_port, merge_dmx_data, packet_opcode, parse_dmx_header,
    poll_reply_source_name, port_has_any_active, record_dmx_packet, refresh_port_output,
    rename_sources, route_art_dmx, sync_artnet_config, update_stats, write_ip_to_buf,
    close_stats_window, ArtnetSource, DmxRoute,
};
use openlumen::schema::{
    ArtnetConfig, ColorOrder, DmxPortConfig, LedPortConfig, LedPortMode, MergeMode, PortMode,
};

fn base_reply() -> PollReply {
    PollReply {
        ip_address: [10, 0, 0, 5],
        port: 0x1936,
        firmware_version: 1,
        net: 0,
        sub_net: 0,
        oem_code: 0,
        ubea_version: 0,
        status1: Status1::empty(),
        esta_manufacturer: 0,
        port_name: [0; 18],
        long_name: [0; 64],
        node_report: [0; 64],
        num_ports: 4,
        port_types: [PortTypes::empty(); 4],
        good_input: [GoodInput::empty(); 4],
        good_output: [GoodOutputA::empty(); 4],
        sw_in: [0; 4],
        sw_out: [0, 1, 2, 3],
        acn_priority: 0,
        sw_macro: SwMacro::empty(),
        sw_remote: SwRemote::empty(),
        style: StyleCode::Node,
        mac: [0; 6],
        bind_ip: [10, 0, 0, 5],
        bind_index: 1,
        status2: Status2::empty(),
        good_output_b: [GoodOutputB::empty(); 4],
        status3: Status3::empty(),
        uid: [0; 6],
        user_data: [0; 2],
        refresh_rate: 0,
    }
}

fn active_source(ip: [u8; 4], physical: u8, fill: u8) -> ArtnetSource {
    let mut s = default_artnet_source();
    s.active = true;
    s.ip = ip;
    s.last_packet_physical = physical;
    for i in 1..513 {
        s.last_packet_dmx[i] = fill;
    }
    s
}

fn led(start_universe: u16, pixel_count: u16, mode: LedPortMode) -> LedPortConfig {
    LedPortConfig {
        mode,
        start_universe,
        start_address: 1,
        pixel_count,
        color_order: ColorOrder::Grb,
        brightness_cap: 255,
        reverse: false,
    }
}

#[test]
fn ip_text_written_in_dotted_decimal() {
    let mut buf = [0xAAu8; 20];
    let n = write_ip_to_buf([192, 168, 0, 2], &mut buf);
    assert_eq!(n, 11);
    assert_eq!(&buf[..11], b"192.168.0.2");
    assert_eq!(buf[11], 0xAA);
    let n = write_ip_to_buf([255, 255, 255, 255], &mut buf);
    assert_eq!(&buf[..n], b"255.255.255.255");
}

#[test]
fn port_matching_by_net_subnet_and_nibble() {
    let sw_out = [0, 1, 2, 3];
    assert_eq!(match_dmx_port(0, 0, sw_out, 2), Some(2));
    assert_eq!(match_dmx_port(0, 0, sw_out, 7), None);
    // Universe 0x0112: Net 1, Sub-Net 1, universe 2.
    assert_eq!(match_dmx_port(1, 1, sw_out, 0x0112), Some(2));
    assert_eq!(match_dmx_port(0, 1, sw_out, 0x0112), None);
    assert_eq!(match_dmx_port(1, 0, sw_out, 0x0112), None);
    // First matching port wins; only the low nibble counts.
    assert_eq!(match_dmx_port(0, 0, [0x13, 0x03, 0, 0], 3), Some(0));
}

#[test]
fn source_slots() {
    let a = [10, 0, 0, 1];
    let b = [10, 0, 0, 2];
    let c = [10, 0, 0, 3];
    let empty = [default_artnet_source(), default_artnet_source()];
    assert_eq!(find_source_slot(&empty, a), Some(0));
    let one = [active_source(a, 0, 0), default_artnet_source()];
    assert_eq!(find_source_slot(&one, a), Some(0));
    assert_eq!(find_source_slot(&one, b), Some(1));
    let two = [active_source(a, 0, 0), active_source(b, 0, 0)];
    assert_eq!(find_source_slot(&two, b), Some(1));
    assert_eq!(find_source_slot(&two, c), None);
    assert!(port_has_any_active(&two));
    assert!(!port_has_any_active(&empty));
    assert!(ip_eq(a, a));
    assert!(!ip_eq(a, b));
}

#[test]
fn first_packet_activates_and_names_source() {
    let mut s = default_artnet_source();
    record_dmx_packet(&mut s, [10, 0, 0, 7], 5, 1, 1000, &[9, 8, 7]);
    assert!(s.active);
    assert_eq!(s.ip, [10, 0, 0, 7]);
    assert_eq!(&s.name[..8], b"10.0.0.7");
    assert!(s.name[8..].iter().all(|&b| b == 0));
    assert_eq!(s.packet_count, 1);
    assert_eq!(s.last_packet_sequence, 5);
    assert_eq!(s.last_packet_time, 1000);
    assert_eq!(s.last_packet_physical, 1);
    assert_eq!(&s.last_packet_dmx[..5], &[0, 9, 8, 7, 0]);
    assert_eq!(s.seq_samples, 0);
}

#[test]
fn sequence_gaps_and_window_totals() {
    let mut s = default_artnet_source();
    let data = [1u8; 10];
    record_dmx_packet(&mut s, [10, 0, 0, 7], 1, 0, 0, &data);
    record_dmx_packet(&mut s, [10, 0, 0, 7], 2, 0, 10, &data);
    record_dmx_packet(&mut s, [10, 0, 0, 7], 5, 0, 20, &data);
    assert_eq!(s.seq_gap_total, 4);
    assert_eq!(s.seq_gap_min, 1);
    assert_eq!(s.seq_samples, 2);
    // Wrap from 255 to 1 counts as a gap of one.
    record_dmx_packet(&mut s, [10, 0, 0, 7], 255, 0, 30, &data);
    record_dmx_packet(&mut s, [10, 0, 0, 7], 1, 0, 40, &data);
    assert_eq!(s.seq_gap_total, 4 + 250 + 1);
    assert_eq!(s.seq_samples, 4);
    let (timed_out, packets, dropped) = close_source_window(&mut s, 50, 100);
    assert!(!timed_out);
    assert_eq!(packets, 5);
    assert_eq!(dropped, 255 - 4);
    assert_eq!(s.frequency, 5);
    assert_eq!(s.packet_count, 0);
    assert_eq!(s.seq_gap_total, 0);
}

#[test]
fn clean_link_with_stride_shows_no_loss() {
    let mut s = default_artnet_source();
    let data = [1u8; 4];
    let mut seq = 1u8;
    for t in 0..10u64 {
        record_dmx_packet(&mut s, [10, 0, 0, 9], seq, 0, t, &data);
        seq += 3;
    }
    assert_eq!(s.seq_gap_min, 3);
    let (_, packets, dropped) = close_source_window(&mut s, 10, 100);
    assert_eq!(packets, 10);
    assert_eq!(dropped, 0);
}

#[test]
fn silent_source_times_out() {
    let mut s = active_source([10, 0, 0, 1], 0, 200);
    s.last_packet_time = 10;
    s.packet_count = 3;
    let (timed_out, packets, dropped) = close_source_window(&mut s, 200, 100);
    assert!(timed_out);
    assert_eq!((packets, dropped), (0, 0));
    assert!(!s.active);
    assert!(s.last_packet_dmx[1..].iter().all(|&b| b == 0));
    assert_eq!(s.packet_count, 3);
}

#[test]
fn stats_over_all_ports() {
    let mut sources = [[default_artnet_source(), default_artnet_source()]; 4];
    sources[0][0] = active_source([10, 0, 0, 1], 0, 1);
    sources[0][0].packet_count = 40;
    sources[0][0].last_packet_time = 900;
    sources[2][1] = active_source([10, 0, 0, 2], 0, 1);
    sources[2][1].packet_count = 2;
    sources[2][1].last_packet_time = 100;
    sources[3][0] = active_source([10, 0, 0, 3], 0, 1);
    sources[3][0].packet_count = 30;
    sources[3][0].last_packet_time = 950;
    sources[3][0].seq_gap_total = 12;
    sources[3][0].seq_gap_min = 1;
    sources[3][0].seq_samples = 10;
    let totals = update_stats(&mut sources, 1000, 500);
    assert_eq!(totals.timed_out, [false, false, true, false]);
    assert_eq!(totals.artdmx_count, 70);
    assert_eq!(totals.dropped_packets, 2);
    assert!(!sources[2][1].active);
    assert_eq!(sources[0][0].frequency, 40);
    assert_eq!(sources[3][0].frequency, 30);
}

#[test]
fn merge_modes() {
    let mut a = active_source([10, 0, 0, 1], 1, 10);
    let mut b = active_source([10, 0, 0, 2], 0, 20);
    a.last_packet_dmx[5] = 99;
    b.last_packet_dmx[6] = 0;
    let sources = [a, b];
    let mut cfg = DmxPortConfig::default_with_universe(0);
    let mut buf = [3u8; 513];
    merge_dmx_data(&mut buf, &sources, &cfg, 0);
    assert_eq!(buf[0], 3);
    assert_eq!(buf[1], 20);
    assert_eq!(buf[5], 99);
    assert_eq!(buf[6], 10);
    cfg.merge_mode = MergeMode::Ltp;
    merge_dmx_data(&mut buf, &sources, &cfg, 0);
    assert_eq!(buf[1], 10);
    assert_eq!(buf[6], 10);
    cfg.merge_mode = MergeMode::Priority;
    merge_dmx_data(&mut buf, &sources, &cfg, 0);
    // Source 1 is on the lower physical input.
    assert_eq!(buf[1], 20);
    assert_eq!(buf[6], 0);
    let before = buf;
    merge_dmx_data(&mut buf, &sources, &cfg, 2);
    assert_eq!(buf, before);
}

#[test]
fn merge_with_one_source_takes_its_data() {
    let a = active_source([10, 0, 0, 1], 0, 42);
    let sources = [a, default_artnet_source()];
    let cfg = DmxPortConfig::default_with_universe(0);
    let mut buf = [0u8; 513];
    merge_dmx_data(&mut buf, &sources, &cfg, 0);
    assert!(buf[1..].iter().all(|&b| b == 42));
}

#[test]
fn failsafe_scene_applies_only_without_sources() {
    let scene = [77u8; 512];
    let idle = [default_artnet_source(), default_artnet_source()];
    let mut buf = [5u8; 513];
    apply_failsafe(&mut buf, &idle, true, &scene);
    assert_eq!(buf[0], 5);
    assert!(buf[1..].iter().all(|&b| b == 77));
    let mut buf = [5u8; 513];
    apply_failsafe(&mut buf, &idle, false, &scene);
    assert!(buf.iter().all(|&b| b == 5));
    let live = [active_source([10, 0, 0, 1], 0, 1), default_artnet_source()];
    let mut buf = [5u8; 513];
    apply_failsafe(&mut buf, &live, true, &scene);
    assert!(buf.iter().all(|&b| b == 5));
}

#[test]
fn refreshed_output_after_timeout_shows_scene() {
    let scene = [33u8; 512];
    let idle = [default_artnet_source(), default_artnet_source()];
    let cfg = DmxPortConfig::default_with_universe(0);
    let mut buf = [5u8; 513];
    refresh_port_output(&mut buf, &idle, &cfg, 0, true, &scene);
    assert_eq!(buf[0], 0);
    assert!(buf[1..].iter().all(|&b| b == 33));
    let live = [active_source([10, 0, 0, 1], 0, 8), default_artnet_source()];
    refresh_port_output(&mut buf, &live, &cfg, 0, true, &scene);
    assert_eq!(buf[0], 0);
    assert!(buf[1..].iter().all(|&b| b == 8));
}

#[test]
fn datagram_headers() {
    let mut pkt = [0u8; 40];
    pkt[..8].copy_from_slice(b"Art-Net\0");
    pkt[8] = 0x00;
    pkt[9] = 0x50;
    assert_eq!(packet_opcode(&pkt, 40), Some(0x5000));
    assert_eq!(packet_opcode(&pkt, 11), None);
    pkt[12] = 9;
    pkt[13] = 1;
    pkt[14] = 0x12;
    pkt[15] = 0x01;
    pkt[16] = 0x00;
    pkt[17] = 22;
    let h = parse_dmx_header(&pkt, 40).unwrap();
    assert_eq!(h.sequence, 9);
    assert_eq!(h.physical, 1);
    assert_eq!(h.universe, 0x0112);
    assert_eq!(h.length, 22);
    assert!(parse_dmx_header(&pkt, 17).is_none());
    pkt[16] = 0x02;
    pkt[17] = 0x01;
    assert!(parse_dmx_header(&pkt, 40).is_none());
    let mut bad = pkt;
    bad[0] = b'X';
    assert_eq!(packet_opcode(&bad, 40), None);
}

#[test]
fn controller_names_from_poll_replies() {
    let mut pkt = [0u8; 239];
    assert!(poll_reply_source_name(&pkt, 239).is_none());
    pkt[44..49].copy_from_slice(b"Grand");
    let name = poll_reply_source_name(&pkt, 239).unwrap();
    assert_eq!(&name[..5], b"Grand");
    assert!(name[5..].iter().all(|&b| b == 0));
    for i in 44..108 {
        pkt[i] = b'x';
    }
    let name = poll_reply_source_name(&pkt, 239).unwrap();
    assert_eq!(name, [b'x'; 17]);
    assert!(poll_reply_source_name(&pkt, 107).is_none());
}

#[test]
fn renaming_touches_only_matching_active_sources() {
    let ip = [10, 0, 0, 1];
    let mut sources = [[default_artnet_source(), default_artnet_source()]; 4];
    sources[0][0] = active_source(ip, 0, 0);
    sources[3][1] = active_source(ip, 0, 0);
    sources[1][0] = active_source([10, 0, 0, 2], 0, 0);
    sources[2][0].ip = ip;
    let name = *b"desk\0\0\0\0\0\0\0\0\0\0\0\0\0";
    rename_sources(&mut sources, ip, name);
    assert_eq!(sources[0][0].name, name);
    assert_eq!(sources[3][1].name, name);
    assert_eq!(sources[1][0].name, [0; 17]);
    assert_eq!(sources[2][0].name, [0; 17]);
}

#[test]
fn poll_reply_follows_config() {
    let mut reply = base_reply();
    let mut art = ArtnetConfig::default();
    art.net = 3;
    art.subnet = 5;
    let mut ports = [
        DmxPortConfig::default_with_universe(0),
        DmxPortConfig::default_with_universe(1),
        DmxPortConfig::default_with_universe(2),
        DmxPortConfig::default_with_universe(3),
    ];
    ports[1].mode = PortMode::Input;
    ports[2].mode = PortMode::Inactive;
    ports[3].mode = PortMode::Blackout;
    sync_artnet_config(&mut reply, &art, &ports);
    assert_eq!(reply.net, 3);
    assert_eq!(reply.sub_net, 5);
    assert_eq!(&reply.long_name[..14], b"OpenLumen Node");
    assert!(reply.long_name[14..].iter().all(|&b| b == 0));
    assert_eq!(reply.port_types.map(|p| p.bits()), [0x80, 0x40, 0x80, 0x80]);
    assert_eq!(reply.good_input.map(|p| p.bits()), [0x08, 0x80, 0x08, 0x08]);
    assert_eq!(reply.good_output.map(|p| p.bits()), [0x80, 0x00, 0x00, 0x80]);
    assert_eq!(reply.sw_in, [0, 1, 0, 0]);
    assert_eq!(reply.sw_out, [0, 0, 2, 3]);
    assert_eq!(reply.ip_address, [10, 0, 0, 5]);
}

#[test]
fn led_pages_split_at_subnet_boundaries() {
    // Output 0: 1000 GRB pixels from universe 14, clamped to 768 pixels (2304 bytes),
    // so universes 14..18, split as 14..15 | 16..18. Output 1: 200 pixels at universe
    // 40 -> 40..41, inactive.
    let cfg = [
        led(14, 1000, LedPortMode::Active),
        led(40, 200, LedPortMode::Inactive),
        led(60, 0, LedPortMode::Active),
        led(70, 0, LedPortMode::Inactive),
    ];
    let pages = led_poll_replies(&base_reply(), &cfg);
    assert_eq!(pages.len(), 3);
    assert_eq!((pages[0].net, pages[0].sub_net, pages[0].num_ports), (0, 0, 2));
    assert_eq!(&pages[0].sw_out, &[14, 15, 0, 0]);
    assert_eq!((pages[1].net, pages[1].sub_net, pages[1].num_ports), (0, 1, 3));
    assert_eq!(&pages[1].sw_out, &[0, 1, 2, 0]);
    assert_eq!((pages[2].sub_net, pages[2].num_ports), (2, 2));
    assert_eq!(&pages[2].sw_out, &[8, 9, 0, 0]);
    assert_eq!(pages.iter().map(|p| p.bind_index).collect::<Vec<_>>(), vec![2, 3, 4]);
    assert_eq!(pages[0].good_output.map(|p| p.bits()), [0x80, 0x80, 0, 0]);
    assert_eq!(pages[2].good_output.map(|p| p.bits()), [0, 0, 0, 0]);
    assert_eq!(pages[1].port_types.map(|p| p.bits()), [0x80, 0x80, 0x80, 0]);
    assert_eq!(pages[1].good_input.map(|p| p.bits()), [0x08; 4]);
    let total: u16 = pages.iter().map(|p| p.num_ports).sum();
    assert_eq!(total, 5 + 2);
}

#[test]
fn led_outputs_take_packets_before_the_subnet_filter() {
    // An LED strip on universe 0x0345 (Net 3, Sub-Net 4), a node on Net 0 / Sub-Net 0.
    let leds = [
        led(0x0345, 10, LedPortMode::Active),
        led(70, 0, LedPortMode::Inactive),
        led(80, 0, LedPortMode::Inactive),
        led(90, 0, LedPortMode::Inactive),
    ];
    let mut buffers = [[0u8; 3072]; 4];
    let data = [7u8; 512];
    match route_art_dmx(&leds, &mut buffers, 0, 0, [0, 1, 2, 3], 0x0345, &data) {
        DmxRoute::Led(ingest) => {
            assert!(ingest.matched);
            assert_eq!(ingest.complete, [true, false, false, false]);
        }
        _ => panic!("expected the LED output to take the packet"),
    }
    assert!(buffers[0][..30].iter().all(|&b| b == 7));
    // Not an LED universe: the DMX port with the matching nibble takes it.
    assert!(matches!(
        route_art_dmx(&leds, &mut buffers, 0, 0, [0, 1, 2, 3], 2, &data),
        DmxRoute::Port(2)
    ));
    // Other Net: dropped.
    assert!(matches!(
        route_art_dmx(&leds, &mut buffers, 0, 0, [0, 1, 2, 3], 0x0102, &data),
        DmxRoute::Drop
    ));
}

#[test]
fn window_close_refreshes_port_outputs() {
    let mut sources = [[default_artnet_source(), default_artnet_source()]; 4];
    // Port 0: its only source timed out; a failsafe scene is stored.
    sources[0][0] = active_source([10, 0, 0, 1], 0, 200);
    sources[0][0].last_packet_time = 0;
    // Port 1: a silent source in slot 0 and a live one in slot 1. The merge runs with
    // slot 0 as the sender, which is inactive now, so its zeroed channels are taken.
    sources[1][0] = active_source([10, 0, 0, 2], 0, 50);
    sources[1][0].last_packet_time = 0;
    sources[1][1] = active_source([10, 0, 0, 3], 0, 90);
    sources[1][1].last_packet_time = 950;
    // Port 2: idle with a stored scene; port 3: idle, nothing stored.
    let mut buffers = [[9u8; 513]; 4];
    let configs = [
        DmxPortConfig::default_with_universe(0),
        DmxPortConfig::default_with_universe(1),
        DmxPortConfig::default_with_universe(2),
        DmxPortConfig::default_with_universe(3),
    ];
    let stored = [true, true, true, false];
    let scenes = [[33u8; 512]; 4];
    let totals = close_stats_window(&mut sources, &mut buffers, &configs, &stored, &scenes, 1000, 500);
    assert_eq!(totals.timed_out, [true, true, false, false]);
    assert_eq!(buffers[0][0], 0);
    assert!(buffers[0][1..].iter().all(|&b| b == 33));
    assert_eq!(buffers[1][0], 0);
    assert!(buffers[1][1..].iter().all(|&b| b == 0));
    assert_eq!(buffers[2][0], 9);
    assert!(buffers[2][1..].iter().all(|&b| b == 33));
    assert!(buffers[3].iter().all(|&b| b == 9));
}

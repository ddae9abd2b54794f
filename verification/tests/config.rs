use openlumen::artnet_task::{default_artnet_source, ArtnetSource};
use openlumen::button_task::{
    reset_network_settings, ButtonAction, ButtonEvent, ButtonState, ResetButton,
};
use openlumen::net::{
    get_default_net_config, net_stack_config, prefix_to_subnet_mask, subnet_mask_to_prefix_len,
    NetStackConfig,
};
use openlumen::schema::{
    ArtnetConfig, ArtnetConfigUpdateItem, ColorOrder, DeviceName, DmxPortConfig,
    DmxPortConfigUpdateItem, IpConfigType, LedPortConfigUpdateItem, LedPortMode, MergeMode, NetworkConfig,
    NetworkConfigUpdateItem, OutputRate, PortMode, StoredSettings, SETTINGS_VERSION,
};
use openlumen::schema::default_led_ports;
use openlumen::schema::{SourceDevice, SourceDevices, SourceName};
use openlumen::storage::file_system::SettingsStoreSignal;
use openlumen::web_task::{
    apply_artnet_update, apply_dmx_port_updates, apply_led_port_updates, apply_network_update,
    clear_failsafe, delete_failsafe, dmx_output_channels, factory_reset, next_update_slot,
    reset_to_defaults, set_failsafe, source_devices,
};

fn ports() -> [DmxPortConfig; 4] {
    [
        DmxPortConfig::default_with_universe(0),
        DmxPortConfig::default_with_universe(1),
        DmxPortConfig::default_with_universe(2),
        DmxPortConfig::default_with_universe(3),
    ]
}

#[test]
fn factory_network_settings_from_chip_id() {
    let n = NetworkConfig::from_chip_id(0x1122_3344_5566_7788);
    assert_eq!(n.mac_address, [0x02, 0xD5, 0x12, 0x66, 0x77, 0x88]);
    assert_eq!(n.ip_address, Some([10, 0x66, 0x77, 0x88]));
    assert_eq!(n.subnet_mask, Some([255, 0, 0, 0]));
    assert_eq!(n.gateway, Some([10, 0, 0, 1]));
    assert_eq!(n.ip_config_type, IpConfigType::Static);
    assert!(n.current_ip_address.is_none());
    assert!(n.id.is_none());
}

#[test]
fn default_settings() {
    let s = StoredSettings::default_with_chip_id(0xABCDEF);
    assert_eq!(s.version, SETTINGS_VERSION);
    for (i, p) in s.dmx_ports.iter().enumerate() {
        assert_eq!(p.universe as usize, i);
        assert_eq!(p.mode, PortMode::Active);
        assert_eq!(p.merge_mode, MergeMode::Htp);
        assert_eq!(p.output_rate, OutputRate::Hz44);
        assert!(!p.has_failsafe);
        assert!(p.source_devices.as_slice().is_empty());
    }
    assert_eq!(s.network_config.ip_address, Some([10, 0xAB, 0xCD, 0xEF]));
    assert_eq!(s.artnet_config.device_name.as_bytes(), b"OpenLumen Node");
    assert_eq!(s.artnet_config.net, 0);
    assert_eq!(s.led_ports[1].start_universe, 10);
    assert_eq!(PortMode::default(), PortMode::Active);
    assert_eq!(MergeMode::default(), MergeMode::Htp);
    assert_eq!(LedPortMode::default(), LedPortMode::Inactive);
    assert_eq!(DmxPortConfig::default_with_universe(258).universe, 2);
}

#[test]
fn mask_and_prefix() {
    assert_eq!(subnet_mask_to_prefix_len([255, 255, 255, 0]), 24);
    assert_eq!(subnet_mask_to_prefix_len([255, 255, 240, 0]), 20);
    assert_eq!(subnet_mask_to_prefix_len([255, 255, 255, 255]), 32);
    assert_eq!(subnet_mask_to_prefix_len([0, 0, 0, 0]), 0);
    assert_eq!(subnet_mask_to_prefix_len([255, 254, 0, 0]), 15);
    for p in [8u8, 16, 24] {
        assert_eq!(subnet_mask_to_prefix_len(prefix_to_subnet_mask(p)), p);
    }
    assert_eq!(prefix_to_subnet_mask(16), [255, 255, 0, 0]);
    assert_eq!(prefix_to_subnet_mask(12), [255, 255, 255, 0]);
}

#[test]
fn stack_configuration() {
    let mut n = NetworkConfig::from_chip_id(1);
    match net_stack_config(&n) {
        NetStackConfig::Static { address, prefix_len, gateway } => {
            assert_eq!(address, [10, 0, 0, 1]);
            assert_eq!(prefix_len, 8);
            assert_eq!(gateway, [10, 0, 0, 1]);
        }
        NetStackConfig::Dhcp => panic!("expected a static setup"),
    }
    n.gateway = None;
    match net_stack_config(&n) {
        NetStackConfig::Static { address, prefix_len, gateway } => {
            assert_eq!(address, [192, 168, 0, 2]);
            assert_eq!(prefix_len, 24);
            assert_eq!(gateway, [192, 168, 0, 1]);
        }
        NetStackConfig::Dhcp => panic!("expected the default setup"),
    }
    n.ip_config_type = IpConfigType::Dhcp;
    assert!(matches!(net_stack_config(&n), NetStackConfig::Dhcp));
    assert!(matches!(
        get_default_net_config(),
        NetStackConfig::Static { prefix_len: 24, .. }
    ));
}

#[test]
fn port_updates_apply_to_first_four() {
    let mut p = ports();
    p[2].has_failsafe = true;
    let item = DmxPortConfigUpdateItem {
        mode: PortMode::Input,
        universe: 9,
        merge_mode: MergeMode::Ltp,
        output_rate: OutputRate::Hz20,
    };
    apply_dmx_port_updates(&mut p, &[item; 3]);
    assert_eq!(p[0].universe, 9);
    assert_eq!(p[2].mode, PortMode::Input);
    assert!(p[2].has_failsafe);
    assert_eq!(p[3].universe, 3);
    assert_eq!(p[3].mode, PortMode::Active);
    apply_dmx_port_updates(&mut p, &[item; 6]);
    assert_eq!(p[3].universe, 9);
}

#[test]
fn led_updates_are_clamped() {
    let mut leds = default_led_ports();
    let item = LedPortConfigUpdateItem {
        mode: LedPortMode::Active,
        start_universe: 100,
        start_address: 0,
        pixel_count: 60000,
        color_order: ColorOrder::Rgb,
        brightness_cap: 128,
        reverse: true,
    };
    let mut second = item;
    second.start_address = 700;
    second.pixel_count = 10;
    apply_led_port_updates(&mut leds, &[item, second]);
    assert_eq!(leds[0].pixel_count, 768);
    assert_eq!(leds[0].start_address, 1);
    assert_eq!(leds[0].color_order, ColorOrder::Rgb);
    assert!(leds[0].reverse);
    assert_eq!(leds[1].start_address, 512);
    assert_eq!(leds[1].pixel_count, 10);
    assert_eq!(leds[2].start_universe, 16);
    assert_eq!(leds[2].mode, LedPortMode::Inactive);
}

#[test]
fn network_and_artnet_updates() {
    let mut n = NetworkConfig::from_chip_id(5);
    n.current_ip_address = Some([192, 168, 0, 9]);
    apply_network_update(
        &mut n,
        &NetworkConfigUpdateItem {
            ip_config_type: IpConfigType::Dhcp,
            ip_address: None,
            subnet_mask: None,
            gateway: Some([1, 2, 3, 4]),
        },
    );
    assert_eq!(n.ip_config_type, IpConfigType::Dhcp);
    assert_eq!(n.ip_address, None);
    assert_eq!(n.gateway, Some([1, 2, 3, 4]));
    assert_eq!(n.current_ip_address, Some([192, 168, 0, 9]));
    assert_eq!(n.mac_address, [0x02, 0xD5, 0x12, 0, 0, 5]);
    let mut a = ArtnetConfig::default();
    a.id = Some(4);
    apply_artnet_update(
        &mut a,
        ArtnetConfigUpdateItem {
            net: 2,
            subnet: 7,
            device_name: DeviceName::from_text("Stage left").unwrap(),
        },
    );
    assert_eq!((a.net, a.subnet, a.id), (2, 7, Some(4)));
    assert_eq!(a.device_name.as_bytes(), b"Stage left");
}

#[test]
fn failsafe_scenes() {
    let mut stored = [false; 4];
    let mut data = [[0u8; 512]; 4];
    let mut dmx = [[0u8; 513]; 4];
    dmx[1][0] = 0xAA;
    for i in 1..513 {
        dmx[1][i] = (i % 7) as u8;
    }
    assert!(set_failsafe(&mut stored, &mut data, &dmx, 1));
    assert_eq!(stored, [false, true, false, false]);
    assert_eq!(&data[1][..], &dmx[1][1..]);
    assert!(!set_failsafe(&mut stored, &mut data, &dmx, 4));
    assert!(!delete_failsafe(&mut stored, &mut data, 9));
    assert!(delete_failsafe(&mut stored, &mut data, 1));
    assert_eq!(stored, [false; 4]);
    assert_eq!(data[1], [0u8; 512]);
    stored = [true; 4];
    data = [[3u8; 512]; 4];
    clear_failsafe(&mut stored, &mut data);
    assert_eq!(stored, [false; 4]);
    assert!(data.iter().all(|d| d.iter().all(|&b| b == 0)));
}

#[test]
fn resets() {
    let mut p = ports();
    p[0].universe = 40;
    p[1].mode = PortMode::Inactive;
    let mut a = ArtnetConfig::default();
    a.net = 9;
    a.device_name = DeviceName::from_text("x").unwrap();
    let mut stored = [true; 4];
    let mut data = [[1u8; 512]; 4];
    assert_eq!(reset_to_defaults(&mut p, &mut a, &mut stored, &mut data), SettingsStoreSignal::Save);
    assert_eq!(p[0].universe, 0);
    assert_eq!(p[1].mode, PortMode::Active);
    assert_eq!(a.net, 0);
    assert_eq!(a.device_name.as_bytes(), b"OpenLumen Node");
    assert_eq!(stored, [false; 4]);
    let mut n = NetworkConfig::from_chip_id(7);
    n.ip_config_type = IpConfigType::Dhcp;
    let defaults = NetworkConfig::from_chip_id(7);
    stored[2] = true;
    let r = factory_reset(&mut p, &mut a, &mut n, defaults, &mut stored, &mut data);
    assert_eq!(r, SettingsStoreSignal::SaveAndReboot);
    assert_eq!(n.ip_config_type, IpConfigType::Static);
    assert_eq!(stored, [false; 4]);
}

#[test]
fn reported_sources_and_channels() {
    let mut a = default_artnet_source();
    a.active = true;
    a.ip = [10, 0, 0, 8];
    a.frequency = 44;
    a.last_packet_physical = 1;
    a.name[..4].copy_from_slice(b"desk");
    let sources: [ArtnetSource; 2] = [default_artnet_source(), a];
    let shown_list = source_devices(&sources);
    let shown = shown_list.as_slice();
    assert_eq!(shown.len(), 1);
    assert_eq!(shown[0].ip, [10, 0, 0, 8]);
    assert_eq!(shown[0].packets_per_second, Some(44));
    assert_eq!(shown[0].physical, 1);
    assert_eq!(&shown[0].name.as_bytes()[..4], b"desk");
    assert_eq!(shown[0].name.as_bytes().len(), 17);
    assert!(source_devices(&[default_artnet_source(), default_artnet_source()]).as_slice().is_empty());
    // A name field that is not UTF-8 is shown as the empty name.
    let mut b = a;
    b.name[0] = 0xFF;
    let shown_list = source_devices(&[b, a]);
    let shown = shown_list.as_slice();
    assert_eq!(shown.len(), 2);
    assert!(shown[0].name.as_bytes().is_empty());
    assert_eq!(&shown[1].name.as_bytes()[..4], b"desk");
    let mut frame = [0u8; 513];
    frame[0] = 0xEE;
    frame[512] = 5;
    let ch = dmx_output_channels(&frame);
    assert_eq!(ch.len(), 512);
    assert_eq!(ch[0], 0);
    assert_eq!(ch[511], 5);
    assert_eq!(next_update_slot(0), 1);
    assert_eq!(next_update_slot(4), 0);
}

#[test]
fn reset_button_hold_timeline() {
    let mut b = ResetButton::new();
    assert!(!b.network_reset_button_held());
    assert_eq!(b.step(ButtonEvent::Pressed), ButtonAction::Sleep { ms: 30 });
    assert_eq!(b.state, ButtonState::Debounce);
    assert_eq!(b.step(ButtonEvent::Sampled { high: false }), ButtonAction::Sleep { ms: 50 });
    assert!(b.network_reset_button_held());
    let mut polls = 0;
    loop {
        polls += 1;
        match b.step(ButtonEvent::Sampled { high: false }) {
            ButtonAction::Sleep { ms: 50 } => {}
            ButtonAction::ResetNetwork => break,
            other => panic!("unexpected action {:?}", other),
        }
    }
    assert_eq!(polls, 60);
    assert_eq!(b.state, ButtonState::AwaitRelease);
    assert!(b.network_reset_button_held());
    assert_eq!(b.step(ButtonEvent::Pressed), ButtonAction::WaitForHigh);
    assert_eq!(b.step(ButtonEvent::Released), ButtonAction::WaitForLow);
    assert_eq!(b.state, ButtonState::Idle);
    assert!(!b.network_reset_button_held());
}

#[test]
fn reset_button_short_press_and_bounce() {
    let mut b = ResetButton::new();
    b.step(ButtonEvent::Pressed);
    // Bounce: the line is high again after the debounce time.
    assert_eq!(b.step(ButtonEvent::Sampled { high: true }), ButtonAction::WaitForLow);
    assert_eq!(b.state, ButtonState::Idle);
    b.step(ButtonEvent::Pressed);
    b.step(ButtonEvent::Sampled { high: false });
    for _ in 0..20 {
        b.step(ButtonEvent::Sampled { high: false });
    }
    assert_eq!(b.step(ButtonEvent::Sampled { high: true }), ButtonAction::WaitForLow);
    assert_eq!(b.state, ButtonState::Idle);
    assert!(!b.network_reset_button_held());
    assert_eq!(b.step(ButtonEvent::Released), ButtonAction::WaitForLow);
}

#[test]
fn network_reset_keeps_runtime_fields() {
    let defaults = NetworkConfig::from_chip_id(0x010203);
    let mut n = NetworkConfig::from_chip_id(0x0A0B0C);
    n.ip_config_type = IpConfigType::Dhcp;
    n.ip_address = None;
    n.current_ip_address = Some([192, 168, 1, 2]);
    n.id = Some(1);
    reset_network_settings(&mut n, &defaults);
    assert_eq!(n.ip_config_type, IpConfigType::Static);
    assert_eq!(n.ip_address, Some([10, 1, 2, 3]));
    assert_eq!(n.mac_address, [0x02, 0xD5, 0x12, 0x0A, 0x0B, 0x0C]);
    assert_eq!(n.current_ip_address, Some([192, 168, 1, 2]));
    assert_eq!(n.id, Some(1));
}

#[test]
fn bounded_names_and_source_lists() {
    assert_eq!(DeviceName::from_text("OpenLumen Node").unwrap().as_bytes(), b"OpenLumen Node");
    let longest = "abcdefghijklmnopqrstuvwxyz012345";
    assert_eq!(DeviceName::from_text(longest).unwrap().as_bytes(), longest.as_bytes());
    assert!(DeviceName::from_text("abcdefghijklmnopqrstuvwxyz0123456").is_none());
    // 'é' takes two bytes: 16 of them make 32 bytes, 17 make 34.
    assert!(DeviceName::from_text(&"é".repeat(16)).is_some());
    assert!(DeviceName::from_text(&"é".repeat(17)).is_none());
    assert_eq!(SourceName::from_text("console").unwrap().as_bytes(), b"console");
    assert!(SourceName::from_text("abcdefghijklmnopq").is_some());
    assert!(SourceName::from_text("abcdefghijklmnopqr").is_none());
    let mut field = [0u8; 17];
    field[..3].copy_from_slice(b"fx1");
    assert_eq!(SourceName::from_field(&field).as_bytes(), &field[..]);
    field[5] = 0xC0;
    assert!(SourceName::from_field(&field).as_bytes().is_empty());
    let device = |ip: u8| SourceDevice {
        name: SourceName::from_text("s").unwrap(),
        ip: [10, 0, 0, ip],
        packets_per_second: None,
        physical: 0,
    };
    let mut list = SourceDevices::new();
    assert!(list.push(device(1)).is_ok());
    assert!(list.push(device(2)).is_ok());
    let back = list.push(device(3)).unwrap_err();
    assert_eq!(back.ip, [10, 0, 0, 3]);
    let ips: Vec<[u8; 4]> = list.as_slice().iter().map(|d| d.ip).collect();
    assert_eq!(ips, vec![[10, 0, 0, 1], [10, 0, 0, 2]]);
    let copy = list.clone();
    assert_eq!(copy.as_slice().len(), 2);
    assert_eq!(copy.as_slice()[1].name.as_bytes(), b"s");
}

use openlumen::led_task::{default_led_port, ingest_universe, render_frame};
use openlumen::schema::{
    default_led_ports, ColorOrder, LedPortConfig, LedPortMode, LedPortStatus,
    MAX_PIXELS_PER_LED_PORT,
};

fn strip(start_universe: u16, start_address: u16, pixels: u16, order: ColorOrder) -> LedPortConfig {
    LedPortConfig {
        mode: LedPortMode::Active,
        start_universe,
        start_address,
        pixel_count: pixels,
        color_order: order,
        brightness_cap: 255,
        reverse: false,
    }
}

#[test]
fn pixels_per_universe_by_format() {
    assert_eq!(ColorOrder::Grb.pixels_per_universe(), 170);
    assert_eq!(ColorOrder::Rgb.pixels_per_universe(), 170);
    assert_eq!(ColorOrder::Grbw.pixels_per_universe(), 128);
    assert_eq!(ColorOrder::Rgbw.bytes_per_pixel(), 4);
    assert_eq!(ColorOrder::Grb.bytes_per_pixel(), 3);
    assert_eq!(ColorOrder::default(), ColorOrder::Grbw);
}

#[test]
fn pixel_words_in_strip_order() {
    let px = [0x11, 0x22, 0x33, 0x44];
    assert_eq!(ColorOrder::Grb.to_word(&px, 255), 0x2211_3300);
    assert_eq!(ColorOrder::Rgb.to_word(&px, 255), 0x1122_3300);
    assert_eq!(ColorOrder::Grbw.to_word(&px, 255), 0x2211_3344);
    assert_eq!(ColorOrder::Rgbw.to_word(&px, 255), 0x1122_3344);
    // Missing channels read as zero.
    assert_eq!(ColorOrder::Rgbw.to_word(&px[..3], 255), 0x1122_3300);
}

#[test]
fn brightness_cap_scales_channels() {
    let px = [255, 128, 10, 200];
    // 255*100/255 = 100, 128*100/255 = 50, 10*100/255 = 3, 200*100/255 = 78
    assert_eq!(ColorOrder::Rgbw.to_word(&px, 100), 0x6432_034E);
    assert_eq!(ColorOrder::Grb.to_word(&px, 0), 0);
}

#[test]
fn stream_geometry() {
    let c = strip(3, 1, 170, ColorOrder::Grb);
    assert_eq!(c.stream_len(), 510);
    assert_eq!(c.first_channel(), 3 * 512);
    assert_eq!(c.universe_span(), 1);
    assert!(c.is_last_universe(3));
    // A start address near the end of the universe pushes the stream into the next.
    let c = strip(3, 500, 170, ColorOrder::Grb);
    assert_eq!(c.effective_start_address(), 500);
    assert_eq!(c.universe_span(), 2);
    assert!(c.is_last_universe(4));
    assert!(!c.is_last_universe(3));
    // Clamping.
    let c = strip(0, 0, 5000, ColorOrder::Grbw);
    assert_eq!(c.effective_pixels(), MAX_PIXELS_PER_LED_PORT);
    assert_eq!(c.effective_start_address(), 1);
    assert_eq!(c.universe_span(), 6);
    let c = strip(0, 900, 1, ColorOrder::Grbw);
    assert_eq!(c.effective_start_address(), 512);
    let empty = strip(0, 1, 0, ColorOrder::Grb);
    assert_eq!(empty.universe_span(), 0);
    assert!(!empty.is_last_universe(0));
}

#[test]
fn universe_intersections() {
    let c = strip(3, 500, 10, ColorOrder::Grb);
    // Stream: channels 3*512+499 .. +30.
    assert_eq!(c.intersect(3, 512), Some((0, 499, 13)));
    assert_eq!(c.intersect(4, 512), Some((13, 0, 17)));
    assert_eq!(c.intersect(5, 512), None);
    assert_eq!(c.intersect(2, 512), None);
    // A short packet that ends before the strip starts.
    assert_eq!(c.intersect(3, 400), None);
    assert_eq!(c.intersect(3, 0), None);
}

#[test]
fn ingest_routes_channels_to_outputs() {
    let cfg = [
        strip(3, 500, 10, ColorOrder::Grb),
        strip(4, 1, 2, ColorOrder::Grbw),
        strip(9, 1, 4, ColorOrder::Grb),
        LedPortConfig { pixel_count: 0, ..strip(4, 1, 0, ColorOrder::Grb) },
    ];
    let mut buffers = [[0u8; 3072]; 4];
    let data: Vec<u8> = (0..512u32).map(|i| (i % 256) as u8).collect();
    let r = ingest_universe(&cfg, &mut buffers, 4, &data);
    assert!(r.matched);
    assert_eq!(r.partial, [true, true, false, false]);
    assert_eq!(r.complete, [true, true, false, false]);
    assert_eq!(&buffers[0][13..30], &data[0..17]);
    assert!(buffers[0][..13].iter().all(|&b| b == 0));
    assert_eq!(&buffers[1][..8], &data[0..8]);
    assert!(buffers[1][8..].iter().all(|&b| b == 0));
    let r = ingest_universe(&cfg, &mut buffers, 3, &data);
    assert_eq!(r.partial, [true, false, false, false]);
    assert_eq!(r.complete, [false, false, false, false]);
    assert_eq!(&buffers[0][..13], &data[499..512]);
    let r = ingest_universe(&cfg, &mut buffers, 100, &data);
    assert!(!r.matched);
}

#[test]
fn frames_rendered_per_mode() {
    let mut stream = [0u8; 3072];
    stream[..6].copy_from_slice(&[1, 2, 3, 4, 5, 6]);
    assert!(render_frame(&stream, LedPortMode::Inactive, 2, ColorOrder::Rgb, 255, false).is_none());
    assert!(render_frame(&stream, LedPortMode::Active, 0, ColorOrder::Rgb, 255, false).is_none());
    let f = render_frame(&stream, LedPortMode::Active, 2, ColorOrder::Rgb, 255, false).unwrap();
    assert_eq!(f, vec![0x0102_0300, 0x0405_0600]);
    let f = render_frame(&stream, LedPortMode::Active, 2, ColorOrder::Rgb, 255, true).unwrap();
    assert_eq!(f, vec![0x0405_0600, 0x0102_0300]);
    let f = render_frame(&stream, LedPortMode::Blackout, 3, ColorOrder::Grbw, 255, false).unwrap();
    assert_eq!(f, vec![0, 0, 0]);
}

#[test]
fn default_outputs_take_disjoint_blocks() {
    let d = default_led_ports();
    let starts: Vec<u16> = d.iter().map(|c| c.start_universe).collect();
    assert_eq!(starts, vec![4, 10, 16, 22]);
    for c in d.iter() {
        assert_eq!(c.mode, LedPortMode::Inactive);
        assert_eq!(c.pixel_count, 0);
        assert_eq!(c.color_order, ColorOrder::Grbw);
        assert_eq!(c.brightness_cap, 255);
    }
    let p = default_led_port(2);
    assert_eq!(p.start_universe, 16);
    assert_eq!(LedPortConfig::default_with_index(3).start_universe, 22);
}

#[test]
fn status_reports_span() {
    let c = strip(3, 500, 170, ColorOrder::Grb);
    let s = LedPortStatus::from(&c);
    assert_eq!(s.universe_span, 2);
    assert_eq!(s.max_pixels, 768);
    assert_eq!(s.start_address, 500);
}

#[test]
fn single_universe_strip_takes_channels_from_its_address() {
    let cfg = [
        strip(7, 100, 10, ColorOrder::Rgb),
        strip(20, 1, 0, ColorOrder::Rgb),
        strip(21, 1, 0, ColorOrder::Rgb),
        strip(22, 1, 0, ColorOrder::Rgb),
    ];
    assert_eq!(cfg[0].universe_span(), 1);
    let mut buffers = [[0xAAu8; 3072]; 4];
    let data: Vec<u8> = (0..512u32).map(|i| (i % 256) as u8).collect();
    let r = ingest_universe(&cfg, &mut buffers, 7, &data);
    assert!(r.complete[0]);
    assert_eq!(&buffers[0][..30], &data[99..129]);
    assert!(buffers[0][30..].iter().all(|&b| b == 0xAA));
    let frame =
        render_frame(&buffers[0], LedPortMode::Active, 10, ColorOrder::Rgb, 255, false).unwrap();
    assert_eq!(frame[0], 0x6364_6500);
    assert_eq!(frame[9], 0x7E7F_8000);
}

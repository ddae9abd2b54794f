//! Configuration and status records exchanged with the web frontend and kept in flash,
//! and the channel arithmetic of the LED outputs.
use vstd::prelude::*;
use vstd::string::StringSliceAdditionalSpecFns;
use vstd::utf8::valid_utf8;

verus! {

/// Version number of the stored settings.
pub const SETTINGS_VERSION: u8 = 2;

/// Number of WS281x outputs.
pub const NUM_LED_PORTS: usize = 4;

/// Largest universe span a single LED output may claim.
pub const MAX_UNIVERSES_PER_LED_PORT: usize = 6;

/// Largest pixel count a single LED output may drive.
/// Six universes of a 4-byte pixel format: 6 * (512 / 4).
pub const MAX_PIXELS_PER_LED_PORT: usize = MAX_UNIVERSES_PER_LED_PORT * 128;

/// Longest channel stream one output can hold: every pixel at the widest format.
pub const MAX_LED_STREAM_BYTES: usize = MAX_PIXELS_PER_LED_PORT * 4;

#[derive(Debug, Clone, Copy, PartialEq, Eq, Structural)]
pub enum IpConfigType {
    Dhcp,
    Static,
}

#[derive(Debug, Clone)]
pub struct NetworkConfig {
    pub id: Option<u32>,
    pub ip_config_type: IpConfigType,
    pub ip_address: Option<[u8; 4]>,
    pub subnet_mask: Option<[u8; 4]>,
    pub gateway: Option<[u8; 4]>,
    pub mac_address: [u8; 6],
    pub current_ip_address: Option<[u8; 4]>,
    pub current_subnet_mask: Option<[u8; 4]>,
    pub current_gateway: Option<[u8; 4]>,
}

/// Byte `k` (0 = least significant) of a chip id.
pub open spec fn chip_id_byte(chip_id: u64, k: nat) -> u8 {
    ((chip_id as int / vstd::arithmetic::power2::pow2(8 * k) as int) % 256) as u8
}

fn chip_byte(chip_id: u64, shift: u64) -> (r: u8)
    requires
        shift == 0 || shift == 8 || shift == 16,
    ensures
        r == chip_id_byte(chip_id, (shift / 8) as nat),
{
    proof {
        vstd::arithmetic::power2::lemma2_to64();
    }
    assert(((chip_id >> 0u64) & 0xFFu64) as u8 == (chip_id / 1) % 256) by (bit_vector);
    assert(((chip_id >> 8u64) & 0xFFu64) as u8 == (chip_id / 256) % 256) by (bit_vector);
    assert(((chip_id >> 16u64) & 0xFFu64) as u8 == (chip_id / 65536) % 256) by (bit_vector);
    ((chip_id >> shift) & 0xFF) as u8
}

impl NetworkConfig {
    /// Factory network settings for the chip with id `chip_id`: MAC 02:D5:12:XX:YY:ZZ
    /// (locally administered, "D5 12" for DMX512, then the low three bytes of the id),
    /// static address 10.XX.YY.ZZ/8 with gateway 10.0.0.1, nothing current.
    pub fn from_chip_id(chip_id: u64) -> (r: Self)
        ensures
            r.id is None,
            r.ip_config_type == IpConfigType::Static,
            r.mac_address@ == seq![
                0x02u8,
                0xD5u8,
                0x12u8,
                chip_id_byte(chip_id, 2),
                chip_id_byte(chip_id, 1),
                chip_id_byte(chip_id, 0),
            ],
            r.ip_address == Some(
                [10u8, chip_id_byte(chip_id, 2), chip_id_byte(chip_id, 1), chip_id_byte(chip_id, 0)],
            ),
            r.subnet_mask == Some([255u8, 0u8, 0u8, 0u8]),
            r.gateway == Some([10u8, 0u8, 0u8, 1u8]),
            r.current_ip_address is None,
            r.current_subnet_mask is None,
            r.current_gateway is None,
    {
        let mut mac_address = [0x02u8, 0xD5u8, 0x12u8, 0x00u8, 0x00u8, 0x00u8];
        mac_address[3] = chip_byte(chip_id, 16);
        mac_address[4] = chip_byte(chip_id, 8);
        mac_address[5] = chip_byte(chip_id, 0);
        let ip_address = Some([10u8, mac_address[3], mac_address[4], mac_address[5]]);
        assert(mac_address@ =~= seq![
            0x02u8,
            0xD5u8,
            0x12u8,
            chip_id_byte(chip_id, 2),
            chip_id_byte(chip_id, 1),
            chip_id_byte(chip_id, 0),
        ]);
        NetworkConfig {
            id: None,
            ip_config_type: IpConfigType::Static,
            ip_address,
            subnet_mask: Some([255, 0, 0, 0]),
            gateway: Some([10, 0, 0, 1]),
            mac_address,
            current_ip_address: None,
            current_subnet_mask: None,
            current_gateway: None,
        }
    }
}

/// The node's name: a heapless string of at most 32 UTF-8 bytes.
#[verifier::external_body]
#[derive(Debug)]
pub struct DeviceName {
    text: heapless::String<32>,
}

/// The UTF-8 bytes a `DeviceName` holds.
pub uninterp spec fn device_name_text(name: DeviceName) -> Seq<u8>;

impl Clone for DeviceName {
    /// heapless's `String<32>::clone`: a copy holding the same items.
    #[verifier::external_body]
    fn clone(&self) -> (r: Self)
        ensures
            device_name_text(r) == device_name_text(*self),
    {
        DeviceName { text: self.text.clone() }
    }
}

impl View for DeviceName {
    type V = Seq<u8>;

    open spec fn view(&self) -> Seq<u8> {
        device_name_text(*self)
    }
}

/// `heapless::String::<32>::try_from(&str)`: a string holding the bytes of `s` when
/// they fit in 32, a capacity error (here `None`) otherwise.
#[verifier::external_body]
fn device_name_try_from(s: &str) -> (r: Option<DeviceName>)
    ensures
        r is Some <==> s.spec_bytes().len() <= 32,
        r matches Some(n) ==> device_name_text(n) == s.spec_bytes(),
{
    match heapless::String::<32>::try_from(s) {
        Ok(text) => Some(DeviceName { text }),
        Err(_) => None,
    }
}

/// The bytes of a heapless `String<32>` (`as_bytes` through its `str`): what it holds,
/// at most 32 bytes.
#[verifier::external_body]
fn device_name_as_bytes(name: &DeviceName) -> (r: &[u8])
    ensures
        r@ == device_name_text(*name),
        r@.len() <= 32,
{
    name.text.as_bytes()
}

impl DeviceName {
    /// The name holding the UTF-8 bytes of `text`; `None` when they exceed 32 bytes.
    pub fn from_text(text: &str) -> (r: Option<DeviceName>)
        ensures
            r is Some <==> text.spec_bytes().len() <= 32,
            r matches Some(n) ==> n@ == text.spec_bytes(),
    {
        device_name_try_from(text)
    }

    /// The name's UTF-8 bytes.
    pub fn as_bytes(&self) -> (r: &[u8])
        ensures
            r@ == self@,
            r@.len() <= 32,
    {
        device_name_as_bytes(self)
    }
}

/// A source's name as shown to the web UI: a heapless string of at most 17 UTF-8 bytes.
#[verifier::external_body]
#[derive(Debug)]
pub struct SourceName {
    text: heapless::String<17>,
}

/// The UTF-8 bytes a `SourceName` holds.
pub uninterp spec fn source_name_text(name: SourceName) -> Seq<u8>;

impl Clone for SourceName {
    /// heapless's `String<17>::clone`: a copy holding the same items.
    #[verifier::external_body]
    fn clone(&self) -> (r: Self)
        ensures
            source_name_text(r) == source_name_text(*self),
    {
        SourceName { text: self.text.clone() }
    }
}

impl View for SourceName {
    type V = Seq<u8>;

    open spec fn view(&self) -> Seq<u8> {
        source_name_text(*self)
    }
}

/// `heapless::String::<17>::from_utf8` on the 17 bytes of a name field, copied into a
/// heapless `Vec<u8, 17>` first (which cannot overflow). `from_utf8` checks the bytes with
/// `core::str::from_utf8`: it keeps them when they are valid UTF-8 and fails otherwise,
/// and the failure gives the empty string (`unwrap_or_default`).
#[verifier::external_body]
fn source_name_from_utf8(field: &[u8; 17]) -> (r: SourceName)
    ensures
        source_name_text(r) == (if valid_utf8(field@) { field@ } else { Seq::<u8>::empty() }),
{
    let bytes = heapless::Vec::<u8, 17>::from_slice(field).unwrap_or_default();
    SourceName { text: heapless::String::from_utf8(bytes).unwrap_or_default() }
}

/// `heapless::String::<17>::try_from(&str)`: a string holding the bytes of `s` when
/// they fit in 17, a capacity error (here `None`) otherwise.
#[verifier::external_body]
fn source_name_try_from(s: &str) -> (r: Option<SourceName>)
    ensures
        r is Some <==> s.spec_bytes().len() <= 17,
        r matches Some(n) ==> source_name_text(n) == s.spec_bytes(),
{
    match heapless::String::<17>::try_from(s) {
        Ok(text) => Some(SourceName { text }),
        Err(_) => None,
    }
}

/// The bytes of a heapless `String<17>` (`as_bytes` through its `str`): what it holds,
/// at most 17 bytes.
#[verifier::external_body]
fn source_name_as_bytes(name: &SourceName) -> (r: &[u8])
    ensures
        r@ == source_name_text(*name),
        r@.len() <= 17,
{
    name.text.as_bytes()
}

impl SourceName {
    /// The name shown for a source whose 17-byte name field is `field`: the whole field
    /// (NUL padding included) when it is valid UTF-8, the empty name otherwise.
    pub fn from_field(field: &[u8; 17]) -> (r: SourceName)
        ensures
            r@ == (if valid_utf8(field@) { field@ } else { Seq::<u8>::empty() }),
    {
        source_name_from_utf8(field)
    }

    /// The name holding the UTF-8 bytes of `text`; `None` when they exceed 17 bytes.
    pub fn from_text(text: &str) -> (r: Option<SourceName>)
        ensures
            r is Some <==> text.spec_bytes().len() <= 17,
            r matches Some(n) ==> n@ == text.spec_bytes(),
    {
        source_name_try_from(text)
    }

    /// The name's UTF-8 bytes.
    pub fn as_bytes(&self) -> (r: &[u8])
        ensures
            r@ == self@,
            r@.len() <= 17,
    {
        source_name_as_bytes(self)
    }
}

#[derive(Debug, Clone)]
pub struct ArtnetConfig {
    pub id: Option<u32>,
    pub net: u8,
    pub subnet: u8,
    pub device_name: DeviceName,
}

/// "OpenLumen Node"
pub open spec fn default_device_name() -> Seq<u8> {
    seq![
        0x4fu8, 0x70u8, 0x65u8, 0x6eu8, 0x4cu8, 0x75u8, 0x6du8, 0x65u8, 0x6eu8, 0x20u8, 0x4eu8,
        0x6fu8, 0x64u8, 0x65u8,
    ]
}

impl ArtnetConfig {
    /// Net 0, Sub-Net 0, named "OpenLumen Node".
    pub fn default() -> (r: Self)
        ensures
            r.id is None,
            r.net == 0,
            r.subnet == 0,
            r.device_name@ == default_device_name(),
    {
        let text = "OpenLumen Node";
        proof {
            reveal_strlit("OpenLumen Node");
            broadcast use vstd::string::is_ascii_spec_bytes;

            assert(vstd::string::is_ascii(text));
            assert(text.spec_bytes() =~= default_device_name());
        }
        let device_name = DeviceName::from_text(text).unwrap();
        ArtnetConfig { id: None, net: 0, subnet: 0, device_name }
    }
}

/// Network configuration update item (editable fields only)
#[derive(Debug, Clone, Copy)]
pub struct NetworkConfigUpdateItem {
    pub ip_config_type: IpConfigType,
    pub ip_address: Option<[u8; 4]>,
    pub subnet_mask: Option<[u8; 4]>,
    pub gateway: Option<[u8; 4]>,
}

/// ArtNet configuration update item (editable fields only)
#[derive(Debug, Clone)]
pub struct ArtnetConfigUpdateItem {
    pub net: u8,
    pub subnet: u8,
    pub device_name: DeviceName,
}

#[derive(Debug, Clone)]
pub struct SourceDevice {
    pub name: SourceName,
    pub ip: [u8; 4],
    pub packets_per_second: Option<u32>,
    /// Physical input port number (0 or 1). Used with MergeMode::Priority: lower value = primary.
    pub physical: u8,
}

#[derive(Debug, Clone, Copy, PartialEq, Eq, Structural)]
pub enum PortMode {
    Active,
    Inactive,
    Blackout,
    Input,
}

impl PortMode {
    /// Ports come up Active.
    pub fn default() -> (r: Self)
        ensures
            r == PortMode::Active,
    {
        PortMode::Active
    }
}

#[derive(Debug, Clone, Copy, PartialEq, Eq, Structural)]
pub enum MergeMode {
    Htp,
    Ltp,
    Priority,
}

impl MergeMode {
    /// Ports merge highest-takes-precedence by default.
    pub fn default() -> (r: Self)
        ensures
            r == MergeMode::Htp,
    {
        MergeMode::Htp
    }
}

#[derive(Debug, Clone, Copy, PartialEq, Eq, Structural)]
pub enum OutputRate {
    Hz20,
    Hz30,
    Hz44,
}

impl OutputRate {
    /// Ports refresh at the fastest rate by default.
    pub fn default() -> (r: Self)
        ensures
            r == OutputRate::Hz44,
    {
        OutputRate::Hz44
    }
}

#[derive(Debug, Clone)]
pub struct DmxPortConfig {
    pub mode: PortMode,
    pub universe: u8,
    pub merge_mode: MergeMode,
    pub output_rate: OutputRate,
    pub source_devices: SourceDevices,
    /// Whether a failsafe scene is stored for this port.
    pub has_failsafe: bool,
}

/// The sources shown for a port: a heapless `Vec` of at most two `SourceDevice`s.
#[verifier::external_body]
#[derive(Debug)]
pub struct SourceDevices {
    items: heapless::Vec<SourceDevice, 2>,
}

/// The devices a `SourceDevices` holds, in order.
pub uninterp spec fn source_device_items(list: SourceDevices) -> Seq<SourceDevice>;

impl Clone for SourceDevices {
    /// heapless's `Vec<SourceDevice, 2>::clone`: a copy holding the same items.
    #[verifier::external_body]
    fn clone(&self) -> (r: Self)
        ensures
            source_device_items(r) == source_device_items(*self),
    {
        SourceDevices { items: self.items.clone() }
    }
}

impl View for SourceDevices {
    type V = Seq<SourceDevice>;

    open spec fn view(&self) -> Seq<SourceDevice> {
        source_device_items(*self)
    }
}

/// `heapless::Vec::<SourceDevice, 2>::new`: an empty vector.
#[verifier::external_body]
fn source_devices_new() -> (r: SourceDevices)
    ensures
        source_device_items(r) == Seq::<SourceDevice>::empty(),
{
    SourceDevices { items: heapless::Vec::new() }
}

/// `heapless::Vec::push`: appends `device` when fewer than two are held, and hands it
/// back in `Err` otherwise, leaving the vector as it was.
#[verifier::external_body]
fn source_devices_push(list: &mut SourceDevices, device: SourceDevice) -> (r: Result<(), SourceDevice>)
    ensures
        r is Ok <==> source_device_items(*old(list)).len() < 2,
        r matches Err(back) ==> back == device,
        source_device_items(*final(list)) == (if source_device_items(*old(list)).len() < 2 {
            source_device_items(*old(list)).push(device)
        } else {
            source_device_items(*old(list))
        }),
{
    list.items.push(device)
}

/// `heapless::Vec::as_slice`: the devices held, in order, at most two.
#[verifier::external_body]
fn source_devices_as_slice(list: &SourceDevices) -> (r: &[SourceDevice])
    ensures
        r@ == source_device_items(*list),
        r@.len() <= 2,
{
    list.items.as_slice()
}

impl SourceDevices {
    /// No sources.
    pub fn new() -> (r: SourceDevices)
        ensures
            r@ == Seq::<SourceDevice>::empty(),
    {
        source_devices_new()
    }

    /// Appends `device` when fewer than two are held; otherwise hands it back unchanged.
    pub fn push(&mut self, device: SourceDevice) -> (r: Result<(), SourceDevice>)
        ensures
            r is Ok <==> old(self)@.len() < 2,
            r matches Err(back) ==> back == device,
            final(self)@ == (if old(self)@.len() < 2 {
                old(self)@.push(device)
            } else {
                old(self)@
            }),
    {
        source_devices_push(self, device)
    }

    /// The devices held, in order.
    pub fn as_slice(&self) -> (r: &[SourceDevice])
        ensures
            r@ == self@,
            r@.len() <= 2,
    {
        source_devices_as_slice(self)
    }
}

impl DmxPortConfig {
    /// An active HTP port at 44 Hz on universe `universe` (truncated to its low byte),
    /// with no sources and no failsafe scene.
    pub fn default_with_universe(universe: usize) -> (r: Self)
        ensures
            r.mode == PortMode::Active,
            r.universe == universe as u8,
            r.merge_mode == MergeMode::Htp,
            r.output_rate == OutputRate::Hz44,
            r.source_devices@.len() == 0,
            !r.has_failsafe,
    {
        DmxPortConfig {
            mode: PortMode::default(),
            universe: universe as u8,
            merge_mode: MergeMode::default(),
            output_rate: OutputRate::default(),
            source_devices: SourceDevices::new(),
            has_failsafe: false,
        }
    }
}

/// DMX port configuration update item (editable fields only)
#[derive(Debug, Clone, Copy)]
pub struct DmxPortConfigUpdateItem {
    pub mode: PortMode,
    pub universe: u8,
    pub merge_mode: MergeMode,
    pub output_rate: OutputRate,
}


// ============================================================================
// LED (WS281x / WS2815B) outputs
// ============================================================================

/// Channel ordering of an LED strip. Also determines bytes per pixel.
#[derive(Debug, Clone, Copy, PartialEq, Eq, Structural)]
pub enum ColorOrder {
    /// 3 bytes/pixel, green first — plain WS2812B/WS2815B.
    Grb,
    /// 3 bytes/pixel, red first.
    Rgb,
    /// 4 bytes/pixel, green first — the usual WS2815B-RGBW ordering.
    Grbw,
    /// 4 bytes/pixel, red first.
    Rgbw,
}

/// Bytes per pixel of an order: 3 for the RGB orders, 4 for the RGBW ones.
pub open spec fn spec_bytes_per_pixel(o: ColorOrder) -> int {
    match o {
        ColorOrder::Grb | ColorOrder::Rgb => 3,
        ColorOrder::Grbw | ColorOrder::Rgbw => 4,
    }
}

/// Channel `i` of a pixel slice, zero when the slice is shorter.
pub open spec fn channel_or_zero(src: Seq<u8>, i: int) -> int {
    if i < src.len() {
        src[i] as int
    } else {
        0
    }
}

/// A channel scaled by the brightness cap; a cap of 255 leaves it unmodified.
pub open spec fn scaled(v: int, cap: u8) -> int {
    if cap == 255 {
        v
    } else {
        (v * cap) / 255
    }
}

/// The word shifted out for one pixel: `src` is read as R, G, B[, W], each channel scaled,
/// and the channels are placed most significant byte first in the strip's order; the
/// 3-byte orders leave the lowest byte zero.
pub open spec fn spec_to_word(o: ColorOrder, src: Seq<u8>, cap: u8) -> int {
    let r = scaled(channel_or_zero(src, 0), cap);
    let g = scaled(channel_or_zero(src, 1), cap);
    let b = scaled(channel_or_zero(src, 2), cap);
    let w = scaled(channel_or_zero(src, 3), cap);
    match o {
        ColorOrder::Grb => g * 0x1000000 + r * 0x10000 + b * 0x100,
        ColorOrder::Rgb => r * 0x1000000 + g * 0x10000 + b * 0x100,
        ColorOrder::Grbw => g * 0x1000000 + r * 0x10000 + b * 0x100 + w,
        ColorOrder::Rgbw => r * 0x1000000 + g * 0x10000 + b * 0x100 + w,
    }
}

fn scale_channel(v: u8, brightness_cap: u8) -> (r: u32)
    ensures
        r == scaled(v as int, brightness_cap),
        r <= v,
{
    if brightness_cap == 255 {
        v as u32
    } else {
        assert(v as int * brightness_cap as int <= 255 * 255) by (nonlinear_arith)
            requires
                v <= 255,
                brightness_cap <= 255,
        ;
        let p = v as u16 * brightness_cap as u16;
        assert(p <= 255 * 254) by (nonlinear_arith)
            requires
                p == v * brightness_cap,
                v <= 255,
                brightness_cap < 255,
        ;
        assert(p / 255 <= v) by (nonlinear_arith)
            requires
                p == v * brightness_cap,
                brightness_cap < 255,
        ;
        (p / 255) as u32
    }
}

fn channel_at(src: &[u8], i: usize) -> (r: u8)
    ensures
        r as int == channel_or_zero(src@, i as int),
{
    if i < src.len() {
        src[i]
    } else {
        0
    }
}

impl ColorOrder {
    /// The default order is 4-byte GRBW.
    pub fn default() -> (r: Self)
        ensures
            r == ColorOrder::Grbw,
    {
        ColorOrder::Grbw
    }

    /// Bytes per pixel: 3 for the RGB orders, 4 for the RGBW ones.
    pub fn bytes_per_pixel(self) -> (r: usize)
        ensures
            r == spec_bytes_per_pixel(self),
    {
        match self {
            ColorOrder::Grb | ColorOrder::Rgb => 3,
            ColorOrder::Grbw | ColorOrder::Rgbw => 4,
        }
    }

    /// Pixels that fit in one 512-channel universe without straddling the
    /// boundary. For a 4-byte format this divides evenly (128); for 3 bytes it
    /// is the conventional 170, leaving 2 channels unused.
    pub fn pixels_per_universe(self) -> (r: usize)
        ensures
            r == 512int / spec_bytes_per_pixel(self),
            r * spec_bytes_per_pixel(self) <= 512,
            512 - r * spec_bytes_per_pixel(self) < spec_bytes_per_pixel(self),
    {
        512 / self.bytes_per_pixel()
    }

    /// Reorder one pixel's channels from wire order into the left-aligned u32
    /// the PIO shifts out MSB first.
    ///
    /// `src` is the raw DMX slice for this pixel, always interpreted as R,G,B[,W].
    pub fn to_word(self, src: &[u8], brightness_cap: u8) -> (r: u32)
        ensures
            r as int == spec_to_word(self, src@, brightness_cap),
    {
        let r = scale_channel(channel_at(src, 0), brightness_cap);
        let g = scale_channel(channel_at(src, 1), brightness_cap);
        let b = scale_channel(channel_at(src, 2), brightness_cap);
        let w = scale_channel(channel_at(src, 3), brightness_cap);
        assert(r <= 255 && g <= 255 && b <= 255 && w <= 255);
        assert((g << 24u32) | (r << 16u32) | (b << 8u32) == g * 0x1000000 + r * 0x10000 + b * 0x100)
            by (bit_vector)
            requires
                r <= 255 && g <= 255 && b <= 255,
        ;
        assert((r << 24u32) | (g << 16u32) | (b << 8u32) == r * 0x1000000 + g * 0x10000 + b * 0x100)
            by (bit_vector)
            requires
                r <= 255 && g <= 255 && b <= 255,
        ;
        assert((g << 24u32) | (r << 16u32) | (b << 8u32) | w == g * 0x1000000 + r * 0x10000 + b
            * 0x100 + w) by (bit_vector)
            requires
                r <= 255 && g <= 255 && b <= 255 && w <= 255,
        ;
        assert((r << 24u32) | (g << 16u32) | (b << 8u32) | w == r * 0x1000000 + g * 0x10000 + b
            * 0x100 + w) by (bit_vector)
            requires
                r <= 255 && g <= 255 && b <= 255 && w <= 255,
        ;
        match self {
            ColorOrder::Grb => (g << 24) | (r << 16) | (b << 8),
            ColorOrder::Rgb => (r << 24) | (g << 16) | (b << 8),
            ColorOrder::Grbw => (g << 24) | (r << 16) | (b << 8) | w,
            ColorOrder::Rgbw => (r << 24) | (g << 16) | (b << 8) | w,
        }
    }
}

#[derive(Debug, Clone, Copy, PartialEq, Eq, Structural)]
pub enum LedPortMode {
    Active,
    /// Output disabled; the state machine stops driving the pin.
    Inactive,
    /// Output running but every pixel forced to zero.
    Blackout,
}

impl LedPortMode {
    /// LED outputs come up Inactive.
    pub fn default() -> (r: Self)
        ensures
            r == LedPortMode::Inactive,
    {
        LedPortMode::Inactive
    }
}

#[derive(Debug, Clone, Copy)]
pub struct LedPortConfig {
    pub mode: LedPortMode,
    /// Full 15-bit Art-Net port address of the first universe of this strip.
    pub start_universe: u16,
    /// 1-based DMX start address within `start_universe`.
    pub start_address: u16,
    /// Number of pixels on the strip. Zero disables the output.
    pub pixel_count: u16,
    pub color_order: ColorOrder,
    /// Global scale applied to every channel, 255 = unmodified.
    pub brightness_cap: u8,
    /// Reverse the pixel order, applied per whole pixel.
    pub reverse: bool,
}

/// Start address when none is configured.
pub fn default_start_address() -> (r: u16)
    ensures
        r == 1,
{
    1
}

/// Pixel count clamped to `MAX_PIXELS_PER_LED_PORT`.
pub open spec fn spec_effective_pixels(c: LedPortConfig) -> int {
    if c.pixel_count < MAX_PIXELS_PER_LED_PORT {
        c.pixel_count as int
    } else {
        MAX_PIXELS_PER_LED_PORT as int
    }
}

/// Start address clamped to 1..=512.
pub open spec fn spec_effective_start_address(c: LedPortConfig) -> int {
    if c.start_address < 1 {
        1
    } else if c.start_address > 512 {
        512
    } else {
        c.start_address as int
    }
}

/// Length of the strip's channel stream in bytes.
pub open spec fn spec_stream_len(c: LedPortConfig) -> int {
    spec_effective_pixels(c) * spec_bytes_per_pixel(c.color_order)
}

/// Absolute channel of the strip's first byte, 512 channels per universe from universe 0.
pub open spec fn spec_first_channel(c: LedPortConfig) -> int {
    c.start_universe as int * 512 + spec_effective_start_address(c) - 1
}

/// Absolute channel of the strip's last byte.
pub open spec fn spec_last_channel(c: LedPortConfig) -> int {
    spec_first_channel(c) + spec_stream_len(c) - 1
}

/// Number of consecutive universes the stream touches: zero for an empty stream.
pub open spec fn spec_universe_span(c: LedPortConfig) -> int {
    if spec_stream_len(c) == 0 {
        0
    } else {
        spec_last_channel(c) / 512 - spec_first_channel(c) / 512 + 1
    }
}

/// The universe that carries the strip's first byte.
pub open spec fn spec_first_universe(c: LedPortConfig) -> int {
    spec_first_channel(c) / 512
}

pub open spec fn max(a: int, b: int) -> int {
    if a >= b {
        a
    } else {
        b
    }
}

pub open spec fn min(a: int, b: int) -> int {
    if a <= b {
        a
    } else {
        b
    }
}

/// Overlap of the strip's stream with universe `addr` carrying `data_len` channels (the
/// length counted modulo 2^32): `None` when they share no channel, else the offset into
/// the stream, the offset into the packet and the number of shared channels.
pub open spec fn spec_intersect(c: LedPortConfig, addr: u16, data_len: int) -> Option<(int, int, int)> {
    let len = spec_stream_len(c);
    let dl = data_len % 0x1_0000_0000int;
    if len == 0 || dl == 0 {
        None
    } else {
        let strip_start = spec_first_channel(c);
        let strip_end = strip_start + len;
        let packet_start = addr as int * 512;
        let packet_end = packet_start + dl;
        let overlap_start = max(strip_start, packet_start);
        let overlap_end = min(strip_end, packet_end);
        if overlap_start >= overlap_end {
            None
        } else {
            Some((overlap_start - strip_start, overlap_start - packet_start, overlap_end - overlap_start))
        }
    }
}

pub(crate) proof fn lemma_first_channel_bound(c: LedPortConfig)
    ensures
        0 <= spec_first_channel(c) <= 65535 * 512 + 511,
        0 <= spec_stream_len(c) <= MAX_LED_STREAM_BYTES,
{
    assert(spec_stream_len(c) <= 768 * 4) by (nonlinear_arith)
        requires
            spec_stream_len(c) == spec_effective_pixels(c) * spec_bytes_per_pixel(c.color_order),
            spec_effective_pixels(c) <= 768,
            0 <= spec_effective_pixels(c),
            spec_bytes_per_pixel(c.color_order) <= 4,
    ;
    assert(0 <= spec_stream_len(c)) by (nonlinear_arith)
        requires
            spec_stream_len(c) == spec_effective_pixels(c) * spec_bytes_per_pixel(c.color_order),
            0 <= spec_effective_pixels(c),
            spec_bytes_per_pixel(c.color_order) >= 3,
    ;
}

impl LedPortConfig {
    /// An inactive, empty output whose first universe is `4 + index * 6`, so the four
    /// default outputs take non-overlapping blocks after the DMX ports' universes 0..3.
    pub fn default_with_index(index: usize) -> (r: Self)
        requires
            4 + index * MAX_UNIVERSES_PER_LED_PORT <= 65535,
        ensures
            r.mode == LedPortMode::Inactive,
            r.start_universe == 4 + index * MAX_UNIVERSES_PER_LED_PORT,
            r.start_address == 1,
            r.pixel_count == 0,
            r.color_order == ColorOrder::Grbw,
            r.brightness_cap == 255,
            !r.reverse,
    {
        LedPortConfig {
            mode: LedPortMode::Inactive,
            start_universe: (4 + index * MAX_UNIVERSES_PER_LED_PORT) as u16,
            start_address: 1,
            pixel_count: 0,
            color_order: ColorOrder::default(),
            brightness_cap: 255,
            reverse: false,
        }
    }

    /// Effective pixel count, clamped to what the buffers can hold.
    pub fn effective_pixels(&self) -> (r: usize)
        ensures
            r == spec_effective_pixels(*self),
            r <= MAX_PIXELS_PER_LED_PORT,
    {
        let p = self.pixel_count as usize;
        if p < MAX_PIXELS_PER_LED_PORT {
            p
        } else {
            MAX_PIXELS_PER_LED_PORT
        }
    }

    /// Start address clamped to a legal 1..=512 DMX address.
    pub fn effective_start_address(&self) -> (r: usize)
        ensures
            r == spec_effective_start_address(*self),
            1 <= r <= 512,
    {
        let a = self.start_address;
        if a < 1 {
            1
        } else if a > 512 {
            512
        } else {
            a as usize
        }
    }

    /// Length of this strip's channel stream in bytes.
    pub fn stream_len(&self) -> (r: usize)
        ensures
            r == spec_stream_len(*self),
            r <= MAX_LED_STREAM_BYTES,
    {
        proof {
            lemma_first_channel_bound(*self);
        }
        self.effective_pixels() * self.color_order.bytes_per_pixel()
    }

    /// Absolute channel index of the strip's first byte, counting 512 channels
    /// per universe from universe 0.
    pub fn first_channel(&self) -> (r: u32)
        ensures
            r == spec_first_channel(*self),
    {
        self.start_universe as u32 * 512 + (self.effective_start_address() as u32 - 1)
    }

    /// How many consecutive universes this output touches. A non-zero start
    /// address can push this one higher than it would be at address 1.
    pub fn universe_span(&self) -> (r: usize)
        ensures
            r == spec_universe_span(*self),
    {
        let len = self.stream_len();
        if len == 0 {
            return 0;
        }
        proof {
            lemma_first_channel_bound(*self);
        }
        let first = self.first_channel();
        let last = first + len as u32 - 1;
        ((last / 512) - (first / 512) + 1) as usize
    }

    /// Intersect this strip's channel stream with one received universe.
    ///
    /// Returns `(stream_offset, packet_offset, length)`: copy `length` bytes
    /// from `data[packet_offset..]` into the strip's stream at `stream_offset`.
    /// `None` when the universe carries nothing for this output.
    pub fn intersect(&self, addr: u16, data_len: usize) -> (r: Option<(usize, usize, usize)>)
        requires
            addr as int * 512 + data_len as int % 0x1_0000_0000int <= u32::MAX,
        ensures
            match r {
                Some((so, po, l)) => spec_intersect(*self, addr, data_len as int) == Some(
                    (so as int, po as int, l as int),
                ),
                None => spec_intersect(*self, addr, data_len as int) is None,
            },
    {
        let len = self.stream_len();
        let dl = data_len as u32;
        let ghost dl64 = data_len as u64;
        assert((data_len as u32) as u64 == (data_len as u64) % 0x1_0000_0000u64) by (bit_vector);
        assert(dl == data_len as int % 0x1_0000_0000int);
        if len == 0 || dl == 0 {
            return None;
        }
        proof {
            lemma_first_channel_bound(*self);
        }
        let strip_start = self.first_channel();
        let strip_end = strip_start + len as u32;
        let packet_start = addr as u32 * 512;
        let packet_end = packet_start + dl;
        let overlap_start = if strip_start >= packet_start {
            strip_start
        } else {
            packet_start
        };
        let overlap_end = if strip_end <= packet_end {
            strip_end
        } else {
            packet_end
        };
        if overlap_start >= overlap_end {
            return None;
        }
        Some(
            (
                (overlap_start - strip_start) as usize,
                (overlap_start - packet_start) as usize,
                (overlap_end - overlap_start) as usize,
            ),
        )
    }

    /// True when this universe carries the strip's final byte, i.e. the frame
    /// is complete and the output can be kicked.
    pub fn is_last_universe(&self, addr: u16) -> (r: bool)
        ensures
            r == (spec_stream_len(*self) > 0 && spec_last_channel(*self) / 512 == addr),
    {
        let len = self.stream_len();
        if len == 0 {
            return false;
        }
        proof {
            lemma_first_channel_bound(*self);
        }
        let last_channel = self.first_channel() + len as u32 - 1;
        (last_channel / 512) == addr as u32
    }
}

/// LED port configuration update item (editable fields only)
#[derive(Debug, Clone, Copy)]
pub struct LedPortConfigUpdateItem {
    pub mode: LedPortMode,
    pub start_universe: u16,
    pub start_address: u16,
    pub pixel_count: u16,
    pub color_order: ColorOrder,
    pub brightness_cap: u8,
    pub reverse: bool,
}

/// An LED output as reported to the web UI: the stored config plus the
/// universe span derived from it.
#[derive(Debug, Clone, Copy)]
pub struct LedPortStatus {
    pub mode: LedPortMode,
    pub start_universe: u16,
    pub start_address: u16,
    pub pixel_count: u16,
    pub color_order: ColorOrder,
    pub brightness_cap: u8,
    pub reverse: bool,
    /// Number of universes this output consumes (read-only, derived).
    pub universe_span: u8,
    /// Highest pixel count the firmware buffers allow (read-only).
    pub max_pixels: u16,
}

impl LedPortStatus {
    /// The status of an output: its config, its universe span and the pixel limit.
    pub fn from(cfg: &LedPortConfig) -> (r: Self)
        ensures
            r.mode == cfg.mode,
            r.start_universe == cfg.start_universe,
            r.start_address == cfg.start_address,
            r.pixel_count == cfg.pixel_count,
            r.color_order == cfg.color_order,
            r.brightness_cap == cfg.brightness_cap,
            r.reverse == cfg.reverse,
            r.universe_span == spec_universe_span(*cfg),
            r.max_pixels == MAX_PIXELS_PER_LED_PORT,
    {
        let span = cfg.universe_span();
        proof {
            lemma_universe_span_bound(*cfg);
        }
        LedPortStatus {
            mode: cfg.mode,
            start_universe: cfg.start_universe,
            start_address: cfg.start_address,
            pixel_count: cfg.pixel_count,
            color_order: cfg.color_order,
            brightness_cap: cfg.brightness_cap,
            reverse: cfg.reverse,
            universe_span: span as u8,
            max_pixels: MAX_PIXELS_PER_LED_PORT as u16,
        }
    }
}

/// An output never touches more universes than its stream needs plus one for a start
/// address that pushes it across a boundary, and with the maximum pixel count of the
/// widest format at most `MAX_UNIVERSES_PER_LED_PORT + 1`.
pub proof fn lemma_universe_span_bound(c: LedPortConfig)
    ensures
        spec_universe_span(c) <= (spec_stream_len(c) + 511) / 512 + 1,
        spec_universe_span(c) <= MAX_UNIVERSES_PER_LED_PORT + 1,
        spec_effective_start_address(c) == 1 ==> spec_universe_span(c) == (spec_stream_len(c)
            + 511) / 512,
{
    lemma_first_channel_bound(c);
}

/// Whatever `intersect` returns stays inside both the strip's stream and the packet, is
/// never empty, and its two offsets name the same absolute channel.
pub proof fn lemma_intersect_in_bounds(c: LedPortConfig, addr: u16, data_len: int)
    ensures
        spec_intersect(c, addr, data_len) matches Some((so, po, l)) ==> {
            &&& 0 <= so
            &&& 0 <= po
            &&& 0 < l
            &&& so + l <= spec_stream_len(c)
            &&& po + l <= data_len % 0x1_0000_0000int
            &&& spec_first_channel(c) + so == addr as int * 512 + po
        },
{
}

/// A full 512-channel universe overlaps the strip exactly when it lies within the strip's
/// universe span, and the universe carrying the strip's final byte is the last of that span.
pub proof fn lemma_span_matches_intersect(c: LedPortConfig, addr: u16)
    ensures
        spec_intersect(c, addr, 512) is Some <==> (spec_universe_span(c) > 0
            && spec_first_universe(c) <= addr < spec_first_universe(c) + spec_universe_span(c)),
        (spec_stream_len(c) > 0 && spec_last_channel(c) / 512 == addr) <==> (spec_universe_span(c)
            > 0 && addr == spec_first_universe(c) + spec_universe_span(c) - 1),
{
    lemma_first_channel_bound(c);
    let first = spec_first_channel(c);
    let last = spec_last_channel(c);
    let a = addr as int;
    if spec_stream_len(c) > 0 {
        assert(spec_intersect(c, addr, 512) is Some <==> (first < a * 512 + 512 && a * 512 <= last));
        assert(first < a * 512 + 512 <==> first / 512 <= a);
        assert(a * 512 <= last <==> a <= last / 512);
    }
}

/// The piece of the strip's stream that the full universe `j` places after the one carrying
/// its first byte delivers: (stream offset, packet offset, length).
pub open spec fn universe_piece(c: LedPortConfig, j: int) -> (int, int, int) {
    let fc = spec_first_channel(c);
    let packet_start = (spec_first_universe(c) + j) * 512;
    let start = max(fc, packet_start);
    let end = min(fc + spec_stream_len(c), packet_start + 512);
    (start - fc, start - packet_start, end - start)
}

/// Full universes from the one carrying the strip's first byte, over its universe span,
/// deliver the stream exactly once and in order: each overlaps the strip in one non-empty
/// piece; the first piece starts the stream; each later piece starts at its packet's first
/// channel and where the piece before it ended; the last ends at the end of the stream.
pub proof fn lemma_universes_cover_stream(c: LedPortConfig)
    requires
        spec_stream_len(c) > 0,
        spec_last_channel(c) / 512 <= 65535,
    ensures
        forall|j: int|
            0 <= j < spec_universe_span(c) ==> #[trigger] spec_intersect(
                c,
                (spec_first_universe(c) + j) as u16,
                512,
            ) == Some(universe_piece(c, j)) && universe_piece(c, j).2 > 0,
        universe_piece(c, 0).0 == 0,
        forall|j: int|
            1 <= j < spec_universe_span(c) ==> (#[trigger] universe_piece(c, j)).1 == 0
                && universe_piece(c, j).0 == universe_piece(c, j - 1).0 + universe_piece(c, j - 1).2,
        universe_piece(c, spec_universe_span(c) - 1).0 + universe_piece(
            c,
            spec_universe_span(c) - 1,
        ).2 == spec_stream_len(c),
{
    lemma_first_channel_bound(c);
    let fc = spec_first_channel(c);
    let len = spec_stream_len(c);
    let u = spec_first_universe(c);
    let l = spec_last_channel(c) / 512;
    assert(u * 512 <= fc < u * 512 + 512);
    assert(l * 512 <= fc + len - 1 < l * 512 + 512);
    assert(spec_universe_span(c) == l - u + 1);
    assert forall|j: int| 0 <= j < spec_universe_span(c) implies #[trigger] spec_intersect(
        c,
        (spec_first_universe(c) + j) as u16,
        512,
    ) == Some(universe_piece(c, j)) && universe_piece(c, j).2 > 0 by {
        assert((u + j) as u16 as int == u + j);
        assert(512int % 0x1_0000_0000int == 512);
    }
}

/// The four default outputs occupy disjoint blocks of `MAX_UNIVERSES_PER_LED_PORT`
/// universes starting after the DMX ports' universes 0..3.
pub proof fn lemma_default_led_blocks_disjoint(i: int, j: int)
    requires
        0 <= i < j < NUM_LED_PORTS,
    ensures
        4 + i * MAX_UNIVERSES_PER_LED_PORT + MAX_UNIVERSES_PER_LED_PORT <= 4 + j
            * MAX_UNIVERSES_PER_LED_PORT,
        4 + i * MAX_UNIVERSES_PER_LED_PORT >= 4,
{
}

/// The default LED outputs, `default_with_index(i)` for each output `i`.
pub fn default_led_ports() -> (r: [LedPortConfig; 4])
    ensures
        forall|i: int|
            0 <= i < 4 ==> {
                let c = #[trigger] r@[i];
                &&& c.mode == LedPortMode::Inactive
                &&& c.start_universe == 4 + i * MAX_UNIVERSES_PER_LED_PORT
                &&& c.start_address == 1
                &&& c.pixel_count == 0
                &&& c.color_order == ColorOrder::Grbw
                &&& c.brightness_cap == 255
                &&& !c.reverse
            },
{
    [
        LedPortConfig::default_with_index(0),
        LedPortConfig::default_with_index(1),
        LedPortConfig::default_with_index(2),
        LedPortConfig::default_with_index(3),
    ]
}

/// Consolidated settings structure stored in flash
#[derive(Debug, Clone)]
pub struct StoredSettings {
    pub version: u8,
    pub dmx_ports: [DmxPortConfig; 4],
    /// LED (WS281x) outputs; defaulted when absent from stored settings.
    pub led_ports: [LedPortConfig; NUM_LED_PORTS],
    pub network_config: NetworkConfig,
    pub artnet_config: ArtnetConfig,
}

impl StoredSettings {
    /// Factory settings of the chip with id `chip_id`: current version, default DMX ports
    /// on universes 0..3, default LED outputs, factory network settings of the chip and
    /// the default Art-Net configuration.
    pub fn default_with_chip_id(chip_id: u64) -> (r: Self)
        ensures
            r.version == SETTINGS_VERSION,
            forall|i: int|
                0 <= i < 4 ==> {
                    let p = #[trigger] r.dmx_ports@[i];
                    &&& p.mode == PortMode::Active
                    &&& p.universe == i
                    &&& p.merge_mode == MergeMode::Htp
                    &&& p.output_rate == OutputRate::Hz44
                    &&& p.source_devices@.len() == 0
                    &&& !p.has_failsafe
                },
            forall|i: int|
                0 <= i < 4 ==> {
                    let c = #[trigger] r.led_ports@[i];
                    &&& c.mode == LedPortMode::Inactive
                    &&& c.start_universe == 4 + i * MAX_UNIVERSES_PER_LED_PORT
                    &&& c.start_address == 1
                    &&& c.pixel_count == 0
                    &&& c.color_order == ColorOrder::Grbw
                    &&& c.brightness_cap == 255
                    &&& !c.reverse
                },
            r.network_config.id is None,
            r.network_config.ip_config_type == IpConfigType::Static,
            r.network_config.subnet_mask == Some([255u8, 0u8, 0u8, 0u8]),
            r.network_config.gateway == Some([10u8, 0u8, 0u8, 1u8]),
            r.network_config.current_ip_address is None,
            r.network_config.current_subnet_mask is None,
            r.network_config.current_gateway is None,
            r.artnet_config.id is None,
            r.network_config.ip_address == Some(
                [10u8, chip_id_byte(chip_id, 2), chip_id_byte(chip_id, 1), chip_id_byte(chip_id, 0)],
            ),
            r.network_config.mac_address@ == seq![
                0x02u8,
                0xD5u8,
                0x12u8,
                chip_id_byte(chip_id, 2),
                chip_id_byte(chip_id, 1),
                chip_id_byte(chip_id, 0),
            ],
            r.artnet_config.net == 0,
            r.artnet_config.subnet == 0,
            r.artnet_config.device_name@ == default_device_name(),
    {
        StoredSettings {
            version: SETTINGS_VERSION,
            dmx_ports: [
                DmxPortConfig::default_with_universe(0),
                DmxPortConfig::default_with_universe(1),
                DmxPortConfig::default_with_universe(2),
                DmxPortConfig::default_with_universe(3),
            ],
            led_ports: default_led_ports(),
            network_config: NetworkConfig::from_chip_id(chip_id),
            artnet_config: ArtnetConfig::default(),
        }
    }
}

/// LED port configuration update message.
#[derive(Debug, Clone)]
pub struct LedPortConfigUpdate {
    pub type_: &'static str,
    pub data: Vec<LedPortConfigUpdateItem>,
}

/// One port's output channels as sent to the web UI.
#[derive(Debug, Clone)]
pub struct DmxPortOutput {
    pub port_number: u8,
    pub dmx_data: Vec<u8>,
}

/// DMX output update message.
#[derive(Debug, Clone)]
pub struct DmxOutputUpdate {
    pub type_: &'static str,
    pub data: Vec<DmxPortOutput>,
}

/// DMX port configuration update message.
#[derive(Debug, Clone)]
pub struct DmxPortConfigUpdate {
    pub type_: &'static str,
    pub data: Vec<DmxPortConfigUpdateItem>,
}

/// Network configuration update message.
#[derive(Debug, Clone, Copy)]
pub struct NetworkConfigUpdate {
    pub type_: &'static str,
    pub data: NetworkConfigUpdateItem,
}

/// Art-Net configuration update message.
#[derive(Debug, Clone)]
pub struct ArtnetConfigUpdate {
    pub type_: &'static str,
    pub data: ArtnetConfigUpdateItem,
}

/// Payload for setFailsafe WebSocket command. port_number is 0-based port index (0-3).
#[derive(Debug, Clone, Copy)]
pub struct SetFailsafeData {
    pub port_number: u8,
}

#[derive(Debug, Clone, Copy)]
pub struct SetFailsafeUpdate {
    pub type_: &'static str,
    pub data: SetFailsafeData,
}

/// Payload for deleteFailsafe WebSocket command. port_number is 0-based port index (0-3).
#[derive(Debug, Clone, Copy)]
pub struct DeleteFailsafeData {
    pub port_number: u8,
}

#[derive(Debug, Clone, Copy)]
pub struct DeleteFailsafeUpdate {
    pub type_: &'static str,
    pub data: DeleteFailsafeData,
}

/// Any message: only its type tag.
#[derive(Debug, Clone, Copy)]
pub struct TypedMessage {
    pub type_: &'static str,
}

#[derive(Debug, Clone, Copy, PartialEq, Eq, Structural)]
pub enum SystemAction {
    RestartDevice,
    ResetToDefaults,
    FactoryReset,
}

#[derive(Debug, Clone, Copy)]
pub struct SystemActionUpdate {
    pub type_: &'static str,
    pub action: SystemAction,
}

/// Channel `ch` lies in the half-open range `lo..hi`.
pub open spec fn channel_in(ch: int, lo: int, hi: int) -> bool {
    lo <= ch < hi
}

/// Law: a strip takes from a received universe exactly the channels both cover, whatever
/// the packet's length. The stream holds channels `first .. first + len` (absolute, 512
/// per universe); a packet for universe `addr` with `data_len` channels holds channels
/// `addr * 512 .. addr * 512 + data_len`. When some channel lies in both, the result is
/// `Some((so, po, l))` with `l > 0` shared channels, which are exactly the channels
/// `first + so .. first + so + l`, found at byte `so` of the stream and byte `po` of the
/// packet; when none does, the result is `None`.
pub proof fn lemma_intersect_is_shared_channels(c: LedPortConfig, addr: u16, data_len: int)
    requires
        0 <= data_len <= u32::MAX,
    ensures
        ({
            let first = spec_first_channel(c);
            let len = spec_stream_len(c);
            let start = addr as int * 512;
            match spec_intersect(c, addr, data_len) {
                Some((so, po, l)) => {
                    &&& 0 < l
                    &&& 0 <= so && so + l <= len
                    &&& 0 <= po && po + l <= data_len
                    &&& first + so == start + po
                    &&& forall|ch: int|
                        #![trigger channel_in(ch, first, first + len)]
                        #![trigger channel_in(ch, first + so, first + so + l)]
                        (channel_in(ch, first, first + len) && channel_in(ch, start, start + data_len))
                            <==> channel_in(ch, first + so, first + so + l)
                },
                None => forall|ch: int|
                    #![trigger channel_in(ch, first, first + len)]
                    !(channel_in(ch, first, first + len) && channel_in(ch, start, start + data_len)),
            }
        }),
{
    lemma_first_channel_bound(c);
    assert(data_len % 0x1_0000_0000int == data_len);
}

/// A channel value scaled by a brightness cap: `v * cap / 255`, unchanged at cap 255.
proof fn lemma_scaled_byte(v: u8, cap: u8)
    ensures
        scaled(v as int, cap) == (if cap == 255 { v as int } else { v as int * cap as int / 255 }),
        0 <= scaled(v as int, cap) <= 255,
{
    if cap != 255 {
        assert(0 <= v as int * cap as int <= 255 * 255) by (nonlinear_arith)
            requires
                v <= 255,
                cap <= 255,
        ;
    }
}

/// Bytes of `a * 2^24 + b * 2^16 + c * 2^8 + d` for bytes `a`, `b`, `c`, `d`.
proof fn lemma_word_of_bytes(a: int, b: int, c: int, d: int)
    requires
        0 <= a < 256,
        0 <= b < 256,
        0 <= c < 256,
        0 <= d < 256,
    ensures
        ({
            let w = a * 0x1000000 + b * 0x10000 + c * 0x100 + d;
            &&& 0 <= w < 0x1_0000_0000
            &&& w / 0x1000000 == a
            &&& (w / 0x10000) % 256 == b
            &&& (w / 0x100) % 256 == c
            &&& w % 256 == d
        }),
{
    let w = a * 0x1000000 + b * 0x10000 + c * 0x100 + d;
    vstd::arithmetic::div_mod::lemma_fundamental_div_mod_converse(w, 0x1000000, a, b * 0x10000 + c * 0x100 + d);
    vstd::arithmetic::div_mod::lemma_fundamental_div_mod_converse(w, 0x10000, a * 256 + b, c * 0x100 + d);
    vstd::arithmetic::div_mod::lemma_fundamental_div_mod_converse(a * 256 + b, 256, a, b);
    vstd::arithmetic::div_mod::lemma_fundamental_div_mod_converse(w, 0x100, a * 0x10000 + b * 256 + c, d);
    vstd::arithmetic::div_mod::lemma_fundamental_div_mod_converse(a * 0x10000 + b * 256 + c, 256, a * 256 + b, c);
}

/// Law: the word shifted out for a pixel carries each of its channels, read from `src` as
/// R, G, B[, W] and scaled by the cap to `v * cap / 255` (unchanged at cap 255), in a byte
/// of its own, for every color order: the top byte is green for the green-first orders and
/// red for the red-first ones, the next byte the other of the two, the third byte blue,
/// and the lowest byte white for the 4-byte orders and zero for the 3-byte ones.
pub proof fn lemma_word_carries_scaled_channels(o: ColorOrder, src: Seq<u8>, cap: u8)
    requires
        src.len() >= spec_bytes_per_pixel(o),
    ensures
        ({
            let w = spec_to_word(o, src, cap);
            let sc = |v: u8| if cap == 255 { v as int } else { v as int * cap as int / 255 };
            let green_first = o == ColorOrder::Grb || o == ColorOrder::Grbw;
            &&& 0 <= w < 0x1_0000_0000
            &&& w / 0x1000000 == sc(if green_first { src[1] } else { src[0] })
            &&& (w / 0x10000) % 256 == sc(if green_first { src[0] } else { src[1] })
            &&& (w / 0x100) % 256 == sc(src[2])
            &&& w % 256 == (if spec_bytes_per_pixel(o) == 4 { sc(src[3]) } else { 0 })
        }),
{
    lemma_scaled_byte(src[0], cap);
    lemma_scaled_byte(src[1], cap);
    lemma_scaled_byte(src[2], cap);
    let r = scaled(channel_or_zero(src, 0), cap);
    let g = scaled(channel_or_zero(src, 1), cap);
    let b = scaled(channel_or_zero(src, 2), cap);
    let w = scaled(channel_or_zero(src, 3), cap);
    match o {
        ColorOrder::Grb => lemma_word_of_bytes(g, r, b, 0),
        ColorOrder::Rgb => lemma_word_of_bytes(r, g, b, 0),
        ColorOrder::Grbw => {
            lemma_scaled_byte(src[3], cap);
            lemma_word_of_bytes(g, r, b, w);
        },
        ColorOrder::Rgbw => {
            lemma_scaled_byte(src[3], cap);
            lemma_word_of_bytes(r, g, b, w);
        },
    }
}

} // verus!

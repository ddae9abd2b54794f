//! ArtPollReply: the node's answer to an ArtPoll.
use vstd::prelude::*;
use crate::artnet::{artnet_id, push_artnet_id, ArtNetError};
use crate::artnet::dmx::zeros;
use crate::bytes::{be16_bytes, copy_into, le16_bytes, push_be16, push_le16, push_slice, push_zeros};

verus! {

/// Standard ArtPollReply size
pub const BUFFER_SIZE: usize = 240;

/// Status1: indicators in normal mode.
pub const STATUS1_INDICATOR_NORMAL: u8 = 0b11000000;
/// PortTypes: DMX512 protocol (all protocol bits clear).
pub const PORT_TYPE_DMX512: u8 = 0b00000000;
/// PortTypes: input onto the network.
pub const PORT_TYPE_INPUT: u8 = 0b01000000;
/// PortTypes: output from the network.
pub const PORT_TYPE_OUTPUT: u8 = 0b10000000;
/// GoodInput: data received.
pub const GOOD_INPUT_DATA_RECEIVED: u8 = 0b10000000;
/// GoodInput: input is disabled.
pub const GOOD_INPUT_DISABLED: u8 = 0b00001000;
/// GoodOutputA: data is being transmitted.
pub const GOOD_OUTPUT_DATA_TRANSMITTING: u8 = 0b10000000;
/// Status2: node is DHCP capable.
pub const STATUS2_DHCP: u8 = 0b00000100;
/// Status2: node supports 15-bit Port-Addresses.
pub const STATUS2_PORT_ADDRESS_15BIT: u8 = 0b00001000;
/// Status3: node supports switching ports between input and output.
pub const STATUS3_PORT_SWITCHING: u8 = 0b00001000;

/// Every defined bit of [`Status1`].
pub const STATUS1_ALL: u8 = 0xF7;

/// General status register: UBEA, RDM, ROM boot, port-address authority and indicator bits.
#[derive(Clone, Copy)]
pub struct Status1 {
    bits: u8,
}

impl View for Status1 {
    type V = u8;

    closed spec fn view(&self) -> u8 {
        self.bits
    }
}

impl Status1 {
    /// Keeps the defined bits of `bits` and drops the others.
    pub fn from_bits_truncate(bits: u8) -> (r: Self)
        ensures
            r@ == bits & STATUS1_ALL,
    {
        Status1 { bits: bits & STATUS1_ALL }
    }

    /// No bit set.
    pub fn empty() -> (r: Self)
        ensures
            r@ == 0,
    {
        Status1 { bits: 0 }
    }

    /// The register byte.
    pub fn bits(&self) -> (r: u8)
        ensures
            r == self@,
    {
        self.bits
    }
}

/// Every defined bit of [`PortTypes`].
pub const PORT_TYPES_ALL: u8 = 0xC7;

/// Operation and protocol of one port: the low bits are the protocol, bit 6 input, bit 7 output.
#[derive(Clone, Copy)]
pub struct PortTypes {
    bits: u8,
}

impl View for PortTypes {
    type V = u8;

    closed spec fn view(&self) -> u8 {
        self.bits
    }
}

impl PortTypes {
    /// Keeps the defined bits of `bits` and drops the others.
    pub fn from_bits_truncate(bits: u8) -> (r: Self)
        ensures
            r@ == bits & PORT_TYPES_ALL,
    {
        PortTypes { bits: bits & PORT_TYPES_ALL }
    }

    /// No bit set.
    pub fn empty() -> (r: Self)
        ensures
            r@ == 0,
    {
        PortTypes { bits: 0 }
    }

    /// The register byte.
    pub fn bits(&self) -> (r: u8)
        ensures
            r == self@,
    {
        self.bits
    }
}

/// Every defined bit of [`GoodInput`].
pub const GOOD_INPUT_ALL: u8 = 0xFD;

/// Input status of one port.
#[derive(Clone, Copy)]
pub struct GoodInput {
    bits: u8,
}

impl View for GoodInput {
    type V = u8;

    closed spec fn view(&self) -> u8 {
        self.bits
    }
}

impl GoodInput {
    /// Keeps the defined bits of `bits` and drops the others.
    pub fn from_bits_truncate(bits: u8) -> (r: Self)
        ensures
            r@ == bits & GOOD_INPUT_ALL,
    {
        GoodInput { bits: bits & GOOD_INPUT_ALL }
    }

    /// No bit set.
    pub fn empty() -> (r: Self)
        ensures
            r@ == 0,
    {
        GoodInput { bits: 0 }
    }

    /// The register byte.
    pub fn bits(&self) -> (r: u8)
        ensures
            r == self@,
    {
        self.bits
    }
}

/// Every defined bit of [`GoodOutputA`].
pub const GOOD_OUTPUT_A_ALL: u8 = 0xFF;

/// Output status of one port.
#[derive(Clone, Copy)]
pub struct GoodOutputA {
    bits: u8,
}

impl View for GoodOutputA {
    type V = u8;

    closed spec fn view(&self) -> u8 {
        self.bits
    }
}

impl GoodOutputA {
    /// Keeps the defined bits of `bits` and drops the others.
    pub fn from_bits_truncate(bits: u8) -> (r: Self)
        ensures
            r@ == bits & GOOD_OUTPUT_A_ALL,
    {
        GoodOutputA { bits: bits & GOOD_OUTPUT_A_ALL }
    }

    /// No bit set.
    pub fn empty() -> (r: Self)
        ensures
            r@ == 0,
    {
        GoodOutputA { bits: 0 }
    }

    /// The register byte.
    pub fn bits(&self) -> (r: u8)
        ensures
            r == self@,
    {
        self.bits
    }
}

/// Every defined bit of [`SwMacro`].
pub const SW_MACRO_ALL: u8 = 0xFF;

/// Macro trigger values.
#[derive(Clone, Copy)]
pub struct SwMacro {
    bits: u8,
}

impl View for SwMacro {
    type V = u8;

    closed spec fn view(&self) -> u8 {
        self.bits
    }
}

impl SwMacro {
    /// Keeps the defined bits of `bits` and drops the others.
    pub fn from_bits_truncate(bits: u8) -> (r: Self)
        ensures
            r@ == bits & SW_MACRO_ALL,
    {
        SwMacro { bits: bits & SW_MACRO_ALL }
    }

    /// No bit set.
    pub fn empty() -> (r: Self)
        ensures
            r@ == 0,
    {
        SwMacro { bits: 0 }
    }

    /// The register byte.
    pub fn bits(&self) -> (r: u8)
        ensures
            r == self@,
    {
        self.bits
    }
}

/// Every defined bit of [`SwRemote`].
pub const SW_REMOTE_ALL: u8 = 0xFF;

/// Remote trigger values.
#[derive(Clone, Copy)]
pub struct SwRemote {
    bits: u8,
}

impl View for SwRemote {
    type V = u8;

    closed spec fn view(&self) -> u8 {
        self.bits
    }
}

impl SwRemote {
    /// Keeps the defined bits of `bits` and drops the others.
    pub fn from_bits_truncate(bits: u8) -> (r: Self)
        ensures
            r@ == bits & SW_REMOTE_ALL,
    {
        SwRemote { bits: bits & SW_REMOTE_ALL }
    }

    /// No bit set.
    pub fn empty() -> (r: Self)
        ensures
            r@ == 0,
    {
        SwRemote { bits: 0 }
    }

    /// The register byte.
    pub fn bits(&self) -> (r: u8)
        ensures
            r == self@,
    {
        self.bits
    }
}

/// Every defined bit of [`Status2`].
pub const STATUS2_ALL: u8 = 0xFF;

/// Second status register: RDM, output style, sACN, 15-bit addresses, DHCP, web configuration.
#[derive(Clone, Copy)]
pub struct Status2 {
    bits: u8,
}

impl View for Status2 {
    type V = u8;

    closed spec fn view(&self) -> u8 {
        self.bits
    }
}

impl Status2 {
    /// Keeps the defined bits of `bits` and drops the others.
    pub fn from_bits_truncate(bits: u8) -> (r: Self)
        ensures
            r@ == bits & STATUS2_ALL,
    {
        Status2 { bits: bits & STATUS2_ALL }
    }

    /// No bit set.
    pub fn empty() -> (r: Self)
        ensures
            r@ == 0,
    {
        Status2 { bits: 0 }
    }

    /// The register byte.
    pub fn bits(&self) -> (r: u8)
        ensures
            r == self@,
    {
        self.bits
    }
}

/// Every defined bit of [`GoodOutputB`].
pub const GOOD_OUTPUT_B_ALL: u8 = 0xF0;

/// Second output status byte of one port.
#[derive(Clone, Copy)]
pub struct GoodOutputB {
    bits: u8,
}

impl View for GoodOutputB {
    type V = u8;

    closed spec fn view(&self) -> u8 {
        self.bits
    }
}

impl GoodOutputB {
    /// Keeps the defined bits of `bits` and drops the others.
    pub fn from_bits_truncate(bits: u8) -> (r: Self)
        ensures
            r@ == bits & GOOD_OUTPUT_B_ALL,
    {
        GoodOutputB { bits: bits & GOOD_OUTPUT_B_ALL }
    }

    /// No bit set.
    pub fn empty() -> (r: Self)
        ensures
            r@ == 0,
    {
        GoodOutputB { bits: 0 }
    }

    /// The register byte.
    pub fn bits(&self) -> (r: u8)
        ensures
            r == self@,
    {
        self.bits
    }
}

/// Every defined bit of [`Status3`].
pub const STATUS3_ALL: u8 = 0xFC;

/// Third status register: failsafe state, fail-over, LLRP, port switching, RDMnet.
#[derive(Clone, Copy)]
pub struct Status3 {
    bits: u8,
}

impl View for Status3 {
    type V = u8;

    closed spec fn view(&self) -> u8 {
        self.bits
    }
}

impl Status3 {
    /// Keeps the defined bits of `bits` and drops the others.
    pub fn from_bits_truncate(bits: u8) -> (r: Self)
        ensures
            r@ == bits & STATUS3_ALL,
    {
        Status3 { bits: bits & STATUS3_ALL }
    }

    /// No bit set.
    pub fn empty() -> (r: Self)
        ensures
            r@ == 0,
    {
        Status3 { bits: 0 }
    }

    /// The register byte.
    pub fn bits(&self) -> (r: u8)
        ensures
            r == self@,
    {
        self.bits
    }
}

/// Style code of the node.
#[derive(Debug, Clone, Copy, PartialEq, Eq, Structural)]
pub enum StyleCode {
    Node,
    Controller,
    Media,
    Route,
    Backup,
    Config,
    Visual,
}

/// The wire value of a style code.
pub open spec fn style_byte(s: StyleCode) -> u8 {
    match s {
        StyleCode::Node => 0x00,
        StyleCode::Controller => 0x01,
        StyleCode::Media => 0x02,
        StyleCode::Route => 0x03,
        StyleCode::Backup => 0x04,
        StyleCode::Config => 0x05,
        StyleCode::Visual => 0x06,
    }
}

impl StyleCode {
    /// The wire value of this style code.
    pub fn to_byte(self) -> (r: u8)
        ensures
            r == style_byte(self),
    {
        match self {
            StyleCode::Node => 0x00,
            StyleCode::Controller => 0x01,
            StyleCode::Media => 0x02,
            StyleCode::Route => 0x03,
            StyleCode::Backup => 0x04,
            StyleCode::Config => 0x05,
            StyleCode::Visual => 0x06,
        }
    }
}

#[derive(Clone, Copy)]
pub struct PollReply {
    /// Array containing the Node's IP address. First array entry is most significant byte.
    pub ip_address: [u8; 4],
    /// The Port is always 0x1936
    pub port: u16,
    /// The Firmware Version of the Node.
    pub firmware_version: u16,
    /// The Net that the Node is set to. (7 bit value)
    pub net: u8,
    /// The Sub-Net that the Node is set to. (4 bit value)
    pub sub_net: u8,
    /// The OEM Code
    pub oem_code: u16,
    /// Firmware version of the User Bios Extension Area, zero if not programmed.
    pub ubea_version: u8,
    /// General Status register containing bit fields.
    pub status1: Status1,
    /// ESTA manufacturer code.
    pub esta_manufacturer: u16,
    /// Null terminated name for each port of the node.
    pub port_name: [u8; 18],
    /// Null terminated long name for the device.
    pub long_name: [u8; 64],
    /// Textual report of the Node's operating status, formatted "#xxxx [yyyy..] zzzzz...".
    pub node_report: [u8; 64],
    /// Number of input or output ports. Max 4.
    pub num_ports: u16,
    /// Operation and protocol of each channel.
    pub port_types: [PortTypes; 4],
    /// Input status of the node
    pub good_input: [GoodInput; 4],
    /// Output status of the node
    pub good_output: [GoodOutputA; 4],
    /// Bits 3-0 of the 15 bit Port-Address of each input port
    pub sw_in: [u8; 4],
    /// Bits 3-0 of the 15 bit Port-Address of each output port
    pub sw_out: [u8; 4],
    /// The sACN priority value used when received DMX is converted to sACN.
    pub acn_priority: u8,
    /// Macro trigger values
    pub sw_macro: SwMacro,
    /// Remote trigger values
    pub sw_remote: SwRemote,
    /// Style code
    pub style: StyleCode,
    /// MAC Address
    pub mac: [u8; 6],
    /// IP of the root device when this unit is part of a larger product.
    pub bind_ip: [u8; 4],
    /// Order of bound devices; a lower number is closer to the root device.
    pub bind_index: u8,
    /// Status2
    pub status2: Status2,
    /// GoodOutputB
    pub good_output_b: [GoodOutputB; 4],
    /// Status3
    pub status3: Status3,
    /// RDMnet & LLRP Default responder UID
    pub uid: [u8; 6],
    /// Available for user specific data
    pub user_data: [u8; 2],
    /// RefreshRate
    pub refresh_rate: u16,
}

/// The four register bytes of a per-port array.
pub open spec fn port_type_bytes(a: [PortTypes; 4]) -> Seq<u8> {
    seq![a@[0]@, a@[1]@, a@[2]@, a@[3]@]
}

/// The four register bytes of a per-port array.
pub open spec fn good_input_bytes(a: [GoodInput; 4]) -> Seq<u8> {
    seq![a@[0]@, a@[1]@, a@[2]@, a@[3]@]
}

/// The four register bytes of a per-port array.
pub open spec fn good_output_bytes(a: [GoodOutputA; 4]) -> Seq<u8> {
    seq![a@[0]@, a@[1]@, a@[2]@, a@[3]@]
}

/// The four register bytes of a per-port array.
pub open spec fn good_output_b_bytes(a: [GoodOutputB; 4]) -> Seq<u8> {
    seq![a@[0]@, a@[1]@, a@[2]@, a@[3]@]
}

/// Bytes 0..108 of the reply: ID, OpCode 0x2100 low byte first, IP, port low byte first,
/// firmware version, Net, Sub-Net, OEM code, UBEA version, Status1, ESTA code low byte
/// first, short name and long name.
pub open spec fn poll_reply_head(r: PollReply) -> Seq<u8> {
    artnet_id() + seq![0x00u8, 0x21u8] + r.ip_address@ + le16_bytes(r.port) + be16_bytes(
        r.firmware_version,
    ) + seq![r.net, r.sub_net] + be16_bytes(r.oem_code) + seq![r.ubea_version, r.status1@]
        + le16_bytes(r.esta_manufacturer) + r.port_name@ + r.long_name@
}

/// Bytes 108..201: node report, port count, one byte left as it was, the per-port arrays,
/// sACN priority, macro and remote bytes, then three bytes left as they were.
pub open spec fn poll_reply_ports(r: PollReply, old: Seq<u8>) -> Seq<u8> {
    r.node_report@ + be16_bytes(r.num_ports) + seq![old[174]] + port_type_bytes(r.port_types)
        + good_input_bytes(r.good_input) + good_output_bytes(r.good_output) + r.sw_in@ + r.sw_out@
        + seq![r.acn_priority, r.sw_macro@, r.sw_remote@] + old.subrange(198, 201)
}

/// Bytes 201..240: style, MAC, bind IP and index, Status2, GoodOutputB, Status3, UID,
/// user data, refresh rate, then eleven zero bytes of filler.
pub open spec fn poll_reply_tail(r: PollReply) -> Seq<u8> {
    seq![style_byte(r.style)] + r.mac@ + r.bind_ip@ + seq![r.bind_index, r.status2@]
        + good_output_b_bytes(r.good_output_b) + seq![r.status3@] + r.uid@ + r.user_data@
        + be16_bytes(r.refresh_rate) + zeros(11)
}

/// The 240 bytes `to_buffer` leaves in a buffer whose first 240 bytes were `old`.
pub open spec fn poll_reply_bytes(r: PollReply, old: Seq<u8>) -> Seq<u8> {
    poll_reply_head(r) + poll_reply_ports(r, old) + poll_reply_tail(r)
}

/// Law: where each field of the reply sits in the 240 bytes `to_buffer` writes (over a
/// buffer whose first 240 bytes were `old`): "Art-Net\0" at 0..8, OpCode 0x2100 low byte
/// first at 8..10, IP at 10..14, port low byte first at 14..16, firmware version high byte
/// first at 16..18, Net at 18, Sub-Net at 19, OEM code high byte first at 20..22, UBEA
/// version at 22, Status1 at 23, ESTA code low byte first at 24..26, short name at 26..44,
/// long name at 44..108, node report at 108..172, port count high byte first at 172..174,
/// byte 174 kept, port types at 175..179, GoodInput at 179..183, GoodOutputA at 183..187,
/// SwIn at 187..191, SwOut at 191..195, sACN priority at 195, SwMacro at 196, SwRemote at
/// 197, bytes 198..201 kept, style at 201, MAC at 202..208, bind IP at 208..212, bind index
/// at 212, Status2 at 213, GoodOutputB at 214..218, Status3 at 218, UID at 219..225, user
/// data at 225..227, refresh rate high byte first at 227..229, and zeros at 229..240.
pub proof fn lemma_poll_reply_layout(r: PollReply, old: Seq<u8>)
    requires
        old.len() >= 240,
    ensures
        ({
            let b = poll_reply_bytes(r, old);
            &&& b.len() == 240
            &&& b.subrange(0, 8) == seq![0x41u8, 0x72u8, 0x74u8, 0x2du8, 0x4eu8, 0x65u8, 0x74u8, 0x00u8]
            &&& b[8] == 0x00 && b[9] == 0x21
            &&& b.subrange(10, 14) == r.ip_address@
            &&& b[14] == r.port % 256 && b[15] == r.port / 256
            &&& b[16] == r.firmware_version / 256 && b[17] == r.firmware_version % 256
            &&& b[18] == r.net
            &&& b[19] == r.sub_net
            &&& b[20] == r.oem_code / 256 && b[21] == r.oem_code % 256
            &&& b[22] == r.ubea_version
            &&& b[23] == r.status1@
            &&& b[24] == r.esta_manufacturer % 256 && b[25] == r.esta_manufacturer / 256
            &&& b.subrange(26, 44) == r.port_name@
            &&& b.subrange(44, 108) == r.long_name@
            &&& b.subrange(108, 172) == r.node_report@
            &&& b[172] == r.num_ports / 256 && b[173] == r.num_ports % 256
            &&& b[174] == old[174]
            &&& forall|k: int| 0 <= k < 4 ==> b[175 + k] == (#[trigger] r.port_types@[k])@
            &&& forall|k: int| 0 <= k < 4 ==> b[179 + k] == (#[trigger] r.good_input@[k])@
            &&& forall|k: int| 0 <= k < 4 ==> b[183 + k] == (#[trigger] r.good_output@[k])@
            &&& b.subrange(187, 191) == r.sw_in@
            &&& b.subrange(191, 195) == r.sw_out@
            &&& b[195] == r.acn_priority
            &&& b[196] == r.sw_macro@
            &&& b[197] == r.sw_remote@
            &&& b.subrange(198, 201) == old.subrange(198, 201)
            &&& b[201] == style_byte(r.style)
            &&& b.subrange(202, 208) == r.mac@
            &&& b.subrange(208, 212) == r.bind_ip@
            &&& b[212] == r.bind_index
            &&& b[213] == r.status2@
            &&& forall|k: int| 0 <= k < 4 ==> b[214 + k] == (#[trigger] r.good_output_b@[k])@
            &&& b[218] == r.status3@
            &&& b.subrange(219, 225) == r.uid@
            &&& b.subrange(225, 227) == r.user_data@
            &&& b[227] == r.refresh_rate / 256 && b[228] == r.refresh_rate % 256
            &&& forall|k: int| 229 <= k < 240 ==> #[trigger] b[k] == 0
        }),
{
    let h = poll_reply_head(r);
    let p = poll_reply_ports(r, old);
    let t = poll_reply_tail(r);
    let b = poll_reply_bytes(r, old);
    assert(h.len() == 108);
    assert(p.len() == 93);
    assert(t.len() == 39);
    assert(b == h + p + t);
    assert(b.subrange(0, 108) =~= h);
    assert(b.subrange(108, 201) =~= p);
    assert(b.subrange(201, 240) =~= t);
    assert(h.subrange(0, 8) =~= artnet_id());
    assert(b.subrange(0, 8) =~= h.subrange(0, 8));
    assert(b.subrange(10, 14) =~= r.ip_address@);
    assert(b.subrange(26, 44) =~= r.port_name@);
    assert(b.subrange(44, 108) =~= r.long_name@);
    assert(b.subrange(108, 172) =~= r.node_report@);
    assert(b.subrange(187, 191) =~= r.sw_in@);
    assert(b.subrange(191, 195) =~= r.sw_out@);
    assert(b.subrange(198, 201) =~= old.subrange(198, 201));
    assert(b.subrange(202, 208) =~= r.mac@);
    assert(b.subrange(208, 212) =~= r.bind_ip@);
    assert(b.subrange(219, 225) =~= r.uid@);
    assert(b.subrange(225, 227) =~= r.user_data@);
}

impl PollReply {
    fn push_head(&self, out: &mut Vec<u8>)
        ensures
            final(out)@ == old(out)@ + poll_reply_head(*self),
    {
        let ghost start = out@;
        push_artnet_id(out);
        out.push(0x00);
        out.push(0x21);
        push_slice(out, self.ip_address.as_slice());
        push_le16(out, self.port);
        push_be16(out, self.firmware_version);
        out.push(self.net);
        out.push(self.sub_net);
        push_be16(out, self.oem_code);
        out.push(self.ubea_version);
        out.push(self.status1.bits());
        push_le16(out, self.esta_manufacturer);
        push_slice(out, self.port_name.as_slice());
        push_slice(out, self.long_name.as_slice());
        assert(out@ =~= start + poll_reply_head(*self));
    }

    fn push_ports(&self, out: &mut Vec<u8>, buf: &[u8])
        requires
            buf@.len() >= 240,
        ensures
            final(out)@ == old(out)@ + poll_reply_ports(*self, buf@),
    {
        let ghost start = out@;
        push_slice(out, self.node_report.as_slice());
        push_be16(out, self.num_ports);
        out.push(buf[174]);
        out.push(self.port_types[0].bits());
        out.push(self.port_types[1].bits());
        out.push(self.port_types[2].bits());
        out.push(self.port_types[3].bits());
        out.push(self.good_input[0].bits());
        out.push(self.good_input[1].bits());
        out.push(self.good_input[2].bits());
        out.push(self.good_input[3].bits());
        out.push(self.good_output[0].bits());
        out.push(self.good_output[1].bits());
        out.push(self.good_output[2].bits());
        out.push(self.good_output[3].bits());
        push_slice(out, self.sw_in.as_slice());
        push_slice(out, self.sw_out.as_slice());
        out.push(self.acn_priority);
        out.push(self.sw_macro.bits());
        out.push(self.sw_remote.bits());
        out.push(buf[198]);
        out.push(buf[199]);
        out.push(buf[200]);
        assert(buf@.subrange(198, 201) =~= seq![buf@[198], buf@[199], buf@[200]]);
        assert(out@ =~= start + poll_reply_ports(*self, buf@));
    }

    fn push_tail(&self, out: &mut Vec<u8>)
        ensures
            final(out)@ == old(out)@ + poll_reply_tail(*self),
    {
        let ghost start = out@;
        out.push(self.style.to_byte());
        push_slice(out, self.mac.as_slice());
        push_slice(out, self.bind_ip.as_slice());
        out.push(self.bind_index);
        out.push(self.status2.bits());
        out.push(self.good_output_b[0].bits());
        out.push(self.good_output_b[1].bits());
        out.push(self.good_output_b[2].bits());
        out.push(self.good_output_b[3].bits());
        out.push(self.status3.bits());
        push_slice(out, self.uid.as_slice());
        push_slice(out, self.user_data.as_slice());
        push_be16(out, self.refresh_rate);
        push_zeros(out, 11);
        assert(out@ =~= start + poll_reply_tail(*self));
    }

    /// Write the PollReply message to a buffer.
    /// Returns the number of bytes written on success, or an error if buffer is too small.
    /// Bytes 174 and 198..201 are spare and keep whatever the buffer held.
    pub fn to_buffer(&self, buf: &mut [u8]) -> (r: Result<usize, ArtNetError>)
        ensures
            r is Ok <==> old(buf)@.len() >= BUFFER_SIZE,
            r matches Ok(n) ==> n == BUFFER_SIZE && final(buf)@ == poll_reply_bytes(
                *self,
                old(buf)@.take(240),
            ) + old(buf)@.skip(240),
            r matches Err(e) ==> e == ArtNetError::BufferTooSmall && final(buf)@ == old(buf)@,
    {
        if buf.len() < BUFFER_SIZE {
            return Err(ArtNetError::BufferTooSmall);
        }
        let mut out: Vec<u8> = Vec::new();
        self.push_head(&mut out);
        self.push_ports(&mut out, buf);
        self.push_tail(&mut out);
        let ghost old_head = old(buf)@.take(240);
        assert(poll_reply_ports(*self, buf@) == poll_reply_ports(*self, old_head)) by {
            assert(buf@.subrange(198, 201) =~= old_head.subrange(198, 201));
        }
        assert(out@ == poll_reply_bytes(*self, old_head));
        assert(out@.len() == 240);
        copy_into(buf, 0, out.as_slice());
        assert(final(buf)@ =~= poll_reply_bytes(*self, old_head) + old(buf)@.skip(240));
        Ok(BUFFER_SIZE)
    }
}

} // verus!

//! ArtPoll: a controller's discovery request.
use vstd::prelude::*;
use crate::artnet::{artnet_id, push_artnet_id, ArtNetError, PROTOCOLL_VERSION};
use crate::bytes::{be16, be16_bytes, copy_into, push_be16, read_be16};

verus! {

/// Minimum buffer size for ArtPoll packet serialization
pub const ART_POLL_MIN_SIZE: usize = 20;

/// Bit 5: 1 = enable Targeted Mode.
pub const FLAG_TARGETED: u8 = 0b00100000;
/// Bit 4: 1 = disable VLC transmission.
pub const FLAG_VLC: u8 = 0b00010000;
/// Bit 3: 1 = diagnostics messages are unicast.
pub const FLAG_DIAGNOSTICS_BROADCAST: u8 = 0b00001000;
/// Bit 2: 1 = send me diagnostics messages.
pub const FLAG_SEND_DIAGNOSTICS: u8 = 0b00000100;
/// Bit 1: 1 = send ArtPollReply whenever Node conditions change.
pub const FLAG_ART_POLL_REPLY: u8 = 0b00000010;

/// Every bit that has a meaning in the ArtPoll flags byte.
pub const FLAGS_ALL: u8 = 0b00111110;

/// The bits of the flags byte that no flag defines.
pub const FLAGS_UNDEFINED: u8 = 0b11000001;

/// Server behaviour of Node: the ArtPoll flags byte, holding only the defined bits.
#[derive(Clone, Copy)]
pub struct Flags {
    bits: u8,
}

impl View for Flags {
    type V = u8;

    closed spec fn view(&self) -> u8 {
        self.bits
    }
}

impl Flags {
    /// Keeps the defined bits of `bits` and drops the others.
    pub fn from_bits_truncate(bits: u8) -> (r: Self)
        ensures
            r@ == bits & FLAGS_ALL,
    {
        Flags { bits: bits & FLAGS_ALL }
    }

    /// No flag set.
    pub fn empty() -> (r: Self)
        ensures
            r@ == 0,
    {
        Flags { bits: 0 }
    }

    /// The flags byte.
    pub fn bits(&self) -> (r: u8)
        ensures
            r == self@,
    {
        self.bits
    }
}

pub struct Poll {
    /// Set behaviour of Node.
    pub flags: Flags,
    /// The lowest priority of diagnostics message that should be sent.
    pub diag_priority: u8,
    /// Top of the range of Port-Addresses to be tested if Targeted Mode is active.
    pub target_port_address_top: u16,
    /// Bottom of the range of Port-Addresses to be tested if Targeted Mode is active.
    pub target_port_address_bottom: u16,
    /// The ESTA Manufacturer code.
    pub esta_manufacturer: u16,
    /// The Oem code of the device.
    pub oem_code: u16,
}

/// The fields of an ArtPoll packet.
pub struct PollView {
    pub flags: u8,
    pub diag_priority: u8,
    pub target_port_address_top: u16,
    pub target_port_address_bottom: u16,
    pub esta_manufacturer: u16,
    pub oem_code: u16,
}

impl View for Poll {
    type V = PollView;

    open spec fn view(&self) -> PollView {
        PollView {
            flags: self.flags@,
            diag_priority: self.diag_priority,
            target_port_address_top: self.target_port_address_top,
            target_port_address_bottom: self.target_port_address_bottom,
            esta_manufacturer: self.esta_manufacturer,
            oem_code: self.oem_code,
        }
    }
}

/// What `Poll::from_buffer` reads: `None` below 14 bytes or when the flags byte sets a
/// bit that no flag defines; otherwise the flags byte and the diagnostics priority, and
/// the four 16-bit fields, high byte first, only when the buffer holds 22 bytes, and zero
/// otherwise.
pub open spec fn parse_poll(buf: Seq<u8>) -> Option<PollView> {
    if buf.len() < 14 || buf[12] & FLAGS_UNDEFINED != 0 {
        None
    } else if buf.len() >= 22 {
        Some(
            PollView {
                flags: buf[12],
                diag_priority: buf[13],
                target_port_address_top: be16(buf[14], buf[15]),
                target_port_address_bottom: be16(buf[16], buf[17]),
                esta_manufacturer: be16(buf[18], buf[19]),
                oem_code: be16(buf[20], buf[21]),
            },
        )
    } else {
        Some(
            PollView {
                flags: buf[12],
                diag_priority: buf[13],
                target_port_address_top: 0,
                target_port_address_bottom: 0,
                esta_manufacturer: 0,
                oem_code: 0,
            },
        )
    }
}

/// The 20 bytes `Poll::to_buffer` writes: ID, OpCode 0x2000 low byte first, protocol
/// version, flags, diagnostics priority, then the target range and the ESTA code, high
/// byte first. The OEM code is not written.
pub open spec fn poll_bytes(p: PollView) -> Seq<u8> {
    artnet_id() + seq![0x00u8, 0x20u8] + be16_bytes(14) + seq![p.flags, p.diag_priority]
        + be16_bytes(p.target_port_address_top) + be16_bytes(p.target_port_address_bottom)
        + be16_bytes(p.esta_manufacturer)
}

impl Poll {
    /// Parse a Poll message from a buffer.
    /// Returns None if the buffer is too small or contains invalid flags.
    pub fn from_buffer(buf: &[u8]) -> (r: Option<Self>)
        ensures
            match r {
                Some(p) => parse_poll(buf@) == Some(p@),
                None => parse_poll(buf@) is None,
            },
    {
        if buf.len() < 14 || buf[12] & FLAGS_UNDEFINED != 0 {
            return None;
        }
        let b = buf[12];
        assert(b & 0b11000001u8 == 0 ==> b & 0b00111110u8 == b) by (bit_vector);
        let flags = Flags::from_bits_truncate(b);
        if buf.len() >= 22 {
            Some(
                Poll {
                    flags,
                    diag_priority: buf[13],
                    target_port_address_top: read_be16(buf[14], buf[15]),
                    target_port_address_bottom: read_be16(buf[16], buf[17]),
                    esta_manufacturer: read_be16(buf[18], buf[19]),
                    oem_code: read_be16(buf[20], buf[21]),
                },
            )
        } else {
            Some(
                Poll {
                    flags,
                    diag_priority: buf[13],
                    target_port_address_top: 0,
                    target_port_address_bottom: 0,
                    esta_manufacturer: 0,
                    oem_code: 0,
                },
            )
        }
    }

    /// Write the Poll message to a buffer.
    /// Returns the number of bytes written on success, or an error if buffer is too small.
    pub fn to_buffer(&self, buf: &mut [u8]) -> (r: Result<usize, ArtNetError>)
        ensures
            r is Ok <==> old(buf)@.len() >= ART_POLL_MIN_SIZE,
            r matches Ok(n) ==> n == ART_POLL_MIN_SIZE && final(buf)@ == poll_bytes(self@) + old(
                buf,
            )@.skip(20),
            r matches Err(e) ==> e == ArtNetError::BufferTooSmall && final(buf)@ == old(buf)@,
    {
        if buf.len() < ART_POLL_MIN_SIZE {
            return Err(ArtNetError::BufferTooSmall);
        }
        let mut out: Vec<u8> = Vec::new();
        push_artnet_id(&mut out);
        out.push(0x00);
        out.push(0x20);
        push_be16(&mut out, PROTOCOLL_VERSION);
        out.push(self.flags.bits());
        out.push(self.diag_priority);
        push_be16(&mut out, self.target_port_address_top);
        push_be16(&mut out, self.target_port_address_bottom);
        push_be16(&mut out, self.esta_manufacturer);
        assert(out@ =~= poll_bytes(self@));
        copy_into(buf, 0, out.as_slice());
        assert(final(buf)@ =~= poll_bytes(self@) + old(buf)@.skip(20));
        Ok(ART_POLL_MIN_SIZE)
    }
}

/// Reading back what `to_buffer` wrote, from a flags byte with only defined bits, keeps
/// the flags and the diagnostics priority. The target range and ESTA code come back only when at least two more bytes
/// follow the 20 written, and the OEM code is then read from those two bytes; with fewer,
/// all four read as zero.
pub proof fn lemma_poll_roundtrip(p: PollView, rest: Seq<u8>)
    requires
        p.flags & FLAGS_UNDEFINED == 0,
    ensures
        parse_poll(poll_bytes(p) + rest) == Some(
            if rest.len() >= 2 {
                PollView {
                    flags: p.flags,
                    oem_code: be16(rest[0], rest[1]),
                    ..p
                }
            } else {
                PollView {
                    flags: p.flags,
                    diag_priority: p.diag_priority,
                    target_port_address_top: 0,
                    target_port_address_bottom: 0,
                    esta_manufacturer: 0,
                    oem_code: 0,
                }
            },
        ),
{
    let b = poll_bytes(p) + rest;
    assert(b[12] == p.flags);
    assert(b[13] == p.diag_priority);
    crate::bytes::lemma_be16_roundtrip(p.target_port_address_top);
    crate::bytes::lemma_be16_roundtrip(p.target_port_address_bottom);
    crate::bytes::lemma_be16_roundtrip(p.esta_manufacturer);
    assert(b[14] == (p.target_port_address_top / 256) as u8);
    assert(b[15] == (p.target_port_address_top % 256) as u8);
    assert(b[16] == (p.target_port_address_bottom / 256) as u8);
    assert(b[17] == (p.target_port_address_bottom % 256) as u8);
    assert(b[18] == (p.esta_manufacturer / 256) as u8);
    assert(b[19] == (p.esta_manufacturer % 256) as u8);
    if rest.len() >= 2 {
        assert(b[20] == rest[0]);
        assert(b[21] == rest[1]);
    }
}

/// Law: the ArtPoll layout `to_buffer` writes: "Art-Net\0" at 0..8, OpCode 0x2000 low
/// byte first at 8..10, protocol version 14 high byte first at 10..12, flags at 12,
/// diagnostics priority at 13, then the target range top and bottom and the ESTA code,
/// each high byte first, at 14..16, 16..18 and 18..20.
pub proof fn lemma_poll_layout(p: PollView)
    ensures
        ({
            let b = poll_bytes(p);
            &&& b.len() == 20
            &&& b.subrange(0, 8) == seq![0x41u8, 0x72u8, 0x74u8, 0x2du8, 0x4eu8, 0x65u8, 0x74u8, 0x00u8]
            &&& b[8] == 0x00 && b[9] == 0x20
            &&& b[10] == 0 && b[11] == 14
            &&& b[12] == p.flags
            &&& b[13] == p.diag_priority
            &&& b[14] as int * 256 + b[15] as int == p.target_port_address_top
            &&& b[16] as int * 256 + b[17] as int == p.target_port_address_bottom
            &&& b[18] as int * 256 + b[19] as int == p.esta_manufacturer
        }),
{
    let b = poll_bytes(p);
    assert(b.subrange(0, 8) =~= artnet_id());
}

/// Law: reading an ArtPoll takes it exactly when the buffer holds at least 14 bytes and the
/// flags byte (12) sets none of the undefined bits 0, 6 and 7; the flags are byte 12 and
/// the diagnostics priority byte 13; with at least 22 bytes the target range top, bottom,
/// ESTA code and OEM code are bytes 14..22 in pairs, high byte first, and with fewer they
/// are zero.
pub proof fn lemma_poll_fields(buf: Seq<u8>)
    ensures
        parse_poll(buf) is Some <==> (buf.len() >= 14 && buf[12] & 0xC1u8 == 0),
        parse_poll(buf) matches Some(p) ==> {
            &&& p.flags == buf[12]
            &&& p.diag_priority == buf[13]
            &&& p.target_port_address_top == (if buf.len() >= 22 { buf[14] as int * 256 + buf[15] as int } else { 0 })
            &&& p.target_port_address_bottom == (if buf.len() >= 22 { buf[16] as int * 256 + buf[17] as int } else { 0 })
            &&& p.esta_manufacturer == (if buf.len() >= 22 { buf[18] as int * 256 + buf[19] as int } else { 0 })
            &&& p.oem_code == (if buf.len() >= 22 { buf[20] as int * 256 + buf[21] as int } else { 0 })
        },
{
    if buf.len() >= 22 {
        assert(be16(buf[14], buf[15]) as int == buf[14] as int * 256 + buf[15] as int);
        assert(be16(buf[16], buf[17]) as int == buf[16] as int * 256 + buf[17] as int);
        assert(be16(buf[18], buf[19]) as int == buf[18] as int * 256 + buf[19] as int);
        assert(be16(buf[20], buf[21]) as int == buf[20] as int * 256 + buf[21] as int);
    }
}

} // verus!

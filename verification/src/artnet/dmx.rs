//! ArtDmx: one universe of DMX512 channel data.
use vstd::prelude::*;
use crate::artnet::{artnet_id, push_artnet_id, ArtNetError, OPCODE_DMX, PROTOCOLL_VERSION};
use crate::bytes::{be16, be16_bytes, copy_into, le16_bytes, push_be16, push_le16, read_be16};

verus! {

/// Size of the fixed part of an ArtDmx packet, before the channel data.
pub const ART_DMX_HEADER_SIZE: usize = 18;

/// Largest number of channels in one universe.
pub const DMX_CHANNELS: usize = 512;

pub struct ArtDmx {
    /// The sequence number is used to ensure that ArtDmx packets are used in the correct order.
    pub sequence: u8,
    /// The physical input port from which this data was received
    pub physical: u8,
    /// The low byte of the 15 bit Port-Address to which this packet is destined.
    pub sub_uni: u8,
    /// The top 7 bits of the 15 bit Port-Address to which this packet is destined.
    pub net: u8,
    /// The length of the DMX512 data array
    pub length: u16,
    /// Array of DMX512 lighting data
    pub data: [u8; 512],
}

/// The fields of an ArtDmx packet, with the channel array as a sequence.
pub struct ArtDmxView {
    pub sequence: u8,
    pub physical: u8,
    pub sub_uni: u8,
    pub net: u8,
    pub length: u16,
    pub data: Seq<u8>,
}

impl View for ArtDmx {
    type V = ArtDmxView;

    open spec fn view(&self) -> ArtDmxView {
        ArtDmxView {
            sequence: self.sequence,
            physical: self.physical,
            sub_uni: self.sub_uni,
            net: self.net,
            length: self.length,
            data: self.data@,
        }
    }
}

/// `n` zero bytes.
pub open spec fn zeros(n: int) -> Seq<u8> {
    Seq::new(n as nat, |i: int| 0u8)
}

/// What `ArtDmx::from_buffer` reads out of `buf`: `None` unless the buffer holds the
/// 18-byte header and a length field between 1 and 512 with that many data bytes after it.
/// The packet ID and OpCode are not examined. Channels past the length read as zero.
pub open spec fn parse_art_dmx(buf: Seq<u8>) -> Option<ArtDmxView> {
    if buf.len() < 18 {
        None
    } else {
        let length = be16(buf[16], buf[17]) as int;
        if length == 0 || length > 512 || buf.len() < 18 + length {
            None
        } else {
            Some(
                ArtDmxView {
                    sequence: buf[12],
                    physical: buf[13],
                    sub_uni: buf[14],
                    net: buf[15],
                    length: length as u16,
                    data: buf.subrange(18, 18 + length) + zeros(512 - length),
                },
            )
        }
    }
}

/// The bytes `ArtDmx::to_buffer` writes: ID, OpCode 0x5000 low byte first, protocol
/// version 14 high byte first, sequence, physical, SubUni, Net, length high byte first,
/// then the first `length` channels.
pub open spec fn art_dmx_bytes(d: ArtDmxView) -> Seq<u8> {
    artnet_id() + le16_bytes(0x5000) + be16_bytes(14) + seq![
        d.sequence,
        d.physical,
        d.sub_uni,
        d.net,
    ] + be16_bytes(d.length) + d.data.take(d.length as int)
}

/// The 15-bit port address: Net in the high byte, SubUni in the low byte.
pub open spec fn port_address(net: u8, sub_uni: u8) -> u16 {
    (net as int * 256 + sub_uni as int) as u16
}

/// `d` with every channel past its length cleared.
pub open spec fn truncated(d: ArtDmxView) -> ArtDmxView {
    ArtDmxView { data: d.data.take(d.length as int) + zeros(512 - d.length), ..d }
}

impl ArtDmx {
    /// Parse an ArtDmx packet from a buffer.
    /// Returns None if the buffer is too small or malformed.
    pub fn from_buffer(buf: &[u8]) -> (r: Option<Self>)
        ensures
            match r {
                Some(d) => parse_art_dmx(buf@) == Some(d@),
                None => parse_art_dmx(buf@) is None,
            },
    {
        if buf.len() < 18 {
            return None;
        }
        let length = read_be16(buf[16], buf[17]) as usize;
        if length == 0 || length > 512 {
            return None;
        }
        if buf.len() < 18 + length {
            return None;
        }
        let mut data = [0u8; 512];
        assert(data@ =~= zeros(512));
        for i in 0..length
            invariant
                length <= 512,
                18 + length <= buf@.len(),
                data@ == buf@.subrange(18, 18 + i) + zeros(512 - i),
        {
            data[i] = buf[18 + i];
            assert(data@ =~= buf@.subrange(18, 18 + i + 1) + zeros(512 - (i + 1)));
        }
        let res = ArtDmx {
            sequence: buf[12],
            physical: buf[13],
            sub_uni: buf[14],
            net: buf[15],
            length: length as u16,
            data,
        };
        assert(res@ == parse_art_dmx(buf@).unwrap());
        Some(res)
    }

    /// An empty packet: all fields zero except channels 1 and 7, which hold 85.
    pub fn default() -> (r: Self)
        ensures
            r.sequence == 0,
            r.physical == 0,
            r.sub_uni == 0,
            r.net == 0,
            r.length == 0,
            r.data@ == zeros(512).update(1, 85u8).update(7, 85u8),
    {
        let mut data = [0u8; 512];
        assert(data@ =~= zeros(512));
        data[0] = 0;
        data[1] = 85;
        data[7] = 85;
        assert(data@ =~= zeros(512).update(1, 85u8).update(7, 85u8));
        ArtDmx { sequence: 0, physical: 0, sub_uni: 0, net: 0, length: 0, data }
    }

    /// The 15-bit port address this packet is destined for.
    pub fn universe(&self) -> (r: u16)
        ensures
            r == port_address(self.net, self.sub_uni),
            r as int == self.net as int * 256 + self.sub_uni as int,
    {
        let n = self.net;
        let s = self.sub_uni;
        assert(((n as u16) << 8u16) | (s as u16) == n as int * 256 + s as int) by (bit_vector);
        ((n as u16) << 8) | (s as u16)
    }

    /// Serialize an ArtDmx packet into a buffer.
    ///
    /// Returns the number of bytes written, or an error if the buffer is too small.
    /// Packet layout:
    ///   [0..8]   "Art-Net\0" header
    ///   [8..10]  OpCode 0x5000 (little-endian)
    ///   [10..12] Protocol version 0x000E (big-endian)
    ///   [12]     Sequence
    ///   [13]     Physical
    ///   [14]     SubUni (low byte of port-address)
    ///   [15]     Net (high byte of port-address)
    ///   [16..18] Length (big-endian)
    ///   [18..]   DMX data
    pub fn to_buffer(&self, buf: &mut [u8]) -> (r: Result<usize, ArtNetError>)
        ensures
            r is Ok <==> old(buf)@.len() >= 18 + self.length && self.length <= 512,
            r matches Ok(n) ==> n == 18 + self.length && final(buf)@ == art_dmx_bytes(self@)
                + old(buf)@.skip(18 + self.length),
            r matches Err(e) ==> final(buf)@ == old(buf)@ && e == (if old(buf)@.len() < 18
                + self.length {
                ArtNetError::BufferTooSmall
            } else {
                ArtNetError::DmxLengthTooLarge
            }),
    {
        let length = self.length as usize;
        let total = 18 + length;
        if buf.len() < total {
            return Err(ArtNetError::BufferTooSmall);
        }
        if length > 512 {
            return Err(ArtNetError::DmxLengthTooLarge);
        }
        let mut out: Vec<u8> = Vec::new();
        push_artnet_id(&mut out);
        push_le16(&mut out, OPCODE_DMX);
        push_be16(&mut out, PROTOCOLL_VERSION);
        out.push(self.sequence);
        out.push(self.physical);
        out.push(self.sub_uni);
        out.push(self.net);
        push_be16(&mut out, self.length);
        let ghost head = out@;
        for i in 0..length
            invariant
                length <= 512,
                out@ == head + self.data@.take(i as int),
        {
            out.push(self.data[i]);
            assert(self.data@.take(i + 1) =~= self.data@.take(i as int).push(self.data@[i as int]));
        }
        assert(out@ =~= art_dmx_bytes(self@));
        copy_into(buf, 0, out.as_slice());
        assert(final(buf)@ =~= art_dmx_bytes(self@) + old(buf)@.skip(18 + self.length));
        Ok(total)
    }
}

/// Parsing what `to_buffer` wrote gives the packet back, with the channels past its
/// length read as zero, whatever bytes follow in the buffer.
pub proof fn lemma_art_dmx_roundtrip(d: ArtDmxView, rest: Seq<u8>)
    requires
        1 <= d.length <= 512,
        d.data.len() == 512,
    ensures
        parse_art_dmx(art_dmx_bytes(d) + rest) == Some(truncated(d)),
{
    let b = art_dmx_bytes(d) + rest;
    let len = d.length as int;
    assert(b[16] == (d.length / 256) as u8);
    assert(b[17] == (d.length % 256) as u8);
    crate::bytes::lemma_be16_roundtrip(d.length);
    assert(b[12] == d.sequence);
    assert(b[13] == d.physical);
    assert(b[14] == d.sub_uni);
    assert(b[15] == d.net);
    assert(b.subrange(18, 18 + len) =~= d.data.take(len));
    assert(parse_art_dmx(b).unwrap().data =~= truncated(d).data);
}

/// Law: the ArtDmx layout `to_buffer` writes: "Art-Net\0" at 0..8, OpCode 0x5000 low
/// byte first at 8..10, protocol version 14 high byte first at 10..12, sequence at 12,
/// physical at 13, SubUni at 14, Net at 15, the length high byte first at 16..18, and the
/// first `length` channels from 18 on, nothing after them.
pub proof fn lemma_art_dmx_layout(d: ArtDmxView)
    requires
        d.length <= 512,
        d.data.len() == 512,
    ensures
        ({
            let b = art_dmx_bytes(d);
            &&& b.len() == 18 + d.length
            &&& b.subrange(0, 8) == seq![0x41u8, 0x72u8, 0x74u8, 0x2du8, 0x4eu8, 0x65u8, 0x74u8, 0x00u8]
            &&& b[8] == 0x00 && b[9] == 0x50
            &&& b[10] == 0 && b[11] == 14
            &&& b[12] == d.sequence
            &&& b[13] == d.physical
            &&& b[14] == d.sub_uni
            &&& b[15] == d.net
            &&& b[16] as int * 256 + b[17] as int == d.length
            &&& b.subrange(18, 18 + d.length as int) == d.data.subrange(0, d.length as int)
        }),
{
    let b = art_dmx_bytes(d);
    assert(b.subrange(0, 8) =~= artnet_id());
    assert(b.subrange(18, 18 + d.length as int) =~= d.data.subrange(0, d.length as int));
}

/// Law: reading an ArtDmx packet takes it exactly when the buffer holds the 18-byte header,
/// a length (bytes 16 and 17, high byte first) of 1 to 512 and that many channel bytes
/// after the header; the sequence, physical, SubUni and Net are bytes 12 to 15, and channel
/// `k` is byte `18 + k` up to the length and zero past it.
pub proof fn lemma_art_dmx_fields(buf: Seq<u8>)
    ensures
        parse_art_dmx(buf) is Some <==> (buf.len() >= 18 && 1 <= buf[16] as int * 256 + buf[17] as int
            <= 512 && buf.len() >= 18 + buf[16] as int * 256 + buf[17] as int),
        parse_art_dmx(buf) matches Some(d) ==> {
            let n = buf[16] as int * 256 + buf[17] as int;
            &&& d.sequence == buf[12]
            &&& d.physical == buf[13]
            &&& d.sub_uni == buf[14]
            &&& d.net == buf[15]
            &&& d.length == n
            &&& d.data.len() == 512
            &&& forall|k: int| 0 <= k < 512 ==> #[trigger] d.data[k] == (if k < n { buf[18 + k] } else { 0u8 })
        },
{
    if buf.len() >= 18 {
        let n = buf[16] as int * 256 + buf[17] as int;
        assert(0 <= n <= 255 * 256 + 255);
        assert(be16(buf[16], buf[17]) as int == n);
    }
}

} // verus!

//! Art-Net 4 packets handled by the node: ArtDmx, ArtPoll and ArtPollReply.
pub mod dmx;
pub mod poll;
pub mod poll_reply;

use vstd::prelude::*;

verus! {

/// Art-Net protocol revision carried in every packet.
pub const PROTOCOLL_VERSION: u16 = 14;

/// OpCode of ArtPoll (sent low byte first on the wire).
pub const OPCODE_POLL: u16 = 0x2000;

/// OpCode of ArtPollReply.
pub const OPCODE_POLL_REPLY: u16 = 0x2100;

/// OpCode of ArtDmx.
pub const OPCODE_DMX: u16 = 0x5000;

/// Art-Net parsing/serialization errors
#[derive(Debug, Clone, Copy, PartialEq, Eq, Structural)]
pub enum ArtNetError {
    /// Buffer is too small to hold the packet
    BufferTooSmall,
    /// Packet data is malformed or incomplete
    MalformedPacket,
    /// Invalid flags or bitfield value
    InvalidFlags,
    /// DMX length exceeds maximum (512)
    DmxLengthTooLarge,
}

/// The eight-byte packet ID "Art-Net\0" that opens every Art-Net packet.
pub open spec fn artnet_id() -> Seq<u8> {
    seq![0x41u8, 0x72u8, 0x74u8, 0x2du8, 0x4eu8, 0x65u8, 0x74u8, 0x00u8]
}

/// Appends the packet ID "Art-Net\0".
pub fn push_artnet_id(out: &mut Vec<u8>)
    ensures
        final(out)@ == old(out)@ + artnet_id(),
{
    out.push(0x41);
    out.push(0x72);
    out.push(0x74);
    out.push(0x2d);
    out.push(0x4e);
    out.push(0x65);
    out.push(0x74);
    out.push(0x00);
    assert(final(out)@ =~= old(out)@ + artnet_id());
}

/// True when `buf` starts with the packet ID "Art-Net\0".
pub fn has_artnet_id(buf: &[u8]) -> (r: bool)
    ensures
        r == (buf@.len() >= 8 && buf@.take(8) == artnet_id()),
{
    if buf.len() < 8 {
        return false;
    }
    let r = buf[0] == 0x41 && buf[1] == 0x72 && buf[2] == 0x74 && buf[3] == 0x2d && buf[4] == 0x4e
        && buf[5] == 0x65 && buf[6] == 0x74 && buf[7] == 0x00;
    if r {
        assert(buf@.take(8) =~= artnet_id());
    } else {
        assert(buf@.take(8) != artnet_id()) by {
            if buf@.take(8) == artnet_id() {
                assert(buf@.take(8)[0] == buf@[0]);
                assert(buf@.take(8)[1] == buf@[1]);
                assert(buf@.take(8)[2] == buf@[2]);
                assert(buf@.take(8)[3] == buf@[3]);
                assert(buf@.take(8)[4] == buf@[4]);
                assert(buf@.take(8)[5] == buf@[5]);
                assert(buf@.take(8)[6] == buf@[6]);
                assert(buf@.take(8)[7] == buf@[7]);
            }
        }
    }
    r
}

} // verus!

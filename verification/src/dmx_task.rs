//! DMX ports: refresh rates, the subnet broadcast address, assembling frames received on
//! an Input port and turning them into ArtDmx packets, and what an output port sends.
use vstd::prelude::*;
use crate::artnet::dmx::{zeros, ArtDmx};
use crate::bytes::copy_range;
use crate::schema::{OutputRate, PortMode};

verus! {

/// DMX frame size: 1 start code + 512 channels
pub const DMX_FRAME_SIZE: usize = 513;

/// Break marker value the receiver pushes when a DMX break is detected.
pub const BREAK_MARKER: u32 = 0xFFFFFFFF;

/// Frame interval of an output rate, in milliseconds.
pub fn rate_to_duration(rate: OutputRate) -> (r: u64)
    ensures
        r == match rate {
            OutputRate::Hz20 => 50u64,
            OutputRate::Hz30 => 33u64,
            OutputRate::Hz44 => 23u64,
        },
{
    match rate {
        OutputRate::Hz20 => 50,
        OutputRate::Hz30 => 33,
        OutputRate::Hz44 => 23,
    }
}

/// The address as one big-endian 32-bit number.
pub open spec fn ip_value(ip: Seq<u8>) -> int {
    ip[0] * 0x1000000 + ip[1] * 0x10000 + ip[2] * 0x100 + ip[3]
}

/// Netmask of a prefix length.
pub open spec fn prefix_mask(prefix: u8) -> u32 {
    if prefix == 0 {
        0
    } else {
        (0xFFFF_FFFFu32 << (32 - prefix) as u32) as u32
    }
}

/// Subnet broadcast address: the address with every host bit set.
pub fn broadcast_address(ip: [u8; 4], prefix: u8) -> (r: [u8; 4])
    requires
        prefix <= 32,
    ensures
        ip_value(r@) == (ip_value(ip@) as u32 | !prefix_mask(prefix)),
{
    let mask: u32 = if prefix == 0 {
        0
    } else {
        u32::MAX << (32 - prefix)
    };
    let ip_u32 = (ip[0] as u32) << 24 | (ip[1] as u32) << 16 | (ip[2] as u32) << 8 | ip[3] as u32;
    let (a, b, c, d) = (ip[0], ip[1], ip[2], ip[3]);
    assert(((a as u32) << 24u32 | (b as u32) << 16u32 | (c as u32) << 8u32 | d as u32) == a
        * 0x1000000 + b * 0x10000 + c * 0x100 + d) by (bit_vector);
    let broadcast_u32 = ip_u32 | !mask;
    let r = [
        (broadcast_u32 >> 24) as u8,
        (broadcast_u32 >> 16) as u8,
        (broadcast_u32 >> 8) as u8,
        broadcast_u32 as u8,
    ];
    let x = broadcast_u32;
    assert(((x >> 24u32) as u8) * 0x1000000 + ((x >> 16u32) as u8) * 0x10000 + ((x >> 8u32) as u8)
        * 0x100 + (x as u8) == x) by (bit_vector);
    r
}

/// A DMX frame being received on an Input port.
pub struct DmxRxFrame {
    /// Start code and channels received since the last break.
    pub frame: [u8; 513],
    /// Number of bytes received since the last break.
    pub pos: usize,
    /// A break has been seen, so bytes belong to a frame.
    pub started: bool,
}

impl DmxRxFrame {
    /// Nothing received yet.
    pub fn new() -> (r: Self)
        ensures
            r.pos == 0,
            !r.started,
            r.frame@ == zeros(513),
    {
        let r = DmxRxFrame { frame: [0; 513], pos: 0, started: false };
        assert(r.frame@ =~= zeros(513));
        r
    }

    /// Handle one word from the receiver FIFO.
    ///
    /// A break ends the frame in progress: if one was started, holds at least one channel
    /// and its start code is 0, its length (start code included) is returned, and its
    /// bytes stay in `frame` until the next data byte. Either way a new frame starts.
    /// Any other word carries a byte in its top 8 bits, kept while a frame is started and
    /// not yet 513 bytes long.
    pub fn on_word(&mut self, word: u32) -> (r: Option<usize>)
        requires
            old(self).pos <= 513,
        ensures
            final(self).pos <= 513,
            word == BREAK_MARKER ==> {
                &&& r == (if old(self).started && old(self).pos > 1 && old(self).frame@[0] == 0 {
                    Some(old(self).pos)
                } else {
                    None::<usize>
                })
                &&& final(self).pos == 0
                &&& final(self).started
                &&& final(self).frame == old(self).frame
            },
            word != BREAK_MARKER ==> {
                &&& r is None
                &&& final(self).started == old(self).started
                &&& if old(self).started && old(self).pos < 513 {
                    &&& final(self).pos == old(self).pos + 1
                    &&& final(self).frame@ == old(self).frame@.update(
                        old(self).pos as int,
                        (word / 0x1000000) as u8,
                    )
                } else {
                    &&& final(self).pos == old(self).pos
                    &&& final(self).frame == old(self).frame
                }
            },
    {
        if word == BREAK_MARKER {
            let done = if self.started && self.pos > 1 && self.frame[0] == 0x00 {
                Some(self.pos)
            } else {
                None
            };
            self.pos = 0;
            self.started = true;
            done
        } else {
            if self.started && self.pos < DMX_FRAME_SIZE {
                assert((word >> 24u32) as u8 == word / 0x1000000) by (bit_vector);
                self.frame[self.pos] = (word >> 24) as u8;
                self.pos += 1;
            }
            None
        }
    }
}

/// Sequence number after `seq`: 1 to 255, wrapping back to 1, never 0.
pub fn next_sequence(seq: u8) -> (r: u8)
    ensures
        r == (if seq == 255 {
            1
        } else {
            seq + 1
        }),
        r != 0,
{
    if seq == 255 {
        1
    } else {
        seq + 1
    }
}

/// ArtDmx packet for a frame of `rx_pos` bytes received on DMX port `port`: addressed to
/// the node's Net, with the Sub-Net in the high nibble of SubUni and the port's universe
/// in the low one, carrying the channels after the start code.
pub fn rx_art_dmx(
    frame: &[u8; 513],
    rx_pos: usize,
    sequence: u8,
    port: u8,
    net: u8,
    subnet: u8,
    universe: u8,
) -> (r: ArtDmx)
    requires
        2 <= rx_pos <= 513,
    ensures
        r.sequence == sequence,
        r.physical == port,
        r.sub_uni == ((subnet as int * 16) % 256 + universe as int % 16),
        r.net == net,
        r.length == rx_pos - 1,
        r.data@ == frame@.subrange(1, rx_pos as int) + zeros(512).update(1, 85u8).update(
            7,
            85u8,
        ).skip(rx_pos - 1),
{
    let channel_count = rx_pos - 1;
    let mut artdmx = ArtDmx::default();
    artdmx.sequence = sequence;
    artdmx.physical = port;
    assert(((subnet << 4u8) | (universe & 0x0Fu8)) == ((subnet as int * 16) % 256 + universe as int
        % 16)) by (bit_vector);
    artdmx.sub_uni = (subnet << 4) | (universe & 0x0F);
    artdmx.net = net;
    artdmx.length = channel_count as u16;
    let ghost defaults = artdmx.data@;
    copy_range(&mut artdmx.data, 0, frame, 1, channel_count);
    assert(artdmx.data@ =~= frame@.subrange(1, rx_pos as int) + defaults.skip(rx_pos - 1));
    artdmx
}

/// Copies the first `rx_pos` bytes of a received frame into the port's shared buffer,
/// so the web UI shows what the port receives.
pub fn store_rx_frame(buffer: &mut [u8; 513], frame: &[u8; 513], rx_pos: usize)
    requires
        rx_pos <= 513,
    ensures
        final(buffer)@ == frame@.take(rx_pos as int) + old(buffer)@.skip(rx_pos as int),
{
    copy_range(buffer, 0, frame, 0, rx_pos);
    assert(frame@.subrange(0, rx_pos as int) =~= frame@.take(rx_pos as int));
}

/// What a DMX port does in each mode.
#[derive(Debug, Clone, Copy, PartialEq, Eq, Structural)]
pub enum DmxPortAction {
    /// Inactive: driver and receiver off, pins floating.
    Release,
    /// Input: receive frames and broadcast them as ArtDmx.
    Receive,
    /// Active or Blackout: transmit a frame.
    Transmit,
}

/// The action for a port mode.
pub fn port_action(mode: PortMode) -> (r: DmxPortAction)
    ensures
        r == match mode {
            PortMode::Inactive => DmxPortAction::Release,
            PortMode::Input => DmxPortAction::Receive,
            PortMode::Active | PortMode::Blackout => DmxPortAction::Transmit,
        },
{
    match mode {
        PortMode::Inactive => DmxPortAction::Release,
        PortMode::Input => DmxPortAction::Receive,
        PortMode::Active | PortMode::Blackout => DmxPortAction::Transmit,
    }
}

/// The frame an output port sends: all zeros (start code included) in Blackout, the
/// port's buffer otherwise.
pub fn frame_to_send(mode: PortMode, buffer: &[u8; 513]) -> (r: [u8; 513])
    ensures
        r@ == (if mode == PortMode::Blackout {
            zeros(513)
        } else {
            buffer@
        }),
{
    if mode == PortMode::Blackout {
        let z = [0u8; 513];
        assert(z@ =~= zeros(513));
        z
    } else {
        *buffer
    }
}

} // verus!

//! Decisions of the Art-Net receiver: which port and source slot a packet belongs to,
//! per-source sequence accounting, merging, statistics windows, the node's ArtPollReply
//! identity and the extra reply pages that advertise the LED outputs.
use vstd::prelude::*;
use crate::artnet::dmx::zeros;
use crate::bytes::{copy_into, decimal_u64, format_u64, lemma_decimal_byte};
use crate::led_task::{ingest_universe, ingested, LedIngest};
use crate::schema::{
    spec_intersect, spec_last_channel, spec_universe_span, ArtnetConfig, DmxPortConfig, LedPortConfig, LedPortMode, MergeMode, PortMode,
};
use crate::artnet::poll_reply::{
    GoodInput, GoodOutputA, GoodOutputB, PollReply, PortTypes, GOOD_INPUT_DATA_RECEIVED,
    GOOD_INPUT_DISABLED, GOOD_OUTPUT_DATA_TRANSMITTING, PORT_TYPE_DMX512, PORT_TYPE_INPUT,
    PORT_TYPE_OUTPUT,
};

verus! {

/// Number of DMX output ports
pub const NUM_DMX_PORTS: usize = 4;
/// Maximum ArtNet sources per port (for HTP/LTP merging)
pub const MAX_SOURCES_PER_PORT: usize = 2;
/// DMX frame size: 1 start code + 512 channels
pub const DMX_FRAME_SIZE: usize = 513;

/// ArtNet source tracking
#[derive(Clone, Copy)]
pub struct ArtnetSource {
    pub active: bool,
    pub ip: [u8; 4],
    pub name: [u8; 17],
    pub packet_count: u32,
    pub frequency: u32,
    pub last_packet_sequence: u8,
    pub last_packet_physical: u8,
    /// Arrival time of the last packet, in timer ticks.
    pub last_packet_time: u64,
    pub last_packet_dmx: [u8; 513],
    /// Sum of the sequence gaps seen in the current stats window.
    pub seq_gap_total: u32,
    /// Smallest non-zero gap seen in the window (the source's sequence stride), 0 if none.
    pub seq_gap_min: u8,
    /// Number of gaps added to `seq_gap_total`.
    pub seq_samples: u32,
}

/// An unused source slot: inactive, every field zero.
pub fn default_artnet_source() -> (r: ArtnetSource)
    ensures
        !r.active,
        r.ip@ == seq![0u8, 0u8, 0u8, 0u8],
        r.name@ == zeros(17),
        r.packet_count == 0,
        r.frequency == 0,
        r.last_packet_sequence == 0,
        r.last_packet_physical == 0,
        r.last_packet_time == 0,
        r.last_packet_dmx@ == zeros(513),
        r.seq_gap_total == 0,
        r.seq_gap_min == 0,
        r.seq_samples == 0,
{
    let r = ArtnetSource {
        active: false,
        ip: [0; 4],
        name: [0; 17],
        packet_count: 0,
        frequency: 0,
        last_packet_sequence: 0,
        last_packet_physical: 0,
        last_packet_time: 0,
        last_packet_dmx: [0; 513],
        seq_gap_total: 0,
        seq_gap_min: 0,
        seq_samples: 0,
    };
    assert(r.ip@ =~= seq![0u8, 0u8, 0u8, 0u8]);
    assert(r.name@ =~= zeros(17));
    assert(r.last_packet_dmx@ =~= zeros(513));
    r
}

/// Returns true if any source for this port is active.
pub fn port_has_any_active(sources: &[ArtnetSource; 2]) -> (r: bool)
    ensures
        r == (sources@[0].active || sources@[1].active),
{
    sources[0].active || sources[1].active
}

/// Whether two addresses are equal.
pub fn ip_eq(a: [u8; 4], b: [u8; 4]) -> (r: bool)
    ensures
        r == (a@ == b@),
{
    let r = a[0] == b[0] && a[1] == b[1] && a[2] == b[2] && a[3] == b[3];
    if r {
        assert(a@ =~= b@);
    }
    r
}

/// Channel `i` (1-based) of the merged output of a port.
pub open spec fn merged_channel(sources: Seq<ArtnetSource>, mode: MergeMode, idx: int, i: int) -> u8 {
    let cur = sources[idx];
    let other = sources[1 - idx];
    if cur.active && other.active {
        match mode {
            MergeMode::Htp => if cur.last_packet_dmx@[i] >= other.last_packet_dmx@[i] {
                cur.last_packet_dmx@[i]
            } else {
                other.last_packet_dmx@[i]
            },
            MergeMode::Ltp => cur.last_packet_dmx@[i],
            MergeMode::Priority => if sources[0].last_packet_physical
                < sources[1].last_packet_physical {
                sources[0].last_packet_dmx@[i]
            } else {
                sources[1].last_packet_dmx@[i]
            },
        }
    } else {
        cur.last_packet_dmx@[i]
    }
}

/// Merge DMX data from multiple sources according to merge mode.
///
/// With both sources active: HTP takes the higher value per channel, LTP the source that
/// just sent, Priority the source on the lower physical input (the second on a tie).
/// Otherwise the sending source's data is taken. The start code is left alone and an
/// out-of-range `source_index` changes nothing.
pub fn merge_dmx_data(
    buffer: &mut [u8; 513],
    sources: &[ArtnetSource; 2],
    config: &DmxPortConfig,
    source_index: usize,
)
    ensures
        source_index >= MAX_SOURCES_PER_PORT ==> final(buffer)@ == old(buffer)@,
        source_index < MAX_SOURCES_PER_PORT ==> {
            &&& final(buffer)@.len() == 513
            &&& final(buffer)@[0] == old(buffer)@[0]
            &&& forall|i: int|
                1 <= i <= 512 ==> #[trigger] final(buffer)@[i] == merged_channel(
                    sources@,
                    config.merge_mode,
                    source_index as int,
                    i,
                )
        },
{
    if source_index >= MAX_SOURCES_PER_PORT {
        return;
    }
    let other_index = 1 - source_index;
    let ghost start = buffer@;
    for i in 1..513usize
        invariant
            source_index < 2,
            other_index == 1 - source_index,
            buffer@.len() == 513,
            buffer@[0] == start[0],
            forall|k: int|
                1 <= k < i ==> #[trigger] buffer@[k] == merged_channel(
                    sources@,
                    config.merge_mode,
                    source_index as int,
                    k,
                ),
    {
        let cur = &sources[source_index];
        let other = &sources[other_index];
        let v = if cur.active && other.active {
            match config.merge_mode {
                MergeMode::Htp => if cur.last_packet_dmx[i] >= other.last_packet_dmx[i] {
                    cur.last_packet_dmx[i]
                } else {
                    other.last_packet_dmx[i]
                },
                MergeMode::Ltp => cur.last_packet_dmx[i],
                MergeMode::Priority => if sources[0].last_packet_physical
                    < sources[1].last_packet_physical {
                    sources[0].last_packet_dmx[i]
                } else {
                    sources[1].last_packet_dmx[i]
                },
            }
        } else {
            cur.last_packet_dmx[i]
        };
        buffer[i] = v;
    }
}

/// Law: with both sources of a port active, HTP puts out on every channel the higher of
/// the two sources' values, whichever of them just sent: the result is one of the two
/// values and at least each of them, so both slots give the same channel.
pub proof fn lemma_htp_takes_highest(sources: Seq<ArtnetSource>, idx: int, i: int)
    requires
        sources.len() == 2,
        0 <= idx < 2,
        1 <= i <= 512,
        sources[0].active,
        sources[1].active,
    ensures
        merged_channel(sources, MergeMode::Htp, idx, i) >= sources[0].last_packet_dmx@[i],
        merged_channel(sources, MergeMode::Htp, idx, i) >= sources[1].last_packet_dmx@[i],
        merged_channel(sources, MergeMode::Htp, idx, i) == sources[0].last_packet_dmx@[i]
            || merged_channel(sources, MergeMode::Htp, idx, i) == sources[1].last_packet_dmx@[i],
        merged_channel(sources, MergeMode::Htp, idx, i) == merged_channel(sources, MergeMode::Htp, 1 - idx, i),
{
}

/// Law: with both sources active, LTP puts out the values of the source that just sent.
pub proof fn lemma_ltp_takes_latest(sources: Seq<ArtnetSource>, idx: int, i: int)
    requires
        sources.len() == 2,
        0 <= idx < 2,
        1 <= i <= 512,
        sources[0].active,
        sources[1].active,
    ensures
        merged_channel(sources, MergeMode::Ltp, idx, i) == sources[idx].last_packet_dmx@[i],
{
}

/// Law: with both sources active, Priority puts out the values of the source on the lower
/// physical input (the second slot's on a tie), whichever of them just sent.
pub proof fn lemma_priority_takes_lower_physical(sources: Seq<ArtnetSource>, idx: int, i: int)
    requires
        sources.len() == 2,
        0 <= idx < 2,
        1 <= i <= 512,
        sources[0].active,
        sources[1].active,
    ensures
        sources[0].last_packet_physical < sources[1].last_packet_physical ==> merged_channel(
            sources,
            MergeMode::Priority,
            idx,
            i,
        ) == sources[0].last_packet_dmx@[i],
        sources[0].last_packet_physical >= sources[1].last_packet_physical ==> merged_channel(
            sources,
            MergeMode::Priority,
            idx,
            i,
        ) == sources[1].last_packet_dmx@[i],
{
}

/// Law: unless both sources are active, every merge mode puts out the values of the
/// source that sent.
pub proof fn lemma_single_source_passes_through(sources: Seq<ArtnetSource>, mode: MergeMode, idx: int, i: int)
    requires
        sources.len() == 2,
        0 <= idx < 2,
        1 <= i <= 512,
        !(sources[0].active && sources[1].active),
    ensures
        merged_channel(sources, mode, idx, i) == sources[idx].last_packet_dmx@[i],
{
}

/// Slot for a packet from `sender_ip`: the first slot that already tracks that address
/// or is free, `None` when both are taken by other senders.
pub fn find_source_slot(port_sources: &[ArtnetSource; 2], sender_ip: [u8; 4]) -> (r: Option<usize>)
    ensures
        r == (if port_sources@[0].ip@ == sender_ip@ || !port_sources@[0].active {
            Some(0usize)
        } else if port_sources@[1].ip@ == sender_ip@ || !port_sources@[1].active {
            Some(1usize)
        } else {
            None
        }),
{
    if ip_eq(port_sources[0].ip, sender_ip) || !port_sources[0].active {
        Some(0)
    } else if ip_eq(port_sources[1].ip, sender_ip) || !port_sources[1].active {
        Some(1)
    } else {
        None
    }
}

/// Whether a 15-bit port address falls in the node's Net and Sub-Net.
pub open spec fn in_node_subnet(net: u8, sub_net: u8, universe: u16) -> bool {
    net as int == universe as int / 256 && sub_net as int == (universe as int / 16) % 16
}

/// Law: the 15-bit Port-Address is Net (bits 14..8), Sub-Net (bits 7..4) and universe
/// (bits 3..0): the node's Net and Sub-Net hold exactly the sixteen addresses from
/// `net * 256 + sub_net * 16` on.
pub proof fn lemma_node_subnet_addresses(net: u8, sub_net: u8, universe: u16)
    requires
        net < 128,
        sub_net < 16,
    ensures
        in_node_subnet(net, sub_net, universe) <==> (net as int * 256 + sub_net as int * 16
            <= universe < net as int * 256 + sub_net as int * 16 + 16),
{
    let u = universe as int;
    let base = net as int * 256 + sub_net as int * 16;
    if base <= u < base + 16 {
        let k = u - base;
        vstd::arithmetic::div_mod::lemma_fundamental_div_mod_converse(u, 256, net as int, sub_net as int * 16 + k);
        vstd::arithmetic::div_mod::lemma_fundamental_div_mod_converse(u, 16, net as int * 16 + sub_net as int, k);
        vstd::arithmetic::div_mod::lemma_fundamental_div_mod_converse(net as int * 16 + sub_net as int, 16, net as int, sub_net as int);
    }
    if in_node_subnet(net, sub_net, universe) {
        vstd::arithmetic::div_mod::lemma_fundamental_div_mod(u, 256);
        vstd::arithmetic::div_mod::lemma_fundamental_div_mod(u, 16);
        vstd::arithmetic::div_mod::lemma_fundamental_div_mod(u / 16, 16);
        vstd::arithmetic::div_mod::lemma_div_denominator(u, 16, 16);
        assert(u / 256 == (u / 16) / 16);
        assert(u == (u / 16) * 16 + u % 16);
        assert(u / 16 == ((u / 16) / 16) * 16 + (u / 16) % 16);
        assert(u == base + u % 16);
    }
}

/// The DMX port a packet for `universe` goes to: `None` unless its Net and Sub-Net match
/// the node's, then the first port whose output universe has the same low nibble.
pub fn match_dmx_port(net: u8, sub_net: u8, sw_out: [u8; 4], universe: u16) -> (r: Option<usize>)
    ensures
        !in_node_subnet(net, sub_net, universe) ==> r is None,
        in_node_subnet(net, sub_net, universe) ==> match r {
            Some(i) => i < 4 && sw_out@[i as int] % 16 == universe % 16 && forall|j: int|
                0 <= j < i ==> #[trigger] sw_out@[j] % 16 != universe % 16,
            None => forall|j: int| 0 <= j < 4 ==> #[trigger] sw_out@[j] % 16 != universe % 16,
        },
{
    assert((universe >> 8u16) as u8 == universe / 256) by (bit_vector);
    assert(((universe >> 4u16) & 0x0Fu16) as u8 == (universe / 16) % 16) by (bit_vector);
    assert(universe & 0x0Fu16 == universe % 16) by (bit_vector);
    if net != (universe >> 8) as u8 || sub_net != ((universe >> 4) & 0x0F) as u8 {
        return None;
    }
    for i in 0..4usize
        invariant
            in_node_subnet(net, sub_net, universe),
            forall|j: int| 0 <= j < i ==> #[trigger] sw_out@[j] % 16 != universe % 16,
    {
        let uni = sw_out[i];
        assert(uni & 0x0Fu8 == uni % 16) by (bit_vector);
        assert(universe & 0x0Fu16 == universe % 16) by (bit_vector);
        if (universe & 0x0F) == (uni & 0x0F) as u16 {
            return Some(i);
        }
    }
    None
}

/// Where a received ArtDmx packet goes.
pub enum DmxRoute {
    /// LED outputs took channels from it, as the ingest says; it goes no further.
    Led(LedIngest),
    /// It goes to DMX port `k`.
    Port(usize),
    /// Nothing takes it.
    Drop,
}

/// Route an ArtDmx packet for the 15-bit port address `universe` carrying `data`.
///
/// The LED outputs come first and match on the whole port address, bypassing the node's
/// Net/Subnet filter: when any of them shares a channel with the packet, they take their
/// channels and the packet goes no further. Otherwise it goes to the DMX port that
/// `match_dmx_port` picks, or nowhere.
pub fn route_art_dmx(
    leds: &[LedPortConfig; 4],
    led_buffers: &mut [[u8; 3072]; 4],
    net: u8,
    sub_net: u8,
    sw_out: [u8; 4],
    universe: u16,
    data: &[u8],
) -> (r: DmxRoute)
    requires
        universe as int * 512 + data@.len() as int % 0x1_0000_0000int <= u32::MAX,
    ensures
        forall|p: int|
            0 <= p < 4 ==> (#[trigger] final(led_buffers)@[p])@ == ingested(
                old(led_buffers)@[p]@,
                leds@[p],
                universe,
                data@,
            ),
        (r is Led) <==> exists|p: int|
            0 <= p < 4 && #[trigger] spec_intersect(leds@[p], universe, data@.len() as int) is Some,
        r matches DmxRoute::Led(ing) ==> {
            &&& ing.matched
            &&& forall|p: int|
                0 <= p < 4 ==> #[trigger] ing.partial@[p] == spec_intersect(
                    leds@[p],
                    universe,
                    data@.len() as int,
                ) is Some
            &&& forall|p: int|
                0 <= p < 4 ==> #[trigger] ing.complete@[p] == (spec_intersect(
                    leds@[p],
                    universe,
                    data@.len() as int,
                ) is Some && spec_last_channel(leds@[p]) / 512 == universe)
        },
        r matches DmxRoute::Port(k) ==> {
            &&& in_node_subnet(net, sub_net, universe)
            &&& k < 4
            &&& sw_out@[k as int] % 16 == universe % 16
            &&& forall|j: int| 0 <= j < k ==> #[trigger] sw_out@[j] % 16 != universe % 16
        },
        r is Drop ==> !in_node_subnet(net, sub_net, universe) || forall|j: int|
            0 <= j < 4 ==> #[trigger] sw_out@[j] % 16 != universe % 16,
{
    let ingest = ingest_universe(leds, led_buffers, universe, data);
    if ingest.matched {
        return DmxRoute::Led(ingest);
    }
    match match_dmx_port(net, sub_net, sw_out, universe) {
        Some(k) => DmxRoute::Port(k),
        None => DmxRoute::Drop,
    }
}

/// Gap between two sequence numbers. Sequences run 1..=255 and wrap to 1, skipping 0,
/// so a wrapped gap spans 255 values rather than 256.
pub open spec fn sequence_gap(last: u8, seq: u8) -> int {
    if seq >= last {
        seq - last
    } else {
        255 - last + seq
    }
}

/// Law: the gap counts how many steps forward the sequence moved on the cycle 1..=255:
/// the number that follows `last` (1 after 255) is one step on, `last` itself none, and
/// going `k` steps forward from `last` gives a gap of `k`.
pub proof fn lemma_sequence_gap_counts_steps(last: u8, k: int)
    requires
        1 <= last <= 255,
        0 <= k < 255,
    ensures
        ({
            let ahead = (last - 1 + k) % 255 + 1;
            &&& 1 <= ahead <= 255
            &&& sequence_gap(last, ahead as u8) == k
        }),
        sequence_gap(last, last) == 0,
        sequence_gap(last, if last == 255 { 1u8 } else { (last + 1) as u8 }) == 1,
{
    let ahead = (last - 1 + k) % 255 + 1;
    if last - 1 + k < 255 {
        assert(ahead == last + k);
    } else {
        assert(ahead == last + k - 255);
    }
}

/// Dotted-decimal text of an IPv4 address.
pub open spec fn ip_text(ip: Seq<u8>) -> Seq<u8> {
    decimal_u64(ip[0] as u64) + seq![46u8] + decimal_u64(ip[1] as u64) + seq![46u8] + decimal_u64(ip[2] as u64) + seq![46u8]
        + decimal_u64(ip[3] as u64)
}

/// Writes `ip` in dotted-decimal form at the start of `buf` and returns its length.
pub fn write_ip_to_buf(ip: [u8; 4], buf: &mut [u8]) -> (r: usize)
    requires
        old(buf)@.len() >= ip_text(ip@).len(),
    ensures
        r == ip_text(ip@).len(),
        final(buf)@ == ip_text(ip@) + old(buf)@.skip(r as int),
{
    let mut idx: usize = 0;
    let ghost start = buf@;
    for i in 0..4usize
        invariant
            buf@.len() == start.len(),
            start.len() >= ip_text(ip@).len(),
            idx == ip_prefix(ip@, i as int).len(),
            buf@ == ip_prefix(ip@, i as int) + start.skip(idx as int),
    {
        proof {
            lemma_ip_prefix_len(ip@, i as int + 1);
        }
        let s = format_u64(ip[i] as u64);
        copy_into(buf, idx, s.as_slice());
        idx += s.len();
        if i < 3 {
            buf[idx] = 46;
            idx += 1;
        }
        assert(buf@ =~= ip_prefix(ip@, i + 1) + start.skip(idx as int));
    }
    proof {
        lemma_ip_prefix_len(ip@, 4);
    }
    idx
}

/// The text of the first `n` bytes of an address, each but the last followed by a dot.
pub open spec fn ip_prefix(ip: Seq<u8>, n: int) -> Seq<u8>
    decreases n,
{
    if n <= 0 {
        seq![]
    } else if n < 4 {
        ip_prefix(ip, n - 1) + decimal_u64(ip[n - 1] as u64) + seq![46u8]
    } else {
        ip_prefix(ip, n - 1) + decimal_u64(ip[n - 1] as u64)
    }
}

proof fn lemma_ip_prefix_len(ip: Seq<u8>, n: int)
    requires
        0 <= n <= 4,
    ensures
        ip_prefix(ip, n).len() <= ip_text(ip).len(),
        ip_prefix(ip, 4) == ip_text(ip),
        ip_text(ip).len() <= 15,
    decreases 4 - n,
{
    reveal_with_fuel(ip_prefix, 5);
    lemma_decimal_byte(ip[0]);
    lemma_decimal_byte(ip[1]);
    lemma_decimal_byte(ip[2]);
    lemma_decimal_byte(ip[3]);
    assert(ip_prefix(ip, 4) =~= ip_text(ip));
    if n < 4 {
        lemma_ip_prefix_len(ip, n + 1);
        assert(ip_prefix(ip, n + 1).len() >= ip_prefix(ip, n).len());
    }
}

/// Whether a packet's sequence number adds a gap to the source's window: sequencing is on
/// (non-zero) in this and the previous packet, the source is not new, and the gap is
/// non-zero.
pub open spec fn counts_gap(old: ArtnetSource, sequence: u8) -> bool {
    sequence != 0 && old.last_packet_sequence != 0 && old.active && sequence_gap(
        old.last_packet_sequence,
        sequence,
    ) > 0
}

/// Record one ArtDmx packet from `sender_ip` in its source slot.
///
/// A slot that was inactive becomes active for this sender, named after its address,
/// with its gap accounting reset. Every packet is counted; its sequence gap is added as
/// `counts_gap` says, the smallest gap kept as the stride; sequence, time and physical
/// input are remembered; the start code is cleared and a payload of 1 to 512 channels is
/// copied after it.
pub fn record_dmx_packet(
    source: &mut ArtnetSource,
    sender_ip: [u8; 4],
    sequence: u8,
    physical: u8,
    now: u64,
    data: &[u8],
)
    requires
        old(source).packet_count < u32::MAX,
        old(source).active ==> old(source).seq_gap_total + 255 <= u32::MAX,
        old(source).active ==> old(source).seq_samples < u32::MAX,
    ensures
        final(source).active,
        final(source).ip@ == (if old(source).active {
            old(source).ip@
        } else {
            sender_ip@
        }),
        final(source).name@ == (if old(source).active {
            old(source).name@
        } else {
            ip_text(sender_ip@) + zeros(17 - ip_text(sender_ip@).len())
        }),
        final(source).packet_count == old(source).packet_count + 1,
        final(source).frequency == old(source).frequency,
        final(source).seq_gap_total == (if !old(source).active {
            0
        } else if counts_gap(*old(source), sequence) {
            old(source).seq_gap_total + sequence_gap(old(source).last_packet_sequence, sequence)
        } else {
            old(source).seq_gap_total as int
        }),
        final(source).seq_samples == (if !old(source).active {
            0
        } else if counts_gap(*old(source), sequence) {
            old(source).seq_samples + 1
        } else {
            old(source).seq_samples as int
        }),
        final(source).seq_gap_min == (if !old(source).active {
            0
        } else if counts_gap(*old(source), sequence) && (old(source).seq_gap_min == 0
            || sequence_gap(old(source).last_packet_sequence, sequence)
            < old(source).seq_gap_min) {
            sequence_gap(old(source).last_packet_sequence, sequence)
        } else {
            old(source).seq_gap_min as int
        }),
        final(source).last_packet_sequence == sequence,
        final(source).last_packet_time == now,
        final(source).last_packet_physical == physical,
        final(source).last_packet_dmx@ == (if 0 < data@.len() <= 512 {
            seq![0u8] + data@ + old(source).last_packet_dmx@.skip(1 + data@.len() as int)
        } else {
            old(source).last_packet_dmx@.update(0, 0u8)
        }),
{
    let is_new_source = !source.active;
    if is_new_source {
        source.active = true;
        source.ip = sender_ip;
        let mut name = [0u8; 17];
        assert(name@ =~= zeros(17));
        proof {
            lemma_ip_prefix_len(sender_ip@, 4);
        }
        let n = write_ip_to_buf(sender_ip, &mut name);
        assert(name@ =~= ip_text(sender_ip@) + zeros(17 - ip_text(sender_ip@).len()));
        source.name = name;
        source.seq_gap_total = 0;
        source.seq_gap_min = 0;
        source.seq_samples = 0;
    }
    source.packet_count += 1;
    if sequence != 0 && source.last_packet_sequence != 0 && !is_new_source {
        let gap = if sequence >= source.last_packet_sequence {
            sequence - source.last_packet_sequence
        } else {
            255 - source.last_packet_sequence + sequence
        };
        if gap > 0 {
            source.seq_gap_total += gap as u32;
            source.seq_samples += 1;
            if source.seq_gap_min == 0 || gap < source.seq_gap_min {
                source.seq_gap_min = gap;
            }
        }
    }
    source.last_packet_sequence = sequence;
    source.last_packet_time = now;
    source.last_packet_physical = physical;
    source.last_packet_dmx[0] = 0;
    let length = data.len();
    if length > 0 && length <= 512 {
        let ghost before = source.last_packet_dmx@;
        let mut dmx = source.last_packet_dmx;
        copy_into(&mut dmx, 1, data);
        source.last_packet_dmx = dmx;
        assert(source.last_packet_dmx@ =~= seq![0u8] + data@ + old(source).last_packet_dmx@.skip(
            1 + data@.len() as int,
        ));
    }
}

/// What a source contributes to the window that closes at `now`: only an active source
/// that sent within `timeout` ticks counts.
pub open spec fn still_live(s: ArtnetSource, now: u64, timeout: u64) -> bool {
    s.active && now - s.last_packet_time < timeout
}

/// Packets a live source sent in the window.
pub open spec fn window_packets(s: ArtnetSource, now: u64, timeout: u64) -> int {
    if still_live(s, now, timeout) {
        s.packet_count as int
    } else {
        0
    }
}

/// Packets a live source lost in the window: the total sequence advance divided by the
/// smallest gap seen (its stride, at least 1), less the gaps actually observed, floored
/// at zero.
pub open spec fn window_dropped(s: ArtnetSource, now: u64, timeout: u64) -> int {
    if still_live(s, now, timeout) {
        let stride = if s.seq_gap_min >= 1 {
            s.seq_gap_min as int
        } else {
            1
        };
        let steps = s.seq_gap_total as int / stride;
        if steps >= s.seq_samples {
            steps - s.seq_samples
        } else {
            0
        }
    } else {
        0
    }
}

/// The source after its window closes: a live source publishes its packet count as its
/// frequency and restarts its counters; an active source silent for `timeout` ticks goes
/// inactive and its channels drop to zero; an inactive one is untouched.
pub open spec fn closed_source(s: ArtnetSource, new: ArtnetSource, now: u64, timeout: u64) -> bool {
    if !s.active {
        new == s
    } else if now - s.last_packet_time >= timeout {
        &&& new == ArtnetSource { active: false, last_packet_dmx: new.last_packet_dmx, ..s }
        &&& new.last_packet_dmx@ == s.last_packet_dmx@.take(1) + zeros(512)
    } else {
        new == ArtnetSource {
            packet_count: 0,
            frequency: s.packet_count,
            seq_gap_total: 0,
            seq_gap_min: 0,
            seq_samples: 0,
            ..s
        }
    }
}

/// Closes the statistics window of one source; returns whether it timed out, and the
/// packets it sent and lost in the window.
pub fn close_source_window(source: &mut ArtnetSource, now: u64, timeout: u64) -> (r: (
    bool,
    u32,
    u32,
))
    requires
        old(source).active ==> now >= old(source).last_packet_time,
    ensures
        closed_source(*old(source), *final(source), now, timeout),
        r.0 == (old(source).active && now - old(source).last_packet_time >= timeout),
        r.1 == window_packets(*old(source), now, timeout),
        r.2 == window_dropped(*old(source), now, timeout),
{
    if !source.active {
        return (false, 0, 0);
    }
    if now - source.last_packet_time >= timeout {
        source.active = false;
        let mut dmx = source.last_packet_dmx;
        for i in 1..513usize
            invariant
                dmx@.len() == 513,
                dmx@ == old(source).last_packet_dmx@.take(1) + zeros(i - 1) + old(
                    source,
                ).last_packet_dmx@.skip(i as int),
        {
            dmx[i] = 0;
            assert(dmx@ =~= old(source).last_packet_dmx@.take(1) + zeros(i as int) + old(
                source,
            ).last_packet_dmx@.skip(i + 1));
        }
        assert(dmx@ =~= old(source).last_packet_dmx@.take(1) + zeros(512));
        source.last_packet_dmx = dmx;
        return (true, 0, 0);
    }
    let packets = source.packet_count;
    source.frequency = source.packet_count;
    source.packet_count = 0;
    let stride: u32 = if source.seq_gap_min >= 1 {
        source.seq_gap_min as u32
    } else {
        1
    };
    let steps_sent = source.seq_gap_total / stride;
    let dropped = steps_sent.saturating_sub(source.seq_samples);
    source.seq_gap_total = 0;
    source.seq_gap_min = 0;
    source.seq_samples = 0;
    (false, packets, dropped)
}

/// Totals of one statistics window.
pub struct WindowTotals {
    /// Per DMX port, whether one of its sources timed out.
    pub timed_out: [bool; 4],
    /// ArtDmx packets received from live sources.
    pub artdmx_count: u32,
    /// Packets the live sources' sequence numbers show as lost.
    pub dropped_packets: u32,
}

/// Packets of the live sources of one port.
pub open spec fn port_packets(p: [ArtnetSource; 2], now: u64, timeout: u64) -> int {
    window_packets(p@[0], now, timeout) + window_packets(p@[1], now, timeout)
}

/// Lost packets of the live sources of one port.
pub open spec fn port_dropped(p: [ArtnetSource; 2], now: u64, timeout: u64) -> int {
    window_dropped(p@[0], now, timeout) + window_dropped(p@[1], now, timeout)
}

/// Packets of the live sources of all ports.
pub open spec fn total_packets(s: [[ArtnetSource; 2]; 4], now: u64, timeout: u64) -> int {
    port_packets(s@[0], now, timeout) + port_packets(s@[1], now, timeout) + port_packets(
        s@[2],
        now,
        timeout,
    ) + port_packets(s@[3], now, timeout)
}

/// Lost packets of the live sources of all ports.
pub open spec fn total_dropped(s: [[ArtnetSource; 2]; 4], now: u64, timeout: u64) -> int {
    port_dropped(s@[0], now, timeout) + port_dropped(s@[1], now, timeout) + port_dropped(
        s@[2],
        now,
        timeout,
    ) + port_dropped(s@[3], now, timeout)
}

proof fn lemma_window_dropped_bound(s: ArtnetSource, now: u64, timeout: u64)
    ensures
        0 <= window_dropped(s, now, timeout) <= u32::MAX,
        0 <= window_packets(s, now, timeout) <= u32::MAX,
{
    if still_live(s, now, timeout) {
        let stride = if s.seq_gap_min >= 1 {
            s.seq_gap_min as int
        } else {
            1
        };
        assert(s.seq_gap_total as int / stride <= s.seq_gap_total) by (nonlinear_arith)
            requires
                stride >= 1,
                s.seq_gap_total >= 0,
        ;
    }
}

/// Close out a statistics window over every source of every port: see `closed_source`
/// for what happens to each source. Returns which ports had a source time out and the
/// window's packet and loss totals.
pub fn update_stats(sources: &mut [[ArtnetSource; 2]; 4], now: u64, timeout: u64) -> (r:
    WindowTotals)
    requires
        forall|p: int, k: int|
            0 <= p < 4 && 0 <= k < 2 && (#[trigger] old(sources)@[p]@[k]).active ==> now
                >= old(sources)@[p]@[k].last_packet_time,
        total_packets(*old(sources), now, timeout) <= u32::MAX,
        total_dropped(*old(sources), now, timeout) <= u32::MAX,
    ensures
        forall|p: int, k: int|
            0 <= p < 4 && 0 <= k < 2 ==> closed_source(
                #[trigger] old(sources)@[p]@[k],
                final(sources)@[p]@[k],
                now,
                timeout,
            ),
        forall|p: int|
            0 <= p < 4 ==> #[trigger] r.timed_out@[p] == ((old(sources)@[p]@[0].active && now
                - old(sources)@[p]@[0].last_packet_time >= timeout) || (old(sources)@[p]@[1].active
                && now - old(sources)@[p]@[1].last_packet_time >= timeout)),
        r.artdmx_count == total_packets(*old(sources), now, timeout),
        r.dropped_packets == total_dropped(*old(sources), now, timeout),
{
    let mut timed_out = [false; 4];
    let mut total_packet_count: u32 = 0;
    let mut total_dropped_count: u32 = 0;
    let ghost start = *sources;
    for p in 0..4usize
        invariant
            forall|q: int, k: int|
                0 <= q < 4 && 0 <= k < 2 && (#[trigger] start@[q]@[k]).active ==> now
                    >= start@[q]@[k].last_packet_time,
            total_packets(start, now, timeout) <= u32::MAX,
            total_dropped(start, now, timeout) <= u32::MAX,
            forall|q: int, k: int|
                0 <= q < p && 0 <= k < 2 ==> closed_source(
                    #[trigger] start@[q]@[k],
                    sources@[q]@[k],
                    now,
                    timeout,
                ),
            forall|q: int| p <= q < 4 ==> #[trigger] sources@[q] == start@[q],
            forall|q: int|
                0 <= q < p ==> #[trigger] timed_out@[q] == ((start@[q]@[0].active && now
                    - start@[q]@[0].last_packet_time >= timeout) || (start@[q]@[1].active && now
                    - start@[q]@[1].last_packet_time >= timeout)),
            total_packet_count == partial_packets(start, now, timeout, p as int),
            total_dropped_count == partial_dropped(start, now, timeout, p as int),
    {
        proof {
            lemma_window_dropped_bound(start@[p as int]@[0], now, timeout);
            lemma_window_dropped_bound(start@[p as int]@[1], now, timeout);
            lemma_partial_bounds(start, now, timeout, p as int + 1);
        }
        let port = &mut sources[p];
        let (t0, n0, d0) = close_source_window(&mut port[0], now, timeout);
        let (t1, n1, d1) = close_source_window(&mut port[1], now, timeout);
        timed_out[p] = t0 || t1;
        total_packet_count = total_packet_count + n0 + n1;
        total_dropped_count = total_dropped_count + d0 + d1;
    }
    proof {
        lemma_partial_bounds(start, now, timeout, 4);
    }
    WindowTotals {
        timed_out,
        artdmx_count: total_packet_count,
        dropped_packets: total_dropped_count,
    }
}

/// Output of a port after a statistics window closed. A port that lost a source in the
/// window gets start code 0 and its remaining sources merged afresh with slot 0 as the
/// sender, then its failsafe scene when none is left active and one is stored. Any other
/// port keeps its output, except that its failsafe scene replaces the channels when no
/// source is active and one is stored.
pub open spec fn window_output(
    new: Seq<u8>,
    old: Seq<u8>,
    srcs: [ArtnetSource; 2],
    mode: MergeMode,
    timed_out: bool,
    stored: bool,
    scene: Seq<u8>,
) -> bool {
    let idle = !(srcs@[0].active || srcs@[1].active);
    if timed_out {
        &&& new.len() == 513
        &&& new[0] == 0
        &&& idle && stored ==> new.skip(1) == scene
        &&& !(idle && stored) ==> forall|i: int|
            1 <= i <= 512 ==> #[trigger] new[i] == merged_channel(srcs@, mode, 0, i)
    } else {
        new == (if idle && stored {
            old.take(1) + scene
        } else {
            old
        })
    }
}

/// Close a statistics window: every source is closed as `update_stats` does, then every
/// port's output is brought up to date as `window_output` says. Returns the window's totals.
pub fn close_stats_window(
    sources: &mut [[ArtnetSource; 2]; 4],
    buffers: &mut [[u8; 513]; 4],
    configs: &[DmxPortConfig; 4],
    stored: &[bool; 4],
    scenes: &[[u8; 512]; 4],
    now: u64,
    timeout: u64,
) -> (r: WindowTotals)
    requires
        forall|p: int, k: int|
            0 <= p < 4 && 0 <= k < 2 && (#[trigger] old(sources)@[p]@[k]).active ==> now
                >= old(sources)@[p]@[k].last_packet_time,
        total_packets(*old(sources), now, timeout) <= u32::MAX,
        total_dropped(*old(sources), now, timeout) <= u32::MAX,
    ensures
        forall|p: int, k: int|
            0 <= p < 4 && 0 <= k < 2 ==> closed_source(
                #[trigger] old(sources)@[p]@[k],
                final(sources)@[p]@[k],
                now,
                timeout,
            ),
        forall|p: int|
            0 <= p < 4 ==> #[trigger] r.timed_out@[p] == ((old(sources)@[p]@[0].active && now
                - old(sources)@[p]@[0].last_packet_time >= timeout) || (old(sources)@[p]@[1].active
                && now - old(sources)@[p]@[1].last_packet_time >= timeout)),
        r.artdmx_count == total_packets(*old(sources), now, timeout),
        r.dropped_packets == total_dropped(*old(sources), now, timeout),
        forall|p: int|
            0 <= p < 4 ==> window_output(
                (#[trigger] final(buffers)@[p])@,
                old(buffers)@[p]@,
                final(sources)@[p],
                configs@[p].merge_mode,
                r.timed_out@[p],
                stored@[p],
                scenes@[p]@,
            ),
{
    let totals = update_stats(sources, now, timeout);
    let ghost start = *buffers;
    for p in 0..4usize
        invariant
            forall|q: int|
                0 <= q < p ==> window_output(
                    (#[trigger] buffers@[q])@,
                    start@[q]@,
                    sources@[q],
                    configs@[q].merge_mode,
                    totals.timed_out@[q],
                    stored@[q],
                    scenes@[q]@,
                ),
            forall|q: int| p <= q < 4 ==> #[trigger] buffers@[q] == start@[q],
    {
        let mut out = buffers[p];
        if totals.timed_out[p] {
            refresh_port_output(&mut out, &sources[p], &configs[p], 0, stored[p], &scenes[p]);
        } else {
            apply_failsafe(&mut out, &sources[p], stored[p], &scenes[p]);
        }
        buffers[p] = out;
    }
    totals
}

/// Packets of the live sources of the first `n` ports.
pub open spec fn partial_packets(s: [[ArtnetSource; 2]; 4], now: u64, timeout: u64, n: int) -> int
    decreases n,
{
    if n <= 0 {
        0
    } else {
        partial_packets(s, now, timeout, n - 1) + port_packets(s@[n - 1], now, timeout)
    }
}

/// Lost packets of the live sources of the first `n` ports.
pub open spec fn partial_dropped(s: [[ArtnetSource; 2]; 4], now: u64, timeout: u64, n: int) -> int
    decreases n,
{
    if n <= 0 {
        0
    } else {
        partial_dropped(s, now, timeout, n - 1) + port_dropped(s@[n - 1], now, timeout)
    }
}

proof fn lemma_partial_bounds(s: [[ArtnetSource; 2]; 4], now: u64, timeout: u64, n: int)
    requires
        0 <= n <= 4,
    ensures
        0 <= partial_packets(s, now, timeout, n) <= total_packets(s, now, timeout),
        0 <= partial_dropped(s, now, timeout, n) <= total_dropped(s, now, timeout),
        partial_packets(s, now, timeout, 4) == total_packets(s, now, timeout),
        partial_dropped(s, now, timeout, 4) == total_dropped(s, now, timeout),
{
    reveal_with_fuel(partial_packets, 5);
    reveal_with_fuel(partial_dropped, 5);
    lemma_window_dropped_bound(s@[0]@[0], now, timeout);
    lemma_window_dropped_bound(s@[0]@[1], now, timeout);
    lemma_window_dropped_bound(s@[1]@[0], now, timeout);
    lemma_window_dropped_bound(s@[1]@[1], now, timeout);
    lemma_window_dropped_bound(s@[2]@[0], now, timeout);
    lemma_window_dropped_bound(s@[2]@[1], now, timeout);
    lemma_window_dropped_bound(s@[3]@[0], now, timeout);
    lemma_window_dropped_bound(s@[3]@[1], now, timeout);
}

/// When no source of the port is active and a failsafe scene is stored, the scene
/// replaces the port's 512 channels; otherwise the buffer is left as it is.
pub fn apply_failsafe(
    buffer: &mut [u8; 513],
    sources: &[ArtnetSource; 2],
    stored: bool,
    scene: &[u8; 512],
)
    ensures
        final(buffer)@ == (if !(sources@[0].active || sources@[1].active) && stored {
            old(buffer)@.take(1) + scene@
        } else {
            old(buffer)@
        }),
{
    if !port_has_any_active(sources) && stored {
        copy_into(buffer, 1, scene);
        assert(buffer@ =~= old(buffer)@.take(1) + scene@);
    }
}

/// Output of one port after a packet arrived from the source in `source_index` (or, at
/// the end of a stats window where a source timed out, with index 0): start code 0, the
/// merged channels, then the failsafe scene if no source is active.
pub fn refresh_port_output(
    buffer: &mut [u8; 513],
    sources: &[ArtnetSource; 2],
    config: &DmxPortConfig,
    source_index: usize,
    failsafe_stored: bool,
    scene: &[u8; 512],
)
    requires
        source_index < MAX_SOURCES_PER_PORT,
    ensures
        final(buffer)@.len() == 513,
        final(buffer)@[0] == 0,
        !(sources@[0].active || sources@[1].active) && failsafe_stored ==> final(buffer)@.skip(
            1,
        ) == scene@,
        (sources@[0].active || sources@[1].active) || !failsafe_stored ==> forall|i: int|
            1 <= i <= 512 ==> #[trigger] final(buffer)@[i] == merged_channel(
                sources@,
                config.merge_mode,
                source_index as int,
                i,
            ),
{
    buffer[0] = 0;
    merge_dmx_data(buffer, sources, config, source_index);
    apply_failsafe(buffer, sources, failsafe_stored, scene);
    assert(!(sources@[0].active || sources@[1].active) && failsafe_stored ==> buffer@.skip(1)
        =~= scene@);
}

/// Header fields of a received ArtDmx packet.
#[derive(Clone, Copy)]
pub struct DmxHeader {
    pub sequence: u8,
    pub physical: u8,
    /// 15-bit port address, SubUni low byte and Net high byte.
    pub universe: u16,
    /// Number of channels that follow the 18-byte header.
    pub length: usize,
}

/// OpCode of a received datagram of `n` bytes whose first bytes sit in `buf`: `None`
/// unless it is at least 12 bytes long and `buf` starts with "Art-Net\0"; the OpCode is
/// sent low byte first.
pub fn packet_opcode(buf: &[u8], n: usize) -> (r: Option<u16>)
    ensures
        r is Some <==> n >= 12 && buf@.len() >= 10 && buf@.len() >= 8 && buf@.take(8)
            == crate::artnet::artnet_id(),
        r matches Some(op) ==> op == buf@[8] as int + buf@[9] as int * 256,
{
    if n < 12 || buf.len() < 10 || !crate::artnet::has_artnet_id(buf) {
        return None;
    }
    Some(buf[8] as u16 + (buf[9] as u16) * 256)
}

/// Header of a received ArtDmx datagram of `n` bytes: `None` below 18 bytes or when the
/// length field exceeds 512; the port address is read low byte first and the length high
/// byte first.
pub fn parse_dmx_header(buf: &[u8], n: usize) -> (r: Option<DmxHeader>)
    requires
        n <= buf@.len(),
    ensures
        r is Some <==> n >= 18 && crate::bytes::be16(buf@[16], buf@[17]) <= 512,
        r matches Some(h) ==> {
            &&& h.sequence == buf@[12]
            &&& h.physical == buf@[13]
            &&& h.universe == buf@[14] as int + buf@[15] as int * 256
            &&& h.length == crate::bytes::be16(buf@[16], buf@[17])
        },
{
    if n < 18 {
        return None;
    }
    let length = crate::bytes::read_be16(buf[16], buf[17]) as usize;
    if length > 512 {
        return None;
    }
    Some(
        DmxHeader {
            sequence: buf[12],
            physical: buf[13],
            universe: buf[14] as u16 + (buf[15] as u16) * 256,
            length,
        },
    )
}

/// Index of the first zero byte of `s`, or `s.len()` when there is none.
pub open spec fn first_zero(s: Seq<u8>) -> int
    decreases s.len(),
{
    if s.len() == 0 {
        0
    } else if s[0] == 0 {
        0
    } else {
        1 + first_zero(s.drop_first())
    }
}

proof fn lemma_first_zero(s: Seq<u8>, i: int)
    requires
        0 <= i <= s.len(),
        forall|k: int| 0 <= k < i ==> s[k] != 0,
    ensures
        i < s.len() && s[i] == 0 ==> first_zero(s) == i,
        i == s.len() ==> first_zero(s) == s.len(),
    decreases i,
{
    if i > 0 {
        assert forall|k: int| 0 <= k < i - 1 implies s.drop_first()[k] != 0 by {
            assert(s.drop_first()[k] == s[k + 1]);
        }
        lemma_first_zero(s.drop_first(), i - 1);
    }
}

/// Name a controller gives in its ArtPollReply: the long name (bytes 44..108) up to its
/// first zero byte, at most 17 bytes, zero padded. `None` for a datagram shorter than
/// 108 bytes or an empty name.
pub fn poll_reply_source_name(buf: &[u8], n: usize) -> (r: Option<[u8; 17]>)
    requires
        n <= buf@.len(),
    ensures
        r is Some <==> n >= 108 && first_zero(buf@.subrange(44, 108)) > 0,
        r matches Some(name) ==> {
            let len = min_int(first_zero(buf@.subrange(44, 108)), 17);
            name@ == buf@.subrange(44, 44 + len) + zeros(17 - len)
        },
{
    if n < 108 {
        return None;
    }
    let ghost long_name = buf@.subrange(44, 108);
    let mut pos: usize = 0;
    while pos < 64 && buf[44 + pos] != 0
        invariant
            n <= buf@.len(),
            108 <= buf@.len(),
            pos <= 64,
            long_name == buf@.subrange(44, 108),
            forall|k: int| 0 <= k < pos ==> long_name[k] != 0,
        decreases 64 - pos,
    {
        pos += 1;
    }
    proof {
        lemma_first_zero(long_name, pos as int);
    }
    let copy_len = if pos < 17 {
        pos
    } else {
        17
    };
    if copy_len == 0 {
        return None;
    }
    let mut name = [0u8; 17];
    assert(name@ =~= zeros(17));
    crate::bytes::copy_range(&mut name, 0, buf, 44, copy_len);
    assert(name@ =~= buf@.subrange(44, 44 + copy_len) + zeros(17 - copy_len));
    Some(name)
}

pub open spec fn min_int(a: int, b: int) -> int {
    if a <= b {
        a
    } else {
        b
    }
}

/// Gives every active source with address `sender_ip`, on any port, the name `name`.
pub fn rename_sources(sources: &mut [[ArtnetSource; 2]; 4], sender_ip: [u8; 4], name: [u8; 17])
    ensures
        forall|p: int, k: int|
            0 <= p < 4 && 0 <= k < 2 ==> #[trigger] final(sources)@[p]@[k] == (if old(
                sources,
            )@[p]@[k].active && old(sources)@[p]@[k].ip@ == sender_ip@ {
                ArtnetSource { name, ..old(sources)@[p]@[k] }
            } else {
                old(sources)@[p]@[k]
            }),
{
    let ghost start = *sources;
    for p in 0..4usize
        invariant
            forall|q: int, k: int|
                0 <= q < 4 && 0 <= k < 2 ==> #[trigger] sources@[q]@[k] == (if q < p && start@[q]@[k].active
                    && start@[q]@[k].ip@ == sender_ip@ {
                    ArtnetSource { name, ..start@[q]@[k] }
                } else {
                    start@[q]@[k]
                }),
    {
        for k in 0..2usize
            invariant
                p < 4,
                forall|q: int, j: int|
                    0 <= q < 4 && 0 <= j < 2 ==> #[trigger] sources@[q]@[j] == (if (q < p || (q == p
                        && j < k)) && start@[q]@[j].active && start@[q]@[j].ip@ == sender_ip@ {
                        ArtnetSource { name, ..start@[q]@[j] }
                    } else {
                        start@[q]@[j]
                    }),
        {
            if sources[p][k].active && ip_eq(sources[p][k].ip, sender_ip) {
                sources[p][k].name = name;
            }
        }
    }
}

/// PortTypes byte the node reports for a DMX port in `mode`.
pub open spec fn port_type_for(mode: PortMode) -> u8 {
    if mode == PortMode::Input {
        0x40
    } else {
        0x80
    }
}

/// GoodInput byte the node reports for a DMX port in `mode`.
pub open spec fn good_input_for(mode: PortMode) -> u8 {
    if mode == PortMode::Input {
        0x80
    } else {
        0x08
    }
}

/// GoodOutputA byte the node reports for a DMX port in `mode`: transmitting when Active
/// or Blackout.
pub open spec fn good_output_for(mode: PortMode) -> u8 {
    if mode == PortMode::Active || mode == PortMode::Blackout {
        0x80
    } else {
        0
    }
}

/// Law: what the reply's per-port bytes tell a controller about a DMX port: PortTypes
/// marks it as an output (bit 7) unless it is an Input, and as an input (bit 6) exactly
/// then; GoodInput bit 7 (data received) is set for an Input, bit 3 (input disabled)
/// otherwise; GoodOutputA bit 7 (data being transmitted) is set exactly when the port
/// sends, in Active or Blackout.
pub proof fn lemma_port_report_bits(m: PortMode)
    ensures
        (port_type_for(m) & 0x80u8 != 0) <==> m != PortMode::Input,
        (port_type_for(m) & 0x40u8 != 0) <==> m == PortMode::Input,
        (good_input_for(m) & 0x80u8 != 0) <==> m == PortMode::Input,
        (good_input_for(m) & 0x08u8 != 0) <==> m != PortMode::Input,
        (good_output_for(m) & 0x80u8 != 0) <==> (m == PortMode::Active || m == PortMode::Blackout),
{
    assert(0x40u8 & 0x80u8 == 0 && 0x40u8 & 0x40u8 != 0) by (bit_vector);
    assert(0x80u8 & 0x80u8 != 0 && 0x80u8 & 0x40u8 == 0 && 0x80u8 & 0x08u8 == 0) by (bit_vector);
    assert(0x08u8 & 0x80u8 == 0 && 0x08u8 & 0x08u8 != 0 && 0u8 & 0x80u8 == 0) by (bit_vector);
}

/// The fields of an ArtPollReply that describe the node itself rather than its
/// addressing, name and ports, equal in `a` and `b`.
pub open spec fn same_identity(a: PollReply, b: PollReply) -> bool {
    &&& a.ip_address == b.ip_address
    &&& a.port == b.port
    &&& a.firmware_version == b.firmware_version
    &&& a.oem_code == b.oem_code
    &&& a.ubea_version == b.ubea_version
    &&& a.status1 == b.status1
    &&& a.esta_manufacturer == b.esta_manufacturer
    &&& a.port_name == b.port_name
    &&& a.node_report == b.node_report
    &&& a.num_ports == b.num_ports
    &&& a.acn_priority == b.acn_priority
    &&& a.sw_macro == b.sw_macro
    &&& a.sw_remote == b.sw_remote
    &&& a.style == b.style
    &&& a.mac == b.mac
    &&& a.bind_ip == b.bind_ip
    &&& a.bind_index == b.bind_index
    &&& a.status2 == b.status2
    &&& a.good_output_b == b.good_output_b
    &&& a.status3 == b.status3
    &&& a.uid == b.uid
    &&& a.user_data == b.user_data
    &&& a.refresh_rate == b.refresh_rate
}

/// Copy the runtime Art-Net configuration and the DMX port settings into the node's
/// ArtPollReply: Net and Sub-Net, the device name as long name (cut at 64 bytes, zero
/// padded), and per port its type, input and output status and universe, which goes to
/// SwIn for an Input port and to SwOut otherwise. Everything else is kept.
pub fn sync_artnet_config(
    node_config: &mut PollReply,
    config: &ArtnetConfig,
    dmx_config: &[DmxPortConfig; 4],
)
    ensures
        same_identity(*old(node_config), *final(node_config)),
        final(node_config).net == config.net,
        final(node_config).sub_net == config.subnet,
        final(node_config).long_name@ == config.device_name@.take(
            min_int(64, config.device_name@.len() as int),
        ) + zeros(64 - min_int(64, config.device_name@.len() as int)),
        forall|i: int|
            0 <= i < 4 ==> {
                let m = (#[trigger] dmx_config@[i]).mode;
                &&& final(node_config).port_types@[i]@ == port_type_for(m)
                &&& final(node_config).good_input@[i]@ == good_input_for(m)
                &&& final(node_config).good_output@[i]@ == good_output_for(m)
                &&& final(node_config).sw_in@[i] == (if m == PortMode::Input {
                    dmx_config@[i].universe
                } else {
                    0
                })
                &&& final(node_config).sw_out@[i] == (if m == PortMode::Input {
                    0
                } else {
                    dmx_config@[i].universe
                })
            },
{
    node_config.net = config.net;
    node_config.sub_net = config.subnet;
    let name_len = config.device_name.as_bytes().len();
    let copy_len = if name_len < 64 {
        name_len
    } else {
        64
    };
    let mut long_name = [0u8; 64];
    assert(long_name@ =~= zeros(64));
    crate::bytes::copy_range(&mut long_name, 0, config.device_name.as_bytes(), 0, copy_len);
    assert(long_name@ =~= config.device_name@.take(copy_len as int) + zeros(64 - copy_len));
    node_config.long_name = long_name;
    let ghost mid = *node_config;
    for i in 0..4usize
        invariant
            same_identity(mid, *node_config),
            node_config.net == config.net,
            node_config.sub_net == config.subnet,
            node_config.long_name == mid.long_name,
            forall|j: int|
                0 <= j < i ==> {
                    let m = (#[trigger] dmx_config@[j]).mode;
                    &&& node_config.port_types@[j]@ == port_type_for(m)
                    &&& node_config.good_input@[j]@ == good_input_for(m)
                    &&& node_config.good_output@[j]@ == good_output_for(m)
                    &&& node_config.sw_in@[j] == (if m == PortMode::Input {
                        dmx_config@[j].universe
                    } else {
                        0
                    })
                    &&& node_config.sw_out@[j] == (if m == PortMode::Input {
                        0
                    } else {
                        dmx_config@[j].universe
                    })
                },
    {
        let port_config = &dmx_config[i];
        if port_config.mode == PortMode::Input {
            node_config.port_types[i] = PortTypes::from_bits_truncate(PORT_TYPE_INPUT | PORT_TYPE_DMX512);
            node_config.good_input[i] = GoodInput::from_bits_truncate(GOOD_INPUT_DATA_RECEIVED);
            node_config.good_output[i] = GoodOutputA::empty();
            node_config.sw_in[i] = port_config.universe;
            node_config.sw_out[i] = 0;
        } else {
            node_config.port_types[i] = PortTypes::from_bits_truncate(PORT_TYPE_OUTPUT | PORT_TYPE_DMX512);
            node_config.good_input[i] = GoodInput::from_bits_truncate(GOOD_INPUT_DISABLED);
            node_config.good_output[i] = if port_config.mode == PortMode::Active
                || port_config.mode == PortMode::Blackout {
                GoodOutputA::from_bits_truncate(GOOD_OUTPUT_DATA_TRANSMITTING)
            } else {
                GoodOutputA::empty()
            };
            node_config.sw_in[i] = 0;
            node_config.sw_out[i] = port_config.universe;
        }
        assert((0x40u8 | 0u8) & 0xC7u8 == 0x40u8) by (bit_vector);
        assert((0x80u8 | 0u8) & 0xC7u8 == 0x80u8) by (bit_vector);
        assert(0x80u8 & 0xFDu8 == 0x80u8) by (bit_vector);
        assert(0x08u8 & 0xFDu8 == 0x08u8) by (bit_vector);
        assert(0x80u8 & 0xFFu8 == 0x80u8) by (bit_vector);
    }
}

/// Number of universes in the reply page that starts at port address `addr` with `left`
/// universes of the output still to advertise: at most four, and never past the end of
/// the Net/Subnet (block of 16 addresses) that `addr` is in.
pub open spec fn page_len(addr: int, left: int) -> int {
    min_int(min_int(4, left), 16 - addr % 16)
}

/// The pages `(first address, universe count)` that advertise universes `first..span`
/// of an output whose first universe is `start`.
pub open spec fn span_pages(start: int, first: int, span: int) -> Seq<(int, int)>
    decreases span - first,
{
    if first >= span {
        seq![]
    } else {
        let c = page_len(start + first, span - first);
        if c <= 0 {
            seq![]
        } else {
            seq![(start + first, c)] + span_pages(start, first + c, span)
        }
    }
}

/// One advertised page: which LED output, its first port address, and its universe count.
pub struct LedPage {
    pub output: int,
    pub addr: int,
    pub count: int,
}

/// The pages of outputs `0..n`, in order.
pub open spec fn led_pages(cfgs: Seq<LedPortConfig>, n: int) -> Seq<LedPage>
    decreases n,
{
    if n <= 0 {
        seq![]
    } else {
        led_pages(cfgs, n - 1) + tag_pages(
            span_pages(cfgs[n - 1].start_universe as int, 0, spec_universe_span(cfgs[n - 1])),
            n - 1,
        )
    }
}

/// Pages of one output, tagged with its index.
pub open spec fn tag_pages(pages: Seq<(int, int)>, output: int) -> Seq<LedPage> {
    pages.map_values(|p: (int, int)| LedPage { output, addr: p.0, count: p.1 })
}

/// `r` is the reply page built from `base` for universes `addr..addr + count` of an
/// output, with BindIndex `bind`: Net and Sub-Net of `addr`, `count` ports, each an
/// output transmitting when the output is not Inactive, SwOut the low nibble of its
/// universe; unused slots and all inputs cleared; everything else as in `base`.
pub open spec fn is_led_page(
    r: PollReply,
    base: PollReply,
    addr: int,
    count: int,
    transmitting: bool,
    bind: int,
) -> bool {
    &&& same_identity(r, PollReply { bind_index: r.bind_index, good_output_b: r.good_output_b, num_ports: r.num_ports, ..base })
    &&& r.long_name == base.long_name
    &&& r.bind_index == bind
    &&& r.net == addr / 256
    &&& r.sub_net == (addr / 16) % 16
    &&& r.num_ports == count
    &&& forall|slot: int|
        0 <= slot < 4 ==> {
            &&& (#[trigger] r.port_types@[slot])@ == (if slot < count {
                0x80u8
            } else {
                0u8
            })
            &&& r.good_input@[slot]@ == 0x08
            &&& r.good_output@[slot]@ == (if slot < count && transmitting {
                0x80u8
            } else {
                0u8
            })
            &&& r.good_output_b@[slot]@ == 0
            &&& r.sw_in@[slot] == 0
            &&& r.sw_out@[slot] == (if slot < count {
                ((addr + slot) % 16) as u8
            } else {
                0u8
            })
        }
}

proof fn lemma_page_len_pos(addr: int, left: int)
    requires
        left > 0,
        addr >= 0,
    ensures
        1 <= page_len(addr, left) <= 4,
        page_len(addr, left) <= left,
{
}

proof fn lemma_span_pages_step(start: int, first: int, span: int)
    requires
        0 <= first < span,
        start >= 0,
    ensures
        span_pages(start, first, span) == seq![(start + first, page_len(start + first, span - first))]
            + span_pages(start, first + page_len(start + first, span - first), span),
{
    lemma_page_len_pos(start + first, span - first);
}

/// Build the ArtPollReply pages that advertise the LED outputs.
///
/// Each output's universes are grouped into pages of up to four, split wherever a group
/// would cross a Net/Subnet boundary. Pages follow the outputs in order; BindIndex starts
/// at 2, after the DMX page, and counts up, saturating at 255.
pub fn led_poll_replies(base_reply: &PollReply, led_config: &[LedPortConfig; 4]) -> (r: Vec<PollReply>)
    requires
        forall|i: int|
            0 <= i < 4 ==> (#[trigger] led_config@[i]).start_universe + spec_universe_span(
                led_config@[i],
            ) <= 65536,
    ensures
        r@.len() == led_pages(led_config@, 4).len(),
        forall|k: int|
            0 <= k < r@.len() ==> {
                let pg = led_pages(led_config@, 4)[k];
                is_led_page(
                    #[trigger] r@[k],
                    *base_reply,
                    pg.addr,
                    pg.count,
                    led_config@[pg.output].mode != LedPortMode::Inactive,
                    min_int(2 + k, 255),
                )
            },
{
    let mut out: Vec<PollReply> = Vec::new();
    let mut bind_index: u8 = 2;
    for i in 0..4usize
        invariant
            forall|j: int|
                0 <= j < 4 ==> (#[trigger] led_config@[j]).start_universe + spec_universe_span(
                    led_config@[j],
                ) <= 65536,
            out@.len() == led_pages(led_config@, i as int).len(),
            bind_index == min_int(2 + out@.len() as int, 255),
            forall|k: int|
                0 <= k < out@.len() ==> {
                    let pg = led_pages(led_config@, i as int)[k];
                    is_led_page(
                        #[trigger] out@[k],
                        *base_reply,
                        pg.addr,
                        pg.count,
                        led_config@[pg.output].mode != LedPortMode::Inactive,
                        min_int(2 + k, 255),
                    )
                },
    {
        let cfg = &led_config[i];
        let span = cfg.universe_span();
        let ghost start = cfg.start_universe as int;
        let ghost before = out@.len();
        let ghost prev = led_pages(led_config@, i as int);
        let ghost all = span_pages(start, 0, span as int);
        assert(led_pages(led_config@, i as int + 1) == prev + tag_pages(all, i as int));
        let mut first: usize = 0;
        let ghost mut done: Seq<(int, int)> = seq![];
        while first < span
            invariant
                i < 4,
                cfg == led_config@[i as int],
                span == spec_universe_span(*cfg),
                start == cfg.start_universe,
                cfg.start_universe + span <= 65536,
                first <= span,
                all == span_pages(start, 0, span as int),
                all == done + span_pages(start, first as int, span as int),
                prev == led_pages(led_config@, i as int),
                out@.len() == prev.len() + done.len(),
                bind_index == min_int(2 + out@.len() as int, 255),
                forall|k: int|
                    0 <= k < out@.len() ==> {
                        let pg = (prev + tag_pages(done, i as int))[k];
                        is_led_page(
                            #[trigger] out@[k],
                            *base_reply,
                            pg.addr,
                            pg.count,
                            led_config@[pg.output].mode != LedPortMode::Inactive,
                            min_int(2 + k, 255),
                        )
                    },
            decreases span - first,
        {
            let base_addr = cfg.start_universe + first as u16;
            let mut count: usize = 0;
            while count < 4 && first + count < span
                invariant_except_break
                    count <= page_len(base_addr as int, span - first),
                invariant
                    first < span,
                    cfg.start_universe + span <= 65536,
                    base_addr == cfg.start_universe + first,
                ensures
                    count == page_len(base_addr as int, span - first),
                decreases 4 - count,
            {
                let addr = cfg.start_universe + (first + count) as u16;
                assert(addr >> 4u16 == addr / 16 && base_addr >> 4u16 == base_addr / 16)
                    by (bit_vector);
                if (addr >> 4) != (base_addr >> 4) {
                    break;
                }
                count += 1;
            }
            assert(count == page_len(base_addr as int, span - first));
            proof {
                lemma_span_pages_step(start, first as int, span as int);
            }
            let mut page = *base_reply;
            page.bind_index = bind_index;
            assert((base_addr >> 8u16) as u8 == base_addr / 256) by (bit_vector);
            assert(((base_addr >> 4u16) & 0x0Fu16) as u8 == (base_addr / 16) % 16) by (bit_vector);
            page.net = (base_addr >> 8) as u8;
            page.sub_net = ((base_addr >> 4) & 0x0F) as u8;
            page.num_ports = count as u16;
            page.port_types = [PortTypes::empty(), PortTypes::empty(), PortTypes::empty(), PortTypes::empty()];
            let gi = GoodInput::from_bits_truncate(GOOD_INPUT_DISABLED);
            assert(0x08u8 & 0xFDu8 == 0x08u8) by (bit_vector);
            page.good_input = [gi, gi, gi, gi];
            page.good_output = [GoodOutputA::empty(), GoodOutputA::empty(), GoodOutputA::empty(), GoodOutputA::empty()];
            page.good_output_b = [GoodOutputB::empty(), GoodOutputB::empty(), GoodOutputB::empty(), GoodOutputB::empty()];
            page.sw_in = [0; 4];
            page.sw_out = [0; 4];
            let transmitting = cfg.mode != LedPortMode::Inactive;
            for slot in 0..count
                invariant
                    count <= 4,
                    base_addr == cfg.start_universe + first,
                    first + count <= span,
                    cfg.start_universe + span <= 65536,
                    transmitting == (cfg.mode != LedPortMode::Inactive),
                    same_identity(page, PollReply { bind_index: page.bind_index, good_output_b: page.good_output_b, num_ports: page.num_ports, ..*base_reply }),
                    page.long_name == base_reply.long_name,
                    page.bind_index == bind_index,
                    page.net == base_addr / 256,
                    page.sub_net == (base_addr / 16) % 16,
                    page.num_ports == count,
                    forall|q: int| 0 <= q < 4 ==> (#[trigger] page.port_types@[q])@ == (if q < slot {
                        0x80u8
                    } else {
                        0u8
                    }),
                    forall|q: int| 0 <= q < 4 ==> (#[trigger] page.good_input@[q])@ == 0x08,
                    forall|q: int| 0 <= q < 4 ==> (#[trigger] page.good_output@[q])@ == (if q < slot && transmitting {
                        0x80u8
                    } else {
                        0u8
                    }),
                    forall|q: int| 0 <= q < 4 ==> (#[trigger] page.good_output_b@[q])@ == 0,
                    forall|q: int| 0 <= q < 4 ==> #[trigger] page.sw_in@[q] == 0,
                    forall|q: int| 0 <= q < 4 ==> #[trigger] page.sw_out@[q] == (if q < slot {
                        ((base_addr + q) % 16) as u8
                    } else {
                        0u8
                    }),
            {
                let addr = cfg.start_universe + (first + slot) as u16;
                assert((0x80u8 | 0u8) & 0xC7u8 == 0x80u8) by (bit_vector);
                assert(0x80u8 & 0xFFu8 == 0x80u8) by (bit_vector);
                assert((addr & 0x0Fu16) as u8 == addr % 16) by (bit_vector);
                page.port_types[slot] = PortTypes::from_bits_truncate(PORT_TYPE_OUTPUT | PORT_TYPE_DMX512);
                page.good_output[slot] = if transmitting {
                    GoodOutputA::from_bits_truncate(GOOD_OUTPUT_DATA_TRANSMITTING)
                } else {
                    GoodOutputA::empty()
                };
                page.sw_out[slot] = (addr & 0x0F) as u8;
            }
            let ghost k_new = out@.len();
            out.push(page);
            proof {
                let c = count as int;
                assert(span_pages(start, first as int, span as int) == seq![(start + first, c)]
                    + span_pages(start, first + c, span as int));
                done = done.push((start + first, c));
                assert(all =~= done + span_pages(start, first + c, span as int));
                assert(tag_pages(done, i as int) =~= tag_pages(done.drop_last(), i as int).push(
                    LedPage { output: i as int, addr: start + first, count: c },
                ));
                assert forall|k: int| 0 <= k < out@.len() implies {
                    let pg = (prev + tag_pages(done, i as int))[k];
                    is_led_page(
                        #[trigger] out@[k],
                        *base_reply,
                        pg.addr,
                        pg.count,
                        led_config@[pg.output].mode != LedPortMode::Inactive,
                        min_int(2 + k, 255),
                    )
                } by {
                    if k < k_new {
                        assert((prev + tag_pages(done, i as int))[k] == (prev + tag_pages(
                            done.drop_last(),
                            i as int,
                        ))[k]);
                    } else {
                        assert(out@[k] == page);
                        assert((prev + tag_pages(done, i as int))[k] == LedPage {
                            output: i as int,
                            addr: start + first,
                            count: count as int,
                        });
                    }
                }
            }
            bind_index = bind_index.saturating_add(1);
            first += count;
        }
        proof {
            assert(span_pages(start, first as int, span as int) =~= seq![]);
            assert(done =~= all);
        }
    }
    out
}

/// The pages of one output cover each universe of its span exactly once, in order: page
/// counts are between 1 and 4, add up to the span, and the universes of a page share one
/// Net/Subnet.
pub proof fn lemma_span_pages_partition(start: int, first: int, span: int)
    requires
        start >= 0,
        0 <= first <= span,
    ensures
        sum_counts(span_pages(start, first, span)) == span - first,
        forall|k: int|
            0 <= k < span_pages(start, first, span).len() ==> {
                let p = #[trigger] span_pages(start, first, span)[k];
                &&& 1 <= p.1 <= 4
                &&& p.0 / 16 == (p.0 + p.1 - 1) / 16
                &&& start + first <= p.0
                &&& p.0 + p.1 <= start + span
            },
        forall|k: int|
            0 <= k < span_pages(start, first, span).len() - 1 ==> #[trigger] span_pages(
                start,
                first,
                span,
            )[k].0 + span_pages(start, first, span)[k].1 == span_pages(start, first, span)[k
                + 1].0,
        span_pages(start, first, span).len() > 0 ==> span_pages(start, first, span)[0].0 == start
            + first,
    decreases span - first,
{
    if first < span {
        lemma_span_pages_step(start, first, span);
        let c = page_len(start + first, span - first);
        lemma_span_pages_partition(start, first + c, span);
        let rest = span_pages(start, first + c, span);
        let all = span_pages(start, first, span);
        assert(all == seq![(start + first, c)] + rest);
        assert(sum_counts(all) == c + sum_counts(rest)) by {
            assert(all.drop_first() =~= rest);
        }
        assert forall|k: int| 0 <= k < all.len() - 1 implies #[trigger] all[k].0 + all[k].1 == all[k
            + 1].0 by {
            if k > 0 {
                assert(all[k] == rest[k - 1]);
                assert(all[k + 1] == rest[k]);
            }
        }
        assert forall|k: int| 0 <= k < all.len() implies {
            let p = #[trigger] all[k];
            &&& 1 <= p.1 <= 4
            &&& p.0 / 16 == (p.0 + p.1 - 1) / 16
            &&& start + first <= p.0
            &&& p.0 + p.1 <= start + span
        } by {
            if k > 0 {
                assert(all[k] == rest[k - 1]);
            }
        }
    }
}

/// Sum of the universe counts of a list of pages.
pub open spec fn sum_counts(pages: Seq<(int, int)>) -> int
    decreases pages.len(),
{
    if pages.len() == 0 {
        0
    } else {
        pages[0].1 + sum_counts(pages.drop_first())
    }
}

/// A source whose every gap in the window equals its stride shows no loss, whether it
/// numbers per universe (stride 1) or runs one counter over several universes.
pub proof fn lemma_clean_link_no_drops(s: ArtnetSource, now: u64, timeout: u64)
    requires
        s.seq_gap_min >= 1,
        s.seq_gap_total == s.seq_samples * s.seq_gap_min,
    ensures
        window_dropped(s, now, timeout) == 0,
{
    if still_live(s, now, timeout) {
        assert(s.seq_gap_total as int / s.seq_gap_min as int == s.seq_samples) by (nonlinear_arith)
            requires
                s.seq_gap_total == s.seq_samples * s.seq_gap_min,
                s.seq_gap_min >= 1,
        ;
    }
}

} // verus!

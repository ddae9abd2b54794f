//! LED outputs: routing received universes into the per-output channel streams, and
//! turning a stream into the pixel words shifted out to the strip.
use vstd::prelude::*;
use vstd::slice::slice_subrange;
use crate::bytes::copy_range;
use crate::schema::{
    lemma_first_channel_bound, spec_first_channel, spec_first_universe, spec_universe_span,
    lemma_intersect_in_bounds, spec_bytes_per_pixel, spec_intersect, spec_last_channel,
    spec_stream_len, spec_to_word, ColorOrder, LedPortConfig, LedPortMode, MAX_LED_STREAM_BYTES,
    MAX_PIXELS_PER_LED_PORT, MAX_UNIVERSES_PER_LED_PORT, NUM_LED_PORTS,
};

verus! {

/// Default configuration of LED output `index`, as stored before any settings load.
pub fn default_led_port(index: usize) -> (r: LedPortConfig)
    requires
        4 + index * MAX_UNIVERSES_PER_LED_PORT <= 65535,
    ensures
        r.mode == LedPortMode::Inactive,
        r.start_universe == 4 + index * MAX_UNIVERSES_PER_LED_PORT,
        r.start_address == 1,
        r.pixel_count == 0,
        r.color_order == ColorOrder::Grbw,
        r.brightness_cap == 255,
        !r.reverse,
{
    LedPortConfig {
        mode: LedPortMode::Inactive,
        start_universe: (4 + index * MAX_UNIVERSES_PER_LED_PORT) as u16,
        start_address: 1,
        pixel_count: 0,
        color_order: ColorOrder::Grbw,
        brightness_cap: 255,
        reverse: false,
    }
}

/// The stream of an output after universe `addr` carrying `data` arrived: the channels the
/// universe shares with the strip are copied to their place in the stream.
pub open spec fn ingested(stream: Seq<u8>, cfg: LedPortConfig, addr: u16, data: Seq<u8>) -> Seq<u8> {
    match spec_intersect(cfg, addr, data.len() as int) {
        Some((so, po, l)) => stream.take(so) + data.subrange(po, po + l) + stream.skip(so + l),
        None => stream,
    }
}

/// What one received universe did to the LED outputs.
pub struct LedIngest {
    /// Some output claimed the universe.
    pub matched: bool,
    /// Per output: part of its frame arrived.
    pub partial: [bool; 4],
    /// Per output: the universe carrying its final byte arrived, so the frame is complete.
    pub complete: [bool; 4],
}

/// Route one ArtDmx universe into the LED channel streams.
///
/// `addr` is the packet's full 15-bit Art-Net port address and `data` its
/// channel payload. Each output takes the channels it shares with the universe; an output
/// that took any is flagged partial, and complete when this universe carries its final
/// byte. `matched` tells whether any output claimed the universe.
pub fn ingest_universe(
    config: &[LedPortConfig; 4],
    buffers: &mut [[u8; 3072]; 4],
    addr: u16,
    data: &[u8],
) -> (r: LedIngest)
    requires
        addr as int * 512 + data@.len() as int % 0x1_0000_0000int <= u32::MAX,
    ensures
        forall|p: int|
            0 <= p < 4 ==> (#[trigger] final(buffers)@[p])@ == ingested(
                old(buffers)@[p]@,
                config@[p],
                addr,
                data@,
            ),
        forall|p: int|
            0 <= p < 4 ==> #[trigger] r.partial@[p] == spec_intersect(
                config@[p],
                addr,
                data@.len() as int,
            ) is Some,
        forall|p: int|
            0 <= p < 4 ==> #[trigger] r.complete@[p] == (spec_intersect(
                config@[p],
                addr,
                data@.len() as int,
            ) is Some && spec_last_channel(config@[p]) / 512 == addr),
        r.matched == exists|p: int|
            0 <= p < 4 && #[trigger] spec_intersect(config@[p], addr, data@.len() as int) is Some,
{
    let mut matched = false;
    let mut partial = [false; 4];
    let mut complete = [false; 4];
    let ghost start = *buffers;
    for port in 0..NUM_LED_PORTS
        invariant
            addr as int * 512 + data@.len() as int % 0x1_0000_0000int <= u32::MAX,
            forall|p: int|
                0 <= p < port ==> (#[trigger] buffers@[p])@ == ingested(
                    start@[p]@,
                    config@[p],
                    addr,
                    data@,
                ),
            forall|p: int| port <= p < 4 ==> #[trigger] buffers@[p] == start@[p],
            forall|p: int|
                0 <= p < port ==> #[trigger] partial@[p] == spec_intersect(
                    config@[p],
                    addr,
                    data@.len() as int,
                ) is Some,
            forall|p: int|
                0 <= p < port ==> #[trigger] complete@[p] == (spec_intersect(
                    config@[p],
                    addr,
                    data@.len() as int,
                ) is Some && spec_last_channel(config@[p]) / 512 == addr),
            matched == exists|p: int|
                0 <= p < port && #[trigger] spec_intersect(config@[p], addr, data@.len() as int)
                    is Some,
    {
        let cfg = &config[port];
        if let Some((stream_offset, packet_offset, length)) = cfg.intersect(addr, data.len()) {
            proof {
                lemma_intersect_in_bounds(*cfg, addr, data@.len() as int);
                crate::schema::lemma_universe_span_bound(*cfg);
            }
            let end = if stream_offset + length < MAX_LED_STREAM_BYTES {
                stream_offset + length
            } else {
                MAX_LED_STREAM_BYTES
            };
            let avail = end.saturating_sub(stream_offset);
            let rest = data.len() - packet_offset;
            let copy_len = if avail < rest {
                avail
            } else {
                rest
            };
            assert(copy_len == length);
            let dst = &mut buffers[port];
            copy_range(dst, stream_offset, data, packet_offset, copy_len);
            matched = true;
            partial[port] = true;
            complete[port] = cfg.is_last_universe(addr);
        } else {
            partial[port] = false;
            complete[port] = false;
        }
    }
    LedIngest { matched, partial, complete }
}

/// A strip whose stream lies within one universe takes, from a full 512-channel packet
/// for that universe, exactly the channels from its start address on; the rest of its
/// buffer is untouched.
pub proof fn lemma_single_universe_ingest(stream: Seq<u8>, c: LedPortConfig, data: Seq<u8>)
    requires
        spec_universe_span(c) == 1,
        data.len() == 512,
        stream.len() == MAX_LED_STREAM_BYTES,
    ensures
        0 <= spec_first_universe(c) <= 65535,
        ingested(stream, c, spec_first_universe(c) as u16, data).take(spec_stream_len(c))
            == data.subrange(
            spec_first_channel(c) % 512,
            spec_first_channel(c) % 512 + spec_stream_len(c),
        ),
        ingested(stream, c, spec_first_universe(c) as u16, data).skip(spec_stream_len(c))
            == stream.skip(spec_stream_len(c)),
{
    lemma_first_channel_bound(c);
    let fc = spec_first_channel(c);
    let len = spec_stream_len(c);
    let u = spec_first_universe(c);
    assert(u * 512 <= fc < u * 512 + 512);
    assert(fc % 512 == fc - u * 512);
    assert(fc + len <= u * 512 + 512);
    assert(u as u16 as int == u);
    assert(spec_intersect(c, u as u16, 512) == Some((0int, fc % 512, len)));
    let r = ingested(stream, c, u as u16, data);
    assert(r.take(len) =~= data.subrange(fc % 512, fc % 512 + len));
    assert(r.skip(len) =~= stream.skip(len));
}

/// Law: a received universe writes each byte of an output's stream from the packet byte on
/// that byte's own channel. Stream byte `j` carries channel `first + j` (while `j` is within
/// the stream's length); when the packet for universe `addr`, whose byte `k` is channel
/// `addr * 512 + k`, holds that channel, the byte becomes the packet's; every other byte of
/// the buffer keeps its value.
pub proof fn lemma_ingest_by_channel(stream: Seq<u8>, c: LedPortConfig, addr: u16, data: Seq<u8>)
    requires
        stream.len() == MAX_LED_STREAM_BYTES,
        data.len() <= u32::MAX,
    ensures
        ({
            let out = ingested(stream, c, addr, data);
            let first = spec_first_channel(c);
            let len = spec_stream_len(c);
            let start = addr as int * 512;
            &&& out.len() == stream.len()
            &&& forall|j: int|
                0 <= j < stream.len() ==> #[trigger] out[j] == (if j < len && start <= first + j
                    < start + data.len() {
                    data[first + j - start]
                } else {
                    stream[j]
                })
        }),
{
    lemma_first_channel_bound(c);
    crate::schema::lemma_intersect_is_shared_channels(c, addr, data.len() as int);
    let out = ingested(stream, c, addr, data);
    let first = spec_first_channel(c);
    let len = spec_stream_len(c);
    let start = addr as int * 512;
    match spec_intersect(c, addr, data.len() as int) {
        Some((so, po, l)) => {
            assert(out.len() == stream.len());
            assert forall|j: int| 0 <= j < stream.len() implies #[trigger] out[j] == (if j < len
                && start <= first + j < start + data.len() {
                data[first + j - start]
            } else {
                stream[j]
            }) by {
                assert(crate::schema::channel_in(first + j, first, first + len) == (j < len));
                assert(crate::schema::channel_in(first + j, first + so, first + so + l) == (so <= j
                    < so + l));
            }
        },
        None => {
            assert forall|j: int| 0 <= j < stream.len() implies #[trigger] out[j] == (if j < len
                && start <= first + j < start + data.len() {
                data[first + j - start]
            } else {
                stream[j]
            }) by {
                assert(crate::schema::channel_in(first + j, first, first + len) == (j < len));
            }
        },
    }
}

/// Law: the output positions of a strip of `pixels` pixels show its stream pixels one for
/// one: each position shows a pixel of the strip, two positions never show the same one;
/// without `reverse` position `i` shows pixel `i`, with it the order is turned around, so
/// the first position shows the last pixel.
pub proof fn lemma_source_pixel_permutes(pixels: int, reverse: bool)
    requires
        pixels > 0,
    ensures
        forall|i: int| 0 <= i < pixels ==> 0 <= #[trigger] source_pixel(i, pixels, reverse) < pixels,
        forall|i: int, j: int|
            0 <= i < pixels && 0 <= j < pixels && i != j ==> #[trigger] source_pixel(i, pixels, reverse)
                != #[trigger] source_pixel(j, pixels, reverse),
        !reverse ==> forall|i: int| 0 <= i < pixels ==> #[trigger] source_pixel(i, pixels, reverse) == i,
        reverse ==> source_pixel(0, pixels, reverse) == pixels - 1,
        reverse ==> forall|i: int, j: int|
            0 <= i < j < pixels ==> #[trigger] source_pixel(i, pixels, reverse) > #[trigger] source_pixel(
                j,
                pixels,
                reverse,
            ),
{
}

/// Index of the stream pixel shown at output position `i` of a strip of `pixels` pixels.
pub open spec fn source_pixel(i: int, pixels: int, reverse: bool) -> int {
    if reverse {
        pixels - 1 - i
    } else {
        i
    }
}

/// The frame shifted out for a strip: `None` when the output is Inactive or has no
/// pixels; zeros in Blackout; otherwise, for each output position, the word of the stream
/// pixel it shows (reversed per whole pixel when `reverse`).
pub fn render_frame(
    stream: &[u8; 3072],
    mode: LedPortMode,
    pixels: usize,
    color_order: ColorOrder,
    brightness: u8,
    reverse: bool,
) -> (r: Option<Vec<u32>>)
    requires
        pixels <= MAX_PIXELS_PER_LED_PORT,
    ensures
        r is None <==> (mode == LedPortMode::Inactive || pixels == 0),
        r matches Some(frame) ==> {
            &&& frame@.len() == pixels
            &&& forall|i: int|
                0 <= i < pixels ==> #[trigger] frame@[i] as int == (if mode == LedPortMode::Blackout {
                    0
                } else {
                    let bpp = spec_bytes_per_pixel(color_order);
                    let src = source_pixel(i, pixels as int, reverse);
                    spec_to_word(color_order, stream@.subrange(src * bpp, src * bpp + bpp), brightness)
                })
        },
{
    if mode == LedPortMode::Inactive || pixels == 0 {
        return None;
    }
    let mut frame: Vec<u32> = Vec::new();
    let bytes_per_pixel = color_order.bytes_per_pixel();
    for out_index in 0..pixels
        invariant
            pixels <= MAX_PIXELS_PER_LED_PORT,
            bytes_per_pixel == spec_bytes_per_pixel(color_order),
            frame@.len() == out_index,
            forall|i: int|
                0 <= i < out_index ==> #[trigger] frame@[i] as int == (if mode == LedPortMode::Blackout {
                    0
                } else {
                    let bpp = spec_bytes_per_pixel(color_order);
                    let src = source_pixel(i, pixels as int, reverse);
                    spec_to_word(color_order, stream@.subrange(src * bpp, src * bpp + bpp), brightness)
                }),
    {
        if mode == LedPortMode::Blackout {
            frame.push(0);
        } else {
            let src_pixel = if reverse {
                pixels - 1 - out_index
            } else {
                out_index
            };
            assert(src_pixel * bytes_per_pixel + bytes_per_pixel <= 3072) by (nonlinear_arith)
                requires
                    src_pixel < pixels,
                    pixels <= 768,
                    bytes_per_pixel <= 4,
            ;
            let start = src_pixel * bytes_per_pixel;
            let pixel = slice_subrange(stream.as_slice(), start, start + bytes_per_pixel);
            frame.push(color_order.to_word(pixel, brightness));
        }
    }
    Some(frame)
}

} // verus!

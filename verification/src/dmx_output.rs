//! Bit-level image of a DMX512 frame for a UART driven by DMA: each data byte occupies
//! eleven bit times (start bit, eight data bits, two stop bits).
use vstd::prelude::*;

verus! {

/// Size of the UART bit image in bytes.
pub const DMX_OUTPUT_BUF_SIZE: usize = 708;

#[allow(non_camel_case_types)]
pub struct Dmx_Output {
    /// Physical UART buffer
    buf: [u8; 708],
}

/// Byte `b` with bit `bit` set to `value`.
pub open spec fn with_bit(b: u8, bit: u8, value: bool) -> u8 {
    if value {
        b | (1u8 << bit)
    } else {
        b & !(1u8 << bit)
    }
}

/// Number of bits in the image.
pub const DMX_OUTPUT_BITS: usize = 5664;

/// Bit `q` of an image: bit 0 is the least significant bit of byte 0.
pub open spec fn image_bit(buf: Seq<u8>, q: int) -> u8 {
    (buf[q / 8] >> ((q % 8) as u8)) & 1u8
}

/// Bit `k` of `value`.
pub open spec fn value_bit(value: u8, k: int) -> u8 {
    (value >> (k as u8)) & 1u8
}

/// `old` with bits `start..start + 8` holding the bits of `value`, least significant first,
/// and every other bit of the image unchanged.
pub open spec fn byte_written(new: Seq<u8>, old: Seq<u8>, start: int, value: u8) -> bool {
    &&& new.len() == old.len()
    &&& forall|k: int| 0 <= k < 8 ==> #[trigger] image_bit(new, start + k) == value_bit(value, k)
    &&& forall|q: int|
        0 <= q < DMX_OUTPUT_BITS && (q < start || q >= start + 8) ==> #[trigger] image_bit(new, q)
            == image_bit(old, q)
}

proof fn lemma_low_part(b0: u8, v: u8, s: u8, j: u8)
    by (bit_vector)
    requires
        1 <= s <= 7,
        j < 8,
    ensures
        (((b0 & !(0xFFu8 << s)) | (v << s)) >> j) & 1u8 == if j < s {
            (b0 >> j) & 1u8
        } else {
            (v >> ((j - s) as u8)) & 1u8
        },
{
}

proof fn lemma_high_part(b1: u8, v: u8, s: u8, j: u8)
    by (bit_vector)
    requires
        1 <= s <= 7,
        j < 8,
    ensures
        (((b1 & (0xFFu8 << s)) | (v >> ((8 - s) as u8))) >> j) & 1u8 == if j < s {
            (v >> ((j + 8 - s) as u8)) & 1u8
        } else {
            (b1 >> j) & 1u8
        },
{
}

impl View for Dmx_Output {
    type V = Seq<u8>;

    closed spec fn view(&self) -> Seq<u8> {
        self.buf@
    }
}

impl Dmx_Output {
    /// Sets bit `bit` (bit 0 is the least significant bit of byte 0) of the image.
    pub fn set_bit(buf: &mut [u8; 708], bit: usize, value: bool)
        requires
            bit < 708 * 8,
        ensures
            final(buf)@ == old(buf)@.update(
                bit as int / 8,
                with_bit(old(buf)@[bit as int / 8], (bit % 8) as u8, value),
            ),
    {
        let byte = bit / 8;
        let bit = bit % 8;
        let b = bit as u8;
        if value {
            buf[byte] = buf[byte] | (1u8 << b);
        } else {
            buf[byte] = buf[byte] & !(1u8 << b);
        }
    }

    /// An idle image: every bit zero except bits 22 and 23, the mark before the frame.
    pub fn new() -> (r: Self)
        ensures
            r@ == Seq::new(708, |i: int| 0u8).update(2, 0xC0u8),
    {
        let mut buf = [0u8; 708];
        Self::set_bit(&mut buf, 22, true);
        Self::set_bit(&mut buf, 23, true);
        assert((0u8 | (1u8 << 6u8)) | (1u8 << 7u8) == 0xC0u8) by (bit_vector);
        assert(buf@ =~= Seq::new(708, |i: int| 0u8).update(2, 0xC0u8));
        Dmx_Output { buf }
    }

    /// Write eight consecutive bits to the buffer: bits `start_bit..start_bit + 8` take
    /// the bits of `value`, least significant first; every other bit is kept.
    pub fn write_byte(&mut self, start_bit: usize, value: u8)
        requires
            start_bit + 8 <= DMX_OUTPUT_BITS,
        ensures
            byte_written(final(self)@, old(self)@, start_bit as int, value),
    {
        let start_byte = start_bit / 8;
        let s = (start_bit % 8) as u8;
        let ghost old_buf = self.buf@;
        let ghost st = start_bit as int;
        if s == 0 {
            self.buf[start_byte] = value;
            assert forall|k: int| 0 <= k < 8 implies #[trigger] image_bit(self.buf@, st + k)
                == value_bit(value, k) by {
                assert((st + k) / 8 == start_byte as int);
                assert((st + k) % 8 == k);
            }
            assert forall|q: int|
                0 <= q < DMX_OUTPUT_BITS && (q < st || q >= st + 8) implies #[trigger] image_bit(
                self.buf@,
                q,
            ) == image_bit(old_buf, q) by {
                assert(q / 8 != start_byte as int);
            }
        } else {
            let b0 = self.buf[start_byte];
            let b1 = self.buf[start_byte + 1];
            self.buf[start_byte] = (b0 & !(0xFFu8 << s)) | (value << s);
            self.buf[start_byte + 1] = (b1 & (0xFFu8 << s)) | (value >> (8 - s));
            assert forall|k: int| 0 <= k < 8 implies #[trigger] image_bit(self.buf@, st + k)
                == value_bit(value, k) by {
                let q = st + k;
                if k < 8 - s {
                    assert(q / 8 == start_byte as int);
                    assert(q % 8 == s + k);
                    lemma_low_part(b0, value, s, (s + k) as u8);
                } else {
                    assert(q / 8 == start_byte as int + 1);
                    assert(q % 8 == s + k - 8);
                    lemma_high_part(b1, value, s, (s + k - 8) as u8);
                }
            }
            assert forall|q: int|
                0 <= q < DMX_OUTPUT_BITS && (q < st || q >= st + 8) implies #[trigger] image_bit(
                self.buf@,
                q,
            ) == image_bit(old_buf, q) by {
                if q / 8 == start_byte as int {
                    assert(q % 8 < s);
                    lemma_low_part(b0, value, s, (q % 8) as u8);
                } else if q / 8 == start_byte as int + 1 {
                    assert(q % 8 >= s);
                    lemma_high_part(b1, value, s, (q % 8) as u8);
                }
            }
        }
    }

    /// The image, as handed to the UART's DMA.
    pub fn as_bytes(&self) -> (r: &[u8; 708])
        ensures
            r@ == self@,
    {
        &self.buf
    }

    /// Set the nth data byte, whose data bits start at bit `36 + index * 11`.
    pub fn set_data_byte(&mut self, index: usize, value: u8)
        requires
            36 + index * 11 + 8 <= DMX_OUTPUT_BITS,
        ensures
            byte_written(final(self)@, old(self)@, 36 + index * 11, value),
    {
        self.write_byte(36 + index * 11, value);
    }
}

} // verus!

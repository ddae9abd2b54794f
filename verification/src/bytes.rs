//! Byte-order helpers and bulk copies shared by the packet codecs.
use vstd::prelude::*;

verus! {

/// Value of a 16-bit number stored high byte first.
pub open spec fn be16(hi: u8, lo: u8) -> u16 {
    (hi as int * 256 + lo as int) as u16
}

/// The two bytes of `v`, most significant first.
pub open spec fn be16_bytes(v: u16) -> Seq<u8> {
    seq![(v / 256) as u8, (v % 256) as u8]
}

/// The two bytes of `v`, least significant first.
pub open spec fn le16_bytes(v: u16) -> Seq<u8> {
    seq![(v % 256) as u8, (v / 256) as u8]
}

/// Reads a big-endian 16-bit number.
pub fn read_be16(hi: u8, lo: u8) -> (r: u16)
    ensures
        r == be16(hi, lo),
        r as int == hi as int * 256 + lo as int,
{
    (hi as u16) * 256 + (lo as u16)
}

/// High byte of `v`.
pub fn high_byte(v: u16) -> (r: u8)
    ensures
        r == v / 256,
{
    assert((v >> 8u16) as u8 == v / 256) by (bit_vector);
    (v >> 8) as u8
}

/// Low byte of `v`.
pub fn low_byte(v: u16) -> (r: u8)
    ensures
        r == v % 256,
{
    assert(v as u8 == v % 256) by (bit_vector);
    v as u8
}

/// Splitting into bytes and reading them back gives the number again.
pub proof fn lemma_be16_roundtrip(v: u16)
    ensures
        be16((v / 256) as u8, (v % 256) as u8) == v,
{
}

/// Appends the bytes of `s` to `v`.
pub fn push_slice(v: &mut Vec<u8>, s: &[u8])
    ensures
        final(v)@ == old(v)@ + s@,
{
    let n = s.len();
    let ghost start = v@;
    for i in 0..n
        invariant
            n == s@.len(),
            v@ == start + s@.take(i as int),
    {
        v.push(s[i]);
        assert(s@.take((i + 1) as int) =~= s@.take(i as int).push(s@[i as int]));
    }
    assert(s@.take(n as int) =~= s@);
}

/// Appends `v` high byte first.
pub fn push_be16(out: &mut Vec<u8>, v: u16)
    ensures
        final(out)@ == old(out)@ + be16_bytes(v),
{
    out.push(high_byte(v));
    out.push(low_byte(v));
    assert(final(out)@ =~= old(out)@ + be16_bytes(v));
}

/// Appends `v` low byte first.
pub fn push_le16(out: &mut Vec<u8>, v: u16)
    ensures
        final(out)@ == old(out)@ + le16_bytes(v),
{
    out.push(low_byte(v));
    out.push(high_byte(v));
    assert(final(out)@ =~= old(out)@ + le16_bytes(v));
}

/// Appends `n` zero bytes.
pub fn push_zeros(out: &mut Vec<u8>, n: usize)
    ensures
        final(out)@ == old(out)@ + Seq::new(n as nat, |i: int| 0u8),
{
    let ghost start = out@;
    for i in 0..n
        invariant
            out@ == start + Seq::new(i as nat, |k: int| 0u8),
    {
        out.push(0);
        assert(start + Seq::new((i + 1) as nat, |k: int| 0u8) =~= (start + Seq::new(
            i as nat,
            |k: int| 0u8,
        )).push(0u8));
    }
}

/// Overwrites `dst[off..off + src.len()]` with `src`; the rest of `dst` keeps its bytes.
pub fn copy_into(dst: &mut [u8], off: usize, src: &[u8])
    requires
        off + src@.len() <= old(dst)@.len(),
    ensures
        final(dst)@ == old(dst)@.take(off as int) + src@ + old(dst)@.skip(off + src@.len()),
{
    let n = src.len();
    let ghost start = dst@;
    for i in 0..n
        invariant
            n == src@.len(),
            off + n <= start.len(),
            dst@.len() == start.len(),
            off + n <= dst.len(),
            dst@ == start.take(off as int) + src@.take(i as int) + start.skip(off + i),
    {
        dst[off + i] = src[i];
        assert(dst@ =~= start.take(off as int) + src@.take((i + 1) as int) + start.skip(
            off + i + 1,
        ));
    }
    assert(src@.take(n as int) =~= src@);
}

/// Overwrites `dst[off..off + len]` with `src[from..from + len]`.
pub fn copy_range(dst: &mut [u8], off: usize, src: &[u8], from: usize, len: usize)
    requires
        off + len <= old(dst)@.len(),
        from + len <= src@.len(),
    ensures
        final(dst)@ == old(dst)@.take(off as int) + src@.subrange(from as int, from + len)
            + old(dst)@.skip(off + len),
{
    let ghost start = dst@;
    for i in 0..len
        invariant
            off + len <= start.len(),
            from + len <= src@.len(),
            dst@.len() == start.len(),
            off + len <= dst.len(),
            from + len <= src.len(),
            dst@ == start.take(off as int) + src@.subrange(from as int, from + i) + start.skip(
                off + i,
            ),
    {
        dst[off + i] = src[from + i];
        assert(dst@ =~= start.take(off as int) + src@.subrange(from as int, from + i + 1)
            + start.skip(off + i + 1));
    }
}

/// Decimal digits of a number, without leading zeros.
pub open spec fn decimal_u64(v: u64) -> Seq<u8>
    decreases v,
{
    if v < 10 {
        seq![(48 + v) as u8]
    } else {
        decimal_u64(v / 10) + seq![(48 + v % 10) as u8]
    }
}

/// Decimal text of `v`, computed by `itoa::Buffer::format`.
#[verifier::external_body]
pub(crate) fn format_u64(v: u64) -> (r: Vec<u8>)
    ensures
        r@ == decimal_u64(v),
{
    let mut num_buf = itoa::Buffer::new();
    num_buf.format(v).as_bytes().to_vec()
}

/// A byte has one to three decimal digits.
pub proof fn lemma_decimal_byte(b: u8)
    ensures
        1 <= decimal_u64(b as u64).len() <= 3,
{
    reveal_with_fuel(decimal_u64, 3);
}

} // verus!

//! Settings image in a raw flash sector: a 16-byte header (magic, version, CRC-32 and
//! length of the data) followed by the serialized settings.
pub mod file_system;
pub mod flash_storage_adapter;

use vstd::prelude::*;
use crate::bytes::push_slice;

verus! {

/// Magic number to identify valid settings in flash ("ARTN" in ASCII)
pub const SETTINGS_MAGIC: u32 = 0x4152544E;

/// Version of the flash settings image.
pub const SETTINGS_VERSION: u8 = 1;

/// Size of the header in front of the data.
pub const SETTINGS_HEADER_SIZE: usize = 16;

/// Storage error type
#[derive(Debug, Clone, Copy, PartialEq, Eq, Structural)]
pub enum StorageError {
    NotFound,
    InvalidMagic,
    InvalidVersion,
    InvalidCrc,
    SerializationError,
    FlashError,
}

/// CRC-32 (ISO-HDLC parameters: reflected polynomial 0x04C11DB7, initial value and final
/// XOR 0xFFFFFFFF) of a byte string, as the `crc` crate computes it.
pub uninterp spec fn crc32_iso_hdlc(data: Seq<u8>) -> u32;

/// CRC-32/ISO-HDLC of `data`, computed by `crc::Crc::<u32>::checksum` with the
/// `CRC_32_ISO_HDLC` algorithm; the result is a function of the bytes alone.
#[verifier::external_body]
fn crc32(data: &[u8]) -> (r: u32)
    ensures
        r == crc32_iso_hdlc(data@),
{
    crc::Crc::<u32>::new(&crc::CRC_32_ISO_HDLC).checksum(data)
}

/// Value of four bytes stored least significant first.
pub open spec fn le32(b0: u8, b1: u8, b2: u8, b3: u8) -> int {
    b0 + b1 * 0x100 + b2 * 0x10000 + b3 * 0x1000000
}

/// The four bytes of `v`, least significant first.
pub open spec fn le32_bytes(v: u32) -> Seq<u8> {
    seq![
        (v % 0x100) as u8,
        ((v / 0x100) % 0x100) as u8,
        ((v / 0x10000) % 0x100) as u8,
        (v / 0x1000000) as u8,
    ]
}

fn push_le32(out: &mut Vec<u8>, v: u32)
    ensures
        final(out)@ == old(out)@ + le32_bytes(v),
{
    assert((v & 0xFFu32) as u8 == v % 0x100) by (bit_vector);
    assert(((v >> 8u32) & 0xFFu32) as u8 == (v / 0x100) % 0x100) by (bit_vector);
    assert(((v >> 16u32) & 0xFFu32) as u8 == (v / 0x10000) % 0x100) by (bit_vector);
    assert((v >> 24u32) as u8 == v / 0x1000000) by (bit_vector);
    out.push((v & 0xFF) as u8);
    out.push(((v >> 8) & 0xFF) as u8);
    out.push(((v >> 16) & 0xFF) as u8);
    out.push((v >> 24) as u8);
    assert(final(out)@ =~= old(out)@ + le32_bytes(v));
}

fn read_le32(b0: u8, b1: u8, b2: u8, b3: u8) -> (r: u32)
    ensures
        r == le32(b0, b1, b2, b3),
{
    b0 as u32 + (b1 as u32) * 0x100 + (b2 as u32) * 0x10000 + (b3 as u32) * 0x1000000
}

proof fn lemma_le32_roundtrip(v: u32)
    ensures
        le32(le32_bytes(v)[0], le32_bytes(v)[1], le32_bytes(v)[2], le32_bytes(v)[3]) == v,
{
}

/// The header of an image whose data has CRC `crc` and `len` bytes: magic, version,
/// three zero bytes, the CRC and the length, the numbers least significant byte first.
pub open spec fn header_bytes(crc: u32, len: u32) -> Seq<u8> {
    le32_bytes(SETTINGS_MAGIC) + seq![SETTINGS_VERSION, 0u8, 0u8, 0u8] + le32_bytes(crc)
        + le32_bytes(len)
}

/// The header the image of `data` starts with.
pub open spec fn settings_header(data: Seq<u8>) -> Seq<u8> {
    header_bytes(crc32_iso_hdlc(data), data.len() as u32)
}

/// Length of the data the header of `flash` announces.
pub open spec fn header_len(flash: Seq<u8>) -> int {
    le32(flash[12], flash[13], flash[14], flash[15])
}

/// What reading a flash image gives when its data, as far as the header's length reaches,
/// has CRC `data_crc`: the length of the data when the magic, the version and the CRC all
/// check out; an error naming the first check that failed. Data claimed to reach past the
/// end of `flash` fails the CRC check.
pub open spec fn image_result(flash: Seq<u8>, data_crc: u32) -> Result<int, StorageError> {
    let magic = le32(flash[0], flash[1], flash[2], flash[3]);
    let crc = le32(flash[8], flash[9], flash[10], flash[11]);
    let len = header_len(flash);
    if magic != SETTINGS_MAGIC {
        Err(StorageError::InvalidMagic)
    } else if flash[4] != SETTINGS_VERSION {
        Err(StorageError::InvalidVersion)
    } else if 16 + len > flash.len() || data_crc != crc {
        Err(StorageError::InvalidCrc)
    } else {
        Ok(len)
    }
}

/// What reading a flash image gives, with the CRC of its data computed.
pub open spec fn check_image(flash: Seq<u8>) -> Result<int, StorageError> {
    image_result(flash, crc32_iso_hdlc(flash.subrange(16, 16 + header_len(flash))))
}

/// Judges the settings image at the start of `flash` given the CRC `data_crc` of the
/// data its header announces.
pub fn check_settings_image(flash: &[u8], data_crc: u32) -> (r: Result<usize, StorageError>)
    requires
        flash@.len() >= SETTINGS_HEADER_SIZE,
    ensures
        match r {
            Ok(n) => image_result(flash@, data_crc) == Ok::<int, StorageError>(n as int),
            Err(e) => image_result(flash@, data_crc) == Err::<int, StorageError>(e),
        },
{
    let magic = read_le32(flash[0], flash[1], flash[2], flash[3]);
    if magic != SETTINGS_MAGIC {
        return Err(StorageError::InvalidMagic);
    }
    if flash[4] != SETTINGS_VERSION {
        return Err(StorageError::InvalidVersion);
    }
    let crc = read_le32(flash[8], flash[9], flash[10], flash[11]);
    let data_len = read_le32(flash[12], flash[13], flash[14], flash[15]) as usize;
    if data_len > flash.len() - SETTINGS_HEADER_SIZE || data_crc != crc {
        return Err(StorageError::InvalidCrc);
    }
    Ok(data_len)
}

/// Validates the settings image at the start of the flash sector `flash` and returns the
/// length of the serialized settings that follow the header.
pub fn load_settings(flash: &[u8]) -> (r: Result<usize, StorageError>)
    requires
        flash@.len() >= SETTINGS_HEADER_SIZE,
    ensures
        match r {
            Ok(n) => check_image(flash@) == Ok::<int, StorageError>(n as int),
            Err(e) => check_image(flash@) == Err::<int, StorageError>(e),
        },
{
    let magic = read_le32(flash[0], flash[1], flash[2], flash[3]);
    if magic != SETTINGS_MAGIC {
        return Err(StorageError::InvalidMagic);
    }
    if flash[4] != SETTINGS_VERSION {
        return Err(StorageError::InvalidVersion);
    }
    let data_len = read_le32(flash[12], flash[13], flash[14], flash[15]) as usize;
    if data_len > flash.len() - SETTINGS_HEADER_SIZE {
        return Err(StorageError::InvalidCrc);
    }
    let data = vstd::slice::slice_subrange(flash, SETTINGS_HEADER_SIZE, SETTINGS_HEADER_SIZE + data_len);
    let calculated_crc = crc32(data);
    check_settings_image(flash, calculated_crc)
}

/// The image of `data` whose CRC is `crc`: header, then the data.
pub fn settings_image_with_crc(data: &[u8], crc: u32) -> (r: Vec<u8>)
    requires
        data@.len() <= u32::MAX,
    ensures
        r@ == header_bytes(crc, data@.len() as u32) + data@,
{
    let mut out: Vec<u8> = Vec::new();
    push_le32(&mut out, SETTINGS_MAGIC);
    out.push(SETTINGS_VERSION);
    out.push(0);
    out.push(0);
    out.push(0);
    push_le32(&mut out, crc);
    push_le32(&mut out, data.len() as u32);
    push_slice(&mut out, data);
    assert(out@ =~= header_bytes(crc, data@.len() as u32) + data@);
    out
}

/// The flash image of serialized settings `data`: header, then the data.
pub fn settings_image(data: &[u8]) -> (r: Vec<u8>)
    requires
        data@.len() <= u32::MAX,
    ensures
        r@ == settings_header(data@) + data@,
{
    let crc = crc32(data);
    settings_image_with_crc(data, crc)
}

/// An image written by `settings_image` reads back: the checks pass and the data after
/// the header is the data that was written, whatever follows it in the sector.
pub proof fn lemma_settings_image_roundtrip(data: Seq<u8>, rest: Seq<u8>)
    requires
        data.len() <= u32::MAX,
    ensures
        check_image(settings_header(data) + data + rest) == Ok::<int, StorageError>(data.len() as int),
        (settings_header(data) + data + rest).subrange(16, 16 + data.len() as int) == data,
{
    lemma_image_with_crc_roundtrip(data, rest, crc32_iso_hdlc(data));
}

/// An image written with CRC `crc` passes the checks when its data is found to have
/// CRC `crc`, and the data after the header is the data that was written.
pub proof fn lemma_image_with_crc_roundtrip(data: Seq<u8>, rest: Seq<u8>, crc: u32)
    requires
        data.len() <= u32::MAX,
    ensures
        image_result(header_bytes(crc, data.len() as u32) + data + rest, crc) == Ok::<
            int,
            StorageError,
        >(data.len() as int),
        (header_bytes(crc, data.len() as u32) + data + rest).subrange(16, 16 + data.len() as int)
            == data,
{
    let img = header_bytes(crc, data.len() as u32) + data + rest;
    lemma_le32_roundtrip(SETTINGS_MAGIC);
    lemma_le32_roundtrip(crc);
    lemma_le32_roundtrip(data.len() as u32);
    assert(img[0] == le32_bytes(SETTINGS_MAGIC)[0]);
    assert(img[1] == le32_bytes(SETTINGS_MAGIC)[1]);
    assert(img[2] == le32_bytes(SETTINGS_MAGIC)[2]);
    assert(img[3] == le32_bytes(SETTINGS_MAGIC)[3]);
    assert(img[4] == SETTINGS_VERSION);
    assert(img[8] == le32_bytes(crc)[0]);
    assert(img[9] == le32_bytes(crc)[1]);
    assert(img[10] == le32_bytes(crc)[2]);
    assert(img[11] == le32_bytes(crc)[3]);
    assert(img[12] == le32_bytes(data.len() as u32)[0]);
    assert(img[13] == le32_bytes(data.len() as u32)[1]);
    assert(img[14] == le32_bytes(data.len() as u32)[2]);
    assert(img[15] == le32_bytes(data.len() as u32)[3]);
    assert(img.subrange(16, 16 + data.len() as int) =~= data);
}

} // verus!

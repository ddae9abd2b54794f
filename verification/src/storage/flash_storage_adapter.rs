//! Placement of the little file system in flash: offsets the file system uses are
//! relative to its region, which sits 16 KiB below the end of the 2 MiB flash.
use vstd::prelude::*;

verus! {

/// Total flash size
pub const FLASH_SIZE: usize = 2 * 1024 * 1024;

/// Base offset for filesystem region
pub const FILESYSTEM_BASE_OFFSET: usize = (2 * 1024 * 1024) - (16 * 1024);

/// Available filesystem size
pub const FILESYSTEM_SIZE: usize = 16 * 1024;

/// Absolute flash offset of a file-system-relative offset.
pub fn absolute_offset(offset: usize) -> (r: usize)
    requires
        offset + FILESYSTEM_BASE_OFFSET <= usize::MAX,
    ensures
        r == FILESYSTEM_BASE_OFFSET + offset,
{
    FILESYSTEM_BASE_OFFSET + offset
}

/// A write is accepted when it starts on a `write_size` boundary and covers whole
/// `write_size` units.
pub fn write_aligned(absolute_offset: usize, len: usize, write_size: usize) -> (r: bool)
    requires
        write_size > 0,
    ensures
        r == (absolute_offset % write_size == 0 && len % write_size == 0),
{
    let write_align = absolute_offset % write_size;
    let data_remainder = len % write_size;
    !(write_align != 0 || data_remainder != 0)
}

/// Start and end (exclusive) of the flash range an erase of `len` bytes at the
/// file-system offset `off` covers, each truncated to 32 bits.
pub fn erase_range(off: usize, len: usize) -> (r: (u32, u32))
    requires
        off + FILESYSTEM_BASE_OFFSET + len <= usize::MAX,
    ensures
        r.0 == (FILESYSTEM_BASE_OFFSET + off) % 0x1_0000_0000int,
        r.1 == (FILESYSTEM_BASE_OFFSET + off + len) % 0x1_0000_0000int,
{
    let absolute = absolute_offset(off);
    let end = absolute + len;
    assert((absolute as u32) as u64 == (absolute as u64) % 0x1_0000_0000u64) by (bit_vector);
    assert((end as u32) as u64 == (end as u64) % 0x1_0000_0000u64) by (bit_vector);
    (absolute as u32, end as u32)
}

/// Number of erase blocks the file system has.
pub fn block_count(erase_size: usize) -> (r: usize)
    requires
        erase_size > 0,
    ensures
        r == FILESYSTEM_SIZE / erase_size,
{
    FILESYSTEM_SIZE / erase_size
}

} // verus!

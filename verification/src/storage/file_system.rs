//! Settings kept as files: the failsafe scene file, what to do with the settings file
//! that was read at boot, and the requests sent to the file system task.
use vstd::prelude::*;
use crate::artnet::dmx::zeros;
use crate::bytes::{copy_range, push_slice};

verus! {

/// Size of failsafe.bin: 4 bytes stored flags + 4 ports * 512 channels.
pub const FAILSAFE_FILE_SIZE: usize = 4 + 4 * 512;

/// Request to the file system task.
#[derive(Debug, Clone, Copy, PartialEq, Eq, Structural)]
pub enum SettingsStoreSignal {
    Save,
    SaveAndReboot,
}

/// The request that saves the settings.
pub fn save_config() -> (r: SettingsStoreSignal)
    ensures
        r == SettingsStoreSignal::Save,
{
    SettingsStoreSignal::Save
}

/// The request that saves the settings and then reboots.
pub fn save_and_reboot() -> (r: SettingsStoreSignal)
    ensures
        r == SettingsStoreSignal::SaveAndReboot,
{
    SettingsStoreSignal::SaveAndReboot
}

/// Whether the file system task reboots after serving `signal`.
pub fn reboots_after(signal: SettingsStoreSignal) -> (r: bool)
    ensures
        r == (signal == SettingsStoreSignal::SaveAndReboot),
{
    signal == SettingsStoreSignal::SaveAndReboot
}

/// Contents of failsafe.bin: one byte per port (1 when a scene is stored, else 0), then
/// the four 512-channel scenes in port order.
pub open spec fn failsafe_bytes(stored: [bool; 4], data: [[u8; 512]; 4]) -> Seq<u8> {
    seq![
        if stored@[0] { 1u8 } else { 0u8 },
        if stored@[1] { 1u8 } else { 0u8 },
        if stored@[2] { 1u8 } else { 0u8 },
        if stored@[3] { 1u8 } else { 0u8 },
    ] + data@[0]@ + data@[1]@ + data@[2]@ + data@[3]@
}

/// Serializes the failsafe flags and scenes into the contents of failsafe.bin.
pub fn encode_failsafe(stored: &[bool; 4], data: &[[u8; 512]; 4]) -> (r: Vec<u8>)
    ensures
        r@ == failsafe_bytes(*stored, *data),
        r@.len() == FAILSAFE_FILE_SIZE,
{
    let mut buf: Vec<u8> = Vec::new();
    for i in 0..4usize
        invariant
            buf@.len() == i,
            forall|k: int| 0 <= k < i ==> #[trigger] buf@[k] == (if stored@[k] { 1u8 } else { 0u8 }),
    {
        buf.push(if stored[i] { 1 } else { 0 });
    }
    push_slice(&mut buf, data[0].as_slice());
    push_slice(&mut buf, data[1].as_slice());
    push_slice(&mut buf, data[2].as_slice());
    push_slice(&mut buf, data[3].as_slice());
    assert(buf@ =~= failsafe_bytes(*stored, *data));
    buf
}

/// Failsafe state read back from failsafe.bin: with fewer than `FAILSAFE_FILE_SIZE`
/// bytes nothing is stored and all scenes are zero; otherwise a port's flag is set when
/// its byte is non-zero and its scene is the matching 512 bytes.
pub fn decode_failsafe(buf: &[u8]) -> (r: ([bool; 4], [[u8; 512]; 4]))
    ensures
        buf@.len() < FAILSAFE_FILE_SIZE ==> forall|p: int|
            0 <= p < 4 ==> !(#[trigger] r.0@[p]) && r.1@[p]@ == zeros(512),
        buf@.len() >= FAILSAFE_FILE_SIZE ==> forall|p: int|
            0 <= p < 4 ==> (#[trigger] r.0@[p]) == (buf@[p] != 0) && r.1@[p]@ == buf@.subrange(
                4 + p * 512,
                4 + p * 512 + 512,
            ),
{
    let mut stored = [false; 4];
    let mut data = [[0u8; 512]; 4];
    if buf.len() < FAILSAFE_FILE_SIZE {
        assert forall|p: int| 0 <= p < 4 implies !(#[trigger] stored@[p]) && data@[p]@ == zeros(
            512,
        ) by {
            assert(data@[p]@ =~= zeros(512));
        }
        return (stored, data);
    }
    for i in 0..4usize
        invariant
            buf@.len() >= FAILSAFE_FILE_SIZE,
            forall|k: int| 0 <= k < i ==> (#[trigger] stored@[k]) == (buf@[k] != 0),
    {
        stored[i] = buf[i] != 0;
    }
    for port in 0..4usize
        invariant
            buf@.len() >= FAILSAFE_FILE_SIZE,
            forall|k: int| 0 <= k < 4 ==> (#[trigger] stored@[k]) == (buf@[k] != 0),
            forall|k: int|
                0 <= k < port ==> (#[trigger] data@[k])@ == buf@.subrange(
                    4 + k * 512,
                    4 + k * 512 + 512,
                ),
    {
        let start = 4 + port * 512;
        copy_range(&mut data[port], 0, buf, start, 512);
        assert(data@[port as int]@ =~= buf@.subrange(4 + port * 512, 4 + port * 512 + 512));
    }
    (stored, data)
}

/// Reading back what `encode_failsafe` wrote gives the same flags and scenes.
pub proof fn lemma_failsafe_roundtrip(stored: [bool; 4], data: [[u8; 512]; 4])
    ensures
        failsafe_bytes(stored, data).len() == FAILSAFE_FILE_SIZE,
        forall|p: int|
            0 <= p < 4 ==> (failsafe_bytes(stored, data)[p] != 0) == #[trigger] stored@[p],
        forall|p: int|
            0 <= p < 4 ==> failsafe_bytes(stored, data).subrange(4 + p * 512, 4 + p * 512 + 512)
                == (#[trigger] data@[p])@,
{
    let b = failsafe_bytes(stored, data);
    assert(b.subrange(4, 516) =~= data@[0]@);
    assert(b.subrange(516, 1028) =~= data@[1]@);
    assert(b.subrange(1028, 1540) =~= data@[2]@);
    assert(b.subrange(1540, 2052) =~= data@[3]@);
}

/// How reading settings.json at boot went.
#[derive(Debug, Clone, Copy, PartialEq, Eq, Structural)]
pub enum SettingsRead {
    /// The file could not be opened.
    Missing,
    /// Its length could not be read.
    LengthError,
    /// It is empty.
    Empty,
    /// Reading its contents failed.
    ReadError,
    /// It parsed, and holds settings of this version.
    Parsed { version: u8 },
    /// Its contents did not parse.
    Unparseable,
}

/// Result of loading settings from flash
#[derive(Debug, Clone, Copy, PartialEq, Eq, Structural)]
pub enum LoadResult {
    /// Settings loaded successfully
    Success,
    /// Settings file was empty or missing - created defaults
    CreatedDefaults,
    /// Settings had wrong version - needs reset
    VersionMismatch,
    /// Settings failed to parse - needs reset
    ParseError,
    /// I/O error reading settings
    IoError,
}

/// The outcome of reading settings.json: parsed settings of the current version load;
/// anything else names why the defaults are written instead.
pub fn load_result(read: SettingsRead) -> (r: LoadResult)
    ensures
        r == match read {
            SettingsRead::Missing | SettingsRead::Empty => LoadResult::CreatedDefaults,
            SettingsRead::LengthError | SettingsRead::ReadError => LoadResult::IoError,
            SettingsRead::Parsed { version } => if version == crate::schema::SETTINGS_VERSION {
                LoadResult::Success
            } else {
                LoadResult::VersionMismatch
            },
            SettingsRead::Unparseable => LoadResult::ParseError,
        },
{
    match read {
        SettingsRead::Missing | SettingsRead::Empty => LoadResult::CreatedDefaults,
        SettingsRead::LengthError | SettingsRead::ReadError => LoadResult::IoError,
        SettingsRead::Parsed { version } => if version == crate::schema::SETTINGS_VERSION {
            LoadResult::Success
        } else {
            LoadResult::VersionMismatch
        },
        SettingsRead::Unparseable => LoadResult::ParseError,
    }
}

/// Whether a load outcome applies the stored settings (and loads the failsafe file)
/// rather than writing defaults and clearing the failsafe scenes.
pub fn applies_stored_settings(r: LoadResult) -> (b: bool)
    ensures
        b == (r == LoadResult::Success),
{
    r == LoadResult::Success
}

} // verus!

use openlumen::storage::file_system::{
    applies_stored_settings, decode_failsafe, encode_failsafe, load_result, reboots_after,
    save_and_reboot, save_config, LoadResult, SettingsRead, SettingsStoreSignal,
    FAILSAFE_FILE_SIZE,
};
use openlumen::storage::flash_storage_adapter::{
    absolute_offset, block_count, erase_range, write_aligned, FILESYSTEM_BASE_OFFSET,
};
use openlumen::storage::{
    check_settings_image, load_settings, settings_image, settings_image_with_crc, StorageError,
    SETTINGS_MAGIC,
};

#[test]
fn image_header_carries_crc32() {
    let img = settings_image(b"123456789");
    assert_eq!(img.len(), 16 + 9);
    assert_eq!(&img[0..4], &SETTINGS_MAGIC.to_le_bytes());
    assert_eq!(&img[4..8], &[1, 0, 0, 0]);
    // CRC-32/ISO-HDLC check value of "123456789".
    assert_eq!(&img[8..12], &0xCBF4_3926u32.to_le_bytes());
    assert_eq!(&img[12..16], &[9, 0, 0, 0]);
    assert_eq!(&img[16..], b"123456789");
}

#[test]
fn image_reads_back() {
    let data: Vec<u8> = (0..300u32).map(|i| (i * 7 % 256) as u8).collect();
    let mut flash = settings_image(&data);
    flash.extend_from_slice(&[0xFF; 64]);
    assert_eq!(load_settings(&flash), Ok(300));
    assert_eq!(&flash[16..316], &data[..]);
    let empty = settings_image(&[]);
    assert_eq!(load_settings(&empty), Ok(0));
}

#[test]
fn image_errors() {
    let data = b"settings".to_vec();
    let good = settings_image(&data);
    let mut bad_magic = good.clone();
    bad_magic[0] ^= 1;
    assert_eq!(load_settings(&bad_magic), Err(StorageError::InvalidMagic));
    let mut bad_version = good.clone();
    bad_version[4] = 2;
    assert_eq!(load_settings(&bad_version), Err(StorageError::InvalidVersion));
    let mut bad_data = good.clone();
    bad_data[20] ^= 0x40;
    assert_eq!(load_settings(&bad_data), Err(StorageError::InvalidCrc));
    let mut too_long = good.clone();
    too_long[12] = 200;
    assert_eq!(load_settings(&too_long), Err(StorageError::InvalidCrc));
    assert_eq!(load_settings(&[0xFFu8; 16]), Err(StorageError::InvalidMagic));
}

#[test]
fn failsafe_file_roundtrip() {
    let stored = [true, false, false, true];
    let mut scenes = [[0u8; 512]; 4];
    for (p, s) in scenes.iter_mut().enumerate() {
        for (i, b) in s.iter_mut().enumerate() {
            *b = ((i + p * 31) % 256) as u8;
        }
    }
    let bytes = encode_failsafe(&stored, &scenes);
    assert_eq!(bytes.len(), FAILSAFE_FILE_SIZE);
    assert_eq!(&bytes[..4], &[1, 0, 0, 1]);
    let (s2, d2) = decode_failsafe(&bytes);
    assert_eq!(s2, stored);
    assert_eq!(d2, scenes);
}

#[test]
fn failsafe_file_short_or_odd_flags() {
    let (s, d) = decode_failsafe(&[1u8; 100]);
    assert_eq!(s, [false; 4]);
    assert!(d.iter().all(|x| x.iter().all(|&b| b == 0)));
    let mut bytes = vec![0u8; FAILSAFE_FILE_SIZE];
    bytes[2] = 7;
    let (s, _) = decode_failsafe(&bytes);
    assert_eq!(s, [false, false, true, false]);
}

#[test]
fn load_outcomes() {
    assert_eq!(load_result(SettingsRead::Missing), LoadResult::CreatedDefaults);
    assert_eq!(load_result(SettingsRead::Empty), LoadResult::CreatedDefaults);
    assert_eq!(load_result(SettingsRead::LengthError), LoadResult::IoError);
    assert_eq!(load_result(SettingsRead::ReadError), LoadResult::IoError);
    assert_eq!(load_result(SettingsRead::Unparseable), LoadResult::ParseError);
    assert_eq!(load_result(SettingsRead::Parsed { version: 2 }), LoadResult::Success);
    assert_eq!(load_result(SettingsRead::Parsed { version: 1 }), LoadResult::VersionMismatch);
    assert!(applies_stored_settings(LoadResult::Success));
    assert!(!applies_stored_settings(LoadResult::VersionMismatch));
    assert_eq!(save_config(), SettingsStoreSignal::Save);
    assert!(!reboots_after(save_config()));
    assert!(reboots_after(save_and_reboot()));
}

#[test]
fn flash_region_placement() {
    assert_eq!(FILESYSTEM_BASE_OFFSET, 0x1F_C000);
    assert_eq!(absolute_offset(0x100), 0x1F_C100);
    assert!(write_aligned(0x1F_C100, 256, 256));
    assert!(!write_aligned(0x1F_C101, 256, 256));
    assert!(!write_aligned(0x1F_C100, 100, 256));
    assert_eq!(erase_range(4096, 4096), (0x1F_D000, 0x1F_E000));
    assert_eq!(block_count(4096), 4);
}

#[test]
fn image_judged_with_given_crc() {
    let img = settings_image_with_crc(b"abc", 0x1122_3344);
    assert_eq!(
        img,
        vec![
            0x4E, 0x54, 0x52, 0x41, 1, 0, 0, 0, 0x44, 0x33, 0x22, 0x11, 3, 0, 0, 0, b'a', b'b',
            b'c'
        ]
    );
    assert_eq!(check_settings_image(&img, 0x1122_3344), Ok(3));
    assert_eq!(check_settings_image(&img, 0x1122_3345), Err(StorageError::InvalidCrc));
    let mut bad = img.clone();
    bad[4] = 9;
    assert_eq!(check_settings_image(&bad, 0x1122_3344), Err(StorageError::InvalidVersion));
    bad[0] = 0;
    assert_eq!(check_settings_image(&bad, 0x1122_3344), Err(StorageError::InvalidMagic));
    assert_eq!(check_settings_image(&img[..18], 0x1122_3344), Err(StorageError::InvalidCrc));
}

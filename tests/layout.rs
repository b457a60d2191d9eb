use statx_sys::layout::{
    STATX_RECORD_SIZE, STATX_TIMESTAMP_SIZE, STX_ATIME_OFFSET, STX_BTIME_OFFSET,
    STX_MASK_OFFSET, STX_NLINK_OFFSET, STX_INO_OFFSET, STX_RDEV_MAJOR_OFFSET, STX_SPARE2_OFFSET,
};
use statx_sys::{statx, statx_timestamp};

fn stamp(sec: i64, nsec: u32) -> statx_timestamp {
    statx_timestamp { tv_sec: sec, tc_nsec: nsec, __reserved: 0 }
}

fn sample() -> statx {
    let mut spare2 = [0u64; 14];
    for (i, x) in spare2.iter_mut().enumerate() {
        *x = 0x0101_0101_0101_0101u64 * (i as u64 + 1);
    }
    statx {
        stx_mask: 0x1122_3344,
        stx_blksize: 4096,
        stx_attributes: 0x0102_0304_0506_0708,
        stx_nlink: 0xa1a2_a3a4,
        stx_uid: 1000,
        stx_gid: 100,
        stx_mode: 0o100644,
        __spare0: [0xbeef],
        stx_ino: 0xb1b2_b3b4_b5b6_b7b8,
        stx_size: 12345,
        stx_blocks: 24,
        stx_attributes_mask: 0x1874,
        stx_atime: stamp(-1, 999_999_999),
        stx_btime: stamp(1_600_000_000, 1),
        stx_ctime: stamp(1_600_000_001, 2),
        stx_mtime: stamp(1_600_000_002, 3),
        stx_rdev_major: 0xc1c2_c3c4,
        stx_rdev_minor: 7,
        stx_dev_major: 8,
        stx_dev_minor: 1,
        __spare2: spare2,
    }
}

#[test]
fn check_struct_layout() {
    assert_eq!(core::mem::size_of::<statx>(), 0x100);
    assert_eq!(core::mem::size_of::<statx_timestamp>(), 16);
    assert_eq!(STATX_RECORD_SIZE, 0x100);
    assert_eq!(STATX_TIMESTAMP_SIZE, 16);

    assert_eq!(STX_MASK_OFFSET, 0);
    assert_eq!(STX_NLINK_OFFSET, 0x10);
    assert_eq!(STX_INO_OFFSET, 0x20);
    assert_eq!(STX_ATIME_OFFSET, 0x40);
    assert_eq!(STX_RDEV_MAJOR_OFFSET, 0x80);
    assert_eq!(STX_SPARE2_OFFSET, 0x90);
}

#[test]
fn record_image_is_256_bytes() {
    assert_eq!(sample().to_bytes().len(), 0x100);
}

#[test]
fn timestamp_image_is_16_bytes() {
    let b = sample().to_bytes();
    assert_eq!(STX_BTIME_OFFSET - STX_ATIME_OFFSET, 16);
    // The access time is -1 s and 999,999,999 ns, then a zero reserved field.
    assert_eq!(&b[0x40..0x48], &[0xff; 8]);
    assert_eq!(&b[0x48..0x4c], &[0xff, 0xc9, 0x9a, 0x3b]);
    assert_eq!(&b[0x4c..0x50], &[0, 0, 0, 0]);
    // The creation time starts right after.
    assert_eq!(&b[0x50..0x58], &1_600_000_000i64.to_le_bytes());
}

#[test]
fn fields_stand_at_published_offsets() {
    let b = sample().to_bytes();
    assert_eq!(&b[0x00..0x04], &[0x44, 0x33, 0x22, 0x11]);
    assert_eq!(&b[0x04..0x08], &4096u32.to_le_bytes());
    assert_eq!(&b[0x08..0x10], &[8, 7, 6, 5, 4, 3, 2, 1]);
    assert_eq!(&b[0x10..0x14], &[0xa4, 0xa3, 0xa2, 0xa1]);
    assert_eq!(&b[0x1c..0x1e], &0o100644u16.to_le_bytes());
    assert_eq!(&b[0x1e..0x20], &[0xef, 0xbe]);
    assert_eq!(&b[0x20..0x28], &[0xb8, 0xb7, 0xb6, 0xb5, 0xb4, 0xb3, 0xb2, 0xb1]);
    assert_eq!(&b[0x38..0x40], &0x1874u64.to_le_bytes());
    assert_eq!(&b[0x80..0x84], &[0xc4, 0xc3, 0xc2, 0xc1]);
    assert_eq!(&b[0x8c..0x90], &1u32.to_le_bytes());
    assert_eq!(&b[0x90..0x98], &[1; 8]);
    assert_eq!(&b[0xf8..0x100], &[14; 8]);
}

#[test]
fn record_round_trips_through_bytes() {
    let r = sample();
    assert_eq!(statx::from_bytes(&r.to_bytes()), Some(r));
}

#[test]
fn bytes_round_trip_through_record() {
    let b: Vec<u8> = (0..=255u8).collect();
    let r = statx::from_bytes(&b).unwrap();
    assert_eq!(r.stx_mask, u32::from_le_bytes([0, 1, 2, 3]));
    assert_eq!(r.stx_nlink, u32::from_le_bytes([0x10, 0x11, 0x12, 0x13]));
    assert_eq!(r.stx_ino, u64::from_le_bytes([0x20, 0x21, 0x22, 0x23, 0x24, 0x25, 0x26, 0x27]));
    assert_eq!(r.stx_atime.tv_sec, i64::from_le_bytes([0x40, 0x41, 0x42, 0x43, 0x44, 0x45, 0x46, 0x47]));
    assert_eq!(r.stx_atime.__reserved, i32::from_le_bytes([0x4c, 0x4d, 0x4e, 0x4f]));
    assert_eq!(r.stx_rdev_major, u32::from_le_bytes([0x80, 0x81, 0x82, 0x83]));
    assert_eq!(r.__spare2[13], u64::from_le_bytes([0xf8, 0xf9, 0xfa, 0xfb, 0xfc, 0xfd, 0xfe, 0xff]));
    assert_eq!(r.to_bytes(), b);
}

#[test]
fn wrong_length_is_not_a_record() {
    assert_eq!(statx::from_bytes(&[]), None);
    assert_eq!(statx::from_bytes(&[0u8; 255]), None);
    assert_eq!(statx::from_bytes(&[0u8; 257]), None);
}

#[test]
fn zero_bytes_give_a_zero_record() {
    let r = statx::from_bytes(&[0u8; 256]).unwrap();
    assert_eq!(r.stx_mask, 0);
    assert_eq!(r.stx_mtime, stamp(0, 0));
    assert_eq!(r.__spare2, [0u64; 14]);
}

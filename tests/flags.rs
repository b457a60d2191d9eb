use statx_sys::flags::{
    AT_STATX_DONT_SYNC, AT_STATX_FORCE_SYNC, AT_STATX_SYNC_AS_STAT, STATX_ALL, STATX_ATIME,
    STATX_ATTR_APPEND, STATX_ATTR_AUTOMOUNT, STATX_ATTR_COMPRESSED, STATX_ATTR_ENCRYPTED,
    STATX_ATTR_IMMUTABLE, STATX_ATTR_NODUMP, STATX_BASIC_STATS, STATX_BLOCKS, STATX_BTIME,
    STATX_CTIME, STATX_GID, STATX_INO, STATX_MODE, STATX_MTIME, STATX_NLINK, STATX_SIZE,
    STATX_TYPE, STATX_UID, STATX__RESERVED, SYS_statx,
};

const MASKS: [u32; 13] = [
    STATX_TYPE,
    STATX_MODE,
    STATX_NLINK,
    STATX_UID,
    STATX_GID,
    STATX_ATIME,
    STATX_MTIME,
    STATX_CTIME,
    STATX_INO,
    STATX_SIZE,
    STATX_BLOCKS,
    STATX_BTIME,
    STATX__RESERVED,
];

const ATTRS: [u64; 6] = [
    STATX_ATTR_COMPRESSED,
    STATX_ATTR_IMMUTABLE,
    STATX_ATTR_APPEND,
    STATX_ATTR_NODUMP,
    STATX_ATTR_ENCRYPTED,
    STATX_ATTR_AUTOMOUNT,
];

#[test]
fn mask_bits_are_distinct_single_bits() {
    for (i, a) in MASKS.iter().enumerate() {
        assert_eq!(a.count_ones(), 1);
        for b in &MASKS[i + 1..] {
            assert_eq!(a & b, 0);
        }
    }
}

#[test]
fn attribute_bits_are_distinct_single_bits() {
    for (i, a) in ATTRS.iter().enumerate() {
        assert_eq!(a.count_ones(), 1);
        for b in &ATTRS[i + 1..] {
            assert_eq!(a & b, 0);
        }
    }
}

#[test]
fn combined_masks_are_unions() {
    let basic = MASKS[..11].iter().fold(0, |acc, m| acc | m);
    assert_eq!(STATX_BASIC_STATS, basic);
    assert_eq!(STATX_BASIC_STATS, 0x7ff);
    assert_eq!(STATX_ALL, STATX_BASIC_STATS | STATX_BTIME);
    assert_eq!(STATX_ALL, 0xfff);
    assert_eq!(STATX__RESERVED & STATX_ALL, 0);
}

#[test]
fn sync_flags() {
    assert_eq!(AT_STATX_SYNC_AS_STAT, 0);
    assert_eq!(AT_STATX_FORCE_SYNC, 0x2000);
    assert_eq!(AT_STATX_DONT_SYNC, 0x4000);
    assert_eq!(AT_STATX_FORCE_SYNC & AT_STATX_DONT_SYNC, 0);
}

#[test]
fn entry_point_number() {
    assert_eq!(SYS_statx, 332);
}

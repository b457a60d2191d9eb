//! The byte layout of the status records, field by field, as the kernel reads
//! and writes them on x86_64 (little-endian).
use vstd::prelude::*;

use crate::bytes::{
    lemma_u16_bytes_injective, lemma_u32_bytes_injective, lemma_u64_bytes_injective,
    lemma_u64s_bytes_injective, lemma_u64s_bytes_len, u16_bytes, u32_bytes, u64_bytes, u64s_bytes,
};
use crate::record::{statx, statx_timestamp};

verus! {

/// Size in bytes of a whole status record.
pub const STATX_RECORD_SIZE: usize = 0x100;

/// Size in bytes of a timestamp record.
pub const STATX_TIMESTAMP_SIZE: usize = 16;

// Offsets of the fields of a timestamp record.
pub const TV_SEC_OFFSET: usize = 0x0;

pub const TV_NSEC_OFFSET: usize = 0x8;

pub const TV_RESERVED_OFFSET: usize = 0xc;

// Offsets of the fields of a status record.
pub const STX_MASK_OFFSET: usize = 0x00;

pub const STX_BLKSIZE_OFFSET: usize = 0x04;

pub const STX_ATTRIBUTES_OFFSET: usize = 0x08;

pub const STX_NLINK_OFFSET: usize = 0x10;

pub const STX_UID_OFFSET: usize = 0x14;

pub const STX_GID_OFFSET: usize = 0x18;

pub const STX_MODE_OFFSET: usize = 0x1c;

pub const STX_SPARE0_OFFSET: usize = 0x1e;

pub const STX_INO_OFFSET: usize = 0x20;

pub const STX_SIZE_OFFSET: usize = 0x28;

pub const STX_BLOCKS_OFFSET: usize = 0x30;

pub const STX_ATTRIBUTES_MASK_OFFSET: usize = 0x38;

pub const STX_ATIME_OFFSET: usize = 0x40;

pub const STX_BTIME_OFFSET: usize = 0x50;

pub const STX_CTIME_OFFSET: usize = 0x60;

pub const STX_MTIME_OFFSET: usize = 0x70;

pub const STX_RDEV_MAJOR_OFFSET: usize = 0x80;

pub const STX_RDEV_MINOR_OFFSET: usize = 0x84;

pub const STX_DEV_MAJOR_OFFSET: usize = 0x88;

pub const STX_DEV_MINOR_OFFSET: usize = 0x8c;

pub const STX_SPARE2_OFFSET: usize = 0x90;

/// The bytes of a timestamp record, in memory order.
pub open spec fn timestamp_bytes(t: statx_timestamp) -> Seq<u8> {
    u64_bytes(t.tv_sec as u64) + u32_bytes(t.tc_nsec) + u32_bytes(t.__reserved as u32)
}

/// The bytes of a status record, in memory order, with no padding.
pub open spec fn record_bytes(r: statx) -> Seq<u8> {
    u32_bytes(r.stx_mask) + u32_bytes(r.stx_blksize) + u64_bytes(r.stx_attributes) + u32_bytes(
        r.stx_nlink,
    ) + u32_bytes(r.stx_uid) + u32_bytes(r.stx_gid) + u16_bytes(r.stx_mode) + u16_bytes(
        r.__spare0[0],
    ) + u64_bytes(r.stx_ino) + u64_bytes(r.stx_size) + u64_bytes(r.stx_blocks) + u64_bytes(
        r.stx_attributes_mask,
    ) + timestamp_bytes(r.stx_atime) + timestamp_bytes(r.stx_btime) + timestamp_bytes(
        r.stx_ctime,
    ) + timestamp_bytes(r.stx_mtime) + u32_bytes(r.stx_rdev_major) + u32_bytes(r.stx_rdev_minor)
        + u32_bytes(r.stx_dev_major) + u32_bytes(r.stx_dev_minor) + u64s_bytes(r.__spare2@)
}

/// The `n` bytes of `s` that start at `off`.
pub open spec fn field(s: Seq<u8>, off: usize, n: int) -> Seq<u8> {
    s.subrange(off as int, off + n)
}

/// A timestamp record takes 16 bytes: the seconds at offset 0, the
/// nanoseconds at offset 8 and the reserved field at offset 12.
pub proof fn lemma_timestamp_layout(t: statx_timestamp)
    ensures
        timestamp_bytes(t).len() == STATX_TIMESTAMP_SIZE,
        field(timestamp_bytes(t), TV_SEC_OFFSET, 8) == u64_bytes(t.tv_sec as u64),
        field(timestamp_bytes(t), TV_NSEC_OFFSET, 4) == u32_bytes(t.tc_nsec),
        field(timestamp_bytes(t), TV_RESERVED_OFFSET, 4) == u32_bytes(t.__reserved as u32),
{
    let s = timestamp_bytes(t);
    assert(field(s, TV_SEC_OFFSET, 8) =~= u64_bytes(t.tv_sec as u64));
    assert(field(s, TV_NSEC_OFFSET, 4) =~= u32_bytes(t.tc_nsec));
    assert(field(s, TV_RESERVED_OFFSET, 4) =~= u32_bytes(t.__reserved as u32));
}

/// A status record takes exactly 256 bytes, and each field stands at the
/// offset that the kernel publishes for it: the result mask at 0x00, the link
/// count at 0x10, the inode number at 0x20, the first timestamp at 0x40, the
/// device numbers from 0x80 and the spare area from 0x90 to the end.
#[verifier::rlimit(50)]
pub proof fn lemma_record_layout(r: statx)
    ensures
        record_bytes(r).len() == STATX_RECORD_SIZE,
        field(record_bytes(r), STX_MASK_OFFSET, 4) == u32_bytes(r.stx_mask),
        field(record_bytes(r), STX_BLKSIZE_OFFSET, 4) == u32_bytes(r.stx_blksize),
        field(record_bytes(r), STX_ATTRIBUTES_OFFSET, 8) == u64_bytes(r.stx_attributes),
        field(record_bytes(r), STX_NLINK_OFFSET, 4) == u32_bytes(r.stx_nlink),
        field(record_bytes(r), STX_UID_OFFSET, 4) == u32_bytes(r.stx_uid),
        field(record_bytes(r), STX_GID_OFFSET, 4) == u32_bytes(r.stx_gid),
        field(record_bytes(r), STX_MODE_OFFSET, 2) == u16_bytes(r.stx_mode),
        field(record_bytes(r), STX_SPARE0_OFFSET, 2) == u16_bytes(r.__spare0[0]),
        field(record_bytes(r), STX_INO_OFFSET, 8) == u64_bytes(r.stx_ino),
        field(record_bytes(r), STX_SIZE_OFFSET, 8) == u64_bytes(r.stx_size),
        field(record_bytes(r), STX_BLOCKS_OFFSET, 8) == u64_bytes(r.stx_blocks),
        field(record_bytes(r), STX_ATTRIBUTES_MASK_OFFSET, 8) == u64_bytes(r.stx_attributes_mask),
        field(record_bytes(r), STX_ATIME_OFFSET, 16) == timestamp_bytes(r.stx_atime),
        field(record_bytes(r), STX_BTIME_OFFSET, 16) == timestamp_bytes(r.stx_btime),
        field(record_bytes(r), STX_CTIME_OFFSET, 16) == timestamp_bytes(r.stx_ctime),
        field(record_bytes(r), STX_MTIME_OFFSET, 16) == timestamp_bytes(r.stx_mtime),
        field(record_bytes(r), STX_RDEV_MAJOR_OFFSET, 4) == u32_bytes(r.stx_rdev_major),
        field(record_bytes(r), STX_RDEV_MINOR_OFFSET, 4) == u32_bytes(r.stx_rdev_minor),
        field(record_bytes(r), STX_DEV_MAJOR_OFFSET, 4) == u32_bytes(r.stx_dev_major),
        field(record_bytes(r), STX_DEV_MINOR_OFFSET, 4) == u32_bytes(r.stx_dev_minor),
        field(record_bytes(r), STX_SPARE2_OFFSET, 112) == u64s_bytes(r.__spare2@),
{
    let s = record_bytes(r);
    lemma_timestamp_layout(r.stx_atime);
    lemma_timestamp_layout(r.stx_btime);
    lemma_timestamp_layout(r.stx_ctime);
    lemma_timestamp_layout(r.stx_mtime);
    lemma_u64s_bytes_len(r.__spare2@);
    assert(field(s, STX_MASK_OFFSET, 4) =~= u32_bytes(r.stx_mask));
    assert(field(s, STX_BLKSIZE_OFFSET, 4) =~= u32_bytes(r.stx_blksize));
    assert(field(s, STX_ATTRIBUTES_OFFSET, 8) =~= u64_bytes(r.stx_attributes));
    assert(field(s, STX_NLINK_OFFSET, 4) =~= u32_bytes(r.stx_nlink));
    assert(field(s, STX_UID_OFFSET, 4) =~= u32_bytes(r.stx_uid));
    assert(field(s, STX_GID_OFFSET, 4) =~= u32_bytes(r.stx_gid));
    assert(field(s, STX_MODE_OFFSET, 2) =~= u16_bytes(r.stx_mode));
    assert(field(s, STX_SPARE0_OFFSET, 2) =~= u16_bytes(r.__spare0[0]));
    assert(field(s, STX_INO_OFFSET, 8) =~= u64_bytes(r.stx_ino));
    assert(field(s, STX_SIZE_OFFSET, 8) =~= u64_bytes(r.stx_size));
    assert(field(s, STX_BLOCKS_OFFSET, 8) =~= u64_bytes(r.stx_blocks));
    assert(field(s, STX_ATTRIBUTES_MASK_OFFSET, 8) =~= u64_bytes(r.stx_attributes_mask));
    assert(field(s, STX_ATIME_OFFSET, 16) =~= timestamp_bytes(r.stx_atime));
    assert(field(s, STX_BTIME_OFFSET, 16) =~= timestamp_bytes(r.stx_btime));
    assert(field(s, STX_CTIME_OFFSET, 16) =~= timestamp_bytes(r.stx_ctime));
    assert(field(s, STX_MTIME_OFFSET, 16) =~= timestamp_bytes(r.stx_mtime));
    assert(field(s, STX_RDEV_MAJOR_OFFSET, 4) =~= u32_bytes(r.stx_rdev_major));
    assert(field(s, STX_RDEV_MINOR_OFFSET, 4) =~= u32_bytes(r.stx_rdev_minor));
    assert(field(s, STX_DEV_MAJOR_OFFSET, 4) =~= u32_bytes(r.stx_dev_major));
    assert(field(s, STX_DEV_MINOR_OFFSET, 4) =~= u32_bytes(r.stx_dev_minor));
    assert(field(s, STX_SPARE2_OFFSET, 112) =~= u64s_bytes(r.__spare2@));
}

/// Two timestamp records with the same bytes are the same record.
pub proof fn lemma_timestamp_bytes_injective(t: statx_timestamp, u: statx_timestamp)
    requires
        timestamp_bytes(t) == timestamp_bytes(u),
    ensures
        t == u,
{
    lemma_timestamp_layout(t);
    lemma_timestamp_layout(u);
    lemma_u64_bytes_injective(t.tv_sec as u64, u.tv_sec as u64);
    lemma_u32_bytes_injective(t.tc_nsec, u.tc_nsec);
    lemma_u32_bytes_injective(t.__reserved as u32, u.__reserved as u32);
    let (a, b, c, d) = (t.tv_sec, u.tv_sec, t.__reserved, u.__reserved);
    assert(a as u64 == b as u64 ==> a == b) by (bit_vector);
    assert(c as u32 == d as u32 ==> c == d) by (bit_vector);
}

/// Two status records with the same bytes are the same record, so reading a
/// record back from the bytes written for it gives that record again.
#[verifier::rlimit(50)]
pub proof fn lemma_record_bytes_injective(r: statx, q: statx)
    requires
        record_bytes(r) == record_bytes(q),
    ensures
        r == q,
{
    lemma_record_layout(r);
    lemma_record_layout(q);
    lemma_u32_bytes_injective(r.stx_mask, q.stx_mask);
    lemma_u32_bytes_injective(r.stx_blksize, q.stx_blksize);
    lemma_u64_bytes_injective(r.stx_attributes, q.stx_attributes);
    lemma_u32_bytes_injective(r.stx_nlink, q.stx_nlink);
    lemma_u32_bytes_injective(r.stx_uid, q.stx_uid);
    lemma_u32_bytes_injective(r.stx_gid, q.stx_gid);
    lemma_u16_bytes_injective(r.stx_mode, q.stx_mode);
    lemma_u16_bytes_injective(r.__spare0[0], q.__spare0[0]);
    lemma_u64_bytes_injective(r.stx_ino, q.stx_ino);
    lemma_u64_bytes_injective(r.stx_size, q.stx_size);
    lemma_u64_bytes_injective(r.stx_blocks, q.stx_blocks);
    lemma_u64_bytes_injective(r.stx_attributes_mask, q.stx_attributes_mask);
    lemma_timestamp_bytes_injective(r.stx_atime, q.stx_atime);
    lemma_timestamp_bytes_injective(r.stx_btime, q.stx_btime);
    lemma_timestamp_bytes_injective(r.stx_ctime, q.stx_ctime);
    lemma_timestamp_bytes_injective(r.stx_mtime, q.stx_mtime);
    lemma_u32_bytes_injective(r.stx_rdev_major, q.stx_rdev_major);
    lemma_u32_bytes_injective(r.stx_rdev_minor, q.stx_rdev_minor);
    lemma_u32_bytes_injective(r.stx_dev_major, q.stx_dev_major);
    lemma_u32_bytes_injective(r.stx_dev_minor, q.stx_dev_minor);
    lemma_u64s_bytes_injective(r.__spare2@, q.__spare2@);
    assert(r.__spare0 =~= q.__spare0);
    assert(r.__spare2 =~= q.__spare2);
}

} // verus!

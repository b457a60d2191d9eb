//! Constants of the extended file-status call: the entry-point number, the
//! synchronisation flags, the request/result mask bits and the file-attribute
//! bits.
use vstd::prelude::*;

verus! {

/// Number of the `statx` entry point on x86_64.
#[allow(non_upper_case_globals)]
pub const SYS_statx: i64 = 332;

// Synchronisation flags.

/// Do whatever `stat` does.
pub const AT_STATX_SYNC_AS_STAT: u32 = 0x0000_0000;

/// Force the attributes to be synchronised with the server.
pub const AT_STATX_FORCE_SYNC: u32 = 0x0000_2000;

/// Do not synchronise anything; take what is cached.
pub const AT_STATX_DONT_SYNC: u32 = 0x0000_4000;

// Request and result mask bits.

pub const STATX_TYPE: u32 = 0x0000_0001;

pub const STATX_MODE: u32 = 0x0000_0002;

pub const STATX_NLINK: u32 = 0x0000_0004;

pub const STATX_UID: u32 = 0x0000_0008;

pub const STATX_GID: u32 = 0x0000_0010;

pub const STATX_ATIME: u32 = 0x0000_0020;

pub const STATX_MTIME: u32 = 0x0000_0040;

pub const STATX_CTIME: u32 = 0x0000_0080;

pub const STATX_INO: u32 = 0x0000_0100;

pub const STATX_SIZE: u32 = 0x0000_0200;

pub const STATX_BLOCKS: u32 = 0x0000_0400;

/// Everything that the older `stat` call returns.
pub const STATX_BASIC_STATS: u32 = 0x0000_07ff;

pub const STATX_BTIME: u32 = 0x0000_0800;

/// All the fields currently defined.
pub const STATX_ALL: u32 = 0x0000_0fff;

/// Reserved for a future extension of the record.
pub const STATX__RESERVED: u32 = 0x8000_0000;

// File attribute bits, as found in `stx_attributes`.

pub const STATX_ATTR_COMPRESSED: u64 = 0x0000_0004;

pub const STATX_ATTR_IMMUTABLE: u64 = 0x0000_0010;

pub const STATX_ATTR_APPEND: u64 = 0x0000_0020;

pub const STATX_ATTR_NODUMP: u64 = 0x0000_0040;

pub const STATX_ATTR_ENCRYPTED: u64 = 0x0000_0800;

pub const STATX_ATTR_AUTOMOUNT: u64 = 0x0000_1000;

/// True when `x` has exactly one bit set.
pub open spec fn single_bit_u32(x: u32) -> bool {
    x != 0 && x & ((x - 1) as u32) == 0
}

/// True when `x` has exactly one bit set.
pub open spec fn single_bit_u64(x: u64) -> bool {
    x != 0 && x & ((x - 1) as u64) == 0
}

/// The two synchronisation flags are single, distinct bits, and the default
/// behaviour is the absence of both.
pub proof fn lemma_sync_flags_distinct()
    ensures
        single_bit_u32(AT_STATX_FORCE_SYNC),
        single_bit_u32(AT_STATX_DONT_SYNC),
        AT_STATX_FORCE_SYNC & AT_STATX_DONT_SYNC == 0,
        AT_STATX_SYNC_AS_STAT == 0,
{
    assert(single_bit_u32(0x2000u32)) by (bit_vector);
    assert(single_bit_u32(0x4000u32)) by (bit_vector);
    assert(0x2000u32 & 0x4000u32 == 0) by (bit_vector);
}

/// Every named mask bit is a single bit, each is distinct from all the bits
/// named before it (so any two are disjoint), and the two combined masks are
/// exactly the union of their members: the basic set is the bits from
/// `STATX_TYPE` to `STATX_BLOCKS`, and the full set adds `STATX_BTIME`.
pub proof fn lemma_mask_bits_distinct()
    ensures
        single_bit_u32(STATX_TYPE),
        single_bit_u32(STATX_MODE),
        single_bit_u32(STATX_NLINK),
        single_bit_u32(STATX_UID),
        single_bit_u32(STATX_GID),
        single_bit_u32(STATX_ATIME),
        single_bit_u32(STATX_MTIME),
        single_bit_u32(STATX_CTIME),
        single_bit_u32(STATX_INO),
        single_bit_u32(STATX_SIZE),
        single_bit_u32(STATX_BLOCKS),
        single_bit_u32(STATX_BTIME),
        single_bit_u32(STATX__RESERVED),
        STATX_MODE & STATX_TYPE == 0,
        STATX_NLINK & (STATX_TYPE | STATX_MODE) == 0,
        STATX_UID & (STATX_TYPE | STATX_MODE | STATX_NLINK) == 0,
        STATX_GID & (STATX_TYPE | STATX_MODE | STATX_NLINK | STATX_UID) == 0,
        STATX_ATIME & (STATX_TYPE | STATX_MODE | STATX_NLINK | STATX_UID | STATX_GID) == 0,
        STATX_MTIME & (STATX_TYPE | STATX_MODE | STATX_NLINK | STATX_UID | STATX_GID
            | STATX_ATIME) == 0,
        STATX_CTIME & (STATX_TYPE | STATX_MODE | STATX_NLINK | STATX_UID | STATX_GID
            | STATX_ATIME | STATX_MTIME) == 0,
        STATX_INO & (STATX_TYPE | STATX_MODE | STATX_NLINK | STATX_UID | STATX_GID
            | STATX_ATIME | STATX_MTIME | STATX_CTIME) == 0,
        STATX_SIZE & (STATX_TYPE | STATX_MODE | STATX_NLINK | STATX_UID | STATX_GID
            | STATX_ATIME | STATX_MTIME | STATX_CTIME | STATX_INO) == 0,
        STATX_BLOCKS & (STATX_TYPE | STATX_MODE | STATX_NLINK | STATX_UID | STATX_GID
            | STATX_ATIME | STATX_MTIME | STATX_CTIME | STATX_INO | STATX_SIZE) == 0,
        STATX_BTIME & STATX_BASIC_STATS == 0,
        STATX__RESERVED & STATX_ALL == 0,
        STATX_BASIC_STATS == (STATX_TYPE | STATX_MODE | STATX_NLINK | STATX_UID | STATX_GID
            | STATX_ATIME | STATX_MTIME | STATX_CTIME | STATX_INO | STATX_SIZE | STATX_BLOCKS),
        STATX_ALL == (STATX_BASIC_STATS | STATX_BTIME),
{
    assert(single_bit_u32(0x1u32) && single_bit_u32(0x2u32) && single_bit_u32(0x4u32)
        && single_bit_u32(0x8u32) && single_bit_u32(0x10u32) && single_bit_u32(0x20u32)
        && single_bit_u32(0x40u32) && single_bit_u32(0x80u32) && single_bit_u32(0x100u32)
        && single_bit_u32(0x200u32) && single_bit_u32(0x400u32) && single_bit_u32(0x800u32)
        && single_bit_u32(0x8000_0000u32)) by (bit_vector);
    assert(0x2u32 & 0x1u32 == 0 && 0x4u32 & 0x3u32 == 0 && 0x8u32 & 0x7u32 == 0 && 0x10u32
        & 0xfu32 == 0 && 0x20u32 & 0x1fu32 == 0 && 0x40u32 & 0x3fu32 == 0 && 0x80u32 & 0x7fu32
        == 0 && 0x100u32 & 0xffu32 == 0 && 0x200u32 & 0x1ffu32 == 0 && 0x400u32 & 0x3ffu32 == 0
        && 0x800u32 & 0x7ffu32 == 0 && 0x8000_0000u32 & 0xfffu32 == 0) by (bit_vector);
    assert((0x1u32 | 0x2u32) == 0x3u32 && (0x3u32 | 0x4u32) == 0x7u32 && (0x7u32 | 0x8u32)
        == 0xfu32 && (0xfu32 | 0x10u32) == 0x1fu32 && (0x1fu32 | 0x20u32) == 0x3fu32 && (0x3fu32
        | 0x40u32) == 0x7fu32 && (0x7fu32 | 0x80u32) == 0xffu32 && (0xffu32 | 0x100u32)
        == 0x1ffu32 && (0x1ffu32 | 0x200u32) == 0x3ffu32 && (0x3ffu32 | 0x400u32) == 0x7ffu32
        && (0x7ffu32 | 0x800u32) == 0xfffu32) by (bit_vector);
}

/// Every named file-attribute bit is a single bit, and each is distinct from
/// all the bits named before it, so any two are disjoint.
pub proof fn lemma_attribute_bits_distinct()
    ensures
        single_bit_u64(STATX_ATTR_COMPRESSED),
        single_bit_u64(STATX_ATTR_IMMUTABLE),
        single_bit_u64(STATX_ATTR_APPEND),
        single_bit_u64(STATX_ATTR_NODUMP),
        single_bit_u64(STATX_ATTR_ENCRYPTED),
        single_bit_u64(STATX_ATTR_AUTOMOUNT),
        STATX_ATTR_IMMUTABLE & STATX_ATTR_COMPRESSED == 0,
        STATX_ATTR_APPEND & (STATX_ATTR_COMPRESSED | STATX_ATTR_IMMUTABLE) == 0,
        STATX_ATTR_NODUMP & (STATX_ATTR_COMPRESSED | STATX_ATTR_IMMUTABLE | STATX_ATTR_APPEND)
            == 0,
        STATX_ATTR_ENCRYPTED & (STATX_ATTR_COMPRESSED | STATX_ATTR_IMMUTABLE | STATX_ATTR_APPEND
            | STATX_ATTR_NODUMP) == 0,
        STATX_ATTR_AUTOMOUNT & (STATX_ATTR_COMPRESSED | STATX_ATTR_IMMUTABLE | STATX_ATTR_APPEND
            | STATX_ATTR_NODUMP | STATX_ATTR_ENCRYPTED) == 0,
{
    assert(single_bit_u64(0x4u64) && single_bit_u64(0x10u64) && single_bit_u64(0x20u64)
        && single_bit_u64(0x40u64) && single_bit_u64(0x800u64) && single_bit_u64(0x1000u64))
        by (bit_vector);
    assert(0x10u64 & 0x4u64 == 0 && 0x20u64 & (0x4u64 | 0x10u64) == 0 && 0x40u64 & (0x4u64
        | 0x10u64 | 0x20u64) == 0 && 0x800u64 & (0x4u64 | 0x10u64 | 0x20u64 | 0x40u64) == 0
        && 0x1000u64 & (0x4u64 | 0x10u64 | 0x20u64 | 0x40u64 | 0x800u64) == 0) by (bit_vector);
}

} // verus!

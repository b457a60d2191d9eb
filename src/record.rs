//! The records that the extended file-status call fills in.
use vstd::prelude::*;

verus! {

/// A point in time as the kernel reports it in a status record.
///
/// `tv_sec` counts seconds before (negative) or after (positive)
/// 00:00:00 1st January 1970 UTC; `tc_nsec` counts nanoseconds
/// (0..999,999,999) after that second; `__reserved` is kept for a finer
/// resolution later.
#[allow(non_camel_case_types)]
#[derive(Clone, Copy, Debug, PartialEq, Eq)]
pub struct statx_timestamp {
    pub tv_sec: i64,
    pub tc_nsec: u32,
    pub __reserved: i32,
}

/// The extended file-status record.
///
/// The caller names in a mask what it wants; what the kernel actually wrote is
/// in `stx_mask` on return. A requested datum that is not supported has its
/// bit cleared and its field cleared or set to a fabricated value; an
/// unrequested datum that is cheaply available may be filled in anyway, with
/// its bit set.
#[allow(non_camel_case_types)]
#[derive(Clone, Copy, Debug, PartialEq, Eq)]
pub struct statx {
    /// What results were written.
    pub stx_mask: u32,
    /// Preferred general I/O size.
    pub stx_blksize: u32,
    /// Flags conveying information about the file.
    pub stx_attributes: u64,
    /// Number of hard links.
    pub stx_nlink: u32,
    /// User ID of owner.
    pub stx_uid: u32,
    /// Group ID of owner.
    pub stx_gid: u32,
    /// File mode.
    pub stx_mode: u16,
    pub __spare0: [u16; 1],
    /// Inode number.
    pub stx_ino: u64,
    /// File size.
    pub stx_size: u64,
    /// Number of 512-byte blocks allocated.
    pub stx_blocks: u64,
    /// Mask to show what is supported in `stx_attributes`.
    pub stx_attributes_mask: u64,
    /// Last access time.
    pub stx_atime: statx_timestamp,
    /// File creation time.
    pub stx_btime: statx_timestamp,
    /// Last attribute change time.
    pub stx_ctime: statx_timestamp,
    /// Last data modification time.
    pub stx_mtime: statx_timestamp,
    /// Device ID of a special file (block or character device).
    pub stx_rdev_major: u32,
    pub stx_rdev_minor: u32,
    /// ID of the device containing the file.
    pub stx_dev_major: u32,
    pub stx_dev_minor: u32,
    /// Space for future expansion.
    pub __spare2: [u64; 14],
}

} // verus!

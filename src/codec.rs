//! Reading a status record out of the bytes the kernel wrote, and writing one
//! into bytes.
use vstd::prelude::*;

use crate::bytes::{
    lemma_u64s_bytes_len, push_u16, push_u32, push_u64, read_u16, read_u32, read_u64, u16_bytes,
    u32_bytes, u64_bytes, u64s_bytes,
};
use crate::layout::{
    record_bytes, timestamp_bytes, STATX_RECORD_SIZE, STATX_TIMESTAMP_SIZE, STX_ATIME_OFFSET,
    STX_ATTRIBUTES_MASK_OFFSET, STX_ATTRIBUTES_OFFSET, STX_BLKSIZE_OFFSET, STX_BLOCKS_OFFSET,
    STX_BTIME_OFFSET, STX_CTIME_OFFSET, STX_DEV_MAJOR_OFFSET, STX_DEV_MINOR_OFFSET,
    STX_GID_OFFSET, STX_INO_OFFSET, STX_MASK_OFFSET, STX_MODE_OFFSET, STX_MTIME_OFFSET,
    STX_NLINK_OFFSET, STX_RDEV_MAJOR_OFFSET, STX_RDEV_MINOR_OFFSET, STX_SIZE_OFFSET,
    STX_SPARE0_OFFSET, STX_SPARE2_OFFSET, STX_UID_OFFSET, TV_NSEC_OFFSET, TV_RESERVED_OFFSET,
    TV_SEC_OFFSET,
};
use crate::record::{statx, statx_timestamp};

verus! {

/// Where `p` is the first `n` bytes of `b` and `q` the bytes that follow,
/// `p + q` is the first `n + q.len()` bytes of `b`.
proof fn lemma_prefix_extend(b: Seq<u8>, p: Seq<u8>, q: Seq<u8>, n: int)
    requires
        0 <= n,
        n + q.len() <= b.len(),
        p == b.subrange(0, n),
        q == b.subrange(n, n + q.len()),
    ensures
        p + q == b.subrange(0, n + q.len()),
{
    assert(p + q =~= b.subrange(0, n + q.len()));
}

/// `s` taken to `i + 1` elements is `s` taken to `i` elements and then `s[i]`.
proof fn lemma_u64s_bytes_step(s: Seq<u64>, i: int)
    requires
        0 <= i < s.len(),
    ensures
        u64s_bytes(s.subrange(0, i + 1)) == u64s_bytes(s.subrange(0, i)) + u64_bytes(s[i]),
{
    assert(s.subrange(0, i + 1).drop_last() =~= s.subrange(0, i));
}

/// Reads the timestamp record that starts at `off`.
fn read_timestamp(b: &[u8], off: usize) -> (t: statx_timestamp)
    requires
        off + STATX_TIMESTAMP_SIZE <= b@.len(),
    ensures
        timestamp_bytes(t) == b@.subrange(off as int, off + STATX_TIMESTAMP_SIZE),
{
    let n = b.len();
    assert(off + STATX_TIMESTAMP_SIZE <= n);
    let sec = read_u64(b, off + TV_SEC_OFFSET);
    let tc_nsec = read_u32(b, off + TV_NSEC_OFFSET);
    let reserved = read_u32(b, off + TV_RESERVED_OFFSET);
    let t = statx_timestamp {
        tv_sec: #[verifier::truncate] (sec as i64),
        tc_nsec,
        __reserved: #[verifier::truncate] (reserved as i32),
    };
    assert((sec as i64) as u64 == sec) by (bit_vector);
    assert((reserved as i32) as u32 == reserved) by (bit_vector);
    assert(timestamp_bytes(t) =~= b@.subrange(off as int, off + STATX_TIMESTAMP_SIZE));
    t
}

/// Appends the bytes of the timestamp record `t`.
fn push_timestamp(v: &mut Vec<u8>, t: &statx_timestamp)
    ensures
        final(v)@ == old(v)@ + timestamp_bytes(*t),
{
    push_u64(v, #[verifier::truncate] (t.tv_sec as u64));
    push_u32(v, t.tc_nsec);
    push_u32(v, #[verifier::truncate] (t.__reserved as u32));
    assert(final(v)@ =~= old(v)@ + timestamp_bytes(*t));
}

impl statx {
    /// Reads a status record out of the bytes that the kernel wrote for it.
    /// Gives `None` unless `b` is exactly one record long.
    #[verifier::rlimit(60)]
    pub fn from_bytes(b: &[u8]) -> (r: Option<statx>)
        ensures
            r is Some <==> b@.len() == STATX_RECORD_SIZE,
            r matches Some(x) ==> record_bytes(x) == b@,
    {
        if b.len() != STATX_RECORD_SIZE {
            return None;
        }
        let stx_mask = read_u32(b, STX_MASK_OFFSET);
        let stx_blksize = read_u32(b, STX_BLKSIZE_OFFSET);
        let stx_attributes = read_u64(b, STX_ATTRIBUTES_OFFSET);
        let stx_nlink = read_u32(b, STX_NLINK_OFFSET);
        let stx_uid = read_u32(b, STX_UID_OFFSET);
        let stx_gid = read_u32(b, STX_GID_OFFSET);
        let stx_mode = read_u16(b, STX_MODE_OFFSET);
        let spare0 = read_u16(b, STX_SPARE0_OFFSET);
        let stx_ino = read_u64(b, STX_INO_OFFSET);
        let stx_size = read_u64(b, STX_SIZE_OFFSET);
        let stx_blocks = read_u64(b, STX_BLOCKS_OFFSET);
        let stx_attributes_mask = read_u64(b, STX_ATTRIBUTES_MASK_OFFSET);
        let stx_atime = read_timestamp(b, STX_ATIME_OFFSET);
        let stx_btime = read_timestamp(b, STX_BTIME_OFFSET);
        let stx_ctime = read_timestamp(b, STX_CTIME_OFFSET);
        let stx_mtime = read_timestamp(b, STX_MTIME_OFFSET);
        let stx_rdev_major = read_u32(b, STX_RDEV_MAJOR_OFFSET);
        let stx_rdev_minor = read_u32(b, STX_RDEV_MINOR_OFFSET);
        let stx_dev_major = read_u32(b, STX_DEV_MAJOR_OFFSET);
        let stx_dev_minor = read_u32(b, STX_DEV_MINOR_OFFSET);
        let mut spare2 = [0u64; 14];
        let mut i: usize = 0;
        while i < 14
            invariant
                i <= 14,
                b@.len() == STATX_RECORD_SIZE,
                u64s_bytes(spare2@.subrange(0, i as int)) == b@.subrange(
                    STX_SPARE2_OFFSET as int,
                    STX_SPARE2_OFFSET + 8 * i,
                ),
            decreases 14 - i,
        {
            let x = read_u64(b, STX_SPARE2_OFFSET + 8 * i);
            let ghost before = spare2@;
            spare2[i] = x;
            proof {
                assert(spare2@.subrange(0, i as int) =~= before.subrange(0, i as int));
                lemma_u64s_bytes_step(spare2@, i as int);
                assert(b@.subrange(STX_SPARE2_OFFSET as int, STX_SPARE2_OFFSET + 8 * (i + 1))
                    =~= b@.subrange(STX_SPARE2_OFFSET as int, STX_SPARE2_OFFSET + 8 * i)
                    + b@.subrange(STX_SPARE2_OFFSET + 8 * i, STX_SPARE2_OFFSET + 8 * i + 8));
            }
            i = i + 1;
        }
        assert(spare2@.subrange(0, 14) =~= spare2@);
        let r = statx {
            stx_mask,
            stx_blksize,
            stx_attributes,
            stx_nlink,
            stx_uid,
            stx_gid,
            stx_mode,
            __spare0: [spare0],
            stx_ino,
            stx_size,
            stx_blocks,
            stx_attributes_mask,
            stx_atime,
            stx_btime,
            stx_ctime,
            stx_mtime,
            stx_rdev_major,
            stx_rdev_minor,
            stx_dev_major,
            stx_dev_minor,
            __spare2: spare2,
        };
        proof {
            // The record's bytes, built up field by field, are the prefix of
            // `b` that ends where the last field read ends.
            let s = b@;
            lemma_u64s_bytes_len(spare2@);
            let mut acc = u32_bytes(stx_mask);
            lemma_prefix_extend(s, acc, u32_bytes(stx_blksize), STX_BLKSIZE_OFFSET as int);
            acc = acc + u32_bytes(stx_blksize);
            lemma_prefix_extend(s, acc, u64_bytes(stx_attributes), STX_ATTRIBUTES_OFFSET as int);
            acc = acc + u64_bytes(stx_attributes);
            lemma_prefix_extend(s, acc, u32_bytes(stx_nlink), STX_NLINK_OFFSET as int);
            acc = acc + u32_bytes(stx_nlink);
            lemma_prefix_extend(s, acc, u32_bytes(stx_uid), STX_UID_OFFSET as int);
            acc = acc + u32_bytes(stx_uid);
            lemma_prefix_extend(s, acc, u32_bytes(stx_gid), STX_GID_OFFSET as int);
            acc = acc + u32_bytes(stx_gid);
            lemma_prefix_extend(s, acc, u16_bytes(stx_mode), STX_MODE_OFFSET as int);
            acc = acc + u16_bytes(stx_mode);
            lemma_prefix_extend(s, acc, u16_bytes(spare0), STX_SPARE0_OFFSET as int);
            acc = acc + u16_bytes(spare0);
            lemma_prefix_extend(s, acc, u64_bytes(stx_ino), STX_INO_OFFSET as int);
            acc = acc + u64_bytes(stx_ino);
            lemma_prefix_extend(s, acc, u64_bytes(stx_size), STX_SIZE_OFFSET as int);
            acc = acc + u64_bytes(stx_size);
            lemma_prefix_extend(s, acc, u64_bytes(stx_blocks), STX_BLOCKS_OFFSET as int);
            acc = acc + u64_bytes(stx_blocks);
            lemma_prefix_extend(s, acc, u64_bytes(stx_attributes_mask), STX_ATTRIBUTES_MASK_OFFSET as int);
            acc = acc + u64_bytes(stx_attributes_mask);
            lemma_prefix_extend(s, acc, timestamp_bytes(stx_atime), STX_ATIME_OFFSET as int);
            acc = acc + timestamp_bytes(stx_atime);
            lemma_prefix_extend(s, acc, timestamp_bytes(stx_btime), STX_BTIME_OFFSET as int);
            acc = acc + timestamp_bytes(stx_btime);
            lemma_prefix_extend(s, acc, timestamp_bytes(stx_ctime), STX_CTIME_OFFSET as int);
            acc = acc + timestamp_bytes(stx_ctime);
            lemma_prefix_extend(s, acc, timestamp_bytes(stx_mtime), STX_MTIME_OFFSET as int);
            acc = acc + timestamp_bytes(stx_mtime);
            lemma_prefix_extend(s, acc, u32_bytes(stx_rdev_major), STX_RDEV_MAJOR_OFFSET as int);
            acc = acc + u32_bytes(stx_rdev_major);
            lemma_prefix_extend(s, acc, u32_bytes(stx_rdev_minor), STX_RDEV_MINOR_OFFSET as int);
            acc = acc + u32_bytes(stx_rdev_minor);
            lemma_prefix_extend(s, acc, u32_bytes(stx_dev_major), STX_DEV_MAJOR_OFFSET as int);
            acc = acc + u32_bytes(stx_dev_major);
            lemma_prefix_extend(s, acc, u32_bytes(stx_dev_minor), STX_DEV_MINOR_OFFSET as int);
            acc = acc + u32_bytes(stx_dev_minor);
            lemma_prefix_extend(s, acc, u64s_bytes(spare2@), STX_SPARE2_OFFSET as int);
            acc = acc + u64s_bytes(spare2@);
            assert(r.__spare0@ =~= seq![spare0]);
            assert(s.subrange(0, STATX_RECORD_SIZE as int) =~= s);
            assert(acc == record_bytes(r));
        }
        Some(r)
    }

    /// The bytes of this record, laid out as the kernel reads and writes them.
    pub fn to_bytes(&self) -> (v: Vec<u8>)
        ensures
            v@ == record_bytes(*self),
    {
        let mut v: Vec<u8> = Vec::new();
        push_u32(&mut v, self.stx_mask);
        assert(v@ =~= u32_bytes(self.stx_mask));
        push_u32(&mut v, self.stx_blksize);
        push_u64(&mut v, self.stx_attributes);
        push_u32(&mut v, self.stx_nlink);
        push_u32(&mut v, self.stx_uid);
        push_u32(&mut v, self.stx_gid);
        push_u16(&mut v, self.stx_mode);
        push_u16(&mut v, self.__spare0[0]);
        push_u64(&mut v, self.stx_ino);
        push_u64(&mut v, self.stx_size);
        push_u64(&mut v, self.stx_blocks);
        push_u64(&mut v, self.stx_attributes_mask);
        push_timestamp(&mut v, &self.stx_atime);
        push_timestamp(&mut v, &self.stx_btime);
        push_timestamp(&mut v, &self.stx_ctime);
        push_timestamp(&mut v, &self.stx_mtime);
        push_u32(&mut v, self.stx_rdev_major);
        push_u32(&mut v, self.stx_rdev_minor);
        push_u32(&mut v, self.stx_dev_major);
        push_u32(&mut v, self.stx_dev_minor);
        let ghost head = v@;
        let mut i: usize = 0;
        while i < 14
            invariant
                i <= 14,
                v@ == head + u64s_bytes(self.__spare2@.subrange(0, i as int)),
            decreases 14 - i,
        {
            push_u64(&mut v, self.__spare2[i]);
            proof {
                lemma_u64s_bytes_step(self.__spare2@, i as int);
                assert(v@ =~= head + u64s_bytes(self.__spare2@.subrange(0, i + 1)));
            }
            i = i + 1;
        }
        assert(self.__spare2@.subrange(0, 14) =~= self.__spare2@);
        v
    }
}

} // verus!

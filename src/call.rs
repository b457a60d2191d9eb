//! What is computed on each side of the `statx` call: the path handed to the
//! kernel, and what the caller may take from the buffer afterwards.
use vstd::prelude::*;

use crate::layout::{record_bytes, STATX_RECORD_SIZE};
use crate::record::statx;

verus! {

/// The path as the kernel reads it: the bytes of `path` followed by a single
/// NUL. Gives `None` when `path` holds a NUL itself, since the kernel would
/// stop reading there and look up another file.
pub fn nul_terminated(path: &[u8]) -> (r: Option<Vec<u8>>)
    ensures
        r is Some <==> !path@.contains(0u8),
        r matches Some(v) ==> v@ == path@.push(0u8),
{
    let mut v: Vec<u8> = Vec::new();
    let mut i: usize = 0;
    while i < path.len()
        invariant
            i <= path@.len(),
            v@ == path@.subrange(0, i as int),
            forall|j: int| 0 <= j < i ==> path@[j] != 0u8,
        decreases path@.len() - i,
    {
        if path[i] == 0u8 {
            assert(path@.contains(0u8)) by {
                assert(path@[i as int] == 0u8);
            };
            return None;
        }
        v.push(path[i]);
        assert(v@ =~= path@.subrange(0, i + 1));
        i = i + 1;
    }
    v.push(0u8);
    assert(v@ =~= path@.push(0u8));
    assert(!path@.contains(0u8));
    Some(v)
}

/// What the caller may take from the buffer once the call returned `code`: a
/// negative code is a failure, after which the buffer is not to be trusted;
/// otherwise the record that the kernel wrote into `buf`.
pub fn record_after_call(code: i32, buf: &[u8]) -> (r: Option<statx>)
    ensures
        r is Some <==> code >= 0 && buf@.len() == STATX_RECORD_SIZE,
        r matches Some(x) ==> record_bytes(x) == buf@,
{
    if code < 0 {
        None
    } else {
        statx::from_bytes(buf)
    }
}

} // verus!

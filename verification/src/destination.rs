//! The output destination as the engine takes it: a NUL-terminated byte
//! string.

use vstd::prelude::*;
use vstd::slice::slice_to_vec;

verus! {

/// Whether a byte sequence holds no NUL byte, so that a terminating NUL marks
/// its end and nothing else.
pub open spec fn nul_free(bytes: Seq<u8>) -> bool {
    forall|i: int| 0 <= i < bytes.len() ==> bytes[i] != 0
}

/// The bytes followed by the terminating NUL.
pub open spec fn nul_terminated(bytes: Seq<u8>) -> Seq<u8> {
    bytes.push(0u8)
}

/// Whether `path` is a NUL-terminated string: it ends in a NUL and holds no
/// other.
pub open spec fn terminated(path: Seq<u8>) -> bool {
    &&& path.len() > 0
    &&& path.last() == 0
    &&& nul_free(path.drop_last())
}

/// Terminating a NUL-free byte sequence gives a NUL-terminated string, from
/// which the sequence is read back by dropping the last byte.
pub proof fn terminated_round_trip(bytes: Seq<u8>)
    requires
        nul_free(bytes),
    ensures
        terminated(nul_terminated(bytes)),
        nul_terminated(bytes).drop_last() == bytes,
{
    assert(nul_terminated(bytes).drop_last() =~= bytes);
}

/// Whether the bytes hold no NUL.
pub fn is_nul_free(bytes: &[u8]) -> (free: bool)
    ensures
        free == nul_free(bytes@),
{
    let mut i: usize = 0;
    while i < bytes.len()
        invariant
            i <= bytes.len(),
            forall|k: int| 0 <= k < i ==> bytes@[k] != 0,
        decreases bytes.len() - i,
    {
        if bytes[i] == 0 {
            return false;
        }
        i += 1;
    }
    true
}

/// Copies the bytes and appends the terminating NUL. Bytes that hold a NUL
/// themselves cannot be passed on faithfully and give `None`.
pub fn terminate(bytes: &[u8]) -> (r: Option<Vec<u8>>)
    ensures
        r is Some <==> nul_free(bytes@),
        r matches Some(path) ==> path@ == nul_terminated(bytes@),
{
    if !is_nul_free(bytes) {
        return None;
    }
    let mut path: Vec<u8> = slice_to_vec(bytes);
    path.push(0u8);
    Some(path)
}

} // verus!

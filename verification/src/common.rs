//! Marshaling between the host's byte-string paths and the null-terminated
//! form required at the boundary.
//!
//! A path is carried as its raw bytes. Converting it for the boundary appends
//! a terminator and fails if the bytes already contain one; converting a
//! boundary-returned string back strips everything from the first terminator.

use vstd::prelude::*;

use crate::error::BtrfsUtilError;
use crate::error::GlueError;

verus! {

/// True when the byte sequence holds a zero byte, which a null-terminated
/// string cannot carry.
pub open spec fn has_nul(s: Seq<u8>) -> bool {
    exists|i: int| 0 <= i < s.len() && s[i] == 0u8
}

/// `p` is the content of the null-terminated byte string `c`: everything
/// before the first terminator.
pub open spec fn cstr_prefix_ok(c: Seq<u8>, p: Seq<u8>) -> bool {
    &&& p.len() < c.len()
    &&& p == c.take(p.len() as int)
    &&& c[p.len() as int] == 0u8
    &&& forall|j: int| 0 <= j < p.len() ==> c[j] != 0u8
}

/// Compare two byte vectors by contents.
pub fn bytes_eq(a: &Vec<u8>, b: &Vec<u8>) -> (r: bool)
    ensures
        r == (a@ == b@),
{
    if a.len() != b.len() {
        assert(a@ != b@) by {
            assert(a@.len() != b@.len());
        }
        return false;
    }
    let n = a.len();
    let mut i: usize = 0;
    while i < n
        invariant
            n == a@.len() && n == b@.len(),
            0 <= i <= n,
            forall|j: int| 0 <= j < i ==> a@[j] == b@[j],
        decreases n - i,
    {
        if a[i] != b[i] {
            return false;
        }
        i += 1;
    }
    assert(a@ =~= b@);
    true
}

/// Convert a path into a null-terminated byte string.
///
/// Fails when the path holds an embedded terminator, which would make a
/// lossless round trip through the boundary impossible.
pub fn path_to_cstr(path: &Vec<u8>) -> (r: Result<Vec<u8>, BtrfsUtilError>)
    ensures
        has_nul(path@) ==> r == Err::<Vec<u8>, BtrfsUtilError>(BtrfsUtilError::Glue(
            GlueError::NulError,
        )),
        !has_nul(path@) ==> (r matches Ok(c) && c@ == path@.push(0u8)),
{
    let n = path.len();
    let mut i: usize = 0;
    while i < n
        invariant
            n == path@.len(),
            0 <= i <= n,
            forall|j: int| 0 <= j < i ==> path@[j] != 0u8,
        decreases n - i,
    {
        if path[i] == 0 {
            return Err(BtrfsUtilError::Glue(GlueError::NulError));
        }
        i += 1;
    }
    let mut out = path.clone();
    assert(out@ =~= path@);
    out.push(0u8);
    Ok(out)
}

/// Recover a path from a null-terminated byte string returned by the
/// boundary: the bytes before the first terminator.
///
/// Fails when no terminator is present, since the input then cannot be a
/// boundary-produced string.
pub fn cstr_to_path(cstr: &Vec<u8>) -> (r: Result<Vec<u8>, BtrfsUtilError>)
    ensures
        !has_nul(cstr@) ==> r == Err::<Vec<u8>, BtrfsUtilError>(BtrfsUtilError::Glue(
            GlueError::BadPath,
        )),
        has_nul(cstr@) ==> (r matches Ok(p) && cstr_prefix_ok(cstr@, p@)),
{
    let n = cstr.len();
    let mut out: Vec<u8> = Vec::new();
    let mut i: usize = 0;
    assert(out@ =~= cstr@.take(0));
    while i < n
        invariant
            n == cstr@.len(),
            0 <= i <= n,
            i == out@.len(),
            out@ == cstr@.take(i as int),
            forall|j: int| 0 <= j < i ==> cstr@[j] != 0u8,
        decreases n - i,
    {
        if cstr[i] == 0 {
            return Ok(out);
        }
        out.push(cstr[i]);
        assert(out@ =~= cstr@.take(i as int + 1));
        i += 1;
    }
    Err(BtrfsUtilError::Glue(GlueError::BadPath))
}

} // verus!

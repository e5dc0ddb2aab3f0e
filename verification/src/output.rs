//! The generated artifact, how it compares with what a file held before, and
//! the exit code that a run ends with.

use vstd::prelude::*;

verus! {

/// Exit code of a run that succeeded and found no drift, or wrote to the stream.
pub const EXIT_SUCCESS: i32 = 0;

/// Exit code of a run that failed.
pub const EXIT_FAILURE: i32 = 1;

/// Exit code of a verifying run whose output differs from what the file held.
pub const EXIT_CHANGED: i32 = 2;

/// Whether writing `content` changes a file that held `previous` before, or
/// did not exist (`None`): an absent file always counts as changed.
pub open spec fn differs(previous: Option<Seq<u8>>, content: Seq<u8>) -> bool {
    previous != Some(content)
}

/// The exit code of a run that has written its output: drift is reported
/// only on request.
pub open spec fn written_exit_code(verify: bool, changed: bool) -> i32 {
    if verify && changed {
        EXIT_CHANGED
    } else {
        EXIT_SUCCESS
    }
}

/// Whether two byte strings are the same.
pub fn same_bytes(a: &Vec<u8>, b: &Vec<u8>) -> (r: bool)
    ensures
        r == (a@ == b@),
{
    if a.len() != b.len() {
        return false;
    }
    let mut i: usize = 0;
    while i < a.len()
        invariant
            i <= a.len(),
            a.len() == b.len(),
            forall|j: int| 0 <= j < i ==> a@[j] == b@[j],
        decreases a.len() - i,
    {
        if a[i] != b[i] {
            return false;
        }
        i += 1;
    }
    assert(a@ =~= b@);
    true
}

/// Decides whether writing `content` changed the file, from what the file
/// held before the write (`None` where it did not exist).
pub fn content_changed(previous: &Option<Vec<u8>>, content: &Vec<u8>) -> (r: bool)
    ensures
        r == differs(option_bytes(*previous), content@),
{
    match previous {
        Some(bytes) => !same_bytes(bytes, content),
        None => true,
    }
}

/// The bytes of an optional byte string.
pub open spec fn option_bytes(bytes: Option<Vec<u8>>) -> Option<Seq<u8>> {
    match bytes {
        Some(b) => Some(b@),
        None => None,
    }
}

/// The exit code of a run that has written its output.
pub fn exit_code_after_write(verify: bool, changed: bool) -> (r: i32)
    ensures
        r == written_exit_code(verify, changed),
{
    if verify && changed {
        EXIT_CHANGED
    } else {
        EXIT_SUCCESS
    }
}

/// A copy of a byte string.
pub fn copy_bytes(bytes: &Vec<u8>) -> (r: Vec<u8>)
    ensures
        r@ == bytes@,
{
    bytes.clone()
}

} // verus!

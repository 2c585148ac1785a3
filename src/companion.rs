//! The companion's control-surface checks, on what the caller read.

use vstd::prelude::*;

verus! {

/// Whether the bytes at `i` spell `Steam`, the word that the control
/// surface's tab list holds when the expected remote is listening.
pub open spec fn marker_at(b: Seq<u8>, i: int) -> bool {
    &&& 0 <= i
    &&& i + 5 <= b.len()
    &&& b[i] == 0x53u8
    &&& b[i + 1] == 0x74u8
    &&& b[i + 2] == 0x65u8
    &&& b[i + 3] == 0x61u8
    &&& b[i + 4] == 0x6du8
}

/// Whether a reachability probe's response body shows the expected remote:
/// it holds the marker word somewhere.
pub fn body_marks_control_surface(body: &[u8]) -> (r: bool)
    ensures
        r == exists|i: int| marker_at(body@, i),
{
    let n = body.len();
    if n < 5 {
        assert forall|i: int| !marker_at(body@, i) by {}
        return false;
    }
    let mut i: usize = 0;
    while i <= n - 5
        invariant
            n == body@.len(),
            n >= 5,
            i <= n - 4,
            forall|j: int| 0 <= j < i ==> !marker_at(body@, j),
        decreases n - i,
    {
        if body[i] == 0x53 && body[i + 1] == 0x74 && body[i + 2] == 0x65 && body[i + 3] == 0x61
            && body[i + 4] == 0x6d {
            assert(marker_at(body@, i as int));
            return true;
        }
        i = i + 1;
    }
    assert forall|j: int| !marker_at(body@, j) by {
        if 0 <= j < i {
        }
    }
    false
}

/// Whether control-surface debugging is enabled: the companion's install
/// directory was found and the enablement marker file exists in it
/// (`marker_exists` is the filesystem's answer for that file).
pub fn check_enable_file(install_found: bool, marker_exists: bool) -> (r: bool)
    ensures
        r == (install_found && marker_exists),
{
    install_found && marker_exists
}

} // verus!

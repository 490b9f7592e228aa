//! Which entries of a directory tree the scan visits.

use vstd::prelude::*;

verus! {

/// The bytes of `.py`, the extension of a Python source file.
pub open spec fn python_extension() -> Seq<u8> {
    seq![0x2eu8, 0x70u8, 0x79u8]
}

/// Whether `name` ends with `suffix`.
pub open spec fn ends_with(name: Seq<u8>, suffix: Seq<u8>) -> bool {
    suffix.len() <= name.len() && name.subrange(name.len() - suffix.len(), name.len() as int)
        == suffix
}

/// Whether the scan visits an entry: every directory, and every file whose
/// name ends in `.py`.
pub fn is_python_file(is_directory: bool, file_name: &[u8]) -> (visited: bool)
    ensures
        visited == (is_directory || ends_with(file_name@, python_extension())),
{
    if is_directory {
        return true;
    }
    let n: usize = file_name.len();
    if n < 3 {
        return false;
    }
    let ends_in_py: bool = file_name[n - 3] == 0x2e && file_name[n - 2] == 0x70 && file_name[n - 1]
        == 0x79;
    proof {
        let tail = file_name@.subrange(n - 3, n as int);
        assert(tail[0] == file_name@[n - 3]);
        assert(tail[1] == file_name@[n - 2]);
        assert(tail[2] == file_name@[n - 1]);
        if ends_in_py {
            assert(tail =~= python_extension());
        }
    }
    ends_in_py
}

} // verus!

//! Confinement of peer-supplied filenames.
//!
//! PDUs carry filenames chosen by the remote peer. Before either side touches
//! the file system under such a name, the name must be confined to the
//! process's designated storage directory: it must be a plain, non-empty
//! component, with no path separators and no way to name the directory
//! itself or its parent. Both state machines reject PDUs that fail this
//! check instead of handing the name to the file system.

use vstd::prelude::*;
use vstd::string::StrSliceExecFns;

verus! {

/// A filename stays inside the designated storage directory: it is
/// non-empty, is not `.` or `..`, and contains no path separator.
pub open spec fn spec_filename_safe(name: Seq<char>) -> bool {
    &&& 0 < name.len()
    &&& name != seq!['.']
    &&& name != seq!['.', '.']
    &&& forall|i: int| 0 <= i < name.len() ==> name[i] != '/' && name[i] != '\\'
}

/// Decides [`spec_filename_safe`].
pub fn filename_is_safe(name: &String) -> (r: bool)
    ensures
        r == spec_filename_safe(name@),
{
    let s = name.as_str();
    let n = s.unicode_len();
    if n == 0 {
        return false;
    }
    if n == 1 && s.get_char(0) == '.' {
        proof {
            assert(name@ =~= seq!['.']);
        }
        return false;
    }
    if n == 2 && s.get_char(0) == '.' && s.get_char(1) == '.' {
        proof {
            assert(name@ =~= seq!['.', '.']);
        }
        return false;
    }
    let mut i: usize = 0;
    while i < n
        invariant
            i <= n,
            n == name@.len(),
            s@ == name@,
            forall|j: int| 0 <= j < i ==> name@[j] != '/' && name@[j] != '\\',
        decreases n - i,
    {
        let c = s.get_char(i);
        if c == '/' || c == '\\' {
            return false;
        }
        i = i + 1;
    }
    proof {
        if name@ == seq!['.'] {
            assert(name@[0] == '.');
        }
        if name@ == seq!['.', '.'] {
            assert(name@[0] == '.' && name@[1] == '.');
        }
    }
    true
}

} // verus!

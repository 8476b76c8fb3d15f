//! Splitting local paths into directory, file stem and extension, the way
//! the rename machinery rebuilds them.

use vstd::prelude::*;
use vstd::string::StrSliceExecFns;
use vstd::string::StringExecFns;

verus! {

/// Index where the file name of `path` starts: just past the last `'/'`,
/// or 0 when the path has no separator.
fn name_start(path: &str) -> (i: usize)
    ensures
        i <= path@.len(),
        forall|k: int| i <= k < path@.len() ==> path@[k] != '/',
        i > 0 ==> path@[i - 1] == '/',
{
    let n = path.unicode_len();
    let mut i: usize = n;
    while i > 0
        invariant
            i <= n,
            n == path@.len(),
            forall|k: int| i <= k < path@.len() ==> path@[k] != '/',
        decreases i,
    {
        if path.get_char(i - 1) == '/' {
            return i;
        }
        i = i - 1;
    }
    0
}

/// How a path splits into its directory part (empty, or ending with `'/'`)
/// and its file name (free of `'/'`).  The three conditions determine the
/// split uniquely.
pub open spec fn dir_name_split(path: Seq<char>, dir: Seq<char>, name: Seq<char>) -> bool {
    &&& dir + name == path
    &&& forall|k: int| 0 <= k < name.len() ==> name[k] != '/'
    &&& dir.len() == 0 || dir[dir.len() - 1] == '/'
}

/// Split a path into its directory part and its file name.
pub fn split_dir_name(path: &str) -> (r: (String, String))
    ensures
        dir_name_split(path@, r.0@, r.1@),
{
    let n = path.unicode_len();
    let i = name_start(path);
    let dir = String::from_str(path.substring_char(0, i));
    let name = String::from_str(path.substring_char(i, n));
    proof {
        assert(dir@ + name@ =~= path@);
    }
    (dir, name)
}

/// Index just past the dot that starts the extension of `name`, if any: the
/// last `'.'` of the name, unless it is the name's first character.
fn ext_start(name: &str) -> (r: Option<usize>)
    ensures
        match r {
            Some(j) => 1 <= j < name@.len() && name@[j as int] == '.' && (forall|k: int|
                j < k < name@.len() ==> name@[k] != '.'),
            None => forall|k: int| 1 <= k < name@.len() ==> name@[k] != '.',
        },
{
    let n = name.unicode_len();
    let mut i: usize = n;
    while i > 1
        invariant
            i <= n,
            n == name@.len(),
            forall|k: int| i <= k < name@.len() ==> name@[k] != '.',
        decreases i,
    {
        if name.get_char(i - 1) == '.' {
            return Some(i - 1);
        }
        i = i - 1;
    }
    None
}

/// Split a file name into stem and extension the way the target filesystem
/// reads it: the extension is what follows the last dot, except that a dot
/// at the very start of the name (a hidden file) begins no extension.
/// The stated conditions determine the split uniquely.
pub fn split_stem_ext(name: &str) -> (r: (String, Option<String>))
    ensures
        match r.1 {
            Some(e) => r.0@.len() >= 1 && name@ == r.0@ + seq!['.'] + e@ && (forall|k: int|
                0 <= k < e@.len() ==> e@[k] != '.'),
            None => r.0@ == name@ && (forall|k: int| 1 <= k < name@.len() ==> name@[k] != '.'),
        },
{
    let n = name.unicode_len();
    match ext_start(name) {
        Some(j) => {
            let stem = String::from_str(name.substring_char(0, j));
            let ext = String::from_str(name.substring_char(j + 1, n));
            proof {
                assert(name@ =~= stem@ + seq!['.'] + ext@);
            }
            (stem, Some(ext))
        },
        None => (String::from_str(name), None),
    }
}

} // verus!

//! Windows paths as text.
use crate::text::{chars_of, joined};
use vstd::prelude::*;

verus! {

/// Whether nothing has to be put between a directory and a name in it: the
/// directory is not given, ends in a separator, or is a bare drive.
pub open spec fn joins_directly(dir: Seq<char>) -> bool {
    ||| dir.len() == 0
    ||| dir.last() == '\\'
    ||| dir.last() == '/'
    ||| dir.len() == 2 && is_letter(dir[0]) && dir[1] == ':'
}

/// An ASCII letter.
pub open spec fn is_letter(c: char) -> bool {
    'a' <= c <= 'z' || 'A' <= c <= 'Z'
}

/// The path of the relative `name` in the directory `dir`.
pub open spec fn path_in(dir: Seq<char>, name: Seq<char>) -> Seq<char> {
    if joins_directly(dir) {
        dir + name
    } else {
        dir + "\\"@ + name
    }
}

/// The path of the relative `name` in the directory `dir`.
pub fn join(dir: &str, name: &str) -> (path: String)
    ensures
        path@ == path_in(dir@, name@),
{
    let chars = chars_of(dir);
    let n: usize = chars.len();
    let direct = if n == 0 {
        true
    } else if chars[n - 1] == '\\' || chars[n - 1] == '/' {
        true
    } else {
        n == 2 && (('a' <= chars[0] && chars[0] <= 'z') || ('A' <= chars[0] && chars[0] <= 'Z'))
            && chars[1] == ':'
    };
    if direct {
        joined(dir, name)
    } else {
        joined(joined(dir, "\\").as_str(), name)
    }
}

/// A path in a directory begins with the directory and ends with the name, with one
/// backslash between them unless the directory ends with a separator of its own, is a bare
/// drive, or is empty.
pub proof fn paths_have_one_separator(dir: Seq<char>, name: Seq<char>)
    ensures
        ({
            let path = path_in(dir, name);
            let direct = dir.len() == 0 || dir.last() == '\\' || dir.last() == '/' || (dir.len()
                == 2 && ('a' <= dir[0] <= 'z' || 'A' <= dir[0] <= 'Z') && dir[1] == ':');
            &&& path.len() == dir.len() + name.len() + if direct {
                0int
            } else {
                1
            }
            &&& path.subrange(0, dir.len() as int) == dir
            &&& path.subrange(path.len() - name.len(), path.len() as int) == name
            &&& !direct ==> path[dir.len() as int] == '\\'
        }),
{
    reveal_strlit("\\");
    let path = path_in(dir, name);
    assert(path.subrange(0, dir.len() as int) =~= dir);
    assert(path.subrange(path.len() - name.len(), path.len() as int) =~= name);
}

} // verus!

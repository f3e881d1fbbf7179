//! Where an entry is written: the path relative to the source root, mirrored
//! under the destination, without its compression suffix, and with the text
//! extension where the entry was decoded.

use vstd::prelude::*;
use vstd::string::StrSliceExecFns;
use vstd::string::StringExecFns;
use crate::text::{ends_with, has_suffix};

verus! {

/// The name shows that the content is compressed.
pub open spec fn shows_compression(name: Seq<char>) -> bool {
    ends_with(name, ".zs"@)
}

/// The path without its compression suffix, if it has one.
pub open spec fn without_compression(path: Seq<char>) -> Seq<char> {
    if shows_compression(path) {
        path.subrange(0, path.len() - 3)
    } else {
        path
    }
}

/// Where the extension of the last component starts, scanning back from
/// index `i`: at the last `.` that is not the component's first character.
/// A component without such a `.` has no extension, and the result is the
/// path's length.
pub open spec fn extension_start_from(path: Seq<char>, i: int) -> int
    decreases i,
{
    if i <= 0 || i > path.len() {
        path.len() as int
    } else if path[i - 1] == '/' {
        path.len() as int
    } else if path[i - 1] == '.' {
        if i - 1 == 0 || path[i - 2] == '/' {
            path.len() as int
        } else {
            i - 1
        }
    } else {
        extension_start_from(path, i - 1)
    }
}

/// Where the extension of the path's last component starts.
pub open spec fn extension_start(path: Seq<char>) -> int {
    extension_start_from(path, path.len() as int)
}

/// The path with the extension of its last component replaced by `.yml`.
pub open spec fn with_text_extension(path: Seq<char>) -> Seq<char> {
    path.subrange(0, extension_start(path)) + ".yml"@
}

/// `name` below the directory `dir`; below the empty directory it is `name`.
pub open spec fn joined(dir: Seq<char>, name: Seq<char>) -> Seq<char> {
    if dir.len() == 0 {
        name
    } else {
        dir + "/"@ + name
    }
}

/// The start of an extension lies inside the path, or is its length.
pub proof fn lemma_extension_start_bounds(path: Seq<char>, i: int)
    ensures
        0 <= extension_start_from(path, i) <= path.len(),
    decreases i,
{
    if 0 < i <= path.len() && path[i - 1] != '/' && path[i - 1] != '.' {
        lemma_extension_start_bounds(path, i - 1);
    }
}

/// An extension starts at a `.` that is not the first character of its
/// component, and neither `.` nor `/` comes after it up to `i`.
pub proof fn lemma_extension_start_is_last_dot(path: Seq<char>, i: int)
    requires
        0 <= i <= path.len(),
    ensures
        ({
            let cut = extension_start_from(path, i);
            cut < path.len() ==> {
                &&& 0 < cut < i
                &&& path[cut] == '.'
                &&& path[cut - 1] != '/'
                &&& forall|j: int| cut < j < i ==> path[j] != '.' && path[j] != '/'
            }
        }),
    decreases i,
{
    if 0 < i && path[i - 1] != '/' && path[i - 1] != '.' {
        lemma_extension_start_is_last_dot(path, i - 1);
    }
}

/// The text path keeps everything before the extension, adds four
/// characters to it, and ends in `.yml`.
pub proof fn lemma_text_path_keeps_prefix(path: Seq<char>)
    ensures
        with_text_extension(path).len() == extension_start(path) + 4,
        forall|j: int| 0 <= j < extension_start(path) ==> with_text_extension(path)[j] == path[j],
        ends_with(with_text_extension(path), ".yml"@),
{
    reveal_strlit(".yml");
    lemma_extension_start_bounds(path, path.len() as int);
    let out = with_text_extension(path);
    assert(out.subrange(out.len() - 4, out.len() as int) =~= ".yml"@);
}

/// Whether the name ends in the compression suffix.
pub fn is_compressed_name(name: &str) -> (r: bool)
    ensures
        r == shows_compression(name@),
{
    has_suffix(name, ".zs")
}

/// Drops the compression suffix from a path that has one.
pub fn strip_compression(path: &str) -> (out: String)
    ensures
        out@ == without_compression(path@),
{
    if has_suffix(path, ".zs") {
        proof {
            reveal_strlit(".zs");
        }
        let n: usize = path.unicode_len();
        String::from_str(path.substring_char(0, n - 3))
    } else {
        String::from_str(path)
    }
}

/// Replaces the extension of the path's last component by `.yml`.
pub fn text_path(path: &str) -> (out: String)
    ensures
        out@ == with_text_extension(path@),
{
    let n: usize = path.unicode_len();
    let mut i: usize = n;
    let mut cut: usize = n;
    while i > 0
        invariant_except_break
            i <= n,
            cut == n,
            extension_start_from(path@, i as int) == extension_start(path@),
        invariant
            n == path@.len(),
        ensures
            cut as int == extension_start(path@),
        decreases i,
    {
        let c: char = path.get_char(i - 1);
        if c == '/' {
            break ;
        } else if c == '.' {
            if i - 1 > 0 {
                let before: char = path.get_char(i - 2);
                if before != '/' {
                    cut = i - 1;
                }
            }
            break ;
        }
        i -= 1;
    }
    proof {
        lemma_extension_start_bounds(path@, path@.len() as int);
    }
    let mut out: String = String::from_str(path.substring_char(0, cut));
    out.append(".yml");
    out
}

/// The path of `name` below `dir`.
pub fn join(dir: &str, name: &str) -> (out: String)
    ensures
        out@ == joined(dir@, name@),
{
    if dir.unicode_len() == 0 {
        String::from_str(name)
    } else {
        let mut out: String = String::from_str(dir);
        out.append("/");
        out.append(name);
        out
    }
}

} // verus!

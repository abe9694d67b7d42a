//! Paths as text. Splitting a path into its parent and its last component
//! is left to the standard library; what is read off the last component is
//! done here.

use vstd::prelude::*;
use vstd::string::*;
use crate::text::{chars_of, string_of};

verus! {

/// The last component of a path as `std::path::Path::file_name` gives it
/// on the platform the library is built for; `None` where the path has none.
pub uninterp spec fn path_file_name(path: Seq<char>) -> Option<Seq<char>>;

/// The path without its last component as `std::path::Path::parent` gives
/// it on the platform the library is built for; `None` where the path ends in
/// a root or is empty.
pub uninterp spec fn path_parent(path: Seq<char>) -> Option<Seq<char>>;

/// Whether the components of `base` are the first components of `path`, as
/// `std::path::Path::starts_with` tells on the platform the library is built
/// for.
pub uninterp spec fn path_starts_with(path: Seq<char>, base: Seq<char>) -> bool;

/// `Path::starts_with` of the paths that the texts write.
#[verifier::external_body]
pub(crate) fn starts_with(path: &str, base: &str) -> (r: bool)
    ensures
        r == path_starts_with(path@, base@),
{
    std::path::Path::new(path).starts_with(std::path::Path::new(base))
}

/// `Path::file_name` of the path that the text writes. The component is
/// text again, since the path is.
#[verifier::external_body]
pub(crate) fn file_name(path: &str) -> (r: Option<String>)
    ensures
        match r {
            Some(name) => path_file_name(path@) == Some(name@),
            None => path_file_name(path@) is None,
        },
{
    std::path::Path::new(path).file_name().map(|name| name.to_string_lossy().into_owned())
}

/// `Path::parent` of the path that the text writes.
#[verifier::external_body]
pub(crate) fn parent(path: &str) -> (r: Option<String>)
    ensures
        match r {
            Some(dir) => path_parent(path@) == Some(dir@),
            None => path_parent(path@) is None,
        },
{
    std::path::Path::new(path).parent().map(|dir| dir.to_string_lossy().into_owned())
}

/// Position of the last `c` in a name, if it has one.
pub open spec fn last_of(name: Seq<char>, c: char) -> Option<int>
    decreases name.len(),
{
    if name.len() == 0 {
        None
    } else if name.last() == c {
        Some(name.len() - 1)
    } else {
        last_of(name.drop_last(), c)
    }
}

/// Position of the last `.` in a name, if it has one.
pub open spec fn last_dot(name: Seq<char>) -> Option<int> {
    last_of(name, '.')
}

/// Where the last component of a name begins: after its last `/`, or at
/// its front where it has none.
pub open spec fn last_component_start(name: Seq<char>) -> int {
    match last_of(name, '/') {
        Some(i) => i + 1,
        None => 0,
    }
}

/// The name of the file that lies beside a file and differs from it in the
/// extension only: what stands before the last component stays, and the stem
/// of the last component gets the new extension.
pub open spec fn sibling_name(name: Seq<char>, extension: Seq<char>) -> Seq<char> {
    name.take(last_component_start(name)) + name_stem(name.skip(last_component_start(name)))
        + "."@ + extension
}

/// The extension of a file name: what follows its last `.`, unless the name
/// has no `.` or only the one it begins with.
pub open spec fn name_extension(name: Seq<char>) -> Option<Seq<char>> {
    match last_dot(name) {
        Some(i) => if i > 0 {
            Some(name.skip(i + 1))
        } else {
            None
        },
        None => None,
    }
}

/// The stem of a file name: what precedes its last `.`, or the whole name
/// where it has no extension.
pub open spec fn name_stem(name: Seq<char>) -> Seq<char> {
    match last_dot(name) {
        Some(i) => if i > 0 {
            name.take(i)
        } else {
            name
        },
        None => name,
    }
}

/// The extension of a path: that of its last component.
pub open spec fn path_extension(path: Seq<char>) -> Option<Seq<char>> {
    match path_file_name(path) {
        Some(name) => name_extension(name),
        None => None,
    }
}

/// The stem of a path: that of its last component.
pub open spec fn path_stem(path: Seq<char>) -> Option<Seq<char>> {
    match path_file_name(path) {
        Some(name) => Some(name_stem(name)),
        None => None,
    }
}

/// In a name whose last `j` characters are not `c`, the last `c` is that
/// of the rest.
proof fn lemma_last_of_skips(name: Seq<char>, c: char, j: int)
    requires
        0 <= j <= name.len(),
        forall|k: int| name.len() - j <= k < name.len() ==> name[k] != c,
    ensures
        last_of(name, c) == last_of(name.take(name.len() - j), c),
    decreases j,
{
    if j > 0 {
        let rest = name.drop_last();
        assert forall|k: int| rest.len() - (j - 1) <= k < rest.len() implies rest[k] != c by {
            assert(rest[k] == name[k]);
        }
        lemma_last_of_skips(rest, c, j - 1);
        assert(rest.take(rest.len() - (j - 1)) =~= name.take(name.len() - j));
    } else {
        assert(name.take(name.len() as int) =~= name);
    }
}

fn find_last(name: &Vec<char>, c: char) -> (r: Option<usize>)
    ensures
        match r {
            Some(i) => last_of(name@, c) == Some(i as int) && i < name.len(),
            None => last_of(name@, c) is None,
        },
{
    let mut end: usize = name.len();
    while end > 0
        invariant
            end <= name.len(),
            forall|k: int| end <= k < name.len() ==> name@[k] != c,
        decreases end,
    {
        if name[end - 1] == c {
            proof {
                lemma_last_of_skips(name@, c, name.len() - end);
                let head = name@.take(end as int);
                assert(head.last() == c);
            }
            return Some(end - 1);
        }
        end -= 1;
    }
    proof {
        lemma_last_of_skips(name@, c, name.len() as int);
        assert(name@.take(0).len() == 0);
    }
    None
}

fn find_last_dot(name: &Vec<char>) -> (r: Option<usize>)
    ensures
        match r {
            Some(i) => last_dot(name@) == Some(i as int) && i < name.len(),
            None => last_dot(name@) is None,
        },
{
    find_last(name, '.')
}

fn slice_string(chars: &Vec<char>, from: usize, to: usize) -> (r: String)
    requires
        from <= to <= chars.len(),
    ensures
        r@ == chars@.subrange(from as int, to as int),
{
    let mut out: Vec<char> = Vec::new();
    let mut i: usize = from;
    while i < to
        invariant
            from <= i <= to <= chars.len(),
            out@ == chars@.subrange(from as int, i as int),
        decreases to - i,
    {
        out.push(chars[i]);
        assert(chars@.subrange(from as int, i + 1) == chars@.subrange(from as int, i as int).push(
            chars@[i as int],
        ));
        i += 1;
    }
    string_of(&out)
}

/// The extension of a file name.
pub fn extension_of_name(name: &str) -> (r: Option<String>)
    ensures
        match r {
            Some(ext) => name_extension(name@) == Some(ext@),
            None => name_extension(name@) is None,
        },
{
    let chars = chars_of(name);
    match find_last_dot(&chars) {
        Some(i) => if i > 0 {
            let ext = slice_string(&chars, i + 1, chars.len());
            assert(chars@.subrange(i + 1, chars@.len() as int) == chars@.skip(i + 1));
            Some(ext)
        } else {
            None
        },
        None => None,
    }
}

/// The stem of a file name.
pub fn stem(name: &str) -> (r: String)
    ensures
        r@ == name_stem(name@),
{
    let chars = chars_of(name);
    match find_last_dot(&chars) {
        Some(i) => if i > 0 {
            let head = slice_string(&chars, 0, i);
            assert(chars@.subrange(0, i as int) == chars@.take(i as int));
            head
        } else {
            String::from_str(name)
        },
        None => String::from_str(name),
    }
}

/// The extension of a path.
pub fn extension(path: &str) -> (r: Option<String>)
    ensures
        match r {
            Some(ext) => path_extension(path@) == Some(ext@),
            None => path_extension(path@) is None,
        },
{
    match file_name(path) {
        Some(name) => extension_of_name(name.as_str()),
        None => None,
    }
}

/// The stem of a path.
pub fn file_stem(path: &str) -> (r: Option<String>)
    ensures
        match r {
            Some(stem) => path_stem(path@) == Some(stem@),
            None => path_stem(path@) is None,
        },
{
    match file_name(path) {
        Some(name) => Some(stem(name.as_str())),
        None => None,
    }
}

/// The name of the file that lies beside a file and differs from it in the
/// extension only.
pub fn sibling(name: &str, extension: &str) -> (r: String)
    ensures
        r@ == sibling_name(name@, extension@),
{
    let chars = chars_of(name);
    let start: usize = match find_last(&chars, '/') {
        Some(i) => i + 1,
        None => 0,
    };
    let mut out = slice_string(&chars, 0, start);
    let last = slice_string(&chars, start, chars.len());
    let last_stem = stem(last.as_str());
    out.append(last_stem.as_str());
    out.append(".");
    out.append(extension);
    proof {
        assert(chars@.subrange(0, start as int) == name@.take(start as int));
        assert(chars@.subrange(start as int, chars@.len() as int) == name@.skip(start as int));
    }
    out
}

/// A directory and a name below it, as one path.
pub open spec fn joined_path(dir: Seq<char>, name: Seq<char>) -> Seq<char> {
    dir + "/"@ + name
}

/// Puts a name below a directory.
pub fn join_path(dir: &str, name: &str) -> (r: String)
    ensures
        r@ == joined_path(dir@, name@),
{
    let mut path = String::from_str(dir);
    path.append("/");
    path.append(name);
    path
}

} // verus!

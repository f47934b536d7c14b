//! Paths as text: joining, and the check that keeps a name from leaving its
//! directory.
use vstd::prelude::*;

use crate::text::{chars_of, contains_char, same, strip_prefix};

verus! {

/// A path with one more segment, as `PathBuf::push` puts them together: an
/// absolute segment replaces the path, any other is set apart by one slash.
pub open spec fn joined(base: Seq<char>, segment: Seq<char>) -> Seq<char> {
    if segment.len() > 0 && segment[0] == '/' {
        segment
    } else if base.len() == 0 || base.last() == '/' {
        base + segment
    } else {
        base + "/"@ + segment
    }
}

pub fn join(base: &str, segment: &str) -> (r: String)
    ensures
        r@ == joined(base@, segment@),
{
    let segment_chars = chars_of(segment);
    let base_chars = chars_of(base);
    if segment_chars.len() > 0 && segment_chars[0] == '/' {
        segment.to_owned()
    } else if base_chars.len() == 0 || base_chars[base_chars.len() - 1] == '/' {
        base.to_owned().concat(segment)
    } else {
        base.to_owned().concat("/").concat(segment)
    }
}

/// A plain file or directory name: one path component that is neither empty
/// nor `.` nor `..` and holds neither a separator nor a NUL.
pub open spec fn plain_name(name: Seq<char>) -> bool {
    &&& name.len() > 0
    &&& !name.contains('\0')
    &&& !name.contains('/')
    &&& name != "."@
    &&& name != ".."@
}

pub fn is_plain_name(name: &str) -> (r: bool)
    ensures
        r == plain_name(name@),
{
    !name.is_empty() && !contains_char(name, '\0') && !contains_char(name, '/') && !same(name, ".")
        && !same(name, "..")
}

/// `path` is `root` or lies below it, both being resolved absolute paths.
pub open spec fn within(path: Seq<char>, root: Seq<char>) -> bool {
    path == root || joined(root, Seq::empty()).is_prefix_of(path)
}

pub fn is_within(path: &str, root: &str) -> (r: bool)
    ensures
        r == within(path@, root@),
{
    if same(path, root) {
        return true;
    }
    let empty = String::new();
    assert(empty@ == Seq::<char>::empty());
    let below = join(root, empty.as_str());
    strip_prefix(path, below.as_str()).is_some()
}

/// Joining keeps what is joined: an absolute segment alone, and a relative one
/// after the base with exactly one slash between them where the base is not
/// empty.
pub proof fn law_joining_paths(base: Seq<char>, segment: Seq<char>)
    ensures
        segment.len() > 0 && segment[0] == '/' ==> joined(base, segment) == segment,
        !(segment.len() > 0 && segment[0] == '/') && base.len() == 0 ==> joined(base, segment)
            == segment,
        !(segment.len() > 0 && segment[0] == '/') && base.len() > 0 && base.last() == '/'
            ==> joined(base, segment) == base + segment,
        !(segment.len() > 0 && segment[0] == '/') && base.len() > 0 && base.last() != '/'
            ==> joined(base, segment) == base + seq!['/'] + segment,
{
    reveal_strlit("/");
    assert("/"@ == seq!['/']);
    if base.len() == 0 {
        assert(base + segment == segment);
    }
}

/// What lies within a directory is the directory itself or goes on after it with
/// a slash: a sibling whose name only starts alike does not.
pub proof fn law_siblings_are_outside(path: Seq<char>, root: Seq<char>)
    requires
        root.len() > 0,
        root.last() != '/',
    ensures
        within(path, root) <==> path == root || (path.len() > root.len() && path.take(
            root.len() as int,
        ) == root && path[root.len() as int] == '/'),
{
    reveal_strlit("/");
    let below = joined(root, Seq::empty());
    assert(below == root.push('/'));
    if below.is_prefix_of(path) {
        assert(path.take(root.len() as int) == below.take(root.len() as int));
        assert(below.take(root.len() as int) == root);
        assert(path[root.len() as int] == below[root.len() as int]);
    }
    if path.len() > root.len() && path.take(root.len() as int) == root && path[root.len() as int]
        == '/' {
        assert(path.take(root.len() as int + 1) == below);
        assert(below.is_prefix_of(path));
    }
}

} // verus!

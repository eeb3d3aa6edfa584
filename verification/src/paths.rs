//! Path handling on plain text: the extension of an input path (which
//! the output clips inherit, with a fixed fallback) and joining the
//! output directory with a file name.

use vstd::prelude::*;
use vstd::string::*;

verus! {

/// The last position of `c` in `s`, or -1 when `c` does not occur.
pub open spec fn last_index_of(s: Seq<char>, c: char) -> int
    decreases s.len(),
{
    if s.len() == 0 {
        -1
    } else if s.last() == c {
        s.len() - 1
    } else {
        last_index_of(s.drop_last(), c)
    }
}

/// The file-name part of `path`: everything after the last `'/'`.
pub open spec fn file_name_spec(path: Seq<char>) -> Seq<char> {
    path.subrange(last_index_of(path, '/') + 1, path.len() as int)
}

/// The extension of `path`: what follows the last `'.'` of its file
/// name, unless that dot is missing or starts the file name (a leading
/// dot marks a hidden file, not an extension).
pub open spec fn extension_spec(path: Seq<char>) -> Option<Seq<char>> {
    let name = file_name_spec(path);
    let d = last_index_of(name, '.');
    if d <= 0 {
        None
    } else {
        Some(name.subrange(d + 1, name.len() as int))
    }
}

/// The extension the output clips carry: the input's own extension, or
/// `"mp4"` when the input has none.
pub open spec fn extension_or_default_spec(path: Seq<char>) -> Seq<char> {
    match extension_spec(path) {
        Some(e) => e,
        None => "mp4"@,
    }
}

/// `dir` and `name` joined with a single `'/'`.
pub open spec fn join_path_spec(dir: Seq<char>, name: Seq<char>) -> Seq<char> {
    dir + seq!['/'] + name
}

/// The last position of `c` in `s`, or `None` when `c` does not occur.
fn find_last(s: &str, c: char) -> (r: Option<usize>)
    requires
        s@.len() <= usize::MAX,
    ensures
        r matches Some(i) ==> i == last_index_of(s@, c) && 0 <= i < s@.len(),
        r is None ==> last_index_of(s@, c) == -1,
{
    let len = s.unicode_len();
    let mut i: usize = len;
    proof {
        assert(s@.take(len as int) =~= s@);
    }
    while i > 0
        invariant
            i <= len,
            len == s@.len(),
            last_index_of(s@, c) == last_index_of(s@.take(i as int), c),
        decreases i,
    {
        proof {
            assert(s@.take(i as int).last() == s@[i - 1]);
            assert(s@.take(i as int).drop_last() =~= s@.take(i - 1));
        }
        if s.get_char(i - 1) == c {
            return Some(i - 1);
        }
        i -= 1;
    }
    proof {
        assert(s@.take(0) =~= Seq::<char>::empty());
    }
    None
}

/// The extension of `path`, as `extension_spec` describes it.
pub fn extension_of(path: &str) -> (r: Option<String>)
    ensures
        (r matches Some(e) ==> (extension_spec(path@) matches Some(s) && e@ == s)),
        r is None ==> extension_spec(path@) is None,
{
    let len = path.unicode_len();
    let start = match find_last(path, '/') {
        Some(i) => i + 1,
        None => 0,
    };
    let name = path.substring_char(start, len);
    proof {
        assert(name@ =~= file_name_spec(path@));
    }
    let name_len = name.unicode_len();
    match find_last(name, '.') {
        Some(d) if d > 0 => {
            let ext = name.substring_char(d + 1, name_len);
            Some(ext.to_owned())
        },
        _ => None,
    }
}

/// The extension the output clips carry: the input's own, or `"mp4"`.
pub fn extension_or_default(path: &str) -> (r: String)
    ensures
        r@ == extension_or_default_spec(path@),
{
    match extension_of(path) {
        Some(e) => e,
        None => "mp4".to_owned(),
    }
}

/// Joins the output directory and a file name with a single `'/'`.
pub fn join_path(dir: &str, name: &str) -> (r: String)
    ensures
        r@ == join_path_spec(dir@, name@),
{
    proof {
        reveal_strlit("/");
    }
    let mut r = dir.to_owned();
    r.append("/");
    r.append(name);
    proof {
        assert(r@ =~= join_path_spec(dir@, name@));
    }
    r
}

} // verus!

//! Plain text scanning: substring search, and the classification of the
//! extraction tool's diagnostic output.

use vstd::prelude::*;
use vstd::string::*;

verus! {

/// `needle` occurs contiguously somewhere in `hay`.
pub open spec fn contains_seq(hay: Seq<char>, needle: Seq<char>) -> bool {
    exists|i: int|
        0 <= i && i + needle.len() <= hay.len() && #[trigger] hay.subrange(i, i + needle.len())
            == needle
}

/// The extraction tool prints a diagnostic containing this phrase when a
/// requested clip window lies wholly past the end of the source; that
/// failure is expected on the tail and is not an error.
pub open spec fn benign_tail_diagnostic(diag: Seq<char>) -> bool {
    contains_seq(diag, "Output file is empty"@)
}

/// Does `hay` match `needle` character for character at position `at`?
fn matches_at(hay: &str, at: usize, needle: &str) -> (r: bool)
    requires
        at + needle@.len() <= hay@.len(),
        hay@.len() <= usize::MAX,
    ensures
        r == (hay@.subrange(at as int, at + needle@.len()) == needle@),
{
    let nl = needle.unicode_len();
    let mut j: usize = 0;
    while j < nl
        invariant
            j <= nl,
            nl == needle@.len(),
            at + nl <= hay@.len(),
            hay@.len() <= usize::MAX,
            forall|t: int| 0 <= t < j ==> hay@[at + t] == needle@[t],
        decreases nl - j,
    {
        if hay.get_char(at + j) != needle.get_char(j) {
            proof {
                assert(hay@.subrange(at as int, at + needle@.len())[j as int] == hay@[at + j]);
            }
            return false;
        }
        j += 1;
    }
    proof {
        assert(hay@.subrange(at as int, at + needle@.len()) =~= needle@);
    }
    true
}

/// Substring search: does `needle` occur anywhere in `hay`?
pub fn contains_str(hay: &str, needle: &str) -> (r: bool)
    ensures
        r == contains_seq(hay@, needle@),
{
    let hl = hay.unicode_len();
    let nl = needle.unicode_len();
    if nl > hl {
        return false;
    }
    if nl == 0 {
        proof {
            assert(hay@.subrange(0, 0 + needle@.len() as int) =~= needle@);
        }
        return true;
    }
    let mut i: usize = 0;
    while i <= hl - nl
        invariant
            1 <= nl <= hl,
            hl == hay@.len(),
            nl == needle@.len(),
            i <= hl - nl + 1,
            forall|k: int|
                0 <= k < i ==> #[trigger] hay@.subrange(k, k + needle@.len()) != needle@,
        decreases hl - nl + 1 - i,
    {
        if matches_at(hay, i, needle) {
            return true;
        }
        i += 1;
    }
    false
}

/// Classifies the extraction tool's diagnostic text: `true` exactly when
/// it reports the benign past-end-of-source condition.
pub fn is_benign_tail_diagnostic(diag: &str) -> (r: bool)
    ensures
        r == benign_tail_diagnostic(diag@),
{
    contains_str(diag, "Output file is empty")
}

} // verus!

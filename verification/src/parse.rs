//! Parsing the probing tool's output: one decimal duration in seconds,
//! surrounded by optional whitespace, turned into whole milliseconds.
//!
//! The accepted shape is one or more digits, optionally followed by a
//! dot and any number of fractional digits; fractional digits beyond
//! the millisecond are cut off. Anything else — and any value whose
//! whole-second part has more than sixteen digits, which would exceed
//! the representable range — is malformed output.

use vstd::prelude::*;
use vstd::string::*;
use crate::errors::SplitError;

verus! {

/// A decimal digit character.
pub open spec fn is_digit(c: char) -> bool {
    48 <= c as u32 <= 57
}

/// The numeric value of a digit character.
pub open spec fn digit_val(c: char) -> int {
    c as u32 - 48
}

/// The whitespace the probing tool may print around its one token.
pub open spec fn is_space(c: char) -> bool {
    c == ' ' || c == '\t' || c == '\n' || c == '\r'
}

/// `s` without its leading whitespace.
pub open spec fn trim_start_spec(s: Seq<char>) -> Seq<char>
    decreases s.len(),
{
    if s.len() > 0 && is_space(s[0]) {
        trim_start_spec(s.drop_first())
    } else {
        s
    }
}

/// `s` without its trailing whitespace.
pub open spec fn trim_end_spec(s: Seq<char>) -> Seq<char>
    decreases s.len(),
{
    if s.len() > 0 && is_space(s.last()) {
        trim_end_spec(s.drop_last())
    } else {
        s
    }
}

/// `s` without leading and trailing whitespace.
pub open spec fn trimmed(s: Seq<char>) -> Seq<char> {
    trim_end_spec(trim_start_spec(s))
}

/// The length of the leading run of digits of `s`.
pub open spec fn count_leading_digits(s: Seq<char>) -> int
    decreases s.len(),
{
    if s.len() == 0 || !is_digit(s[0]) {
        0
    } else {
        1 + count_leading_digits(s.drop_first())
    }
}

/// Every character of `s` is a digit.
pub open spec fn all_digits(s: Seq<char>) -> bool {
    forall|i: int| 0 <= i < s.len() ==> is_digit(#[trigger] s[i])
}

/// The number the digit string `s` writes in decimal (0 when empty).
pub open spec fn digits_val(s: Seq<char>) -> int
    decreases s.len(),
{
    if s.len() == 0 {
        0
    } else {
        digits_val(s.drop_last()) * 10 + digit_val(s.last())
    }
}

/// Ten to the `n`.
pub open spec fn pow10(n: nat) -> int
    decreases n,
{
    if n == 0 {
        1
    } else {
        10 * pow10((n - 1) as nat)
    }
}

/// A well-formed duration token: a non-empty run of digits, optionally
/// followed by a dot and digits only.
pub open spec fn valid_duration_text(t: Seq<char>) -> bool {
    let k = count_leading_digits(t);
    &&& k >= 1
    &&& (k == t.len() || (t[k] == '.' && all_digits(t.skip(k + 1))))
}

/// The fractional digit string of a well-formed token (empty when the
/// token has no dot).
pub open spec fn frac_of(t: Seq<char>) -> Seq<char> {
    let k = count_leading_digits(t);
    if k < t.len() {
        t.skip(k + 1)
    } else {
        Seq::empty()
    }
}

/// The milliseconds the fractional digit string `f` contributes: its
/// first three digits, padded with zeros on the right to three.
pub open spec fn frac_millis(f: Seq<char>) -> int {
    if f.len() >= 3 {
        digits_val(f.take(3))
    } else {
        digits_val(f) * pow10((3 - f.len()) as nat)
    }
}

/// The whole milliseconds a well-formed duration token denotes.
pub open spec fn duration_millis_of(t: Seq<char>) -> int {
    digits_val(t.take(count_leading_digits(t))) * 1000 + frac_millis(frac_of(t))
}

/// The whole-second part may carry at most this many digits; more would
/// overflow the millisecond count.
pub open spec fn fits_whole_seconds(t: Seq<char>) -> bool {
    count_leading_digits(t) <= 16
}

proof fn lemma_count_leading_digits_from(s: Seq<char>, p: int)
    requires
        0 <= p <= s.len(),
        forall|i: int| 0 <= i < p ==> is_digit(#[trigger] s[i]),
        p == s.len() || !is_digit(s[p]),
    ensures
        count_leading_digits(s) == p,
    decreases p,
{
    if p == 0 {
    } else {
        assert(is_digit(s[0]));
        lemma_count_leading_digits_from(s.drop_first(), p - 1);
    }
}

fn is_digit_exec(c: char) -> (r: bool)
    ensures
        r == is_digit(c),
{
    let u = c as u32;
    48 <= u && u <= 57
}

fn digit_value(c: char) -> (d: u64)
    requires
        is_digit(c),
    ensures
        d == digit_val(c),
        d < 10,
{
    (c as u32 - 48) as u64
}

fn is_space_exec(c: char) -> (r: bool)
    ensures
        r == is_space(c),
{
    c == ' ' || c == '\t' || c == '\n' || c == '\r'
}

/// Parses the probing tool's raw output as a duration in seconds and
/// returns it in whole milliseconds. Succeeds exactly on well-formed
/// tokens whose whole-second part fits; everything else is
/// `MalformedOutput`.
pub fn parse_duration_millis(raw: &str) -> (r: Result<u64, SplitError>)
    ensures
        r is Ok <==> valid_duration_text(trimmed(raw@)) && fits_whole_seconds(trimmed(raw@)),
        r matches Ok(ms) ==> ms == duration_millis_of(trimmed(raw@)),
        r matches Err(e) ==> e is MalformedOutput,
{
    let len = raw.unicode_len();

    // trim leading whitespace
    let mut a: usize = 0;
    proof {
        assert(raw@.skip(0) =~= raw@);
    }
    while a < len && is_space_exec(raw.get_char(a))
        invariant
            a <= len,
            len == raw@.len(),
            trim_start_spec(raw@) == trim_start_spec(raw@.skip(a as int)),
        decreases len - a,
    {
        proof {
            assert(raw@.skip(a as int)[0] == raw@[a as int]);
            assert(raw@.skip(a as int).drop_first() =~= raw@.skip(a as int + 1));
        }
        a += 1;
    }

    // trim trailing whitespace
    let mut b: usize = len;
    proof {
        assert(raw@.skip(a as int) =~= raw@.subrange(a as int, len as int));
    }
    while b > a && is_space_exec(raw.get_char(b - 1))
        invariant
            a <= b <= len,
            len == raw@.len(),
            trim_start_spec(raw@) == trim_start_spec(raw@.skip(a as int)),
            trim_end_spec(raw@.skip(a as int)) == trim_end_spec(
                raw@.subrange(a as int, b as int),
            ),
        decreases b,
    {
        proof {
            assert(raw@.subrange(a as int, b as int).last() == raw@[b - 1]);
            assert(raw@.subrange(a as int, b as int).drop_last() =~= raw@.subrange(
                a as int,
                b as int - 1,
            ));
        }
        b -= 1;
    }
    proof {
        assert(raw@.skip(a as int) =~= raw@.subrange(a as int, len as int));
        assert(trimmed(raw@) == raw@.subrange(a as int, b as int));
    }

    let t = raw.substring_char(a, b);
    let ghost tv = trimmed(raw@);
    proof {
        assert(t@ == tv);
    }
    let m = t.unicode_len();

    // measure the leading digit run
    let mut k: usize = 0;
    while k < m && is_digit_exec(t.get_char(k))
        invariant
            k <= m,
            m == t@.len(),
            forall|i: int| 0 <= i < k ==> is_digit(#[trigger] t@[i]),
        decreases m - k,
    {
        k += 1;
    }
    proof {
        lemma_count_leading_digits_from(t@, k as int);
    }
    if k == 0 || k > 16 {
        return Err(SplitError::MalformedOutput);
    }

    // whole seconds
    proof {
        reveal_with_fuel(pow10, 18);
    }
    let mut p: usize = 0;
    let mut acc: u64 = 0;
    while p < k
        invariant
            p <= k <= 16,
            k <= m == t@.len(),
            forall|i: int| 0 <= i < k ==> is_digit(#[trigger] t@[i]),
            acc == digits_val(t@.take(p as int)),
            acc < pow10(p as nat),
            pow10(16) == 10000000000000000,
            forall|n: nat| n < 16 ==> 10 * #[trigger] pow10(n) == pow10((n + 1) as nat),
        decreases k - p,
    {
        let d = digit_value(t.get_char(p));
        proof {
            assert(t@.take(p as int + 1).drop_last() =~= t@.take(p as int));
            assert(t@.take(p as int + 1).last() == t@[p as int]);
        }
        acc = acc * 10 + d;
        p += 1;
    }

    // fractional digits
    let mut fm: u64 = 0;
    let mut fd: u64 = 0;
    let ghost f = frac_of(tv);
    if k < m {
        if t.get_char(k) != '.' {
            return Err(SplitError::MalformedOutput);
        }
        proof {
            assert(f == t@.skip(k as int + 1));
        }
        let mut q: usize = k + 1;
        while q < m
            invariant
                k + 1 <= q <= m,
                m == t@.len(),
                tv == t@,
                tv == trimmed(raw@),
                1 <= k <= 16,
                count_leading_digits(t@) == k as int,
                t@[k as int] == '.',
                f == t@.skip(k as int + 1),
                forall|i: int| k + 1 <= i < q ==> is_digit(#[trigger] t@[i]),
                fd == if q - (k + 1) <= 3 {
                    (q - (k + 1)) as int
                } else {
                    3
                },
                fm == digits_val(f.take(fd as int)),
                fm < pow10(fd as nat),
                pow10(1) == 10 && pow10(2) == 100 && pow10(3) == 1000,
            decreases m - q,
        {
            let c = t.get_char(q);
            if !is_digit_exec(c) {
                proof {
                    assert(t@.skip(k as int + 1)[q - (k + 1)] == t@[q as int]);
                }
                return Err(SplitError::MalformedOutput);
            }
            let d = digit_value(c);
            if fd < 3 {
                proof {
                    assert(f.take(fd as int + 1).drop_last() =~= f.take(fd as int));
                    assert(f.take(fd as int + 1).last() == f[fd as int]);
                    assert(f[fd as int] == t@[q as int]);
                }
                fm = fm * 10 + d;
                fd = fd + 1;
            }
            q += 1;
        }
        proof {
            assert(all_digits(f)) by {
                assert forall|i: int| 0 <= i < f.len() implies is_digit(#[trigger] f[i]) by {
                    assert(f[i] == t@[k + 1 + i]);
                }
            }
        }
    } else {
        proof {
            assert(f =~= Seq::<char>::empty());
            assert(f.take(0) =~= Seq::<char>::empty());
        }
    }

    // scale the fraction to exactly three digits
    let scaled: u64 = if fd == 0 {
        0
    } else if fd == 1 {
        fm * 100
    } else if fd == 2 {
        fm * 10
    } else {
        fm
    };
    proof {
        reveal_with_fuel(pow10, 5);
        if f.len() >= 3 {
            assert(fd == 3);
        } else {
            assert(f.take(fd as int) =~= f);
        }
        assert(scaled == frac_millis(f));
        assert(scaled <= 999);
        assert(acc <= 9999999999999999);
        assert(t@.take(count_leading_digits(t@)) == t@.take(k as int));
    }
    Ok(acc * 1000 + scaled)
}

} // verus!

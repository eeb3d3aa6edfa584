//! Deterministic output naming: a clip's file name is
//! `{prefix}{index, zero-padded to 3 digits}{suffix}.{extension}`,
//! a pure function of its inputs.

use vstd::prelude::*;
use vstd::string::*;

verus! {

/// The decimal digit character for `d` (0 through 9).
pub open spec fn digit_char(d: int) -> char {
    if d == 0 {
        '0'
    } else if d == 1 {
        '1'
    } else if d == 2 {
        '2'
    } else if d == 3 {
        '3'
    } else if d == 4 {
        '4'
    } else if d == 5 {
        '5'
    } else if d == 6 {
        '6'
    } else if d == 7 {
        '7'
    } else if d == 8 {
        '8'
    } else {
        '9'
    }
}

/// The decimal rendering of `n >= 0`, most significant digit first,
/// with no leading zeros (a single `'0'` for zero itself).
pub open spec fn dec_digits(n: int) -> Seq<char>
    recommends
        n >= 0,
    decreases n,
{
    if n < 10 {
        seq![digit_char(n)]
    } else {
        dec_digits(n / 10).push(digit_char(n % 10))
    }
}

/// `s` left-padded with `'0'` to at least three characters.
pub open spec fn zero_pad3(s: Seq<char>) -> Seq<char> {
    if s.len() >= 3 {
        s
    } else {
        Seq::new((3 - s.len()) as nat, |i: int| '0') + s
    }
}

/// The index field of a clip's file name: its decimal rendering,
/// zero-padded to three digits.
pub open spec fn padded_index(n: int) -> Seq<char> {
    zero_pad3(dec_digits(n))
}

/// The full file name of clip `index`:
/// prefix, padded index, suffix, a dot, and the extension.
pub open spec fn clip_file_name_spec(
    prefix: Seq<char>,
    index: int,
    suffix: Seq<char>,
    extension: Seq<char>,
) -> Seq<char> {
    prefix + padded_index(index) + suffix + seq!['.'] + extension
}

/// Strict lexicographic order on character sequences, by code point.
pub open spec fn lex_lt(a: Seq<char>, b: Seq<char>) -> bool
    decreases a.len(),
{
    if b.len() == 0 {
        false
    } else if a.len() == 0 {
        true
    } else if (a[0] as u32) < (b[0] as u32) {
        true
    } else if (a[0] as u32) > (b[0] as u32) {
        false
    } else {
        lex_lt(a.drop_first(), b.drop_first())
    }
}

proof fn lemma_lex_irreflexive(a: Seq<char>)
    ensures
        !lex_lt(a, a),
    decreases a.len(),
{
    if a.len() > 0 {
        lemma_lex_irreflexive(a.drop_first());
    }
}

proof fn lemma_lex_asymmetric(a: Seq<char>, b: Seq<char>)
    requires
        lex_lt(a, b),
    ensures
        !lex_lt(b, a),
    decreases a.len(),
{
    if b.len() > 0 && a.len() > 0 && (a[0] as u32) == (b[0] as u32) {
        lemma_lex_asymmetric(a.drop_first(), b.drop_first());
    }
}

/// How many characters `dec_digits` yields for small and large inputs.
proof fn lemma_dec_digits_len(n: int)
    requires
        n >= 0,
    ensures
        n < 10 ==> dec_digits(n).len() == 1,
        10 <= n < 100 ==> dec_digits(n).len() == 2,
        100 <= n ==> dec_digits(n).len() >= 3,
        n <= 999 ==> dec_digits(n).len() <= 3,
    decreases n,
{
    if n >= 10 {
        lemma_dec_digits_len(n / 10);
    }
}

/// For `n` up to 999 the padded index field is exactly the three digit
/// characters of hundreds, tens and ones.
proof fn lemma_padded_index_digits(n: int)
    requires
        0 <= n <= 999,
    ensures
        padded_index(n) =~= seq![
            digit_char(n / 100),
            digit_char((n / 10) % 10),
            digit_char(n % 10),
        ],
{
    reveal_with_fuel(dec_digits, 4);
    vstd::arithmetic::div_mod::lemma_fundamental_div_mod(n, 10);
    vstd::arithmetic::div_mod::lemma_fundamental_div_mod(n / 10, 10);
    if n < 10 {
        assert(n / 100 == 0 && n / 10 == 0 && n % 10 == n);
    } else if n < 100 {
        assert(1 <= n / 10 < 10);
        assert(dec_digits(n) =~= seq![digit_char(n / 10), digit_char(n % 10)]);
        assert(n / 100 == 0);
        assert((n / 10) % 10 == n / 10);
    } else {
        vstd::arithmetic::div_mod::lemma_div_denominator(n, 10, 10);
        assert((n / 10) / 10 == n / 100);
        assert(10 <= n / 10 < 100);
        assert(dec_digits(n / 10) =~= seq![
            digit_char((n / 10) / 10),
            digit_char((n / 10) % 10),
        ]);
        assert(dec_digits(n) =~= seq![
            digit_char(n / 100),
            digit_char((n / 10) % 10),
            digit_char(n % 10),
        ]);
    }
}

/// Every `n` up to 999 is its hundreds, tens and ones put back together,
/// and each of those parts is a single digit.
proof fn lemma_three_digit_decomposition(n: int)
    requires
        0 <= n <= 999,
    ensures
        n == 100 * (n / 100) + 10 * ((n / 10) % 10) + n % 10,
        0 <= n / 100 <= 9,
        0 <= (n / 10) % 10 <= 9,
        0 <= n % 10 <= 9,
{
    vstd::arithmetic::div_mod::lemma_fundamental_div_mod(n, 10);
    vstd::arithmetic::div_mod::lemma_fundamental_div_mod(n / 10, 10);
    vstd::arithmetic::div_mod::lemma_div_denominator(n, 10, 10);
}

proof fn lemma_padded_lt(i: int, j: int)
    requires
        0 <= i <= 999,
        0 <= j <= 999,
        i < j,
    ensures
        lex_lt(padded_index(i), padded_index(j)),
{
    reveal_with_fuel(lex_lt, 4);
    lemma_padded_index_digits(i);
    lemma_padded_index_digits(j);
    lemma_three_digit_decomposition(i);
    lemma_three_digit_decomposition(j);
    let a = padded_index(i);
    let b = padded_index(j);
    assert(a.drop_first() =~= seq![digit_char((i / 10) % 10), digit_char(i % 10)]);
    assert(b.drop_first() =~= seq![digit_char((j / 10) % 10), digit_char(j % 10)]);
    assert(a.drop_first().drop_first() =~= seq![digit_char(i % 10)]);
    assert(b.drop_first().drop_first() =~= seq![digit_char(j % 10)]);
    if i / 100 == j / 100 {
        if (i / 10) % 10 == (j / 10) % 10 {
            assert(i % 10 < j % 10);
        } else {
            assert((i / 10) % 10 < (j / 10) % 10);
        }
    } else {
        assert(i / 100 < j / 100);
    }
}

/// Zero-padding to three digits keeps lexicographic order equal to
/// numeric order for every index a three-digit field can carry: the
/// field is always exactly three characters, and the names of two clips
/// compare lexicographically exactly as their indices compare
/// numerically.
pub proof fn lemma_padded_index_order(i: int, j: int)
    requires
        1 <= i <= 999,
        1 <= j <= 999,
    ensures
        padded_index(i).len() == 3,
        lex_lt(padded_index(i), padded_index(j)) <==> i < j,
{
    lemma_padded_index_digits(i);
    if i < j {
        lemma_padded_lt(i, j);
    } else if i == j {
        lemma_lex_irreflexive(padded_index(i));
    } else {
        lemma_padded_lt(j, i);
        lemma_lex_asymmetric(padded_index(j), padded_index(i));
    }
}

proof fn lemma_lex_common_prefix(c: Seq<char>, x: Seq<char>, y: Seq<char>)
    ensures
        lex_lt(c + x, c + y) == lex_lt(x, y),
    decreases c.len(),
{
    if c.len() == 0 {
        assert(c + x =~= x);
        assert(c + y =~= y);
    } else {
        assert((c + x)[0] == c[0]);
        assert((c + y)[0] == c[0]);
        assert((c + x).drop_first() =~= c.drop_first() + x);
        assert((c + y).drop_first() =~= c.drop_first() + y);
        lemma_lex_common_prefix(c.drop_first(), x, y);
    }
}

proof fn lemma_lex_append_same(x: Seq<char>, y: Seq<char>, r: Seq<char>)
    requires
        x.len() == y.len(),
    ensures
        lex_lt(x + r, y + r) == lex_lt(x, y),
    decreases x.len(),
{
    if x.len() == 0 {
        assert(x + r =~= r);
        assert(y + r =~= r);
        lemma_lex_irreflexive(r);
    } else {
        assert((x + r)[0] == x[0]);
        assert((y + r)[0] == y[0]);
        if (x[0] as u32) == (y[0] as u32) {
            assert((x + r).drop_first() =~= x.drop_first() + r);
            assert((y + r).drop_first() =~= y.drop_first() + r);
            lemma_lex_append_same(x.drop_first(), y.drop_first(), r);
        }
    }
}

/// Zero-padding keeps lexicographic order equal to numeric order: for
/// any two clips of one plan with indices a three-digit field can carry,
/// the full file names compare lexicographically exactly as the indices
/// compare numerically.
pub proof fn lemma_file_name_order(
    prefix: Seq<char>,
    i: int,
    j: int,
    suffix: Seq<char>,
    extension: Seq<char>,
)
    requires
        1 <= i <= 999,
        1 <= j <= 999,
    ensures
        lex_lt(
            clip_file_name_spec(prefix, i, suffix, extension),
            clip_file_name_spec(prefix, j, suffix, extension),
        ) <==> i < j,
{
    let rest = suffix + seq!['.'] + extension;
    assert(clip_file_name_spec(prefix, i, suffix, extension) =~= prefix + (padded_index(i)
        + rest));
    assert(clip_file_name_spec(prefix, j, suffix, extension) =~= prefix + (padded_index(j)
        + rest));
    lemma_lex_common_prefix(prefix, padded_index(i) + rest, padded_index(j) + rest);
    lemma_padded_index_order(i, j);
    lemma_padded_index_order(j, i);
    lemma_lex_append_same(padded_index(i), padded_index(j), rest);
}

/// Naming is pure, deterministic and idempotent: any two ordered name
/// sequences planned from the same prefix, suffix, extension and clip
/// count are the same sequence — a name depends on nothing else.
pub proof fn lemma_naming_deterministic(
    a: Seq<Seq<char>>,
    b: Seq<Seq<char>>,
    prefix: Seq<char>,
    suffix: Seq<char>,
    extension: Seq<char>,
    total: int,
)
    requires
        a.len() == total,
        b.len() == total,
        forall|k: int| 0 <= k < total ==> a[k] == clip_file_name_spec(prefix, k + 1, suffix, extension),
        forall|k: int| 0 <= k < total ==> b[k] == clip_file_name_spec(prefix, k + 1, suffix, extension),
    ensures
        a == b,
{
    assert(a =~= b);
}

/// The digit character for `d` below ten, as a one-character string.
fn digit_str(d: u64) -> (r: &'static str)
    requires
        d < 10,
    ensures
        r@ =~= seq![digit_char(d as int)],
{
    proof {
        reveal_strlit("0");
        reveal_strlit("1");
        reveal_strlit("2");
        reveal_strlit("3");
        reveal_strlit("4");
        reveal_strlit("5");
        reveal_strlit("6");
        reveal_strlit("7");
        reveal_strlit("8");
        reveal_strlit("9");
    }
    if d == 0 {
        "0"
    } else if d == 1 {
        "1"
    } else if d == 2 {
        "2"
    } else if d == 3 {
        "3"
    } else if d == 4 {
        "4"
    } else if d == 5 {
        "5"
    } else if d == 6 {
        "6"
    } else if d == 7 {
        "7"
    } else if d == 8 {
        "8"
    } else {
        "9"
    }
}

/// Renders `n` in decimal, most significant digit first.
pub fn render_decimal(n: u64) -> (r: String)
    ensures
        r@ == dec_digits(n as int),
    decreases n,
{
    if n < 10 {
        let r = digit_str(n).to_owned();
        proof {
            assert(r@ =~= dec_digits(n as int));
        }
        r
    } else {
        let mut r = render_decimal(n / 10);
        r.append(digit_str(n % 10));
        proof {
            assert(r@ =~= dec_digits(n as int));
        }
        r
    }
}

/// Renders `n` in decimal, zero-padded on the left to at least three
/// digits; indices up to 999 therefore come out as exactly three digits.
pub fn render_index_padded(n: u64) -> (r: String)
    ensures
        r@ == padded_index(n as int),
{
    proof {
        reveal_strlit("0");
        reveal_strlit("00");
        lemma_dec_digits_len(n as int);
    }
    let mut r = String::new();
    if n < 10 {
        r.append("00");
    } else if n < 100 {
        r.append("0");
    }
    let digits = render_decimal(n);
    r.append(digits.as_str());
    proof {
        assert(r@ =~= padded_index(n as int));
    }
    r
}

/// Builds the file name of clip `index`: prefix, the index zero-padded
/// to three digits, suffix, a dot, and the extension.
pub fn clip_file_name(prefix: &str, index: u64, suffix: &str, extension: &str) -> (r: String)
    ensures
        r@ == clip_file_name_spec(prefix@, index as int, suffix@, extension@),
{
    proof {
        reveal_strlit(".");
    }
    let mut r = prefix.to_owned();
    let field = render_index_padded(index);
    r.append(field.as_str());
    r.append(suffix);
    r.append(".");
    r.append(extension);
    proof {
        assert(r@ =~= clip_file_name_spec(prefix@, index as int, suffix@, extension@));
    }
    r
}

/// Builds the ordered list of all output file names of a plan of
/// `total` clips, indices 1 through `total`.
pub fn planned_file_names(prefix: &str, suffix: &str, extension: &str, total: u64) -> (r: Vec<
    String,
>)
    requires
        total <= usize::MAX,
    ensures
        r@.len() == total,
        forall|k: int|
            0 <= k < total ==> #[trigger] r@[k]@ == clip_file_name_spec(
                prefix@,
                k + 1,
                suffix@,
                extension@,
            ),
{
    let mut r: Vec<String> = Vec::new();
    let mut i: u64 = 0;
    while i < total
        invariant
            i <= total <= usize::MAX,
            r@.len() == i,
            forall|k: int|
                0 <= k < i ==> #[trigger] r@[k]@ == clip_file_name_spec(
                    prefix@,
                    k + 1,
                    suffix@,
                    extension@,
                ),
        decreases total - i,
    {
        let name = clip_file_name(prefix, i + 1, suffix, extension);
        r.push(name);
        i += 1;
    }
    r
}

} // verus!

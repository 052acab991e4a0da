use vstd::prelude::*;

verus! {

/// The characters that carry Unicode's `White_Space` property.
pub open spec fn is_white_space(c: char) -> bool {
    ('\u{9}' <= c && c <= '\u{d}') || c == ' ' || c == '\u{85}' || c == '\u{a0}'
        || c == '\u{1680}' || ('\u{2000}' <= c && c <= '\u{200a}') || c == '\u{2028}'
        || c == '\u{2029}' || c == '\u{202f}' || c == '\u{205f}' || c == '\u{3000}'
}

/// `s` without its leading white space.
pub open spec fn strip_start(s: Seq<char>) -> Seq<char>
    decreases s.len(),
{
    if s.len() > 0 && is_white_space(s[0]) {
        strip_start(s.drop_first())
    } else {
        s
    }
}

/// `s` without its trailing white space.
pub open spec fn strip_end(s: Seq<char>) -> Seq<char>
    decreases s.len(),
{
    if s.len() > 0 && is_white_space(s.last()) {
        strip_end(s.drop_last())
    } else {
        s
    }
}

/// `s` without leading and trailing white space.
pub open spec fn trimmed(s: Seq<char>) -> Seq<char> {
    strip_end(strip_start(s))
}

/// Whether `pat` occurs in `s` as a contiguous run of characters.
pub open spec fn has_substring(s: Seq<char>, pat: Seq<char>) -> bool {
    exists|i: int| 0 <= i && i + pat.len() <= s.len() && #[trigger] s.subrange(i, i + pat.len()) == pat
}

/// Every character of `s` is white space.
pub open spec fn all_white_space(s: Seq<char>) -> bool {
    forall|i: int| 0 <= i < s.len() ==> is_white_space(#[trigger] s[i])
}

/// What `str::to_lowercase` makes of a string.
pub uninterp spec fn lower_of(s: Seq<char>) -> Seq<char>;

/// Relies on `str::trim`: the slice without the leading and trailing
/// characters that have the `White_Space` property.
#[verifier::external_body]
pub(crate) fn trim(s: &str) -> (r: &str)
    ensures
        r@ == trimmed(s@),
{
    s.trim()
}

/// Relies on `str::to_lowercase`: the Unicode lowercase mapping of the
/// string, which depends on its characters alone.
#[verifier::external_body]
pub(crate) fn lowercase(s: &str) -> (r: String)
    ensures
        r@ == lower_of(s@),
{
    s.to_lowercase()
}

/// Relies on `str::contains` with a `&str` pattern: true iff `pat` matches a
/// sub-slice of `s`.
#[verifier::external_body]
pub(crate) fn contains(s: &str, pat: &str) -> (r: bool)
    ensures
        r == has_substring(s@, pat@),
{
    s.contains(pat)
}

/// Removing leading white space also removes white space put in front.
pub proof fn lemma_strip_start_padded(p: Seq<char>, s: Seq<char>)
    requires
        all_white_space(p),
    ensures
        strip_start(p + s) == strip_start(s),
    decreases p.len(),
{
    if p.len() > 0 {
        assert((p + s).drop_first() == p.drop_first() + s);
        lemma_strip_start_padded(p.drop_first(), s);
    } else {
        assert(p + s == s);
    }
}

/// Removing trailing white space also removes white space put behind.
pub proof fn lemma_strip_end_padded(s: Seq<char>, q: Seq<char>)
    requires
        all_white_space(q),
    ensures
        strip_end(s + q) == strip_end(s),
    decreases q.len(),
{
    if q.len() > 0 {
        assert((s + q).drop_last() == s + q.drop_last());
        assert((s + q).last() == q.last());
        lemma_strip_end_padded(s, q.drop_last());
    } else {
        assert(s + q == s);
    }
}

/// Trimming ignores white space put behind.
proof fn lemma_strip_start_append(s: Seq<char>, q: Seq<char>)
    requires
        all_white_space(q),
    ensures
        strip_end(strip_start(s + q)) == strip_end(strip_start(s)),
    decreases s.len(),
{
    if s.len() > 0 && is_white_space(s[0]) {
        assert((s + q).drop_first() == s.drop_first() + q);
        lemma_strip_start_append(s.drop_first(), q);
    } else if s.len() > 0 {
        lemma_strip_end_padded(s, q);
    } else {
        assert(s + q == q);
        lemma_strip_start_padded(q, Seq::<char>::empty());
        assert(q + Seq::<char>::empty() == q);
        lemma_strip_end_padded(Seq::<char>::empty(), Seq::<char>::empty());
    }
}

/// Trimming ignores white space added on either side.
pub proof fn lemma_trimmed_padded(p: Seq<char>, s: Seq<char>, q: Seq<char>)
    requires
        all_white_space(p),
        all_white_space(q),
    ensures
        trimmed(p + s + q) == trimmed(s),
{
    assert(p + s + q == p + (s + q));
    lemma_strip_start_padded(p, s + q);
    lemma_strip_start_append(s, q);
}

/// The character of a decimal digit.
pub open spec fn digit_char(d: nat) -> char {
    seq!['0', '1', '2', '3', '4', '5', '6', '7', '8', '9'][d as int]
}

/// The decimal rendering of `n`, without leading zeros.
pub open spec fn decimal(n: nat) -> Seq<char>
    decreases n,
{
    if n < 10 {
        seq![digit_char(n)]
    } else {
        decimal(n / 10).push(digit_char(n % 10))
    }
}

/// The one-character string of a decimal digit.
fn digit_str(d: usize) -> (r: &'static str)
    requires
        d < 10,
    ensures
        r@ == seq![digit_char(d as nat)],
{
    match d {
        0 => {
            proof { reveal_strlit("0"); }
            "0"
        },
        1 => {
            proof { reveal_strlit("1"); }
            "1"
        },
        2 => {
            proof { reveal_strlit("2"); }
            "2"
        },
        3 => {
            proof { reveal_strlit("3"); }
            "3"
        },
        4 => {
            proof { reveal_strlit("4"); }
            "4"
        },
        5 => {
            proof { reveal_strlit("5"); }
            "5"
        },
        6 => {
            proof { reveal_strlit("6"); }
            "6"
        },
        7 => {
            proof { reveal_strlit("7"); }
            "7"
        },
        8 => {
            proof { reveal_strlit("8"); }
            "8"
        },
        _ => {
            proof { reveal_strlit("9"); }
            "9"
        },
    }
}

/// Renders `n` in decimal.
pub fn decimal_string(n: usize) -> (r: String)
    ensures
        r@ == decimal(n as nat),
    decreases n,
{
    if n < 10 {
        String::from_str(digit_str(n))
    } else {
        let mut r = decimal_string(n / 10);
        r.append(digit_str(n % 10));
        r
    }
}

/// The lowercase hexadecimal digit of `d`.
pub open spec fn hex_char(d: int) -> char {
    seq!['0', '1', '2', '3', '4', '5', '6', '7', '8', '9', 'a', 'b', 'c', 'd', 'e', 'f'][d]
}

/// The `k`-th of the 32 hexadecimal digits of `v`, most significant first.
pub open spec fn hex_nibble(v: u128, k: int) -> int {
    (v as int / vstd::arithmetic::power::pow(16, (31 - k) as nat)) % 16
}

/// How many hyphens the hyphenated form of an identifier holds before position `p`.
pub open spec fn hyphens_before(p: int) -> int {
    if p < 9 { 0 } else if p < 14 { 1 } else if p < 19 { 2 } else if p < 24 { 3 } else { 4 }
}

/// The hyphenated lowercase form of a 128-bit identifier: its 32 hexadecimal
/// digits, most significant first, in groups of 8, 4, 4, 4 and 12.
pub open spec fn hyphenated(v: u128) -> Seq<char> {
    Seq::new(
        36,
        |p: int|
            if p == 8 || p == 13 || p == 18 || p == 23 {
                '-'
            } else {
                hex_char(hex_nibble(v, p - hyphens_before(p)))
            },
    )
}

/// Relies on `uuid::Uuid::from_u128` (the value read big-endian) and on the
/// `Display` of `uuid::Uuid`, which writes the hyphenated lowercase form.
#[verifier::external_body]
pub(crate) fn uuid_text(v: u128) -> (r: String)
    ensures
        r@ == hyphenated(v),
{
    uuid::Uuid::from_u128(v).to_string()
}

} // verus!

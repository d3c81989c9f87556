//! Character-level helpers on string slices: equality, white-space
//! trimming, suffix stripping and unsigned decimal parsing, each stated
//! over the `Seq<char>` view of a `str`.
use vstd::prelude::*;
use vstd::string::*;
use vstd::arithmetic::power::pow;

verus! {

/// The Unicode `White_Space` property, the set of characters that
/// `char::is_whitespace` accepts.
pub open spec fn spec_is_white_space(c: char) -> bool {
    let n = c as u32;
    ||| (0x9 <= n && n <= 0xd)
    ||| n == 0x20
    ||| n == 0x85
    ||| n == 0xa0
    ||| n == 0x1680
    ||| (0x2000 <= n && n <= 0x200a)
    ||| n == 0x2028
    ||| n == 0x2029
    ||| n == 0x202f
    ||| n == 0x205f
    ||| n == 0x3000
}

/// `s` without its leading white space.
pub open spec fn spec_trim_start(s: Seq<char>) -> Seq<char>
    decreases s.len(),
{
    if s.len() > 0 && spec_is_white_space(s[0]) {
        spec_trim_start(s.drop_first())
    } else {
        s
    }
}

/// `s` without its trailing white space.
pub open spec fn spec_trim_end(s: Seq<char>) -> Seq<char>
    decreases s.len(),
{
    if s.len() > 0 && spec_is_white_space(s.last()) {
        spec_trim_end(s.drop_last())
    } else {
        s
    }
}

/// `s` without leading and trailing white space, as `str::trim` gives it.
pub open spec fn spec_trim(s: Seq<char>) -> Seq<char> {
    spec_trim_end(spec_trim_start(s))
}

/// What remains of `s` before `suffix` when `s` ends with `suffix`,
/// as `str::strip_suffix` gives it.
pub open spec fn spec_strip_suffix(s: Seq<char>, suffix: Seq<char>) -> Option<Seq<char>> {
    if suffix.len() <= s.len() && s.subrange(s.len() - suffix.len(), s.len() as int) == suffix {
        Some(s.subrange(0, s.len() - suffix.len()))
    } else {
        None
    }
}

pub open spec fn spec_is_ascii_digit(c: char) -> bool {
    0x30 <= (c as u32) && (c as u32) <= 0x39
}

pub open spec fn spec_digit_value(c: char) -> int {
    (c as u32) - 0x30
}

/// The number that the decimal digits `ds` denote.
pub open spec fn spec_decimal_value(ds: Seq<char>) -> int
    decreases ds.len(),
{
    if ds.len() == 0 {
        0
    } else {
        spec_decimal_value(ds.drop_last()) * 10 + spec_digit_value(ds.last())
    }
}

pub open spec fn spec_all_digits(ds: Seq<char>) -> bool {
    forall|i: int| 0 <= i < ds.len() ==> #[trigger] spec_is_ascii_digit(ds[i])
}

/// The digits of an unsigned number: `s` without one leading `+`.
pub open spec fn spec_unsigned_digits(s: Seq<char>) -> Seq<char> {
    if s.len() > 0 && s[0] == '+' {
        s.drop_first()
    } else {
        s
    }
}

/// What `<u64 as FromStr>::from_str` gives: an optional `+` followed by
/// at least one ASCII digit and nothing else, denoting at most `u64::MAX`.
pub open spec fn spec_parse_u64(s: Seq<char>) -> Option<u64> {
    let ds = spec_unsigned_digits(s);
    if ds.len() > 0 && spec_all_digits(ds) && spec_decimal_value(ds) <= u64::MAX {
        Some(spec_decimal_value(ds) as u64)
    } else {
        None
    }
}

proof fn lemma_decimal_value_nonneg(ds: Seq<char>)
    requires
        spec_all_digits(ds),
    ensures
        spec_decimal_value(ds) >= 0,
    decreases ds.len(),
{
    if ds.len() > 0 {
        lemma_decimal_value_nonneg(ds.drop_last());
        assert(spec_is_ascii_digit(ds[ds.len() - 1]));
    }
}

/// A prefix of a digit string never denotes more than the whole string.
proof fn lemma_decimal_prefix_le(ds: Seq<char>, j: int)
    requires
        spec_all_digits(ds),
        0 <= j <= ds.len(),
    ensures
        spec_decimal_value(ds.subrange(0, j)) <= spec_decimal_value(ds),
    decreases ds.len(),
{
    if j < ds.len() {
        let front = ds.drop_last();
        assert(spec_all_digits(front));
        lemma_decimal_prefix_le(front, j);
        assert(front.subrange(0, j) =~= ds.subrange(0, j));
        lemma_decimal_value_nonneg(front);
        assert(spec_is_ascii_digit(ds[ds.len() - 1]));
    } else {
        assert(ds.subrange(0, j) =~= ds);
    }
}

/// What `spec_trim_start` leaves starts with a character that is not white
/// space, and trimming it again changes nothing.
pub proof fn lemma_trim_start_settled(s: Seq<char>)
    ensures
        spec_trim_start(s).len() > 0 ==> !spec_is_white_space(spec_trim_start(s)[0]),
        spec_trim_start(spec_trim_start(s)) == spec_trim_start(s),
    decreases s.len(),
{
    if s.len() > 0 && spec_is_white_space(s[0]) {
        lemma_trim_start_settled(s.drop_first());
    }
}

/// What `spec_trim_end` leaves is a prefix of `s` that ends with a character
/// that is not white space, and trimming it again changes nothing.
pub proof fn lemma_trim_end_settled(s: Seq<char>)
    ensures
        spec_trim_end(s).len() <= s.len(),
        spec_trim_end(s) == s.subrange(0, spec_trim_end(s).len() as int),
        spec_trim_end(s).len() > 0 ==> !spec_is_white_space(spec_trim_end(s).last()),
        spec_trim_end(spec_trim_end(s)) == spec_trim_end(s),
    decreases s.len(),
{
    if s.len() > 0 && spec_is_white_space(s.last()) {
        lemma_trim_end_settled(s.drop_last());
        let t = spec_trim_end(s.drop_last());
        assert(s.drop_last().subrange(0, t.len() as int) =~= s.subrange(0, t.len() as int));
    } else {
        assert(s.subrange(0, s.len() as int) =~= s);
    }
}

/// Trimming twice is trimming once.
pub proof fn lemma_trim_idempotent(s: Seq<char>)
    ensures
        spec_trim(spec_trim(s)) == spec_trim(s),
{
    let a = spec_trim_start(s);
    let b = spec_trim_end(a);
    lemma_trim_start_settled(s);
    lemma_trim_end_settled(a);
    if b.len() > 0 {
        assert(b[0] == a[0]);
    }
    assert(spec_trim_start(b) == b);
}

/// Trimming takes off a run of white space at each end and nothing else:
/// the result is a piece `s[i..j]` of `s` with only white space before `i`
/// and after `j`, and, where it is not empty, it neither starts nor ends
/// with white space.
pub proof fn lemma_trim_removes_only_outer_white_space(s: Seq<char>)
    ensures
        exists|i: int, j: int|
            {
                &&& 0 <= i <= j <= s.len()
                &&& spec_trim(s) == s.subrange(i, j)
                &&& forall|k: int| 0 <= k < i ==> #[trigger] spec_is_white_space(s[k])
                &&& forall|k: int| j <= k < s.len() ==> #[trigger] spec_is_white_space(s[k])
            },
        spec_trim(s).len() > 0 ==> !spec_is_white_space(spec_trim(s)[0]) && !spec_is_white_space(
            spec_trim(s).last(),
        ),
{
    let i = lemma_trim_start_drops_white_prefix(s);
    let a = spec_trim_start(s);
    lemma_trim_start_settled(s);
    lemma_trim_end_settled(a);
    let b = spec_trim_end(a);
    let j = i + b.len();
    assert(b =~= s.subrange(i, j));
    lemma_trim_end_drops_white_suffix(a);
    assert forall|k: int| j <= k < s.len() implies #[trigger] spec_is_white_space(s[k]) by {
        assert(s[k] == a[k - i]);
    }
    if b.len() > 0 {
        assert(b[0] == a[0]);
    }
}

/// `spec_trim_start(s)` is `s[i..]` where all of `s[..i]` is white space.
proof fn lemma_trim_start_drops_white_prefix(s: Seq<char>) -> (i: int)
    ensures
        0 <= i <= s.len(),
        spec_trim_start(s) == s.subrange(i, s.len() as int),
        forall|k: int| 0 <= k < i ==> #[trigger] spec_is_white_space(s[k]),
    decreases s.len(),
{
    if s.len() > 0 && spec_is_white_space(s[0]) {
        let i0 = lemma_trim_start_drops_white_prefix(s.drop_first());
        assert(s.drop_first().subrange(i0, s.len() - 1) =~= s.subrange(i0 + 1, s.len() as int));
        assert forall|k: int| 0 <= k < i0 + 1 implies #[trigger] spec_is_white_space(s[k]) by {
            if k > 0 {
                assert(s[k] == s.drop_first()[k - 1]);
            }
        }
        i0 + 1
    } else {
        assert(s.subrange(0, s.len() as int) =~= s);
        0
    }
}

/// All of `s` after `spec_trim_end(s)` is white space.
proof fn lemma_trim_end_drops_white_suffix(s: Seq<char>)
    ensures
        spec_trim_end(s).len() <= s.len(),
        forall|k: int| spec_trim_end(s).len() <= k < s.len() ==> #[trigger] spec_is_white_space(s[k]),
    decreases s.len(),
{
    lemma_trim_end_settled(s);
    if s.len() > 0 && spec_is_white_space(s.last()) {
        lemma_trim_end_drops_white_suffix(s.drop_last());
        assert forall|k: int| spec_trim_end(s).len() <= k < s.len() implies #[trigger] spec_is_white_space(s[k]) by {
            if k < s.len() - 1 {
                assert(s[k] == s.drop_last()[k]);
            }
        }
    }
}

/// A text that neither starts nor ends with white space is its own trim.
pub proof fn lemma_trim_keeps_clean_text(s: Seq<char>)
    requires
        s.len() > 0 ==> !spec_is_white_space(s[0]) && !spec_is_white_space(s.last()),
    ensures
        spec_trim(s) == s,
{
}

/// Stripping a suffix gives back what was before it, and a result put back
/// in front of the suffix is the text.
pub proof fn lemma_strip_suffix_inverts_concat(p: Seq<char>, suffix: Seq<char>, s: Seq<char>)
    ensures
        spec_strip_suffix(p + suffix, suffix) == Some(p),
        spec_strip_suffix(s, suffix) matches Some(r) ==> r + suffix == s,
        spec_strip_suffix(s, suffix) is None ==> forall|q: Seq<char>| q + suffix != s,
{
    let t = p + suffix;
    assert(t.subrange(t.len() - suffix.len(), t.len() as int) =~= suffix);
    assert(t.subrange(0, t.len() - suffix.len()) =~= p);
    if let Some(r) = spec_strip_suffix(s, suffix) {
        assert(r + suffix =~= s);
    }
    if spec_strip_suffix(s, suffix) is None {
        assert forall|q: Seq<char>| q + suffix != s by {
            if q + suffix == s {
                assert(s.subrange(s.len() - suffix.len(), s.len() as int) =~= suffix);
            }
        }
    }
}

/// The number that digits `ds` followed by digits `es` denote is that of
/// `ds` shifted by the length of `es`, plus that of `es`.
pub proof fn lemma_decimal_value_concat(ds: Seq<char>, es: Seq<char>)
    ensures
        spec_decimal_value(ds + es) == spec_decimal_value(ds) * pow(10, es.len()) + spec_decimal_value(
            es,
        ),
    decreases es.len(),
{
    reveal(pow);
    if es.len() == 0 {
        assert(ds + es =~= ds);
        let a = spec_decimal_value(ds);
        assert(pow(10, 0) == 1);
        assert(a * 1 == a) by (nonlinear_arith);
        assert(spec_decimal_value(es) == 0);
    } else {
        let front = es.drop_last();
        lemma_decimal_value_concat(ds, front);
        assert((ds + es).drop_last() =~= ds + front);
        assert((ds + es).last() == es.last());
        let a = spec_decimal_value(ds);
        let p = pow(10, front.len());
        let f = spec_decimal_value(front);
        let d = spec_digit_value(es.last());
        assert(pow(10, es.len()) == 10 * p);
        assert((a * p + f) * 10 + d == a * (10 * p) + (f * 10 + d)) by (nonlinear_arith);
    }
}

/// A single digit denotes its digit value, `0` for `'0'` up to `9` for `'9'`.
pub proof fn lemma_single_digit(c: char)
    requires
        spec_is_ascii_digit(c),
    ensures
        spec_decimal_value(seq![c]) == (c as u32) - 0x30,
        0 <= spec_decimal_value(seq![c]) <= 9,
{
    assert(seq![c].drop_last() =~= Seq::<char>::empty());
    assert(seq![c].last() == c);
    assert(spec_decimal_value(Seq::<char>::empty()) == 0);
}

/// Digits that denote at most `u64::MAX` read as that number, with or
/// without a leading `+`; anything that is not such digits does not read.
pub proof fn lemma_parse_u64_reads_digits(ds: Seq<char>)
    ensures
        (ds.len() > 0 && spec_all_digits(ds) && spec_decimal_value(ds) <= u64::MAX) ==> {
            &&& spec_parse_u64(ds) == Some(spec_decimal_value(ds) as u64)
            &&& spec_parse_u64(seq!['+'] + ds) == Some(spec_decimal_value(ds) as u64)
        },
        (ds.len() == 0 || !spec_all_digits(ds) || spec_decimal_value(ds) > u64::MAX) ==> {
            &&& spec_parse_u64(seq!['+'] + ds) is None
            &&& ((ds.len() == 0 || ds[0] != '+') ==> spec_parse_u64(ds) is None)
        },
        spec_parse_u64(seq!['-'] + ds) is None,
{
    assert((seq!['+'] + ds).drop_first() =~= ds);
    let m = seq!['-'] + ds;
    assert(!spec_is_ascii_digit(m[0]));
    if ds.len() > 0 && ds[0] == '+' {
        assert(!spec_is_ascii_digit(ds[0]));
    }
}

/// The characters of `s`, in order.
pub fn chars_of(s: &str) -> (v: Vec<char>)
    ensures
        v@ == s@,
{
    let n = s.unicode_len();
    let mut v: Vec<char> = Vec::new();
    let mut i: usize = 0;
    while i < n
        invariant
            n == s@.len(),
            i <= n,
            v@ == s@.subrange(0, i as int),
        decreases n - i,
    {
        let c = s.get_char(i);
        v.push(c);
        i = i + 1;
        assert(v@ =~= s@.subrange(0, i as int));
    }
    assert(v@ =~= s@);
    v
}

/// Whether `a` and `b` hold the same characters.
pub fn str_eq(a: &str, b: &str) -> (r: bool)
    ensures
        r == (a@ == b@),
{
    let va = chars_of(a);
    let vb = chars_of(b);
    if va.len() != vb.len() {
        return false;
    }
    let mut i: usize = 0;
    while i < va.len()
        invariant
            va@ == a@,
            vb@ == b@,
            va.len() == vb.len(),
            i <= va.len(),
            forall|j: int| 0 <= j < i ==> va@[j] == vb@[j],
        decreases va.len() - i,
    {
        if va[i] != vb[i] {
            return false;
        }
        i = i + 1;
    }
    assert(va@ =~= vb@);
    true
}

/// Whether `c` has the Unicode `White_Space` property.
pub fn is_white_space(c: char) -> (r: bool)
    ensures
        r == spec_is_white_space(c),
{
    let n = c as u32;
    (0x9 <= n && n <= 0xd) || n == 0x20 || n == 0x85 || n == 0xa0 || n == 0x1680 || (0x2000
        <= n && n <= 0x200a) || n == 0x2028 || n == 0x2029 || n == 0x202f || n == 0x205f || n
        == 0x3000
}

/// `s` without leading and trailing white space.
pub fn trim(s: &str) -> (r: &str)
    ensures
        r@ == spec_trim(s@),
{
    let v = chars_of(s);
    let n = v.len();
    let mut lo: usize = 0;
    assert(s@.subrange(0, n as int) =~= s@);
    while lo < n && is_white_space(v[lo])
        invariant
            v@ == s@,
            n == v@.len(),
            lo <= n,
            spec_trim_start(s@) == spec_trim_start(s@.subrange(lo as int, n as int)),
        decreases n - lo,
    {
        assert(s@.subrange(lo as int, n as int).drop_first() =~= s@.subrange(
            lo + 1,
            n as int,
        ));
        lo = lo + 1;
    }
    let ghost front = s@.subrange(lo as int, n as int);
    assert(spec_trim_start(s@) == front);
    let mut hi: usize = n;
    while hi > lo && is_white_space(v[hi - 1])
        invariant
            v@ == s@,
            n == v@.len(),
            lo <= hi <= n,
            spec_trim_end(front) == spec_trim_end(s@.subrange(lo as int, hi as int)),
        decreases hi,
    {
        assert(s@.subrange(lo as int, hi as int).drop_last() =~= s@.subrange(
            lo as int,
            hi - 1,
        ));
        hi = hi - 1;
    }
    s.substring_char(lo, hi)
}

/// `s` without `suffix` at its end, or `None` where `s` does not end with it.
pub fn strip_suffix<'a>(s: &'a str, suffix: &str) -> (r: Option<&'a str>)
    ensures
        match r {
            Some(t) => spec_strip_suffix(s@, suffix@) == Some(t@),
            None => spec_strip_suffix(s@, suffix@).is_none(),
        },
{
    let v = chars_of(s);
    let w = chars_of(suffix);
    let n = v.len();
    let k = w.len();
    if k > n {
        return None;
    }
    let start = n - k;
    let mut j: usize = 0;
    while j < k
        invariant
            v@ == s@,
            w@ == suffix@,
            n == v@.len(),
            k == w@.len(),
            start == n - k,
            j <= k,
            forall|i: int| 0 <= i < j ==> v@[start + i] == w@[i],
        decreases k - j,
    {
        if v[start + j] != w[j] {
            assert(s@.subrange(start as int, n as int)[j as int] != suffix@[j as int]);
            return None;
        }
        j = j + 1;
    }
    assert(s@.subrange(start as int, n as int) =~= suffix@);
    Some(s.substring_char(0, start))
}

/// The unsigned number that `s` denotes, as `<u64 as FromStr>::from_str`
/// reads it: `None` where it reads none.
pub fn parse_u64(s: &str) -> (r: Option<u64>)
    ensures
        r == spec_parse_u64(s@),
{
    let v = chars_of(s);
    let n = v.len();
    let start: usize = if n > 0 && v[0] == '+' {
        1
    } else {
        0
    };
    let ghost ds = spec_unsigned_digits(s@);
    assert(ds =~= s@.subrange(start as int, n as int));
    if start == n {
        return None;
    }
    let mut i: usize = start;
    while i < n
        invariant
            v@ == s@,
            n == v@.len(),
            start <= i <= n,
            ds == s@.subrange(start as int, n as int),
            ds == spec_unsigned_digits(s@),
            forall|j: int| start <= j < i ==> spec_is_ascii_digit(#[trigger] v@[j]),
        decreases n - i,
    {
        let ch = v[i];
        let c = ch as u32;
        assert(ds[i - start] == ch);
        if c < 0x30 || c > 0x39 {
            assert(!spec_is_ascii_digit(ds[i - start]));
            assert(!spec_all_digits(ds));
            return None;
        }
        i = i + 1;
    }
    assert(spec_all_digits(ds)) by {
        assert forall|j: int| 0 <= j < ds.len() implies #[trigger] spec_is_ascii_digit(ds[j]) by {
            assert(ds[j] == v@[start + j]);
        }
    }
    let mut acc: u128 = 0;
    let mut i: usize = start;
    while i < n
        invariant
            v@ == s@,
            n == v@.len(),
            start <= i <= n,
            ds == s@.subrange(start as int, n as int),
            ds == spec_unsigned_digits(s@),
            spec_all_digits(ds),
            acc == spec_decimal_value(ds.subrange(0, i - start)),
            acc <= u64::MAX,
        decreases n - i,
    {
        let ch = v[i];
        assert(ds[i - start] == ch);
        assert(spec_is_ascii_digit(ds[i - start]));
        let d = (ch as u32 - 0x30) as u128;
        assert(d == spec_digit_value(ds[i - start]));
        assert(ds.subrange(0, i + 1 - start).drop_last() =~= ds.subrange(0, i - start));
        acc = acc * 10 + d;
        i = i + 1;
        if acc > u64::MAX as u128 {
            proof {
                lemma_decimal_prefix_le(ds, i - start);
            }
            return None;
        }
    }
    assert(ds.subrange(0, n - start) =~= ds);
    Some(acc as u64)
}

} // verus!

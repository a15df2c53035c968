//! Character-level helpers: decimal numbers, ASCII case folding, trimming and
//! string assembly, each specified over `Seq<char>`.
use vstd::prelude::*;
use vstd::string::{StrSliceExecFns, StringExecFns};

verus! {

// ── Decimal numbers ─────────────────────────────────────────────────────────

pub open spec fn is_digit(c: char) -> bool {
    48 <= (c as int) && (c as int) <= 57
}

pub open spec fn all_digits(s: Seq<char>) -> bool {
    forall|i: int| 0 <= i < s.len() ==> #[trigger] is_digit(s[i])
}

/// Value of a string of decimal digits, most significant first.
pub open spec fn digits_value(s: Seq<char>) -> nat
    decreases s.len(),
{
    if s.len() == 0 {
        0
    } else {
        digits_value(s.drop_last()) * 10 + ((s.last() as int) - 48) as nat
    }
}

/// The digits of an unsigned number: an optional leading `+` is dropped.
pub open spec fn unsigned_digits(s: Seq<char>) -> Seq<char> {
    if s.len() > 0 && s[0] == '+' {
        s.skip(1)
    } else {
        s
    }
}

/// What `str::parse::<u64>` gives: an optional `+`, then at least one ASCII
/// digit and nothing else, with a value that fits.
pub open spec fn spec_parse_u64(s: Seq<char>) -> Option<u64> {
    let d = unsigned_digits(s);
    if d.len() > 0 && all_digits(d) && digits_value(d) <= u64::MAX {
        Some(digits_value(d) as u64)
    } else {
        None
    }
}

proof fn lemma_digits_value_prefix_mono(s: Seq<char>, k: int)
    requires
        all_digits(s),
        0 <= k <= s.len(),
    ensures
        digits_value(s.take(k)) <= digits_value(s),
    decreases s.len() - k,
{
    if k < s.len() {
        lemma_digits_value_prefix_mono(s, k + 1);
        assert(s.take(k + 1).drop_last() =~= s.take(k));
        assert(is_digit(s[k]));
    } else {
        assert(s.take(k) =~= s);
    }
}

/// Parse a decimal `u64` as `str::parse` does.
pub fn parse_u64(s: &str) -> (r: Option<u64>)
    ensures
        r == spec_parse_u64(s@),
{
    let n = s.unicode_len();
    let mut start: usize = 0;
    if n > 0 && s.get_char(0) == '+' {
        start = 1;
    }
    let ghost d = unsigned_digits(s@);
    proof {
        assert(d =~= s@.skip(start as int));
    }
    if start == n {
        return None;
    }
    let mut acc: u64 = 0;
    let mut i: usize = start;
    while i < n
        invariant
            n == s@.len(),
            start <= i <= n,
            start < n,
            d == unsigned_digits(s@),
            d =~= s@.skip(start as int),
            all_digits(d.take(i - start)),
            acc as nat == digits_value(d.take(i - start)),
        decreases n - i,
    {
        let c = s.get_char(i);
        let cv = c as u32;
        if cv < 48 || cv > 57 {
            proof {
                assert(d[i - start] == c);
                assert(!is_digit(d[i - start]));
                assert(!all_digits(d));
            }
            return None;
        }
        let dg = (cv - 48) as u64;
        proof {
            assert(d.take(i - start + 1).drop_last() =~= d.take(i - start));
            assert(d.take(i - start + 1).last() == c);
        }
        if acc > (u64::MAX - dg) / 10 {
            proof {
                assert(acc * 10 + dg > u64::MAX) by (nonlinear_arith)
                    requires
                        acc > (u64::MAX - dg) / 10,
                        dg < 10,
                ;
                assert(digits_value(d.take(i - start + 1)) > u64::MAX);
                if all_digits(d) {
                    lemma_digits_value_prefix_mono(d, i - start + 1);
                }
            }
            return None;
        }
        acc = acc * 10 + dg;
        proof {
            assert forall|j: int| 0 <= j < d.take(i - start + 1).len() implies #[trigger] is_digit(
                d.take(i - start + 1)[j],
            ) by {
                if j < i - start {
                    assert(d.take(i - start + 1)[j] == d.take(i - start)[j]);
                }
            }
        }
        i += 1;
    }
    proof {
        assert(d.take(n - start) =~= d);
    }
    Some(acc)
}

/// Decimal digits of a number, most significant first, without leading zeros.
pub open spec fn spec_decimal(n: nat) -> Seq<char>
    decreases n,
{
    if n < 10 {
        seq![((n + 48) as u8) as char]
    } else {
        spec_decimal(n / 10).push((((n % 10) + 48) as u8) as char)
    }
}

proof fn lemma_decimal_digits(n: nat)
    ensures
        spec_decimal(n).len() > 0,
        all_digits(spec_decimal(n)),
        digits_value(spec_decimal(n)) == n,
        spec_decimal(n)[0] != '+',
    decreases n,
{
    if n < 10 {
        let c = ((n + 48) as u8) as char;
        assert(c as int == n + 48);
        assert(spec_decimal(n) =~= seq![c]);
        assert(seq![c].drop_last() =~= Seq::<char>::empty());
        assert(digits_value(Seq::<char>::empty()) == 0);
        assert(digits_value(seq![c]) == digits_value(seq![c].drop_last()) * 10 + ((c as int) - 48) as nat);
    } else {
        lemma_decimal_digits(n / 10);
        let p = spec_decimal(n / 10);
        let c = (((n % 10) + 48) as u8) as char;
        assert(c as int == (n % 10) + 48);
        assert(p.push(c).drop_last() =~= p);
        assert(p.push(c)[0] == p[0]);
        assert forall|i: int| 0 <= i < p.push(c).len() implies #[trigger] is_digit(p.push(c)[i]) by {
            if i < p.len() {
                assert(is_digit(p[i]));
            }
        }
        assert(digits_value(p.push(c)) == digits_value(p.push(c).drop_last()) * 10 + ((c as int) - 48) as nat);
        assert(spec_decimal(n) == p.push(c));
        assert((n / 10) * 10 + n % 10 == n);
    }
}

/// What `decimal_string` writes, `parse_u64` reads back: a `u64` rendered in
/// decimal parses to itself.
pub proof fn lemma_decimal_parses_back(n: u64)
    ensures
        spec_parse_u64(spec_decimal(n as nat)) == Some(n),
{
    lemma_decimal_digits(n as nat);
    assert(unsigned_digits(spec_decimal(n as nat)) == spec_decimal(n as nat));
}

fn digit_char(d: u64) -> (c: char)
    requires
        d < 10,
    ensures
        c == ((d + 48) as u8) as char,
{
    ((d + 48) as u8) as char
}

/// Decimal rendering of a `u64`, as `to_string` gives it.
pub fn decimal_string(n: u64) -> (r: String)
    ensures
        r@ == spec_decimal(n as nat),
    decreases n,
{
    if n < 10 {
        let mut s = String::new();
        push_char(&mut s, digit_char(n));
        proof {
            assert(s@ =~= seq![((n + 48) as u8) as char]);
        }
        s
    } else {
        let mut s = decimal_string(n / 10);
        push_char(&mut s, digit_char(n % 10));
        s
    }
}

/// Append one character to a string: calls `String::push`, which the
/// standard library documents as appending the character at the end.
#[verifier::external_body]
pub(crate) fn push_char(s: &mut String, c: char)
    ensures
        final(s)@ == old(s)@.push(c),
{
    s.push(c)
}

// ── ASCII case folding ──────────────────────────────────────────────────────

pub open spec fn ascii_lower(c: char) -> char {
    if 65 <= (c as int) && (c as int) <= 90 {
        (((c as int) + 32) as u8) as char
    } else {
        c
    }
}

/// `a.eq_ignore_ascii_case(b)`: same length, equal after ASCII lowercasing.
pub open spec fn eq_ignore_ascii_case(a: Seq<char>, b: Seq<char>) -> bool {
    a.len() == b.len() && forall|i: int| 0 <= i < a.len() ==> #[trigger] ascii_lower(a[i]) == ascii_lower(b[i])
}

fn lower_char(c: char) -> (r: char)
    ensures
        r == ascii_lower(c),
{
    let v = c as u32;
    if 65 <= v && v <= 90 {
        ((v + 32) as u8) as char
    } else {
        c
    }
}

/// Compare two strings ignoring ASCII case.
pub fn str_eq_ignore_ascii_case(a: &str, b: &str) -> (r: bool)
    ensures
        r == eq_ignore_ascii_case(a@, b@),
{
    let n = a.unicode_len();
    if n != b.unicode_len() {
        return false;
    }
    let mut i: usize = 0;
    while i < n
        invariant
            n == a@.len(),
            n == b@.len(),
            0 <= i <= n,
            forall|j: int| 0 <= j < i ==> #[trigger] ascii_lower(a@[j]) == ascii_lower(b@[j]),
        decreases n - i,
    {
        if lower_char(a.get_char(i)) != lower_char(b.get_char(i)) {
            return false;
        }
        i += 1;
    }
    true
}

// ── Whitespace ──────────────────────────────────────────────────────────────

/// `char::is_whitespace`: the Unicode `White_Space` characters.
pub open spec fn is_unicode_whitespace(c: char) -> bool {
    let v = c as int;
    (9 <= v && v <= 13) || v == 32 || v == 0x85 || v == 0xa0 || v == 0x1680 || (0x2000 <= v && v
        <= 0x200a) || v == 0x2028 || v == 0x2029 || v == 0x202f || v == 0x205f || v == 0x3000
}

fn is_whitespace_char(c: char) -> (r: bool)
    ensures
        r == is_unicode_whitespace(c),
{
    let v = c as u32;
    (9 <= v && v <= 13) || v == 32 || v == 0x85 || v == 0xa0 || v == 0x1680 || (0x2000 <= v && v
        <= 0x200a) || v == 0x2028 || v == 0x2029 || v == 0x202f || v == 0x205f || v == 0x3000
}

/// Number of leading whitespace characters.
pub open spec fn leading_ws(s: Seq<char>, i: int) -> int
    decreases s.len() - i,
{
    if i >= s.len() || !is_unicode_whitespace(s[i]) {
        i
    } else {
        leading_ws(s, i + 1)
    }
}

/// End of the text once trailing whitespace is cut, looking down from `j`.
pub open spec fn trailing_end(s: Seq<char>, lo: int, j: int) -> int
    decreases j - lo,
{
    if j <= lo || !is_unicode_whitespace(s[j - 1]) {
        j
    } else {
        trailing_end(s, lo, j - 1)
    }
}

/// `str::trim`: leading and trailing whitespace removed.
pub open spec fn spec_trim(s: Seq<char>) -> Seq<char> {
    let lo = leading_ws(s, 0);
    s.subrange(lo, trailing_end(s, lo, s.len() as int))
}

proof fn lemma_leading_ws_range(s: Seq<char>, i: int)
    requires
        0 <= i <= s.len(),
    ensures
        i <= leading_ws(s, i) <= s.len(),
    decreases s.len() - i,
{
    if i < s.len() && is_unicode_whitespace(s[i]) {
        lemma_leading_ws_range(s, i + 1);
    }
}

proof fn lemma_trailing_end_range(s: Seq<char>, lo: int, j: int)
    requires
        0 <= lo <= j <= s.len(),
    ensures
        lo <= trailing_end(s, lo, j) <= j,
    decreases j - lo,
{
    if j > lo && is_unicode_whitespace(s[j - 1]) {
        lemma_trailing_end_range(s, lo, j - 1);
    }
}

/// Trim surrounding whitespace.
pub fn trim(s: &str) -> (r: &str)
    ensures
        r@ == spec_trim(s@),
{
    let n = s.unicode_len();
    let mut lo: usize = 0;
    proof {
        lemma_leading_ws_range(s@, 0);
    }
    while lo < n && is_whitespace_char(s.get_char(lo))
        invariant
            n == s@.len(),
            0 <= lo <= n,
            leading_ws(s@, 0) == leading_ws(s@, lo as int),
        decreases n - lo,
    {
        lo += 1;
    }
    let mut hi: usize = n;
    proof {
        lemma_trailing_end_range(s@, lo as int, n as int);
    }
    while hi > lo && is_whitespace_char(s.get_char(hi - 1))
        invariant
            n == s@.len(),
            lo <= hi <= n,
            lo == leading_ws(s@, 0),
            trailing_end(s@, lo as int, n as int) == trailing_end(s@, lo as int, hi as int),
        decreases hi - lo,
    {
        hi -= 1;
    }
    s.substring_char(lo, hi)
}

// ── Search and assembly ─────────────────────────────────────────────────────

/// Index of the first `c` in `s`, or `s.len()`.
pub open spec fn first_index_of(s: Seq<char>, c: char, i: int) -> int
    decreases s.len() - i,
{
    if i >= s.len() || s[i] == c {
        i
    } else {
        first_index_of(s, c, i + 1)
    }
}

proof fn lemma_first_index_of_range(s: Seq<char>, c: char, i: int)
    requires
        0 <= i <= s.len(),
    ensures
        i <= first_index_of(s, c, i) <= s.len(),
    decreases s.len() - i,
{
    if i < s.len() && s[i] != c {
        lemma_first_index_of_range(s, c, i + 1);
    }
}

/// Text before the first `c` (all of it where there is none): `split(c).next()`.
pub fn before_first(s: &str, c: char) -> (r: &str)
    ensures
        r@ == s@.take(first_index_of(s@, c, 0)),
{
    let n = s.unicode_len();
    let mut i: usize = 0;
    proof {
        lemma_first_index_of_range(s@, c, 0);
    }
    while i < n && s.get_char(i) != c
        invariant
            n == s@.len(),
            0 <= i <= n,
            first_index_of(s@, c, 0) == first_index_of(s@, c, i as int),
        decreases n - i,
    {
        i += 1;
    }
    let r = s.substring_char(0, i);
    proof {
        assert(r@ =~= s@.take(i as int));
    }
    r
}

/// Position of the last `c` among the first `j` characters of `s`, or `None`.
pub open spec fn last_index_of(s: Seq<char>, c: char, j: int) -> Option<int>
    decreases j,
{
    if j <= 0 {
        None
    } else if s[j - 1] == c {
        Some(j - 1)
    } else {
        last_index_of(s, c, j - 1)
    }
}

proof fn lemma_last_index_of_range(s: Seq<char>, c: char, j: int)
    requires
        0 <= j <= s.len(),
    ensures
        last_index_of(s, c, j) matches Some(k) ==> 0 <= k < j && s[k] == c,
    decreases j,
{
    if j > 0 && s[j - 1] != c {
        lemma_last_index_of_range(s, c, j - 1);
    }
}

/// Position of the last `c` in `s` (`rfind`).
pub fn rfind_char(s: &str, c: char) -> (r: Option<usize>)
    ensures
        match r {
            Some(k) => last_index_of(s@, c, s@.len() as int) == Some(k as int),
            None => last_index_of(s@, c, s@.len() as int) is None,
        },
        r matches Some(k) ==> k < s@.len() && s@[k as int] == c,
{
    let n = s.unicode_len();
    let mut j: usize = n;
    proof {
        lemma_last_index_of_range(s@, c, n as int);
    }
    while j > 0
        invariant
            n == s@.len(),
            0 <= j <= n,
            last_index_of(s@, c, n as int) == last_index_of(s@, c, j as int),
        decreases j,
    {
        if s.get_char(j - 1) == c {
            return Some(j - 1);
        }
        j -= 1;
    }
    None
}

/// `s` with every `a` and every `b` replaced by `to`.
pub open spec fn spec_replace2(s: Seq<char>, a: char, b: char, to: char) -> Seq<char> {
    Seq::new(s.len(), |i: int| if s[i] == a || s[i] == b { to } else { s[i] })
}

/// Replace every `a` and every `b` by `to`.
pub fn replace2(s: &str, a: char, b: char, to: char) -> (r: String)
    ensures
        r@ == spec_replace2(s@, a, b, to),
{
    let n = s.unicode_len();
    let mut out = String::new();
    let mut i: usize = 0;
    while i < n
        invariant
            n == s@.len(),
            0 <= i <= n,
            out@ =~= spec_replace2(s@, a, b, to).take(i as int),
        decreases n - i,
    {
        let c = s.get_char(i);
        if c == a || c == b {
            push_char(&mut out, to);
        } else {
            push_char(&mut out, c);
        }
        proof {
            assert(spec_replace2(s@, a, b, to).take(i + 1) =~= spec_replace2(s@, a, b, to).take(
                i as int,
            ).push(spec_replace2(s@, a, b, to)[i as int]));
        }
        i += 1;
    }
    proof {
        assert(spec_replace2(s@, a, b, to).take(n as int) =~= spec_replace2(s@, a, b, to));
    }
    out
}

/// `s` starts with `p`.
pub fn starts_with(s: &str, p: &str) -> (r: bool)
    ensures
        r == (p@.len() <= s@.len() && s@.take(p@.len() as int) == p@),
{
    let m = p.unicode_len();
    let n = s.unicode_len();
    if m > n {
        return false;
    }
    let mut i: usize = 0;
    while i < m
        invariant
            m == p@.len(),
            n == s@.len(),
            m <= n,
            0 <= i <= m,
            forall|j: int| 0 <= j < i ==> s@[j] == p@[j],
        decreases m - i,
    {
        if s.get_char(i) != p.get_char(i) {
            proof {
                assert(s@.take(m as int)[i as int] != p@[i as int]);
            }
            return false;
        }
        i += 1;
    }
    proof {
        assert(s@.take(m as int) =~= p@);
    }
    true
}

/// Drop trailing `c` characters (`trim_end_matches(c)`).
pub open spec fn spec_trim_end_char(s: Seq<char>, c: char) -> Seq<char>
    decreases s.len(),
{
    if s.len() > 0 && s.last() == c {
        spec_trim_end_char(s.drop_last(), c)
    } else {
        s
    }
}

pub fn trim_end_char(s: &str, c: char) -> (r: &str)
    ensures
        r@ == spec_trim_end_char(s@, c),
{
    let n = s.unicode_len();
    let mut j: usize = n;
    proof {
        assert(s@.take(n as int) =~= s@);
    }
    while j > 0 && s.get_char(j - 1) == c
        invariant
            n == s@.len(),
            0 <= j <= n,
            spec_trim_end_char(s@, c) == spec_trim_end_char(s@.take(j as int), c),
        decreases j,
    {
        proof {
            assert(s@.take(j as int).drop_last() =~= s@.take(j - 1));
        }
        j -= 1;
    }
    proof {
        assert(s@.take(n as int) =~= s@);
    }
    s.substring_char(0, j)
}

/// Two strings hold the same characters.
pub fn str_eq(a: &str, b: &str) -> (r: bool)
    ensures
        r == (a@ == b@),
{
    let n = a.unicode_len();
    if n != b.unicode_len() {
        return false;
    }
    let mut i: usize = 0;
    while i < n
        invariant
            n == a@.len(),
            n == b@.len(),
            0 <= i <= n,
            forall|j: int| 0 <= j < i ==> a@[j] == b@[j],
        decreases n - i,
    {
        if a.get_char(i) != b.get_char(i) {
            return false;
        }
        i += 1;
    }
    proof {
        assert(a@ =~= b@);
    }
    true
}

/// Copy a string slice into an owned string.
pub fn owned(a: &str) -> (r: String)
    ensures
        r@ == a@,
{
    String::from_str(a)
}

/// Concatenate two strings into a new one.
pub fn concat2(a: &str, b: &str) -> (r: String)
    ensures
        r@ == a@ + b@,
{
    let mut s = String::from_str(a);
    s.append(b);
    s
}

/// Concatenate three strings into a new one.
pub fn concat3(a: &str, b: &str, c: &str) -> (r: String)
    ensures
        r@ == a@ + b@ + c@,
{
    let mut s = String::from_str(a);
    s.append(b);
    s.append(c);
    s
}

// ── Laws of case folding and trimming ───────────────────────────────────────

pub(crate) proof fn lemma_eq_ignore_case_equiv(a: Seq<char>, b: Seq<char>, c: Seq<char>)
    ensures
        eq_ignore_ascii_case(a, a),
        eq_ignore_ascii_case(a, b) ==> eq_ignore_ascii_case(b, a),
        eq_ignore_ascii_case(a, b) && eq_ignore_ascii_case(b, c) ==> eq_ignore_ascii_case(a, c),
{
    if eq_ignore_ascii_case(a, b) && eq_ignore_ascii_case(b, c) {
        assert forall|i: int| 0 <= i < a.len() implies #[trigger] ascii_lower(a[i]) == ascii_lower(c[i]) by {
            assert(ascii_lower(a[i]) == ascii_lower(b[i]));
            assert(ascii_lower(b[i]) == ascii_lower(c[i]));
        }
    }
}

/// Characters that fold to the same lower case agree on being `c` where `c`
/// is no ASCII letter, and on being whitespace.
pub(crate) proof fn lemma_fold_keeps_non_letters(a: char, b: char, c: char)
    requires
        ascii_lower(a) == ascii_lower(b),
        !(65 <= (c as int) <= 90),
        !(97 <= (c as int) <= 122),
    ensures
        a == c <==> b == c,
        is_unicode_whitespace(a) <==> is_unicode_whitespace(b),
        is_unicode_whitespace(a) ==> a == b,
{
    if 65 <= (a as int) <= 90 {
        assert(((((a as int) + 32) as u8) as char) as int == (a as int) + 32);
    }
    if 65 <= (b as int) <= 90 {
        assert(((((b as int) + 32) as u8) as char) as int == (b as int) + 32);
    }
}

proof fn lemma_first_index_of_fold(s: Seq<char>, t: Seq<char>, c: char, i: int)
    requires
        eq_ignore_ascii_case(s, t),
        !(65 <= (c as int) <= 90),
        !(97 <= (c as int) <= 122),
        0 <= i <= s.len(),
    ensures
        first_index_of(s, c, i) == first_index_of(t, c, i),
    decreases s.len() - i,
{
    if i < s.len() {
        lemma_fold_keeps_non_letters(s[i], t[i], c);
        lemma_first_index_of_fold(s, t, c, i + 1);
    }
}

proof fn lemma_leading_ws_fold(s: Seq<char>, t: Seq<char>, i: int)
    requires
        eq_ignore_ascii_case(s, t),
        0 <= i <= s.len(),
    ensures
        leading_ws(s, i) == leading_ws(t, i),
    decreases s.len() - i,
{
    if i < s.len() {
        lemma_fold_keeps_non_letters(s[i], t[i], ' ');
        lemma_leading_ws_fold(s, t, i + 1);
    }
}

proof fn lemma_trailing_end_fold(s: Seq<char>, t: Seq<char>, lo: int, j: int)
    requires
        eq_ignore_ascii_case(s, t),
        0 <= lo <= j <= s.len(),
    ensures
        trailing_end(s, lo, j) == trailing_end(t, lo, j),
    decreases j - lo,
{
    if j > lo {
        lemma_fold_keeps_non_letters(s[j - 1], t[j - 1], ' ');
        lemma_trailing_end_fold(s, t, lo, j - 1);
    }
}

/// Text that is equal ignoring ASCII case stays so once cut before the first
/// `;` and trimmed.
pub(crate) proof fn lemma_fold_cut_trim(s: Seq<char>, t: Seq<char>)
    requires
        eq_ignore_ascii_case(s, t),
    ensures
        eq_ignore_ascii_case(
            spec_trim(s.take(first_index_of(s, ';', 0))),
            spec_trim(t.take(first_index_of(t, ';', 0))),
        ),
{
    lemma_first_index_of_fold(s, t, ';', 0);
    lemma_first_index_of_range(s, ';', 0);
    let k = first_index_of(s, ';', 0);
    let s1 = s.take(k);
    let t1 = t.take(k);
    assert(eq_ignore_ascii_case(s1, t1)) by {
        assert forall|i: int| 0 <= i < s1.len() implies #[trigger] ascii_lower(s1[i]) == ascii_lower(t1[i]) by {
            assert(ascii_lower(s[i]) == ascii_lower(t[i]));
        }
    }
    lemma_leading_ws_fold(s1, t1, 0);
    lemma_leading_ws_range(s1, 0);
    let lo = leading_ws(s1, 0);
    lemma_trailing_end_fold(s1, t1, lo, s1.len() as int);
    lemma_trailing_end_range(s1, lo, s1.len() as int);
    let hi = trailing_end(s1, lo, s1.len() as int);
    let a = s1.subrange(lo, hi);
    let b = t1.subrange(lo, hi);
    assert forall|i: int| 0 <= i < a.len() implies #[trigger] ascii_lower(a[i]) == ascii_lower(b[i]) by {
        assert(ascii_lower(s1[lo + i]) == ascii_lower(t1[lo + i]));
    }
}

proof fn lemma_first_index_of_absent(s: Seq<char>, c: char, i: int)
    requires
        0 <= i <= s.len(),
        forall|j: int| i <= j < s.len() ==> #[trigger] s[j] != c,
    ensures
        first_index_of(s, c, i) == s.len(),
    decreases s.len() - i,
{
    if i < s.len() {
        lemma_first_index_of_absent(s, c, i + 1);
    }
}

proof fn lemma_first_index_of_before(s: Seq<char>, c: char, i: int, j: int)
    requires
        0 <= i <= j < first_index_of(s, c, i),
        first_index_of(s, c, i) <= s.len(),
    ensures
        s[j] != c,
    decreases j - i,
{
    if i < j {
        lemma_first_index_of_before(s, c, i + 1, j);
    }
}

proof fn lemma_leading_ws_stop(s: Seq<char>, i: int)
    requires
        0 <= i <= s.len(),
    ensures
        leading_ws(s, i) == s.len() || !is_unicode_whitespace(s[leading_ws(s, i)]),
    decreases s.len() - i,
{
    if i < s.len() && is_unicode_whitespace(s[i]) {
        lemma_leading_ws_stop(s, i + 1);
    }
}

proof fn lemma_trailing_end_stop(s: Seq<char>, lo: int, j: int)
    requires
        0 <= lo <= j <= s.len(),
    ensures
        trailing_end(s, lo, j) == lo || !is_unicode_whitespace(s[trailing_end(s, lo, j) - 1]),
    decreases j - lo,
{
    if j > lo && is_unicode_whitespace(s[j - 1]) {
        lemma_trailing_end_stop(s, lo, j - 1);
    }
}

/// Cutting before the first `;` and trimming a second time changes nothing.
pub(crate) proof fn lemma_cut_trim_idempotent(s: Seq<char>)
    ensures
        ({
            let e = spec_trim(s.take(first_index_of(s, ';', 0)));
            spec_trim(e.take(first_index_of(e, ';', 0))) == e
        }),
{
    lemma_first_index_of_range(s, ';', 0);
    let k = first_index_of(s, ';', 0);
    let s1 = s.take(k);
    lemma_leading_ws_range(s1, 0);
    let lo = leading_ws(s1, 0);
    lemma_trailing_end_range(s1, lo, s1.len() as int);
    let hi = trailing_end(s1, lo, s1.len() as int);
    let e = s1.subrange(lo, hi);
    assert forall|j: int| 0 <= j < e.len() implies #[trigger] e[j] != ';' by {
        lemma_first_index_of_before(s, ';', 0, lo + j);
    }
    lemma_first_index_of_absent(e, ';', 0);
    assert(e.take(e.len() as int) =~= e);
    lemma_leading_ws_stop(s1, 0);
    lemma_trailing_end_stop(s1, lo, s1.len() as int);
    if e.len() > 0 {
        assert(e[0] == s1[lo]);
        assert(!is_unicode_whitespace(e[0]));
        assert(leading_ws(e, 0) == 0);
        assert(e[e.len() - 1] == s1[hi - 1]);
        assert(trailing_end(e, 0, e.len() as int) == e.len());
    } else {
        assert(leading_ws(e, 0) == 0);
        assert(trailing_end(e, 0, 0) == 0);
    }
    assert(e.subrange(0, e.len() as int) =~= e);
}

/// Text with no `;` and no whitespace is its own cut-and-trimmed form.
pub(crate) proof fn lemma_plain_cut_trim(s: Seq<char>)
    requires
        forall|i: int| 0 <= i < s.len() ==> #[trigger] s[i] != ';' && !is_unicode_whitespace(s[i]),
    ensures
        spec_trim(s.take(first_index_of(s, ';', 0))) == s,
{
    lemma_first_index_of_absent(s, ';', 0);
    assert(s.take(s.len() as int) =~= s);
    if s.len() > 0 {
        assert(!is_unicode_whitespace(s[0]));
        assert(leading_ws(s, 0) == 0);
        assert(!is_unicode_whitespace(s[s.len() - 1]));
        assert(trailing_end(s, 0, s.len() as int) == s.len());
    } else {
        assert(leading_ws(s, 0) == 0);
        assert(trailing_end(s, 0, 0) == 0);
    }
    assert(s.subrange(0, s.len() as int) =~= s);
}

} // verus!

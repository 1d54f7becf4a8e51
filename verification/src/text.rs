//! Text primitives: comparison, Unicode white space, trimming, decimal
//! numbers and the normalisation of optional text fields.

use vstd::prelude::*;

verus! {

/// `<str as PartialEq>::eq`: two string slices are equal exactly when they
/// hold the same characters.
#[verifier::external_body]
pub(crate) fn str_eq(a: &str, b: &str) -> (r: bool)
    ensures
        r == (a@ == b@),
{
    a == b
}

/// `String::push`: appends one character.
#[verifier::external_body]
pub(crate) fn push_char(s: &mut String, c: char)
    ensures
        final(s)@ == old(s)@.push(c),
{
    s.push(c)
}

/// What `str::to_lowercase` returns for a text: the full Unicode lower-case
/// mapping, which is not restated here.
pub uninterp spec fn unicode_lowercase(s: Seq<char>) -> Seq<char>;

/// `str::to_lowercase`; its result is given the name `unicode_lowercase`.
#[verifier::external_body]
pub(crate) fn to_lowercase(s: &str) -> (r: String)
    ensures
        r@ == unicode_lowercase(s@),
{
    s.to_lowercase()
}

/// The characters of `s`, in order.
pub fn chars_of(s: &str) -> (v: Vec<char>)
    ensures
        v@ == s@,
{
    let mut v: Vec<char> = Vec::new();
    for c in it: s.chars()
        invariant
            v@ == it.seq().take(it.index() as int),
    {
        v.push(c);
    }
    v
}

/// The characters with the Unicode property White_Space, which is what
/// `char::is_whitespace` and `str::trim` go by.
pub open spec fn is_white_space(c: char) -> bool {
    ||| ('\u{9}' <= c && c <= '\u{d}')
    ||| c == ' '
    ||| c == '\u{85}'
    ||| c == '\u{a0}'
    ||| c == '\u{1680}'
    ||| ('\u{2000}' <= c && c <= '\u{200a}')
    ||| c == '\u{2028}'
    ||| c == '\u{2029}'
    ||| c == '\u{202f}'
    ||| c == '\u{205f}'
    ||| c == '\u{3000}'
}

pub fn is_whitespace(c: char) -> (r: bool)
    ensures
        r == is_white_space(c),
{
    ('\u{9}' <= c && c <= '\u{d}') || c == ' ' || c == '\u{85}' || c == '\u{a0}' || c
        == '\u{1680}' || ('\u{2000}' <= c && c <= '\u{200a}') || c == '\u{2028}' || c
        == '\u{2029}' || c == '\u{202f}' || c == '\u{205f}' || c == '\u{3000}'
}

/// `s` without its leading white space.
pub open spec fn trim_start(s: Seq<char>) -> Seq<char>
    decreases s.len(),
{
    if s.len() > 0 && is_white_space(s[0]) {
        trim_start(s.drop_first())
    } else {
        s
    }
}

/// `s` without its trailing white space.
pub open spec fn trim_end(s: Seq<char>) -> Seq<char>
    decreases s.len(),
{
    if s.len() > 0 && is_white_space(s.last()) {
        trim_end(s.drop_last())
    } else {
        s
    }
}

/// `s` without leading and trailing white space, as `str::trim` gives it.
pub open spec fn trimmed(s: Seq<char>) -> Seq<char> {
    trim_end(trim_start(s))
}

proof fn lemma_trim_start(s: Seq<char>, i: int)
    requires
        0 <= i <= s.len(),
        forall|k: int| 0 <= k < i ==> is_white_space(#[trigger] s[k]),
        i == s.len() || !is_white_space(s[i]),
    ensures
        trim_start(s) == s.skip(i),
    decreases i,
{
    if i == 0 {
        assert(s.skip(0) =~= s);
    } else {
        assert(is_white_space(s[0]));
        let t = s.drop_first();
        assert forall|k: int| 0 <= k < i - 1 implies is_white_space(#[trigger] t[k]) by {
            assert(t[k] == s[k + 1]);
        }
        lemma_trim_start(t, i - 1);
        assert(t.skip(i - 1) =~= s.skip(i));
    }
}

proof fn lemma_trim_end(t: Seq<char>, k: int)
    requires
        0 <= k <= t.len(),
        forall|m: int| k <= m < t.len() ==> is_white_space(#[trigger] t[m]),
        k == 0 || !is_white_space(t[k - 1]),
    ensures
        trim_end(t) == t.take(k),
    decreases t.len() - k,
{
    if k == t.len() {
        assert(t.take(k) =~= t);
    } else {
        assert(is_white_space(t.last()));
        let u = t.drop_last();
        assert forall|m: int| k <= m < u.len() implies is_white_space(#[trigger] u[m]) by {
            assert(u[m] == t[m]);
        }
        lemma_trim_end(u, k);
        assert(u.take(k) =~= t.take(k));
    }
}

/// `str::trim`: the slice of `s` without leading and trailing white space.
pub fn trim(s: &str) -> (r: &str)
    ensures
        r@ == trimmed(s@),
{
    let chars = chars_of(s);
    let n = chars.len();
    let mut i: usize = 0;
    while i < n && is_whitespace(chars[i])
        invariant
            chars@ == s@,
            n == chars@.len(),
            0 <= i <= n,
            forall|k: int| 0 <= k < i ==> is_white_space(#[trigger] chars@[k]),
        decreases n - i,
    {
        i = i + 1;
    }
    let mut j: usize = n;
    while j > i && is_whitespace(chars[j - 1])
        invariant
            chars@ == s@,
            n == chars@.len(),
            0 <= i <= j <= n,
            forall|m: int| j <= m < n ==> is_white_space(#[trigger] chars@[m]),
        decreases j - i,
    {
        j = j - 1;
    }
    proof {
        lemma_trim_start(s@, i as int);
        let t = s@.skip(i as int);
        assert forall|m: int| j - i <= m < t.len() implies is_white_space(#[trigger] t[m]) by {
            assert(t[m] == s@[m + i]);
        }
        if j > i {
            assert(t[j - i - 1] == s@[j - 1]);
        }
        lemma_trim_end(t, j - i);
        assert(t.take(j - i) =~= s@.subrange(i as int, j as int));
    }
    s.substring_char(i, j)
}

/// The characters of an optional text.
pub open spec fn opt_text(v: Option<&str>) -> Option<Seq<char>> {
    match v {
        Some(s) => Some(s@),
        None => None,
    }
}

/// The text without surrounding white space, where anything is left of it.
pub open spec fn non_empty_text(v: Option<Seq<char>>) -> Option<Seq<char>> {
    match v {
        Some(s) => if trimmed(s).len() == 0 {
            None
        } else {
            Some(trimmed(s))
        },
        None => None,
    }
}

/// A trimmed, non-empty text that holds an `@`.
pub open spec fn email_text(v: Option<Seq<char>>) -> Option<Seq<char>> {
    match non_empty_text(v) {
        Some(t) => if t.contains('@') {
            Some(t)
        } else {
            None
        },
        None => None,
    }
}

/// Whether `c` occurs in `s`.
pub fn contains_char(s: &str, c: char) -> (r: bool)
    ensures
        r == s@.contains(c),
{
    let chars = chars_of(s);
    let mut i: usize = 0;
    while i < chars.len()
        invariant
            chars@ == s@,
            0 <= i <= chars@.len(),
            forall|k: int| 0 <= k < i ==> chars@[k] != c,
        decreases chars@.len() - i,
    {
        if chars[i] == c {
            assert(s@[i as int] == c);
            return true;
        }
        i = i + 1;
    }
    false
}

proof fn lemma_trim_start_head(s: Seq<char>)
    ensures
        trim_start(s).len() == 0 || !is_white_space(trim_start(s)[0]),
    decreases s.len(),
{
    if s.len() > 0 && is_white_space(s[0]) {
        lemma_trim_start_head(s.drop_first());
    }
}

proof fn lemma_trim_end_shape(s: Seq<char>)
    ensures
        trim_end(s).len() <= s.len(),
        trim_end(s) == s.take(trim_end(s).len() as int),
        trim_end(s).len() == 0 || !is_white_space(trim_end(s).last()),
    decreases s.len(),
{
    if s.len() > 0 && is_white_space(s.last()) {
        lemma_trim_end_shape(s.drop_last());
        let t = trim_end(s.drop_last());
        assert(s.drop_last().take(t.len() as int) =~= s.take(t.len() as int));
    } else {
        assert(s.take(s.len() as int) =~= s);
    }
}

/// Trimming twice is trimming once: a trimmed text neither begins nor ends
/// with white space.
pub proof fn lemma_trimmed_idempotent(s: Seq<char>)
    ensures
        trimmed(trimmed(s)) == trimmed(s),
        trimmed(s).len() == 0 || (!is_white_space(trimmed(s)[0]) && !is_white_space(
            trimmed(s).last(),
        )),
{
    let u = trim_start(s);
    lemma_trim_start_head(s);
    lemma_trim_end_shape(u);
    let t = trim_end(u);
    if t.len() > 0 {
        assert(t[0] == u[0]);
    }
    assert(trim_start(t) == t);
    assert(trim_end(t) == t);
}

/// Normalising a normalised text changes nothing.
pub proof fn law_normalize_non_empty_idempotent(v: Option<Seq<char>>)
    ensures
        non_empty_text(non_empty_text(v)) == non_empty_text(v),
{
    if let Some(s) = v {
        lemma_trimmed_idempotent(s);
    }
}

/// An accepted e-mail address is a normalised text with an `@`, and
/// accepting it again changes nothing.
pub proof fn law_normalize_email_idempotent(v: Option<Seq<char>>)
    ensures
        email_text(email_text(v)) == email_text(v),
        email_text(v) matches Some(e) ==> non_empty_text(v) == Some(e) && e.contains('@'),
{
    law_normalize_non_empty_idempotent(v);
}

/// The text trimmed, or `None` where it is absent or only white space.
pub fn normalize_non_empty(value: Option<&str>) -> (r: Option<String>)
    ensures
        r.deep_view() == non_empty_text(opt_text(value)),
{
    match value {
        Some(raw) => {
            let t = trim(raw);
            if t.is_empty() {
                None
            } else {
                Some(t.to_owned())
            }
        },
        None => None,
    }
}

/// The trimmed text where it is non-empty and holds an `@`.
pub fn normalize_email(value: Option<&str>) -> (r: Option<String>)
    ensures
        r.deep_view() == email_text(opt_text(value)),
{
    match normalize_non_empty(value) {
        Some(text) => {
            if contains_char(text.as_str(), '@') {
                Some(text)
            } else {
                None
            }
        },
        None => None,
    }
}


/// The character of the decimal digit `d`.
pub open spec fn digit_char(d: int) -> char {
    (d + 48) as char
}

/// Whether `c` is one of the ASCII digits `0` to `9`.
pub open spec fn is_digit(c: char) -> bool {
    '0' <= c && c <= '9'
}

/// The decimal digits of `n`, without leading zeros.
pub open spec fn decimal_digits(n: nat) -> Seq<char>
    decreases n,
{
    if n < 10 {
        seq![digit_char(n as int)]
    } else {
        decimal_digits(n / 10).push(digit_char((n % 10) as int))
    }
}

/// The decimal text of `v`, as `to_string` writes an integer.
pub open spec fn int_text(v: int) -> Seq<char> {
    if v < 0 {
        seq!['-'] + decimal_digits((-v) as nat)
    } else {
        decimal_digits(v as nat)
    }
}

/// The number that a run of decimal digits denotes.
pub open spec fn digits_value(s: Seq<char>) -> int
    decreases s.len(),
{
    if s.len() == 0 {
        0
    } else {
        digits_value(s.drop_last()) * 10 + (s.last() as int - 48)
    }
}

/// The text after an optional leading `+` or `-`.
pub open spec fn unsigned_part(s: Seq<char>) -> Seq<char> {
    if s.len() > 0 && (s[0] == '-' || s[0] == '+') {
        s.drop_first()
    } else {
        s
    }
}

/// Whether `s` is one or more decimal digits.
pub open spec fn all_digits(s: Seq<char>) -> bool {
    s.len() > 0 && forall|i: int| 0 <= i < s.len() ==> is_digit(#[trigger] s[i])
}

/// The number that a sign and digits denote.
pub open spec fn signed_value(s: Seq<char>) -> int {
    if s.len() > 0 && s[0] == '-' {
        -digits_value(unsigned_part(s))
    } else {
        digits_value(unsigned_part(s))
    }
}

/// What `str::parse::<i64>` gives: an optional `+` or `-`, then one or more
/// digits and nothing else, denoting a number in the range of `i64`.
pub open spec fn parse_i64_text(s: Seq<char>) -> Option<i64> {
    if all_digits(unsigned_part(s)) && i64::MIN <= signed_value(s) <= i64::MAX {
        Some(signed_value(s) as i64)
    } else {
        None
    }
}

proof fn lemma_decimal_digits(m: nat)
    ensures
        decimal_digits(m).len() > 0,
        all_digits(decimal_digits(m)),
        digits_value(decimal_digits(m)) == m,
    decreases m,
{
    let d = decimal_digits(m);
    if m < 10 {
        assert(d == seq![digit_char(m as int)]);
        assert(digit_char(m as int) as int == m + 48);
        assert(d.drop_last() =~= Seq::<char>::empty());
        assert(digits_value(d.drop_last()) == 0);
        assert(is_digit(d[0]));
    } else {
        let r = decimal_digits(m / 10);
        lemma_decimal_digits(m / 10);
        assert(d == r.push(digit_char((m % 10) as int)));
        assert(d.drop_last() =~= r);
        assert(digit_char((m % 10) as int) as int == m % 10 + 48);
        assert(d.last() == digit_char((m % 10) as int));
        assert((m / 10) * 10 + m % 10 == m);
        assert forall|i: int| 0 <= i < d.len() implies is_digit(#[trigger] d[i]) by {
            if i < r.len() {
                assert(d[i] == r[i]);
            }
        }
    }
}

/// Reading back the decimal text of an `i64` gives that `i64`.
pub proof fn law_parse_int_text(n: i64)
    ensures
        parse_i64_text(int_text(n as int)) == Some(n),
        int_text(n as int).len() > 0,
        !is_white_space(int_text(n as int)[0]),
        !is_white_space(int_text(n as int).last()),
{
    if n < 0 {
        let d = decimal_digits((-n) as nat);
        lemma_decimal_digits((-n) as nat);
        let t = seq!['-'] + d;
        assert(t == int_text(n as int));
        assert(t.drop_first() =~= d);
        assert(unsigned_part(t) == d);
        assert(t.last() == d.last());
        assert(is_digit(d[d.len() - 1]));
    } else {
        let d = decimal_digits(n as nat);
        lemma_decimal_digits(n as nat);
        assert(is_digit(d[0]));
        assert(is_digit(d[d.len() - 1]));
        assert(unsigned_part(d) == d);
    }
}

/// The decimal text of an `i64` is its own trimming, also with white space
/// around it.
pub proof fn law_int_text_trimmed(n: i64)
    ensures
        trimmed(int_text(n as int)) == int_text(n as int),
        trimmed(seq![' '] + int_text(n as int) + seq![' ']) == int_text(n as int),
{
    law_parse_int_text(n);
    let t = int_text(n as int);
    assert(trim_start(t) == t);
    assert(trim_end(t) == t);
    let u = seq![' '] + t + seq![' '];
    assert(u[0] == ' ');
    assert(u[1] == t[0]);
    lemma_trim_start(u, 1);
    let v = u.skip(1);
    assert(v =~= t + seq![' ']);
    assert(v[t.len() - 1] == t.last());
    assert(v[t.len() as int] == ' ');
    lemma_trim_end(v, t.len() as int);
    assert(v.take(t.len() as int) =~= t);
}

fn push_decimal(out: &mut String, n: u64)
    ensures
        final(out)@ == old(out)@ + decimal_digits(n as nat),
    decreases n,
{
    if n >= 10 {
        push_decimal(out, n / 10);
    }
    let d: u8 = (n % 10) as u8;
    let c: char = (d + 48) as char;
    push_char(out, c);
    proof {
        assert(c == digit_char((n % 10) as int));
        if n < 10 {
            assert(n % 10 == n);
        }
    }
}

/// The decimal text of a `u64`, as `u64::to_string` writes it.
pub fn u64_to_string(n: u64) -> (r: String)
    ensures
        r@ == int_text(n as int),
{
    let mut out = String::new();
    push_decimal(&mut out, n);
    assert(out@ =~= decimal_digits(n as nat));
    out
}

/// The decimal text of an `i64`, as `i64::to_string` writes it.
pub fn i64_to_string(v: i64) -> (r: String)
    ensures
        r@ == int_text(v as int),
{
    let mut out = String::new();
    if v < 0 {
        push_char(&mut out, '-');
        let m: u64 = ((-(v + 1)) as u64) + 1;
        push_decimal(&mut out, m);
        assert(out@ =~= seq!['-'] + decimal_digits((-v) as nat));
    } else {
        push_decimal(&mut out, v as u64);
        assert(out@ =~= decimal_digits(v as nat));
    }
    out
}

proof fn lemma_digits_value_push(s: Seq<char>, c: char)
    ensures
        digits_value(s.push(c)) == digits_value(s) * 10 + (c as int - 48),
{
    assert(s.push(c).drop_last() =~= s);
}

proof fn lemma_digits_value_nonneg(s: Seq<char>)
    requires
        forall|i: int| 0 <= i < s.len() ==> is_digit(#[trigger] s[i]),
    ensures
        digits_value(s) >= 0,
    decreases s.len(),
{
    if s.len() > 0 {
        let t = s.drop_last();
        assert forall|i: int| 0 <= i < t.len() implies is_digit(#[trigger] t[i]) by {
            assert(t[i] == s[i]);
        }
        lemma_digits_value_nonneg(t);
        assert(is_digit(s[s.len() - 1]));
    }
}

/// `str::parse::<i64>`, as its documentation states it.
pub fn parse_i64(s: &str) -> (r: Option<i64>)
    ensures
        r == parse_i64_text(s@),
{
    let chars = chars_of(s);
    let n = chars.len();
    let neg = n > 0 && chars[0] == '-';
    let start: usize = if n > 0 && (chars[0] == '-' || chars[0] == '+') {
        1
    } else {
        0
    };
    let ghost body = unsigned_part(s@);
    assert(body =~= s@.skip(start as int));
    if start == n {
        return None;
    }
    // the value of the digits read so far, or `CAP + 1` once it exceeds `CAP`
    let cap: u128 = 0x1_0000_0000_0000_0000;
    let mut acc: u128 = 0;
    let mut i: usize = start;
    assert(body.take(0) =~= Seq::<char>::empty());
    while i < n
        invariant
            chars@ == s@,
            n == chars@.len(),
            start <= i <= n,
            body == s@.skip(start as int),
            body == unsigned_part(s@),
            neg == (s@.len() > 0 && s@[0] == '-'),
            cap == 0x1_0000_0000_0000_0000u128,
            forall|k: int| 0 <= k < i - start ==> is_digit(#[trigger] body[k]),
            digits_value(body.take(i - start)) >= 0,
            digits_value(body.take(i - start)) <= cap ==> acc == digits_value(
                body.take(i - start),
            ),
            digits_value(body.take(i - start)) > cap ==> acc == cap + 1,
        decreases n - i,
    {
        let c = chars[i];
        if !('0' <= c && c <= '9') {
            assert(body[i - start] == c);
            assert(!is_digit(body[i - start]));
            return None;
        }
        let ghost prev = body.take(i - start);
        proof {
            assert(body.take(i - start + 1) =~= prev.push(c));
            lemma_digits_value_push(prev, c);
            assert(body[i - start] == c);
        }
        let d: u128 = ((c as u32) - 48) as u128;
        if acc > cap {
            acc = cap + 1;
        } else {
            acc = acc * 10 + d;
            if acc > cap {
                acc = cap + 1;
            }
        }
        i = i + 1;
    }
    proof {
        assert(body.take(n - start) =~= body);
        assert forall|k: int| 0 <= k < body.len() implies is_digit(#[trigger] body[k]) by {}
    }
    if neg {
        if acc <= 0x8000_0000_0000_0000 {
            Some((0 - (acc as i128)) as i64)
        } else {
            None
        }
    } else {
        if acc <= 0x7fff_ffff_ffff_ffff {
            Some(acc as i64)
        } else {
            None
        }
    }
}

} // verus!

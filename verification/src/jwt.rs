//! The claims part of a JSON Web Token: locating it and decoding its
//! base64 text into bytes.

use vstd::prelude::*;
use base64::Engine;
use crate::text::{chars_of, push_char};

verus! {

/// The index of the first `c` in `s`, or the length of `s` where there is none.
pub open spec fn index_of_char(s: Seq<char>, c: char) -> nat
    decreases s.len(),
{
    if s.len() == 0 {
        0
    } else if s[0] == c {
        0
    } else {
        1 + index_of_char(s.drop_first(), c)
    }
}

/// The second `.`-separated segment of `s`, as `s.split('.').nth(1)` gives it.
pub open spec fn second_segment(s: Seq<char>) -> Option<Seq<char>> {
    let i = index_of_char(s, '.');
    if i >= s.len() {
        None
    } else {
        let rest = s.skip((i + 1) as int);
        Some(rest.take(index_of_char(rest, '.') as int))
    }
}

/// The URL-safe base64 characters `-` and `_` turned into `+` and `/`.
pub open spec fn to_standard_alphabet(s: Seq<char>) -> Seq<char> {
    s.map_values(
        |c: char|
            if c == '-' {
                '+'
            } else if c == '_' {
                '/'
            } else {
                c
            },
    )
}

/// `n` padding characters `=`.
pub open spec fn padding(n: nat) -> Seq<char> {
    Seq::new(n, |i: int| '=')
}

/// The number of bytes of the UTF-8 encoding of `c`.
pub open spec fn utf8_width(c: char) -> nat {
    if (c as u32) < 0x80 {
        1
    } else if (c as u32) < 0x800 {
        2
    } else if (c as u32) < 0x10000 {
        3
    } else {
        4
    }
}

/// The number of bytes of the UTF-8 encoding of `s`, which is what
/// `str::len` counts.
pub open spec fn utf8_len(s: Seq<char>) -> nat
    decreases s.len(),
{
    if s.len() == 0 {
        0
    } else {
        utf8_len(s.drop_last()) + utf8_width(s.last())
    }
}

/// `s` followed by as many `=` as bring its UTF-8 length to a multiple of four.
pub open spec fn padded_to_four(s: Seq<char>) -> Seq<char> {
    s + padding(((4 - utf8_len(s) % 4) % 4) as nat)
}

proof fn lemma_utf8_len_padding(s: Seq<char>, k: nat)
    ensures
        utf8_len(s + padding(k)) == utf8_len(s) + k,
    decreases k,
{
    if k > 0 {
        lemma_utf8_len_padding(s, (k - 1) as nat);
        assert((s + padding(k)).drop_last() =~= s + padding((k - 1) as nat));
        assert((s + padding(k)).last() == '=');
    } else {
        assert(s + padding(0) =~= s);
    }
}

/// Padding brings the UTF-8 length to a multiple of four, with at most three
/// `=`, which is what the standard base64 engine asks of its input.
pub proof fn law_padded_to_four(s: Seq<char>)
    ensures
        utf8_len(padded_to_four(s)) % 4 == 0,
        padded_to_four(s).len() - s.len() < 4,
{
    let k = ((4 - utf8_len(s) % 4) % 4) as nat;
    lemma_utf8_len_padding(s, k);
}

/// The base64 text of a token's claims, in the standard alphabet and padded.
pub open spec fn jwt_claims_text(token: Seq<char>) -> Option<Seq<char>> {
    match second_segment(token) {
        Some(seg) => Some(padded_to_four(to_standard_alphabet(seg))),
        None => None,
    }
}

/// What `base64::engine::general_purpose::STANDARD.decode` gives for a text:
/// the decoded bytes, or nothing where the text is not canonical padded
/// base64 in the standard alphabet.
pub uninterp spec fn base64_standard_decode(text: Seq<char>) -> Option<Seq<u8>>;

/// `STANDARD.decode` of the `base64` crate; its result is named
/// `base64_standard_decode`.
#[verifier::external_body]
fn decode_base64_standard(text: &str) -> (r: Option<Vec<u8>>)
    ensures
        r.deep_view() == base64_standard_decode(text@),
{
    base64::engine::general_purpose::STANDARD.decode(text).ok()
}

fn index_of(chars: &Vec<char>, from: usize, c: char) -> (r: usize)
    requires
        from <= chars@.len(),
    ensures
        r == from + index_of_char(chars@.skip(from as int), c),
        r <= chars@.len(),
{
    let mut i = from;
    assert(chars@.skip(from as int) =~= chars@.skip(i as int));
    while i < chars.len() && chars[i] != c
        invariant
            from <= i <= chars@.len(),
            index_of_char(chars@.skip(from as int), c) == (i - from) + index_of_char(
                chars@.skip(i as int),
                c,
            ),
        decreases chars@.len() - i,
    {
        assert(chars@.skip(i as int).drop_first() =~= chars@.skip(i + 1));
        i = i + 1;
    }
    proof {
        if i < chars@.len() {
            assert(chars@.skip(i as int)[0] == chars@[i as int]);
        } else {
            assert(chars@.skip(i as int).len() == 0);
        }
    }
    i
}

/// The claims text of a token: its second segment in the standard base64
/// alphabet, padded with `=`; nothing where the token has no `.`.
pub fn jwt_claims_base64(token: &str) -> (r: Option<String>)
    ensures
        r.deep_view() == jwt_claims_text(token@),
{
    let chars = chars_of(token);
    let n = chars.len();
    let first = index_of(&chars, 0, '.');
    assert(chars@.skip(0) =~= chars@);
    if first >= n {
        return None;
    }
    let end = index_of(&chars, first + 1, '.');
    let ghost seg = chars@.skip(first + 1).take(index_of_char(chars@.skip(first + 1), '.') as int);
    assert(seg =~= chars@.subrange(first + 1, end as int));
    let mut out = String::new();
    let mut i = first + 1;
    // the UTF-8 length of `out`, modulo four
    let mut len4: u32 = 0;
    assert(out@ =~= to_standard_alphabet(chars@.subrange(first + 1, i as int)));
    while i < end
        invariant
            first + 1 <= i <= end <= n,
            n == chars@.len(),
            out@ == to_standard_alphabet(chars@.subrange(first + 1, i as int)),
            len4 == utf8_len(out@) % 4,
        decreases end - i,
    {
        let c = chars[i];
        let d = if c == '-' {
            '+'
        } else if c == '_' {
            '/'
        } else {
            c
        };
        let ghost before = out@;
        let w: u32 = if (d as u32) < 0x80 {
            1
        } else if (d as u32) < 0x800 {
            2
        } else if (d as u32) < 0x10000 {
            3
        } else {
            4
        };
        push_char(&mut out, d);
        assert(out@.drop_last() =~= before);
        len4 = (len4 + w) % 4;
        assert(chars@.subrange(first + 1, i + 1) =~= chars@.subrange(first + 1, i as int).push(c));
        assert(out@ =~= to_standard_alphabet(chars@.subrange(first + 1, i + 1)));
        i = i + 1;
    }
    let ghost mapped = out@;
    assert(mapped == to_standard_alphabet(seg));
    assert(second_segment(token@) == Some(seg));
    let pad = (4 - len4) % 4;
    let mut k: u32 = 0;
    while k < pad
        invariant
            k <= pad,
            out@ == mapped + padding(k as nat),
        decreases pad - k,
    {
        push_char(&mut out, '=');
        assert(out@ =~= mapped + padding((k + 1) as nat));
        k = k + 1;
    }
    Some(out)
}

/// The bytes of a token's claims: `jwt_claims_base64` decoded with the
/// standard base64 engine. Nothing where the token has no second segment or
/// the segment does not decode.
pub fn jwt_claims_bytes(token: &str) -> (r: Option<Vec<u8>>)
    ensures
        r.deep_view() == match jwt_claims_text(token@) {
            Some(text) => base64_standard_decode(text),
            None => None,
        },
{
    match jwt_claims_base64(token) {
        Some(text) => decode_base64_standard(text.as_str()),
        None => None,
    }
}

} // verus!

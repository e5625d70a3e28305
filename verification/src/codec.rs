//! The cache value encoding: each record is written as a sequence of
//! length-prefixed text fields, `"{len}:{content}"`, one after the other.
//!
//! The length prefix is the decimal character count of the content, so any
//! content at all — colons, digits, empty strings — survives a round trip.
//! This module holds the field-level machinery: decimal formatting and
//! parsing, one-field encoding and decoding, and the proofs that decoding
//! inverts encoding.

use vstd::arithmetic::div_mod::lemma_fundamental_div_mod;
use vstd::prelude::*;

verus! {

/// The numeric value of a digit character, or 10 for any other character.
pub open spec fn digit_val(c: char) -> nat {
    if c == '0' {
        0
    } else if c == '1' {
        1
    } else if c == '2' {
        2
    } else if c == '3' {
        3
    } else if c == '4' {
        4
    } else if c == '5' {
        5
    } else if c == '6' {
        6
    } else if c == '7' {
        7
    } else if c == '8' {
        8
    } else if c == '9' {
        9
    } else {
        10
    }
}

/// The digit character for a value below ten.
pub open spec fn digit_char(d: nat) -> char {
    if d == 0 {
        '0'
    } else if d == 1 {
        '1'
    } else if d == 2 {
        '2'
    } else if d == 3 {
        '3'
    } else if d == 4 {
        '4'
    } else if d == 5 {
        '5'
    } else if d == 6 {
        '6'
    } else if d == 7 {
        '7'
    } else if d == 8 {
        '8'
    } else {
        '9'
    }
}

/// The decimal digit string of `n`, most significant digit first.
pub open spec fn spec_dec(n: nat) -> Seq<char>
    decreases n,
{
    if n < 10 {
        seq![digit_char(n)]
    } else {
        spec_dec(n / 10) + seq![digit_char(n % 10)]
    }
}

/// The numeric value of a digit string, most significant digit first.
/// Junk on strings holding non-digits; used only under an all-digits
/// hypothesis.
pub open spec fn spec_num_val(s: Seq<char>) -> nat
    decreases s.len(),
{
    if s.len() == 0 {
        0
    } else {
        spec_num_val(s.drop_last()) * 10 + digit_val(s.last())
    }
}

/// True when every character of `s` is a decimal digit.
pub open spec fn all_digits(s: Seq<char>) -> bool {
    forall|i: int| 0 <= i < s.len() ==> digit_val(#[trigger] s[i]) < 10
}

/// The first position at or after `p` whose character is not a digit, or
/// the end of `s`.
pub open spec fn digits_end(s: Seq<char>, p: int) -> int
    decreases s.len() - p,
{
    if p < 0 || p >= s.len() || digit_val(s[p]) >= 10 {
        p
    } else {
        digits_end(s, p + 1)
    }
}

/// A decimal digit string is never empty and holds digits only.
pub proof fn lemma_spec_dec_digits(n: nat)
    ensures
        spec_dec(n).len() >= 1,
        all_digits(spec_dec(n)),
    decreases n,
{
    if n >= 10 {
        lemma_spec_dec_digits(n / 10);
    }
}

/// Reading the digit string of `n` back yields `n`.
pub proof fn lemma_spec_dec_val(n: nat)
    ensures
        spec_num_val(spec_dec(n)) == n,
    decreases n,
{
    assert(spec_num_val(Seq::<char>::empty()) == 0);
    if n < 10 {
        assert(spec_dec(n).drop_last() =~= Seq::<char>::empty());
        assert(spec_dec(n).last() == digit_char(n));
        assert(digit_val(digit_char(n)) == n);
    } else {
        lemma_spec_dec_val(n / 10);
        assert(spec_dec(n).drop_last() =~= spec_dec(n / 10));
        assert(spec_dec(n).last() == digit_char(n % 10));
        assert(digit_val(digit_char(n % 10)) == n % 10);
        lemma_fundamental_div_mod(n as int, 10);
    }
}

/// The value of a digit string bounds the value of each of its prefixes.
pub proof fn lemma_num_val_prefix(s: Seq<char>, i: int)
    requires
        0 <= i <= s.len(),
    ensures
        spec_num_val(s.subrange(0, i)) <= spec_num_val(s),
    decreases s.len() - i,
{
    if i == s.len() {
        assert(s.subrange(0, i) =~= s);
    } else {
        lemma_num_val_prefix(s, i + 1);
        assert(s.subrange(0, i + 1).drop_last() =~= s.subrange(0, i));
        assert(spec_num_val(s.subrange(0, i + 1)) == spec_num_val(s.subrange(0, i)) * 10
            + digit_val(s.subrange(0, i + 1).last()));
    }
}

/// Where a digit run is known to stop, `digits_end` says so.
pub proof fn lemma_digits_end_is(s: Seq<char>, p: int, q: int)
    requires
        0 <= p <= q <= s.len(),
        forall|i: int| p <= i < q ==> digit_val(#[trigger] s[i]) < 10,
        q == s.len() || digit_val(s[q]) >= 10,
    ensures
        digits_end(s, p) == q,
    decreases q - p,
{
    if p < q {
        lemma_digits_end_is(s, p + 1, q);
    }
}

/// One field of the encoding: the decimal character count of the content,
/// a colon, then the content itself.
pub open spec fn spec_enc_field(f: Seq<char>) -> Seq<char> {
    spec_dec(f.len()) + seq![':'] + f
}

/// One parsed field: the digit run from `p` read as a length, a colon,
/// then that many characters of content.  Yields the content and the
/// position after it, or nothing if `s` does not have that shape at `p`.
pub open spec fn spec_parse_field(s: Seq<char>, p: int) -> Option<(Seq<char>, int)> {
    if p < 0 || p > s.len() {
        None
    } else {
        let e = digits_end(s, p);
        if e == p || e >= s.len() || s[e] != ':' {
            None
        } else {
            let n = spec_num_val(s.subrange(p, e)) as int;
            if e + 1 + n > s.len() {
                None
            } else {
                Some((s.subrange(e + 1, e + 1 + n), e + 1 + n))
            }
        }
    }
}

/// Parsing an encoded field embedded at `p` yields exactly the content it
/// was built from, ending right after it — whatever follows.
pub proof fn lemma_parse_enc_field(s: Seq<char>, p: int, f: Seq<char>)
    requires
        0 <= p,
        p + spec_enc_field(f).len() <= s.len(),
        s.subrange(p, p + spec_enc_field(f).len() as int) == spec_enc_field(f),
    ensures
        spec_parse_field(s, p) == Some((f, p + spec_enc_field(f).len() as int)),
{
    let enc = spec_enc_field(f);
    let d = spec_dec(f.len());
    let dl = d.len() as int;
    lemma_spec_dec_digits(f.len());
    lemma_spec_dec_val(f.len());
    assert forall|i: int| 0 <= i < enc.len() implies #[trigger] s[p + i] == enc[i] by {
        assert(s.subrange(p, p + enc.len() as int)[i] == s[p + i]);
    }
    assert forall|i: int| p <= i < p + dl implies digit_val(#[trigger] s[i]) < 10 by {
        assert(s[p + (i - p)] == enc[i - p]);
        assert(enc[i - p] == d[i - p]);
    }
    assert(s[p + dl] == enc[dl]);
    assert(s[p + dl] == ':');
    lemma_digits_end_is(s, p, p + dl);
    assert(s.subrange(p, p + dl) =~= d);
    assert forall|j: int| 0 <= j < f.len() implies s.subrange(p + dl + 1, p + dl + 1 + f.len() as int)[j]
        == f[j] by {
        assert(s[p + (dl + 1 + j)] == enc[dl + 1 + j]);
        assert(enc[dl + 1 + j] == f[j]);
    }
    assert(s.subrange(p + dl + 1, p + dl + 1 + f.len() as int) =~= f);
}

/// The digit character as a one-character string slice.
fn digit_str(d: usize) -> (r: &'static str)
    requires
        d < 10,
    ensures
        r@ == seq![digit_char(d as nat)],
{
    let r: &'static str = if d == 0 {
        proof {
            reveal_strlit("0");
        }
        "0"
    } else if d == 1 {
        proof {
            reveal_strlit("1");
        }
        "1"
    } else if d == 2 {
        proof {
            reveal_strlit("2");
        }
        "2"
    } else if d == 3 {
        proof {
            reveal_strlit("3");
        }
        "3"
    } else if d == 4 {
        proof {
            reveal_strlit("4");
        }
        "4"
    } else if d == 5 {
        proof {
            reveal_strlit("5");
        }
        "5"
    } else if d == 6 {
        proof {
            reveal_strlit("6");
        }
        "6"
    } else if d == 7 {
        proof {
            reveal_strlit("7");
        }
        "7"
    } else if d == 8 {
        proof {
            reveal_strlit("8");
        }
        "8"
    } else {
        proof {
            reveal_strlit("9");
        }
        "9"
    };
    proof {
        assert(r@ =~= seq![digit_char(d as nat)]);
    }
    r
}

/// Formats `n` as its decimal digit string.
pub fn fmt_dec(n: usize) -> (r: String)
    ensures
        r@ == spec_dec(n as nat),
    decreases n,
{
    if n < 10 {
        String::from_str(digit_str(n))
    } else {
        proof {
            lemma_fundamental_div_mod(n as int, 10);
        }
        let mut s = fmt_dec(n / 10);
        s.append(digit_str(n % 10));
        s
    }
}

/// The numeric value of one character, ten for a non-digit.
fn digit_of(c: char) -> (d: usize)
    ensures
        d as nat == digit_val(c),
{
    match c {
        '0' => 0,
        '1' => 1,
        '2' => 2,
        '3' => 3,
        '4' => 4,
        '5' => 5,
        '6' => 6,
        '7' => 7,
        '8' => 8,
        '9' => 9,
        _ => 10,
    }
}

/// Encodes one field: the decimal character count, a colon, the content.
pub fn enc_field(f: &str) -> (r: String)
    ensures
        r@ == spec_enc_field(f@),
{
    proof {
        reveal_strlit(":");
    }
    let mut r = fmt_dec(f.unicode_len());
    r.append(":");
    r.append(f);
    proof {
        assert(r@ =~= spec_enc_field(f@));
    }
    r
}

/// Parses one length-prefixed field of `s` starting at `p`, exactly as
/// [`spec_parse_field`] reads it.
pub fn parse_field(s: &str, p: usize) -> (r: Option<(String, usize)>)
    ensures
        match r {
            Some(fq) => spec_parse_field(s@, p as int) == Some((fq.0@, fq.1 as int)),
            None => spec_parse_field(s@, p as int) is None,
        },
{
    let len = s.unicode_len();
    if p >= len {
        return None;
    }
    let mut q = p;
    let mut acc: u128 = 0;
    let ghost e = digits_end(s@, p as int);
    loop
        invariant
            p <= q <= len,
            len == s@.len(),
            acc == spec_num_val(s@.subrange(p as int, q as int)),
            acc <= len,
            forall|i: int| p <= i < q ==> digit_val(#[trigger] s@[i]) < 10,
            e == digits_end(s@, p as int),
        ensures
            p <= q <= len,
            acc == spec_num_val(s@.subrange(p as int, q as int)),
            acc <= len,
            forall|i: int| p <= i < q ==> digit_val(#[trigger] s@[i]) < 10,
            q == len || digit_val(s@[q as int]) >= 10,
        decreases len - q,
    {
        if q == len {
            break ;
        }
        let c = s.get_char(q);
        let d = digit_of(c);
        if d >= 10 {
            break ;
        }
        let acc2: u128 = acc * 10 + (d as u128);
        proof {
            assert(s@.subrange(p as int, q + 1).drop_last() =~= s@.subrange(p as int, q as int));
        }
        if acc2 > len as u128 {
            // The full digit run reads as a length larger than the whole
            // input, so the field cannot fit.
            proof {
                lemma_digits_end_le(s@, p as int);
                lemma_digits_end_ge(s@, p as int, q + 1);
                let full = s@.subrange(p as int, e);
                assert(s@.subrange(p as int, q + 1) =~= full.subrange(0, q + 1 - p));
                lemma_num_val_prefix(full, q + 1 - p);
            }
            return None;
        }
        acc = acc2;
        q = q + 1;
    }
    proof {
        lemma_digits_end_is(s@, p as int, q as int);
    }
    if q == p || q == len {
        return None;
    }
    let c = s.get_char(q);
    if c != ':' {
        return None;
    }
    let n = acc as usize;
    if n > len - (q + 1) {
        return None;
    }
    let f = s.substring_char(q + 1, q + 1 + n);
    Some((String::from_str(f), q + 1 + n))
}

/// The end of a digit run never lies outside the string.
proof fn lemma_digits_end_le(s: Seq<char>, p: int)
    requires
        0 <= p <= s.len(),
    ensures
        p <= digits_end(s, p) <= s.len(),
    decreases s.len() - p,
{
    if !(p >= s.len() || digit_val(s[p]) >= 10) {
        lemma_digits_end_le(s, p + 1);
    }
}

/// A digit at each position up to `q` keeps the end of the digit run at or
/// beyond `q`.
proof fn lemma_digits_end_ge(s: Seq<char>, p: int, q: int)
    requires
        0 <= p <= q <= s.len(),
        forall|i: int| p <= i < q ==> digit_val(#[trigger] s[i]) < 10,
    ensures
        digits_end(s, p) >= q,
    decreases q - p,
{
    if p < q {
        lemma_digits_end_ge(s, p + 1, q);
    } else {
        lemma_digits_end_le(s, p);
    }
}

} // verus!

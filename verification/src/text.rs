//! Text utilities shared by the matching and conversion logic: substring
//! containment, lowercase folding, decimal rendering and JSON string escaping.

use vstd::prelude::*;

verus! {

/// `needle` occurs in `hay` starting at position `i`.
pub open spec fn match_at(hay: Seq<char>, needle: Seq<char>, i: int) -> bool {
    0 <= i && i + needle.len() <= hay.len() && hay.subrange(i, i + needle.len() as int)
        == needle
}

/// `needle` occurs somewhere in `hay` (case-sensitive).
pub open spec fn has_substring(hay: Seq<char>, needle: Seq<char>) -> bool {
    exists|i: int| match_at(hay, needle, i)
}

/// Substring search over decoded characters, the containment check that all
/// candidate scoring goes through.
pub fn contains_substring(hay: &str, needle: &str) -> (r: bool)
    ensures
        r == has_substring(hay@, needle@),
{
    let n: usize = hay.unicode_len();
    let m: usize = needle.unicode_len();
    if m > n {
        assert(forall|i: int| !match_at(hay@, needle@, i));
        return false;
    }
    if m == 0 {
        proof {
            assert(hay@.subrange(0, 0) =~= needle@);
            assert(match_at(hay@, needle@, 0));
        }
        return true;
    }
    let mut i: usize = 0;
    while i <= n - m
        invariant
            0 < m <= n,
            n == hay@.len(),
            m == needle@.len(),
            i <= n - m + 1,
            forall|k: int| 0 <= k < i ==> !match_at(hay@, needle@, k),
        decreases n - m + 1 - i,
    {
        let mut j: usize = 0;
        let mut mismatch: bool = false;
        while j < m && !mismatch
            invariant
                m <= n,
                n == hay@.len(),
                m == needle@.len(),
                i <= n - m,
                j <= m,
                forall|l: int| 0 <= l < j ==> hay@[i + l] == needle@[l],
                mismatch ==> !match_at(hay@, needle@, i as int),
            decreases m - j + (if mismatch { 0int } else { 1int }),
        {
            if hay.get_char(i + j) == needle.get_char(j) {
                j = j + 1;
            } else {
                proof {
                    assert(hay@.subrange(i as int, i + m) != needle@) by {
                        assert(hay@.subrange(i as int, i + m)[j as int] == hay@[i + j]);
                    }
                }
                mismatch = true;
            }
        }
        if !mismatch {
            proof {
                assert(hay@.subrange(i as int, i + m) =~= needle@);
                assert(match_at(hay@, needle@, i as int));
            }
            return true;
        }
        i = i + 1;
    }
    proof {
        assert(forall|k: int| #[trigger] match_at(hay@, needle@, k) ==> k + m <= n && 0 <= k);
        assert(forall|k: int| !match_at(hay@, needle@, k));
    }
    false
}

/// `pat` occurs in `s` exactly at position `i`.
pub fn prefix_matches_at(s: &str, i: usize, pat: &str) -> (r: bool)
    ensures
        r == (i + pat@.len() <= s@.len() && s@.subrange(i as int, i + pat@.len()) == pat@),
{
    let n: usize = s.unicode_len();
    let m: usize = pat.unicode_len();
    if i > n || m > n - i {
        return false;
    }
    let mut j: usize = 0;
    while j < m
        invariant
            i + m <= n,
            n == s@.len(),
            m == pat@.len(),
            j <= m,
            forall|l: int| 0 <= l < j ==> s@[i + l] == pat@[l],
        decreases m - j,
    {
        if s.get_char(i + j) != pat.get_char(j) {
            proof {
                assert(s@.subrange(i as int, i + m) != pat@) by {
                    assert(s@.subrange(i as int, i + m)[j as int] == s@[i + j]);
                }
            }
            return false;
        }
        j = j + 1;
    }
    proof {
        assert(s@.subrange(i as int, i + m) =~= pat@);
    }
    true
}

/// What `str::to_lowercase` returns for a given character sequence; the
/// folding depends on the characters alone.
pub uninterp spec fn lower_of(s: Seq<char>) -> Seq<char>;

/// Relies on `str::to_lowercase`: the result is a function of the input
/// characters alone, named `lower_of` in contracts.
#[verifier::external_body]
pub(crate) fn lowercase(s: &str) -> (r: String)
    ensures
        r@ == lower_of(s@),
{
    s.to_lowercase()
}

/// Relies on `String`'s `FromIterator<char>` impl: collecting characters
/// yields a string of exactly those characters, in order.
#[verifier::external_body]
pub(crate) fn chars_to_string(v: &Vec<char>) -> (r: String)
    ensures
        r@ == v@,
{
    v.iter().collect()
}

/// The character for a decimal digit value.
pub open spec fn decimal_digit(d: nat) -> char {
    if d == 0 {
        '0'
    } else if d == 1 {
        '1'
    } else if d == 2 {
        '2'
    } else if d == 3 {
        '3'
    } else if d == 4 {
        '4'
    } else if d == 5 {
        '5'
    } else if d == 6 {
        '6'
    } else if d == 7 {
        '7'
    } else if d == 8 {
        '8'
    } else {
        '9'
    }
}

/// The decimal rendering of `n`, without leading zeros (a single `'0'` for 0).
pub open spec fn dec_str(n: nat) -> Seq<char>
    decreases n,
{
    if n < 10 {
        seq![decimal_digit(n)]
    } else {
        dec_str(n / 10) + seq![decimal_digit(n % 10)]
    }
}

fn digit_char(d: u64) -> (c: char)
    requires
        d < 10,
    ensures
        c == decimal_digit(d as nat),
{
    if d == 0 {
        '0'
    } else if d == 1 {
        '1'
    } else if d == 2 {
        '2'
    } else if d == 3 {
        '3'
    } else if d == 4 {
        '4'
    } else if d == 5 {
        '5'
    } else if d == 6 {
        '6'
    } else if d == 7 {
        '7'
    } else if d == 8 {
        '8'
    } else {
        '9'
    }
}

fn push_decimal(x: u64, out: &mut Vec<char>)
    ensures
        final(out)@ == old(out)@ + dec_str(x as nat),
    decreases x,
{
    if x >= 10 {
        push_decimal(x / 10, out);
    }
    let c: char = digit_char(x % 10);
    out.push(c);
    proof {
        if x < 10 {
            assert(x % 10 == x);
            assert(old(out)@ + dec_str(x as nat) =~= old(out)@.push(c));
        } else {
            assert(old(out)@ + dec_str(x as nat) =~= (old(out)@ + dec_str(
                (x / 10) as nat,
            )).push(c));
        }
    }
}

/// Renders an unsigned number in decimal, as `Display` for integers does.
pub fn decimal_string(n: u64) -> (r: String)
    ensures
        r@ == dec_str(n as nat),
{
    let mut digits: Vec<char> = Vec::new();
    push_decimal(n, &mut digits);
    chars_to_string(&digits)
}

/// The decimal rendering of a signed number: a minus sign before the
/// magnitude when negative.
pub open spec fn dec_str_signed(n: int) -> Seq<char> {
    if n < 0 {
        seq!['-'] + dec_str((-n) as nat)
    } else {
        dec_str(n as nat)
    }
}

/// Renders a signed number in decimal, as `Display` for integers does.
pub fn signed_decimal_string(n: i64) -> (r: String)
    ensures
        r@ == dec_str_signed(n as int),
{
    let mut digits: Vec<char> = Vec::new();
    if n < 0 {
        digits.push('-');
        let magnitude: u64 = ((-(n as i128)) as u64);
        push_decimal(magnitude, &mut digits);
        proof {
            assert(digits@ =~= dec_str_signed(n as int));
        }
    } else {
        push_decimal(n as u64, &mut digits);
    }
    chars_to_string(&digits)
}

/// The character for a hexadecimal digit value, lowercase.
pub open spec fn hex_digit(d: nat) -> char {
    if d < 10 {
        decimal_digit(d)
    } else if d == 10 {
        'a'
    } else if d == 11 {
        'b'
    } else if d == 12 {
        'c'
    } else if d == 13 {
        'd'
    } else if d == 14 {
        'e'
    } else {
        'f'
    }
}

/// How one character is written inside a JSON string literal: quote and
/// backslash get a two-character escape, control characters get their short
/// escape or a `\u00xx` form, everything else stands for itself.
pub open spec fn json_escaped_char(c: char) -> Seq<char> {
    if c == '"' {
        seq!['\\', '"']
    } else if c == '\\' {
        seq!['\\', '\\']
    } else if c == '\u{08}' {
        seq!['\\', 'b']
    } else if c == '\u{09}' {
        seq!['\\', 't']
    } else if c == '\u{0a}' {
        seq!['\\', 'n']
    } else if c == '\u{0c}' {
        seq!['\\', 'f']
    } else if c == '\u{0d}' {
        seq!['\\', 'r']
    } else if (c as nat) < 0x20 {
        seq!['\\', 'u', '0', '0', hex_digit((c as nat) / 16), hex_digit((c as nat) % 16)]
    } else {
        seq![c]
    }
}

/// The body of a JSON string literal for `s` (without the surrounding quotes).
pub open spec fn json_escaped(s: Seq<char>) -> Seq<char>
    decreases s.len(),
{
    if s.len() == 0 {
        Seq::empty()
    } else {
        json_escaped(s.drop_last()) + json_escaped_char(s.last())
    }
}

fn push_escaped_char(c: char, out: &mut Vec<char>)
    ensures
        final(out)@ == old(out)@ + json_escaped_char(c),
{
    if c == '"' {
        out.push('\\');
        out.push('"');
    } else if c == '\\' {
        out.push('\\');
        out.push('\\');
    } else if c == '\u{08}' {
        out.push('\\');
        out.push('b');
    } else if c == '\u{09}' {
        out.push('\\');
        out.push('t');
    } else if c == '\u{0a}' {
        out.push('\\');
        out.push('n');
    } else if c == '\u{0c}' {
        out.push('\\');
        out.push('f');
    } else if c == '\u{0d}' {
        out.push('\\');
        out.push('r');
    } else if (c as u32) < 0x20 {
        let code: u32 = c as u32;
        out.push('\\');
        out.push('u');
        out.push('0');
        out.push('0');
        let hi: char = if code / 16 == 0 {
            '0'
        } else {
            '1'
        };
        out.push(hi);
        let lo: u32 = code % 16;
        let lo_char: char = if lo < 10 {
            digit_char(lo as u64)
        } else if lo == 10 {
            'a'
        } else if lo == 11 {
            'b'
        } else if lo == 12 {
            'c'
        } else if lo == 13 {
            'd'
        } else if lo == 14 {
            'e'
        } else {
            'f'
        };
        out.push(lo_char);
        proof {
            assert(hi == hex_digit(((c as nat) / 16)));
            assert(lo_char == hex_digit(((c as nat) % 16)));
            assert(old(out)@ + json_escaped_char(c) =~= old(out)@.push('\\').push('u').push(
                '0',
            ).push('0').push(hi).push(lo_char));
        }
        return ;
    } else {
        out.push(c);
    }
    proof {
        assert(final(out)@ =~= old(out)@ + json_escaped_char(c));
    }
}

/// Appends the JSON-escaped form of `s` to `out`, as `serde_json` writes
/// string contents.
pub fn push_json_escaped(s: &str, out: &mut Vec<char>)
    ensures
        final(out)@ == old(out)@ + json_escaped(s@),
{
    let n: usize = s.unicode_len();
    let mut i: usize = 0;
    while i < n
        invariant
            n == s@.len(),
            i <= n,
            out@ == old(out)@ + json_escaped(s@.subrange(0, i as int)),
        decreases n - i,
    {
        let c: char = s.get_char(i);
        push_escaped_char(c, out);
        proof {
            assert(s@.subrange(0, i + 1).drop_last() =~= s@.subrange(0, i as int));
            assert(s@.subrange(0, i + 1).last() == s@[i as int]);
        }
        i = i + 1;
    }
    proof {
        assert(s@.subrange(0, n as int) =~= s@);
    }
}

} // verus!

//! Character sequences: decimal and hexadecimal digits, and the conversions
//! between `String`, `&str` and vectors of characters.

use vstd::prelude::*;

verus! {

/// The decimal digit for `d < 10`.
pub open spec fn digit_char(d: nat) -> char {
    ((d + 48) as u8) as char
}

/// The decimal text of `n`, without leading zeros.
pub open spec fn decimal(n: nat) -> Seq<char>
    decreases n,
{
    if n < 10 {
        seq![digit_char(n)]
    } else {
        decimal(n / 10) + seq![digit_char(n % 10)]
    }
}

/// The hexadecimal digit for `d < 16`, in upper or lower case.
pub open spec fn hex_char(d: nat, upper: bool) -> char {
    if d < 10 {
        digit_char(d)
    } else if upper {
        ((d - 10 + 65) as u8) as char
    } else {
        ((d - 10 + 97) as u8) as char
    }
}

/// `c` is one of the sixteen hexadecimal digits of the given case.
pub open spec fn is_hex_char(c: char, upper: bool) -> bool {
    ('0' <= c <= '9') || (upper && 'A' <= c <= 'F') || (!upper && 'a' <= c <= 'f')
}

pub fn push_digit(out: &mut Vec<char>, d: u64)
    requires
        d < 10,
    ensures
        final(out)@ == old(out)@.push(digit_char(d as nat)),
{
    out.push(((d as u8) + 48) as char);
}

pub fn push_hex_digit(out: &mut Vec<char>, d: u64, upper: bool)
    requires
        d < 16,
    ensures
        final(out)@ == old(out)@.push(hex_char(d as nat, upper)),
{
    if d < 10 {
        push_digit(out, d);
    } else if upper {
        out.push(((d as u8) - 10 + 65) as char);
    } else {
        out.push(((d as u8) - 10 + 97) as char);
    }
}

/// The lower-case hexadecimal text of `n`, without leading zeros.
pub open spec fn hex_text(n: nat) -> Seq<char>
    decreases n,
{
    if n < 16 {
        seq![hex_char(n, false)]
    } else {
        hex_text(n / 16) + seq![hex_char(n % 16, false)]
    }
}

/// Appends the lower-case hexadecimal text of `n`.
pub fn push_hex(out: &mut Vec<char>, n: u64)
    ensures
        final(out)@ == old(out)@ + hex_text(n as nat),
    decreases n,
{
    if n >= 16 {
        push_hex(out, n / 16);
        push_hex_digit(out, n % 16, false);
        assert(hex_text(n as nat) == hex_text((n / 16) as nat) + seq![hex_char((n % 16) as nat, false)]);
    } else {
        push_hex_digit(out, n, false);
    }
}

/// Appends the decimal text of `n`.
pub fn push_decimal(out: &mut Vec<char>, n: u64)
    ensures
        final(out)@ == old(out)@ + decimal(n as nat),
    decreases n,
{
    if n >= 10 {
        push_decimal(out, n / 10);
        push_digit(out, n % 10);
        assert(decimal(n as nat) == decimal((n / 10) as nat) + seq![digit_char((n % 10) as nat)]);
    } else {
        push_digit(out, n);
    }
}

/// The pieces of `s` between occurrences of `sep`; there is always at least one.
pub open spec fn split_on(s: Seq<char>, sep: char) -> Seq<Seq<char>>
    decreases s.len(),
{
    if s.len() == 0 {
        seq![Seq::empty()]
    } else {
        let prev = split_on(s.drop_last(), sep);
        if s.last() == sep {
            prev.push(Seq::empty())
        } else {
            prev.update(prev.len() - 1, prev.last().push(s.last()))
        }
    }
}

pub proof fn lemma_split_nonempty(s: Seq<char>, sep: char)
    ensures
        split_on(s, sep).len() >= 1,
    decreases s.len(),
{
    if s.len() > 0 {
        lemma_split_nonempty(s.drop_last(), sep);
    }
}

/// Appending characters never lowers the number of pieces.
pub proof fn lemma_split_grows(s: Seq<char>, t: Seq<char>, sep: char)
    ensures
        split_on(s + t, sep).len() >= split_on(s, sep).len(),
    decreases t.len(),
{
    if t.len() == 0 {
        assert(s + t =~= s);
    } else {
        lemma_split_grows(s, t.drop_last(), sep);
        assert((s + t).drop_last() =~= s + t.drop_last());
        assert((s + t).last() == t.last());
    }
}

/// A separator at the end adds one piece.
pub proof fn lemma_split_sep(s: Seq<char>, sep: char)
    ensures
        split_on(s.push(sep), sep).len() == split_on(s, sep).len() + 1,
{
    assert(s.push(sep).drop_last() =~= s);
}

/// The character sequences of a vector of strings.
pub open spec fn views(v: Seq<String>) -> Seq<Seq<char>> {
    v.map_values(|s: String| s@)
}

/// The pieces of `s` between occurrences of `sep`.
pub fn split_text(s: &str, sep: char) -> (r: Vec<String>)
    ensures
        views(r@) == split_on(s@, sep),
{
    let chars = chars_of(s);
    let mut pieces: Vec<String> = Vec::new();
    let mut cur: Vec<char> = Vec::new();
    let mut i: usize = 0;
    while i < chars.len()
        invariant
            i <= chars@.len(),
            chars@ == s@,
            views(pieces@).push(cur@) == split_on(chars@.subrange(0, i as int), sep),
        decreases chars@.len() - i,
    {
        let c = chars[i];
        let ghost before = views(pieces@).push(cur@);
        assert(chars@.subrange(0, i + 1).drop_last() == chars@.subrange(0, i as int));
        assert(chars@.subrange(0, i + 1).last() == c);
        if c == sep {
            let piece = string_of(&cur);
            pieces.push(piece);
            cur = Vec::new();
            assert(views(pieces@).push(cur@) =~= before.push(Seq::empty()));
        } else {
            cur.push(c);
            assert(views(pieces@).push(cur@) =~= before.update(before.len() - 1, before.last().push(c)));
        }
        i += 1;
    }
    assert(chars@.subrange(0, chars@.len() as int) == chars@);
    let last = string_of(&cur);
    let ghost before = views(pieces@).push(cur@);
    pieces.push(last);
    assert(views(pieces@) =~= before);
    pieces
}

/// Appends every character of `s`.
pub fn push_all(out: &mut Vec<char>, s: &Vec<char>)
    ensures
        final(out)@ == old(out)@ + s@,
{
    let mut i: usize = 0;
    while i < s.len()
        invariant
            i <= s@.len(),
            out@ == old(out)@ + s@.subrange(0, i as int),
        decreases s@.len() - i,
    {
        out.push(s[i]);
        i += 1;
        assert(s@.subrange(0, i as int) == s@.subrange(0, i - 1) + seq![s@[i - 1]]);
    }
    assert(s@.subrange(0, s@.len() as int) == s@);
}

/// Relies on std's `FromIterator<char> for String`: the string holds the given characters in order.
#[verifier::external_body]
pub(crate) fn string_of(chars: &Vec<char>) -> (r: String)
    ensures
        r@ == chars@,
{
    chars.iter().collect()
}

/// Relies on std's `str::chars`: the characters of the string in order.
#[verifier::external_body]
pub(crate) fn chars_of(s: &str) -> (r: Vec<char>)
    ensures
        r@ == s@,
{
    s.chars().collect()
}

} // verus!

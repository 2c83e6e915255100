//! Hexadecimal pattern filling.

use vstd::prelude::*;
use crate::random::random_in;
use crate::text::{chars_of, hex_char, is_hex_char, lemma_split_nonempty, push_all, push_hex_digit, split_on, string_of, views};

verus! {

/// `out` is `pattern` with each circumflex replaced by a hexadecimal digit of the given case.
pub open spec fn hex_filled(pattern: Seq<char>, out: Seq<char>, upper: bool) -> bool {
    &&& out.len() == pattern.len()
    &&& forall|i: int|
        0 <= i < pattern.len() ==> if pattern[i] == '^' {
            is_hex_char(#[trigger] out[i], upper)
        } else {
            out[i] == pattern[i]
        }
}

/// The pieces put back together with `digits[k]` between piece `k` and piece `k + 1`.
pub open spec fn filled(pieces: Seq<Seq<char>>, digits: Seq<char>) -> Seq<char>
    decreases pieces.len(),
{
    if pieces.len() == 0 {
        Seq::empty()
    } else if pieces.len() == 1 {
        pieces[0]
    } else {
        filled(pieces.drop_last(), digits.drop_last()) + seq![digits.last()] + pieces.last()
    }
}

/// Extending the last piece by one character extends the result by that character.
proof fn lemma_filled_extend_last(pieces: Seq<Seq<char>>, digits: Seq<char>, c: char)
    requires
        pieces.len() >= 1,
    ensures
        filled(pieces.update(pieces.len() - 1, pieces.last().push(c)), digits) == filled(pieces, digits).push(c),
{
    let p2 = pieces.update(pieces.len() - 1, pieces.last().push(c));
    if pieces.len() > 1 {
        assert(p2.drop_last() =~= pieces.drop_last());
        assert(p2.last() == pieces.last().push(c));
        assert(filled(p2, digits) =~= filled(pieces, digits).push(c));
    }
}

/// Filling the pieces of a pattern between its circumflexes with hexadecimal
/// digits replaces each circumflex by a digit and keeps every other character.
pub proof fn lemma_filled_pattern(s: Seq<char>, digits: Seq<char>, upper: bool)
    requires
        digits.len() + 1 == split_on(s, '^').len(),
        forall|i: int| 0 <= i < digits.len() ==> is_hex_char(#[trigger] digits[i], upper),
    ensures
        hex_filled(s, filled(split_on(s, '^'), digits), upper),
    decreases s.len(),
{
    if s.len() > 0 {
        let init = s.drop_last();
        let c = s.last();
        let p = split_on(init, '^');
        lemma_split_nonempty(init, '^');
        if c == '^' {
            let ds = digits.drop_last();
            lemma_filled_pattern(init, ds, upper);
            let q = p.push(Seq::empty());
            assert(q.drop_last() =~= p);
            let out = filled(q, digits);
            let prev = filled(p, ds);
            assert(out =~= prev.push(digits.last()));
            assert(is_hex_char(digits[digits.len() - 1], upper));
            assert forall|i: int| 0 <= i < s.len() implies if s[i] == '^' {
                is_hex_char(#[trigger] out[i], upper)
            } else {
                out[i] == s[i]
            } by {
                if i < init.len() {
                    assert(s[i] == init[i]);
                    assert(out[i] == prev[i]);
                }
            }
        } else {
            lemma_filled_pattern(init, digits, upper);
            lemma_filled_extend_last(p, digits, c);
            let out = filled(split_on(s, '^'), digits);
            let prev = filled(p, digits);
            assert(out == prev.push(c));
            assert forall|i: int| 0 <= i < s.len() implies if s[i] == '^' {
                is_hex_char(#[trigger] out[i], upper)
            } else {
                out[i] == s[i]
            } by {
                if i < init.len() {
                    assert(s[i] == init[i]);
                    assert(out[i] == prev[i]);
                }
            }
        }
    }
}

/// Relies on regex's `Regex::new` with the pattern `\^`, which compiles, and
/// on `Regex::split`: the pieces of the text between its circumflexes, in
/// order, empty ones included (one empty piece for an empty text).
#[verifier::external_body]
fn split_at_carets(s: &str) -> (r: Vec<String>)
    ensures
        views(r@) == split_on(s@, '^'),
{
    regex::Regex::new(r"\^").unwrap().split(s).map(|p| p.to_string()).collect()
}

/// The pattern `pattern` (default `^^^^`) with every `^` replaced by a random
/// hexadecimal digit, upper case when `upper` holds (default lower case).
pub fn hex_pattern(pattern: Option<&str>, upper: Option<bool>) -> (r: String)
    ensures
        hex_filled(
            match pattern {
                Some(p) => p@,
                None => "^^^^"@,
            },
            r@,
            upper.unwrap_or(false),
        ),
{
    let p = match pattern {
        Some(p) => p,
        None => "^^^^",
    };
    let upper = match upper {
        Some(u) => u,
        None => false,
    };
    let pieces = split_at_carets(p);
    let ghost parts = views(pieces@);
    let ghost mut digits = Seq::<char>::empty();
    let mut out: Vec<char> = Vec::new();
    let mut i: usize = 0;
    while i < pieces.len()
        invariant
            i <= pieces@.len(),
            parts == views(pieces@),
            parts == split_on(p@, '^'),
            digits.len() == if i == 0 { 0 } else { i - 1 },
            forall|k: int| 0 <= k < digits.len() ==> is_hex_char(#[trigger] digits[k], upper),
            out@ == filled(parts.subrange(0, i as int), digits),
        decreases pieces@.len() - i,
    {
        let ghost before = parts.subrange(0, i as int);
        let ghost now = parts.subrange(0, i + 1);
        let ghost old_digits = digits;
        let ghost old_out = out@;
        assert(now.drop_last() =~= before);
        assert(now.last() == pieces@[i as int]@);
        if i > 0 {
            let d = random_in(0, 16);
            push_hex_digit(&mut out, d, upper);
            proof {
                assert(is_hex_char(hex_char(d as nat, upper), upper));
                digits = digits.push(hex_char(d as nat, upper));
                assert(digits.drop_last() =~= old_digits);
            }
        }
        let piece = chars_of(pieces[i].as_str());
        push_all(&mut out, &piece);
        proof {
            if i > 0 {
                assert(old_out == filled(before, digits.drop_last()));
                assert(out@ =~= old_out + seq![digits.last()] + now.last());
            } else {
                assert(out@ =~= now[0]);
            }
        }
        i += 1;
    }
    proof {
        assert(parts.subrange(0, parts.len() as int) =~= parts);
        lemma_split_nonempty(p@, '^');
        lemma_filled_pattern(p@, digits, upper);
    }
    string_of(&out)
}

} // verus!

//! Algorithmically generated domain names.

use vstd::prelude::*;
use crate::constants::{all_tld_table, all_tlds};
use crate::random::{pick, random_in};
use crate::text::{chars_of, push_all, string_of};

verus! {

/// `x * k` in 32-bit wrapping arithmetic.
pub open spec fn times(x: u32, k: nat) -> u32 {
    ((x as nat * k) % 0x1_0000_0000) as u32
}

/// One step of the year mixing transform.
pub open spec fn mix_year(y: u32) -> u32 {
    ((y ^ times(y, 8)) >> 11u32) ^ ((y & 0xFFFF_FFF0u32) << 17u32)
}

/// One step of the month mixing transform.
pub open spec fn mix_month(m: u32) -> u32 {
    ((m ^ times(m, 4)) >> 25u32) ^ times(m & 0xFFFF_FFF8u32, 16)
}

/// One step of the day mixing transform.
pub open spec fn mix_day(d: u32) -> u32 {
    ((d ^ (d << 13u32)) >> 19u32) ^ ((d & 0xFFFF_FFFEu32) << 12u32)
}

/// The seed triple after `n` mixing steps.
pub open spec fn seed_after(y: u32, m: u32, d: u32, n: nat) -> (u32, u32, u32)
    decreases n,
{
    if n == 0 {
        (y, m, d)
    } else {
        let s = seed_after(y, m, d, (n - 1) as nat);
        (mix_year(s.0), mix_month(s.1), mix_day(s.2))
    }
}

/// The letter a seed triple stands for: one of `a` to `y`.
pub open spec fn seed_letter(s: (u32, u32, u32)) -> char {
    ((((s.0 ^ s.1 ^ s.2) % 25) + 97) as u8) as char
}

/// The label of `n` letters that the seed triple expands to: letter `i` comes
/// from the seed after `i + 1` mixing steps.
pub open spec fn dga_label(y: u32, m: u32, d: u32, n: nat) -> Seq<char>
    decreases n,
{
    if n == 0 {
        Seq::empty()
    } else {
        dga_label(y, m, d, (n - 1) as nat).push(seed_letter(seed_after(y, m, d, n)))
    }
}

/// The full domain name: the label, one dot, the top-level domain.
pub open spec fn dga_name_spec(y: u32, m: u32, d: u32, n: nat, tld: Seq<char>) -> Seq<char> {
    dga_label(y, m, d, n) + seq!['.'] + tld
}

/// The label that the seed triple expands to has the requested length and
/// holds only the letters `a` to `y`.
pub proof fn lemma_dga_label_shape(y: u32, m: u32, d: u32, n: nat)
    ensures
        dga_label(y, m, d, n).len() == n,
        forall|i: int| 0 <= i < n ==> 'a' <= #[trigger] dga_label(y, m, d, n)[i] <= 'y',
    decreases n,
{
    if n > 0 {
        lemma_dga_label_shape(y, m, d, (n - 1) as nat);
        let s = seed_after(y, m, d, n);
        let x = s.0 ^ s.1 ^ s.2;
        assert(x % 25 < 25);
        assert('a' <= seed_letter(s) <= 'y');
    }
}

/// A generated domain name ends with exactly one dot, right after the label
/// and right before the top-level domain; the label has the requested length
/// and holds only the letters `a` to `y`.
pub proof fn lemma_dga_name_shape(y: u32, m: u32, d: u32, n: nat, tld: Seq<char>)
    ensures
        ({
            let r = dga_name_spec(y, m, d, n, tld);
            &&& r.len() == n + 1 + tld.len()
            &&& r[n as int] == '.'
            &&& r.subrange(n as int + 1, r.len() as int) == tld
            &&& forall|i: int| 0 <= i < n ==> 'a' <= #[trigger] r[i] <= 'y'
        }),
{
    lemma_dga_label_shape(y, m, d, n);
    let r = dga_name_spec(y, m, d, n, tld);
    let label = dga_label(y, m, d, n);
    assert(r.subrange(n as int + 1, r.len() as int) =~= tld);
    assert forall|i: int| 0 <= i < n implies 'a' <= #[trigger] r[i] <= 'y' by {
        assert(r[i] == label[i]);
    }
}

fn mix(y: u32, m: u32, d: u32) -> (r: (u32, u32, u32))
    ensures
        r == (mix_year(y), mix_month(m), mix_day(d)),
{
    let ny = ((y ^ y.wrapping_mul(8)) >> 11u32) ^ ((y & 0xFFFF_FFF0u32) << 17u32);
    let nm = ((m ^ m.wrapping_mul(4)) >> 25u32) ^ (m & 0xFFFF_FFF8u32).wrapping_mul(16);
    let nd = ((d ^ (d << 13u32)) >> 19u32) ^ ((d & 0xFFFF_FFFEu32) << 12u32);
    (ny, nm, nd)
}

/// The domain name that the seed (`year`, `month`, `day`) gives with a label
/// of `length` letters and the top-level domain `tld`.
pub fn dga_name(year: u32, month: u32, day: u32, length: u32, tld: &str) -> (r: String)
    ensures
        r@ == dga_name_spec(year, month, day, length as nat, tld@),
{
    let mut out: Vec<char> = Vec::new();
    let (mut y, mut m, mut d) = (year, month, day);
    let mut i: u32 = 0;
    while i < length
        invariant
            i <= length,
            (y, m, d) == seed_after(year, month, day, i as nat),
            out@ == dga_label(year, month, day, i as nat),
        decreases length - i,
    {
        let s = mix(y, m, d);
        y = s.0;
        m = s.1;
        d = s.2;
        i += 1;
        let code: u32 = ((y ^ m ^ d) % 25) + 97;
        out.push((code as u8) as char);
    }
    out.push('.');
    let t = chars_of(tld);
    push_all(&mut out, &t);
    string_of(&out)
}

/// What a requested seed part may become: the value given, or one within the default bounds.
pub open spec fn defaulted(arg: Option<u32>, lo: u32, hi: u32, v: u32) -> bool {
    match arg {
        Some(x) => v == x,
        None => lo <= v <= hi,
    }
}

/// A domain name from the seed (`year`, `month`, `day`), a label of `length`
/// letters and the top-level domain `tld`. Each part not given is drawn at
/// random: year 1 to 9999, month 1 to 12, day 1 to 30, length 10 to 25, and the
/// top-level domain from the table of all top-level domains.
pub fn dga_domain(
    year: Option<u32>,
    month: Option<u32>,
    day: Option<u32>,
    length: Option<u32>,
    tld: Option<&str>,
) -> (r: String)
    ensures
        exists|y: u32, m: u32, d: u32, n: u32, t: &str|
            #![trigger dga_name_spec(y, m, d, n as nat, t@)]
            defaulted(year, 1, 9999, y) && defaulted(month, 1, 12, m) && defaulted(day, 1, 30, d)
            && defaulted(length, 10, 25, n)
            && (match tld {
                Some(x) => t == x,
                None => all_tld_table().contains(t),
            })
            && r@ == dga_name_spec(y, m, d, n as nat, t@),
{
    let y = match year {
        Some(x) => x,
        None => random_in(1, 10000) as u32,
    };
    let m = match month {
        Some(x) => x,
        None => random_in(1, 13) as u32,
    };
    let d = match day {
        Some(x) => x,
        None => random_in(1, 31) as u32,
    };
    let n = match length {
        Some(x) => x,
        None => random_in(10, 26) as u32,
    };
    let t = match tld {
        Some(x) => x,
        None => {
            let table = all_tlds();
            *pick(&table)
        },
    };
    dga_name(y, m, d, n, t)
}

} // verus!

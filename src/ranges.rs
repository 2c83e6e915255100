//! Address ranges of the two address families, the removal of excluded
//! ranges from a list of candidates, and uniform sampling inside a range.

use vstd::arithmetic::power2::*;
use vstd::prelude::*;
use vstd::seq_lib::lemma_seq_contains_after_push;
use crate::random::random_upto;
use crate::text::{decimal, push_decimal, string_of};

verus! {

/// Number of bits of an address of the family (`v6` for IPv6, else IPv4).
pub open spec fn family_width(v6: bool) -> nat {
    if v6 { 128 } else { 32 }
}

/// A contiguous block of addresses: the `2^(width - prefix)` addresses that
/// start at `base`, the network address of the block.
#[derive(Clone, Copy, Debug, PartialEq, Eq, Structural)]
pub struct AddressRange {
    pub v6: bool,
    pub base: u128,
    pub prefix: u8,
}

impl AddressRange {
    pub open spec fn host_bits(self) -> nat {
        (family_width(self.v6) - self.prefix) as nat
    }

    /// Number of addresses in the block.
    pub open spec fn size(self) -> nat {
        pow2(self.host_bits())
    }

    /// The lowest member (network address).
    pub open spec fn lo(self) -> int {
        self.base as int
    }

    /// The highest member (broadcast address).
    pub open spec fn hi(self) -> int {
        self.base + self.size() - 1
    }

    pub open spec fn contains(self, a: int) -> bool {
        self.lo() <= a <= self.hi()
    }

    /// The prefix fits the family, the base is aligned to the block size and
    /// the block lies inside the address space.
    pub open spec fn wf(self) -> bool {
        &&& self.prefix <= family_width(self.v6)
        &&& self.base as int % self.size() as int == 0
        &&& self.base + self.size() <= pow2(family_width(self.v6))
    }
}

/// The block of the given family and prefix length that holds `ip`.
pub open spec fn block_of(v6: bool, ip: int, prefix: u8) -> AddressRange {
    let size = pow2((family_width(v6) - prefix) as nat) as int;
    AddressRange { v6, base: (ip - ip % size) as u128, prefix }
}

/// `2^128` is one more than the largest `u128`.
pub proof fn lemma_pow2_128()
    ensures
        pow2(128) == u128::MAX + 1,
        pow2(32) == u32::MAX + 1,
{
    lemma2_to64();
    lemma_pow2_adds(64, 64);
}

/// `pow2(e)` for `e <= 128` is at most `2^128`.
pub proof fn lemma_pow2_le_128(e: nat)
    requires
        e <= 128,
    ensures
        pow2(e) <= u128::MAX + 1,
{
    lemma_pow2_128();
    if e < 128 {
        lemma_pow2_strictly_increases(e, 128);
    }
}

/// `2^bits - 1`, the largest offset inside a block with `bits` host bits.
pub fn host_span(bits: u8) -> (s: u128)
    requires
        bits <= 128,
    ensures
        s == pow2(bits as nat) - 1,
{
    let mut s: u128 = 0;
    let mut i: u8 = 0;
    proof {
        lemma2_to64();
    }
    while i < bits
        invariant
            i <= bits <= 128,
            s == pow2(i as nat) - 1,
        decreases bits - i,
    {
        proof {
            lemma_pow2_unfold((i + 1) as nat);
            lemma_pow2_le_128((i + 1) as nat);
        }
        s = s * 2 + 1;
        i = i + 1;
    }
    s
}

/// The block of the given family and prefix length that holds `ip`: its
/// network address is `ip` with the host bits cleared.
pub fn range_holding(v6: bool, ip: u128, prefix: u8) -> (r: AddressRange)
    requires
        prefix <= family_width(v6),
        ip < pow2(family_width(v6)),
    ensures
        r == block_of(v6, ip as int, prefix),
        r.wf(),
        r.contains(ip as int),
{
    let width: u8 = if v6 { 128 } else { 32 };
    let span = host_span(width - prefix);
    let ghost size = pow2((width - prefix) as nat);
    proof {
        lemma_pow2_pos((width - prefix) as nat);
        lemma_pow2_adds((width - prefix) as nat, prefix as nat);
        assert(pow2(family_width(v6)) == size * pow2(prefix as nat));
    }
    let base: u128 = if span == u128::MAX {
        0
    } else {
        let m = span + 1;
        let rem = ip % m;
        assert(rem <= ip) by (nonlinear_arith)
            requires
                rem == ip % m,
                m > 0,
        ;
        ip - rem
    };
    proof {
        lemma_pow2_128();
        let w = pow2(family_width(v6));
        let k = pow2(prefix as nat);
        lemma_pow2_pos(prefix as nat);
        if span == u128::MAX {
            assert(ip as int % size as int == ip) by (nonlinear_arith)
                requires
                    size == u128::MAX + 1,
                    ip <= u128::MAX,
            ;
            assert(size == w) by (nonlinear_arith)
                requires
                    size == u128::MAX + 1,
                    w == size * k,
                    w <= u128::MAX + 1,
                    k >= 1,
            ;
        } else {
            let q = ip as int / size as int;
            assert(base == q * size) by (nonlinear_arith)
                requires
                    base == ip as int - ip as int % size as int,
                    size > 0,
                    q == ip as int / size as int,
            ;
            assert((q * size) % (size as int) == 0) by (nonlinear_arith)
                requires size > 0,
            ;
            assert(q < k) by (nonlinear_arith)
                requires
                    q == ip as int / size as int,
                    ip < w,
                    w == size * k,
                    size > 0,
            ;
            assert(base + size <= w) by (nonlinear_arith)
                requires
                    base == q * size,
                    q < k,
                    w == size * k,
                    size > 0,
            ;
        }
    }
    AddressRange { v6, base, prefix }
}

/// The candidates that are not identical to one of the excluded ranges, in their order.
pub open spec fn kept(candidates: Seq<AddressRange>, excluded: Seq<AddressRange>) -> Seq<AddressRange>
    decreases candidates.len(),
{
    if candidates.len() == 0 {
        Seq::empty()
    } else {
        let rest = kept(candidates.drop_last(), excluded);
        if excluded.contains(candidates.last()) {
            rest
        } else {
            rest.push(candidates.last())
        }
    }
}

/// A range is kept exactly when it is a candidate that no excluded range equals.
pub proof fn lemma_kept_members(candidates: Seq<AddressRange>, excluded: Seq<AddressRange>, x: AddressRange)
    ensures
        kept(candidates, excluded).contains(x) <==> (candidates.contains(x) && !excluded.contains(x)),
    decreases candidates.len(),
{
    if candidates.len() > 0 {
        let init = candidates.drop_last();
        let last = candidates.last();
        let rest = kept(init, excluded);
        lemma_kept_members(init, excluded, x);
        assert(candidates == init.push(last));
        lemma_seq_contains_after_push(init, last, x);
        lemma_seq_contains_after_push(rest, last, x);
    }
}

/// Whether `x` is identical to one of `ranges`.
pub fn is_listed(x: &AddressRange, ranges: &Vec<AddressRange>) -> (r: bool)
    ensures
        r == ranges@.contains(*x),
{
    let mut i: usize = 0;
    while i < ranges.len()
        invariant
            i <= ranges@.len(),
            forall|j: int| 0 <= j < i ==> ranges@[j] != *x,
        decreases ranges@.len() - i,
    {
        if ranges[i] == *x {
            return true;
        }
        i += 1;
    }
    false
}

/// Removes from `candidates` every range identical to one of `excluded`.
/// A candidate that only overlaps an excluded range is kept whole.
pub fn exclude_ranges(candidates: &Vec<AddressRange>, excluded: &Vec<AddressRange>) -> (r: Vec<AddressRange>)
    ensures
        r@ == kept(candidates@, excluded@),
{
    let mut out: Vec<AddressRange> = Vec::new();
    let mut i: usize = 0;
    while i < candidates.len()
        invariant
            i <= candidates@.len(),
            out@ == kept(candidates@.subrange(0, i as int), excluded@),
        decreases candidates@.len() - i,
    {
        let c = candidates[i];
        assert(candidates@.subrange(0, i + 1).drop_last() == candidates@.subrange(0, i as int));
        if !is_listed(&c, excluded) {
            out.push(c);
        }
        i += 1;
    }
    assert(candidates@.subrange(0, candidates@.len() as int) == candidates@);
    out
}

/// Draws an address uniformly from the range.
pub fn sample_within(range: &AddressRange) -> (a: u128)
    requires
        range.wf(),
    ensures
        range.contains(a as int),
        a < pow2(family_width(range.v6)),
{
    let width: u8 = if range.v6 { 128 } else { 32 };
    let span = host_span(width - range.prefix);
    proof {
        lemma_pow2_le_128(family_width(range.v6));
    }
    let offset = random_upto(span);
    range.base + offset
}

/// The dotted-quad text of an IPv4 address.
pub open spec fn ipv4_text(a: nat) -> Seq<char> {
    decimal(a / 0x1000000) + seq!['.'] + decimal((a / 0x10000) % 256) + seq!['.']
        + decimal((a / 0x100) % 256) + seq!['.'] + decimal(a % 256)
}

/// The text that std's `Display` gives the IPv6 address `a`.
pub uninterp spec fn ipv6_text(a: u128) -> Seq<char>;

/// The text of an address of the family.
pub open spec fn address_text(v6: bool, a: u128) -> Seq<char> {
    if v6 { ipv6_text(a) } else { ipv4_text(a as nat) }
}

/// Relies on ipnetwork's `Ipv6Network::new` with a full-length prefix, which
/// holds the address unchanged, and on std's `Display` of the address it returns.
#[verifier::external_body]
fn format_ipv6(a: u128) -> (r: String)
    ensures
        r@ == ipv6_text(a),
{
    ipnetwork::Ipv6Network::new(a.into(), 128).map(|n| n.ip().to_string()).unwrap_or_default()
}

/// The usual text of an address: dotted quad for IPv4, std's form for IPv6.
pub fn format_address(v6: bool, a: u128) -> (r: String)
    requires
        !v6 ==> a <= u32::MAX,
    ensures
        r@ == address_text(v6, a),
{
    if v6 {
        format_ipv6(a)
    } else {
        let mut out: Vec<char> = Vec::new();
        push_decimal(&mut out, (a / 0x1000000) as u64);
        out.push('.');
        push_decimal(&mut out, ((a / 0x10000) % 256) as u64);
        out.push('.');
        push_decimal(&mut out, ((a / 0x100) % 256) as u64);
        out.push('.');
        push_decimal(&mut out, (a % 256) as u64);
        string_of(&out)
    }
}

/// The CIDR literal `a/p` of an IPv4 address: dotted quad, slash, decimal prefix length.
pub open spec fn cidr4_text(a: u32, p: u8) -> Seq<char> {
    ipv4_text(a as nat) + seq!['/'] + decimal(p as nat)
}

/// The address and prefix length that ipnetwork reads from an IPv4 CIDR literal, if any.
pub uninterp spec fn ipv4_cidr(s: Seq<char>) -> Option<(u32, u8)>;

/// The address and prefix length that ipnetwork reads from an IPv6 CIDR literal, if any.
pub uninterp spec fn ipv6_cidr(s: Seq<char>) -> Option<(u128, u8)>;

/// Relies on ipnetwork's `Ipv4Network::from_str`: the address and prefix of a
/// CIDR literal (a missing prefix reads as 32; a larger one is refused). It
/// splits at the one slash, reads the address with std's dotted-quad parser and
/// the prefix as a decimal `u8`, so a literal written as `cidr4_text(a, p)`
/// reads back as `(a, p)`.
#[verifier::external_body]
fn parse_ipv4_cidr(s: &str) -> (r: Option<(u32, u8)>)
    ensures
        r == ipv4_cidr(s@),
        r matches Some(p) ==> p.1 <= 32,
        forall|a: u32, p: u8| #![trigger cidr4_text(a, p)] p <= 32 && s@ == cidr4_text(a, p) ==> r == Some((a, p)),
{
    s.parse::<ipnetwork::Ipv4Network>().ok().map(|n| (u32::from(n.ip()), n.prefix()))
}

/// Relies on ipnetwork's `Ipv6Network::from_str`: the address and prefix of a
/// CIDR literal (a missing prefix reads as 128; a larger one is refused).
#[verifier::external_body]
fn parse_ipv6_cidr(s: &str) -> (r: Option<(u128, u8)>)
    ensures
        r == ipv6_cidr(s@),
        r matches Some(p) ==> p.1 <= 128,
{
    s.parse::<ipnetwork::Ipv6Network>().ok().map(|n| (u128::from(n.ip()), n.prefix()))
}

/// The block that a CIDR literal of the family names, if the literal parses.
pub open spec fn cidr_range_spec(v6: bool, s: Seq<char>) -> Option<(u128, u8)> {
    if v6 {
        ipv6_cidr(s)
    } else {
        match ipv4_cidr(s) {
            Some(p) => Some((p.0 as u128, p.1)),
            None => None,
        }
    }
}

/// Parses a CIDR literal of the family into the block it denotes.
pub fn parse_cidr(v6: bool, s: &str) -> (r: Option<AddressRange>)
    ensures
        r is None <==> cidr_range_spec(v6, s@) is None,
        r matches Some(range) ==> {
            let p = cidr_range_spec(v6, s@)->0;
            &&& range == block_of(v6, p.0 as int, p.1)
            &&& range.wf()
            &&& range.contains(p.0 as int)
        },
        forall|a: u32, p: u8|
            #![trigger cidr4_text(a, p)]
            !v6 && p <= 32 && s@ == cidr4_text(a, p) ==> r == Some(block_of(false, a as int, p)),
{
    proof {
        lemma_pow2_128();
    }
    if v6 {
        match parse_ipv6_cidr(s) {
            Some(p) => Some(range_holding(true, p.0, p.1)),
            None => None,
        }
    } else {
        match parse_ipv4_cidr(s) {
            Some(p) => Some(range_holding(false, p.0 as u128, p.1)),
            None => None,
        }
    }
}

} // verus!

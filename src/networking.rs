//! Constrained generation of network values: public and private IPv4/IPv6
//! addresses drawn from policy tables or from a caller's subnet, port
//! numbers, MAC addresses and fully qualified domain names.

use vstd::arithmetic::power2::*;
use vstd::prelude::*;
use crate::constants::{location_table, locations, tld_table, tlds};
use crate::random::{pick, random_in};
use crate::text::{
    chars_of, lemma_split_grows, lemma_split_nonempty, lemma_split_sep, push_all, split_on, split_text,
    string_of, views,
};
use crate::utils::{hex_filled, hex_pattern};
use crate::ranges::{
    family_width, address_text, cidr4_text, block_of, cidr_range_spec, exclude_ranges, format_address, kept, lemma_pow2_128,
    lemma_kept_members, parse_cidr, sample_within, AddressRange,
};

verus! {

pub open spec fn v4(base: u128, prefix: u8) -> AddressRange {
    AddressRange { v6: false, base, prefix }
}

pub open spec fn v6(base: u128, prefix: u8) -> AddressRange {
    AddressRange { v6: true, base, prefix }
}

/// The IPv4 address classes: `a` is 0.0.0.0/1, `b` 128.0.0.0/2, any other 192.0.0.0/3.
pub open spec fn class_range(class: char) -> AddressRange {
    if class == 'a' {
        v4(0x0000_0000, 1)
    } else if class == 'b' {
        v4(0x8000_0000, 2)
    } else {
        v4(0xC000_0000, 3)
    }
}

/// The private networks of a family: for IPv4 10.0.0.0/8, 172.16.0.0/12 and
/// 192.168.0.0/16; for IPv6 the unique local blocks fc00::/7, fc00::/8, fd00::/8.
pub open spec fn private_table(is_v6: bool) -> Seq<AddressRange> {
    if is_v6 {
        seq![
            v6(0xfc00_0000_0000_0000_0000_0000_0000_0000, 7),
            v6(0xfc00_0000_0000_0000_0000_0000_0000_0000, 8),
            v6(0xfd00_0000_0000_0000_0000_0000_0000_0000, 8),
        ]
    } else {
        seq![v4(0x0A00_0000, 8), v4(0xAC10_0000, 12), v4(0xC0A8_0000, 16)]
    }
}

/// The reserved and special-use networks of a family, from which no address is
/// drawn when they are listed as candidates.
pub open spec fn excluded_table(is_v6: bool) -> Seq<AddressRange> {
    if is_v6 {
        seq![
            v6(0, 128),
            v6(1, 128),
            v6(0xfe80_0000_0000_0000_0000_0000_0000_0000, 10),
            v6(0xff00_0000_0000_0000_0000_0000_0000_0000, 8),
            v6(0x2001_0db8_0000_0000_0000_0000_0000_0000, 32),
            v6(0x2002_0000_0000_0000_0000_0000_0000_0000, 16),
            v6(0x2000_0000_0000_0000_0000_0000_0000_0000, 3),
        ]
    } else {
        seq![
            v4(0x0000_0000, 8),
            v4(0x6440_0000, 10),
            v4(0x7F00_0000, 8),
            v4(0xA9FE_0000, 16),
            v4(0xC000_0000, 24),
            v4(0xC000_0200, 24),
            v4(0xC01F_C400, 24),
            v4(0xC034_C100, 24),
            v4(0xC058_6300, 24),
            v4(0xC0AF_3000, 24),
            v4(0xC612_0000, 15),
            v4(0xC633_6400, 24),
            v4(0xCB00_7100, 24),
            v4(0xE000_0000, 4),
            v4(0xF000_0000, 4),
            v4(0xFFFF_FFFF, 32),
        ]
    }
}

/// The IPv6 global unicast networks that public addresses come from.
pub open spec fn v6_public_table() -> Seq<AddressRange> {
    seq![
        v6(0x2001_0000_0000_0000_0000_0000_0000_0000, 16),
        v6(0x2001_0000_0000_0000_0000_0000_0000_0000, 32),
        v6(0x2001_0000_0000_0000_0000_0000_0000_0000, 48),
        v6(0x2001_0000_0000_0000_0000_0000_0000_0000, 56),
        v6(0x2001_0000_0000_0000_0000_0000_0000_0000, 64),
    ]
}

/// The ranges that survive exclusion and an address is drawn from.
pub open spec fn candidates(is_v6: bool, class: char, private: bool) -> Seq<AddressRange> {
    if private {
        kept(private_table(is_v6), excluded_table(is_v6))
    } else if is_v6 {
        kept(v6_public_table(), excluded_table(true))
    } else {
        kept(seq![class_range(class)], private_table(false) + excluded_table(false))
    }
}

pub open spec fn is_class(c: char) -> bool {
    c == 'a' || c == 'b' || c == 'c'
}

/// Why no address could be produced.
#[derive(Clone, Copy, Debug, PartialEq, Eq, Structural)]
pub enum AddressError {
    /// The version is neither 4 nor 6.
    UnknownVersion,
    /// The subnet is not a CIDR literal of the requested version.
    BadSubnet,
    /// No candidate range survived exclusion.
    NoCandidates,
}

/// `t` is the text of some address inside one of `ranges`.
pub open spec fn drawn_from(ranges: Seq<AddressRange>, is_v6: bool, t: Seq<char>) -> bool {
    exists|i: int, a: u128|
        0 <= i < ranges.len() && #[trigger] ranges[i].contains(a as int) && t == address_text(is_v6, a)
}

/// What generating an address may give for version `v`, class `class`, the
/// private flag and a non-empty subnet literal, if one was supplied.
pub open spec fn address_outcome(
    v: u32,
    class: char,
    private: bool,
    subnet: Option<Seq<char>>,
    r: Result<String, AddressError>,
) -> bool {
    let is_v6 = v == 6;
    if v != 4 && v != 6 {
        r == Err::<String, AddressError>(AddressError::UnknownVersion)
    } else if subnet is Some {
        match cidr_range_spec(is_v6, subnet->0) {
            None => r == Err::<String, AddressError>(AddressError::BadSubnet),
            Some(p) => r is Ok && drawn_from(seq![block_of(is_v6, p.0 as int, p.1)], is_v6, r->Ok_0@),
        }
    } else {
        exists|c: char|
            is_class(c) && (is_class(class) ==> c == class) && {
                let cands = #[trigger] candidates(is_v6, c, private);
                if cands.len() == 0 {
                    r == Err::<String, AddressError>(AddressError::NoCandidates)
                } else {
                    r is Ok && drawn_from(cands, is_v6, r->Ok_0@)
                }
            }
    }
}

fn class_ranges(class: char) -> (r: AddressRange)
    ensures
        r == class_range(class),
{
    if class == 'a' {
        AddressRange { v6: false, base: 0x0000_0000, prefix: 1 }
    } else if class == 'b' {
        AddressRange { v6: false, base: 0x8000_0000, prefix: 2 }
    } else {
        AddressRange { v6: false, base: 0xC000_0000, prefix: 3 }
    }
}

fn private_ranges(is_v6: bool) -> (r: Vec<AddressRange>)
    ensures
        r@ == private_table(is_v6),
{
    if is_v6 {
        vec![
            AddressRange { v6: true, base: 0xfc00_0000_0000_0000_0000_0000_0000_0000, prefix: 7 },
            AddressRange { v6: true, base: 0xfc00_0000_0000_0000_0000_0000_0000_0000, prefix: 8 },
            AddressRange { v6: true, base: 0xfd00_0000_0000_0000_0000_0000_0000_0000, prefix: 8 },
        ]
    } else {
        vec![
            AddressRange { v6: false, base: 0x0A00_0000, prefix: 8 },
            AddressRange { v6: false, base: 0xAC10_0000, prefix: 12 },
            AddressRange { v6: false, base: 0xC0A8_0000, prefix: 16 },
        ]
    }
}

fn excluded_ranges(is_v6: bool) -> (r: Vec<AddressRange>)
    ensures
        r@ == excluded_table(is_v6),
{
    if is_v6 {
        vec![
            AddressRange { v6: true, base: 0, prefix: 128 },
            AddressRange { v6: true, base: 1, prefix: 128 },
            AddressRange { v6: true, base: 0xfe80_0000_0000_0000_0000_0000_0000_0000, prefix: 10 },
            AddressRange { v6: true, base: 0xff00_0000_0000_0000_0000_0000_0000_0000, prefix: 8 },
            AddressRange { v6: true, base: 0x2001_0db8_0000_0000_0000_0000_0000_0000, prefix: 32 },
            AddressRange { v6: true, base: 0x2002_0000_0000_0000_0000_0000_0000_0000, prefix: 16 },
            AddressRange { v6: true, base: 0x2000_0000_0000_0000_0000_0000_0000_0000, prefix: 3 },
        ]
    } else {
        vec![
            AddressRange { v6: false, base: 0x0000_0000, prefix: 8 },
            AddressRange { v6: false, base: 0x6440_0000, prefix: 10 },
            AddressRange { v6: false, base: 0x7F00_0000, prefix: 8 },
            AddressRange { v6: false, base: 0xA9FE_0000, prefix: 16 },
            AddressRange { v6: false, base: 0xC000_0000, prefix: 24 },
            AddressRange { v6: false, base: 0xC000_0200, prefix: 24 },
            AddressRange { v6: false, base: 0xC01F_C400, prefix: 24 },
            AddressRange { v6: false, base: 0xC034_C100, prefix: 24 },
            AddressRange { v6: false, base: 0xC058_6300, prefix: 24 },
            AddressRange { v6: false, base: 0xC0AF_3000, prefix: 24 },
            AddressRange { v6: false, base: 0xC612_0000, prefix: 15 },
            AddressRange { v6: false, base: 0xC633_6400, prefix: 24 },
            AddressRange { v6: false, base: 0xCB00_7100, prefix: 24 },
            AddressRange { v6: false, base: 0xE000_0000, prefix: 4 },
            AddressRange { v6: false, base: 0xF000_0000, prefix: 4 },
            AddressRange { v6: false, base: 0xFFFF_FFFF, prefix: 32 },
        ]
    }
}

fn v6_public_ranges() -> (r: Vec<AddressRange>)
    ensures
        r@ == v6_public_table(),
{
    vec![
        AddressRange { v6: true, base: 0x2001_0000_0000_0000_0000_0000_0000_0000, prefix: 16 },
        AddressRange { v6: true, base: 0x2001_0000_0000_0000_0000_0000_0000_0000, prefix: 32 },
        AddressRange { v6: true, base: 0x2001_0000_0000_0000_0000_0000_0000_0000, prefix: 48 },
        AddressRange { v6: true, base: 0x2001_0000_0000_0000_0000_0000_0000_0000, prefix: 56 },
        AddressRange { v6: true, base: 0x2001_0000_0000_0000_0000_0000_0000_0000, prefix: 64 },
    ]
}

/// The powers of two that the tables' block sizes need.
proof fn lemma_table_sizes()
    ensures
        pow2(0) == 1,
        pow2(8) == 0x100,
        pow2(16) == 0x1_0000,
        pow2(20) == 0x10_0000,
        pow2(22) == 0x40_0000,
        pow2(24) == 0x100_0000,
        pow2(17) == 0x2_0000,
        pow2(28) == 0x1000_0000,
        pow2(29) == 0x2000_0000,
        pow2(30) == 0x4000_0000,
        pow2(31) == 0x8000_0000,
        pow2(32) == 0x1_0000_0000,
        pow2(64) == 0x1_0000_0000_0000_0000,
        pow2(72) == 0x100_0000_0000_0000_0000,
        pow2(80) == 0x1_0000_0000_0000_0000_0000,
        pow2(96) == 0x1_0000_0000_0000_0000_0000_0000,
        pow2(112) == 0x1_0000_0000_0000_0000_0000_0000_0000,
        pow2(118) == 0x40_0000_0000_0000_0000_0000_0000_0000,
        pow2(120) == 0x100_0000_0000_0000_0000_0000_0000_0000,
        pow2(121) == 0x200_0000_0000_0000_0000_0000_0000_0000,
        pow2(125) == 0x2000_0000_0000_0000_0000_0000_0000_0000,
        pow2(128) == 0x1_0000_0000_0000_0000_0000_0000_0000_0000,
{
    lemma2_to64();
    lemma_pow2_adds(64, 8);
    lemma_pow2_adds(64, 16);
    lemma_pow2_adds(64, 32);
    lemma_pow2_adds(64, 48);
    lemma_pow2_adds(64, 54);
    lemma_pow2_adds(64, 56);
    lemma_pow2_adds(64, 57);
    lemma_pow2_adds(64, 61);
    lemma_pow2_adds(64, 64);
    lemma2_to64_rest();
}

/// A block whose base is the `k`-th multiple of its size, and which ends
/// inside the address space, is well formed.
proof fn lemma_block_wf(r: AddressRange, k: nat)
    requires
        r.prefix <= family_width(r.v6),
        r.base == k * r.size(),
        k * r.size() + r.size() <= pow2(family_width(r.v6)),
    ensures
        r.wf(),
{
    let size = r.size() as int;
    assert(size > 0) by { lemma_pow2_pos(r.host_bits()); }
    assert((k * size) % size == 0) by (nonlinear_arith)
        requires size > 0,
    ;
}

/// Every range that an address may be drawn from is well formed.
proof fn lemma_sources_wf(is_v6: bool, class: char)
    ensures
        forall|i: int| 0 <= i < private_table(is_v6).len() ==> (#[trigger] private_table(is_v6)[i]).wf(),
        forall|i: int| 0 <= i < v6_public_table().len() ==> (#[trigger] v6_public_table()[i]).wf(),
        class_range(class).wf(),
{
    lemma_table_sizes();
    lemma_block_wf(v4(0x0000_0000, 1), 0);
    lemma_block_wf(v4(0x8000_0000, 2), 2);
    lemma_block_wf(v4(0xC000_0000, 3), 6);
    let p = private_table(is_v6);
    if is_v6 {
        lemma_block_wf(p[0], 126);
        lemma_block_wf(p[1], 252);
        lemma_block_wf(p[2], 253);
    } else {
        lemma_block_wf(p[0], 10);
        lemma_block_wf(p[1], 0xAC1);
        lemma_block_wf(p[2], 0xC0A8);
    }
    assert forall|i: int| 0 <= i < p.len() implies (#[trigger] p[i]).wf() by {
        assert(i == 0 || i == 1 || i == 2);
    }
    let q = v6_public_table();
    lemma_block_wf(q[0], 0x2001);
    lemma_block_wf(q[1], 0x2001_0000);
    lemma_block_wf(q[2], 0x2001_0000_0000);
    lemma_block_wf(q[3], 0x20_0100_0000_0000);
    lemma_block_wf(q[4], 0x2001_0000_0000_0000);
    assert forall|i: int| 0 <= i < q.len() implies (#[trigger] q[i]).wf() by {
        assert(i == 0 || i == 1 || i == 2 || i == 3 || i == 4);
    }
}

/// An address drawn from the CIDR block `subnet_str` of IP version `version`;
/// `None` when the literal is empty or not a CIDR literal of that version, or
/// the version is neither 4 nor 6.
pub fn ip_from_subnet(subnet_str: &str, version: u8) -> (r: Option<String>)
    ensures
        r is None <==> (subnet_str@.len() == 0 || (version != 4 && version != 6)
            || cidr_range_spec(version == 6, subnet_str@) is None),
        r matches Some(t) ==> {
            let p = cidr_range_spec(version == 6, subnet_str@)->0;
            drawn_from(seq![block_of(version == 6, p.0 as int, p.1)], version == 6, t@)
        },
        forall|a: u32, p: u8|
            #![trigger cidr4_text(a, p)]
            version == 4 && p <= 32 && subnet_str@ == cidr4_text(a, p) ==> r is Some
                && drawn_from(seq![block_of(false, a as int, p)], false, r->0@),
{
    if subnet_str.is_empty() || (version != 4 && version != 6) {
        return None;
    }
    let is_v6 = version == 6;
    match parse_cidr(is_v6, subnet_str) {
        None => None,
        Some(block) => {
            let a = sample_within(&block);
            proof {
                lemma_pow2_128();
            }
            let t = format_address(is_v6, a);
            assert(seq![block][0] == block);
            Some(t)
        },
    }
}

/// Generates one address of version `version` (default 4). With a non-empty
/// `from_subnet` the address is drawn from that CIDR block; otherwise from the
/// policy tables: the private networks when `is_private_ip` holds, else the
/// class range (IPv4; `address_class` `a`, `b` or `c`, any other value picks
/// one of them at random) or the global unicast networks (IPv6), after the
/// removal of ranges identical to reserved or private ones.
pub fn ip_address(
    version: Option<u32>,
    address_class: Option<char>,
    is_private_ip: Option<bool>,
    from_subnet: Option<String>,
) -> (r: Result<String, AddressError>)
    ensures
        address_outcome(
            version.unwrap_or(4),
            address_class.unwrap_or('r'),
            is_private_ip.unwrap_or(false),
            subnet_arg(from_subnet),
            r,
        ),
        forall|a: u32, p: u8|
            #![trigger cidr4_text(a, p)]
            version.unwrap_or(4) == 4 && p <= 32 && subnet_arg(from_subnet) == Some(cidr4_text(a, p)) ==> r is Ok
                && drawn_from(seq![block_of(false, a as int, p)], false, r->Ok_0@),
{
    let version = match version {
        Some(v) => v,
        None => 4,
    };
    let requested = match address_class {
        Some(c) => c,
        None => 'r',
    };
    let private = match is_private_ip {
        Some(p) => p,
        None => false,
    };
    if version != 4 && version != 6 {
        return Err(AddressError::UnknownVersion);
    }
    let is_v6 = version == 6;
    if let Some(s) = &from_subnet {
        if !s.as_str().is_empty() {
            return match ip_from_subnet(s.as_str(), if is_v6 { 6 } else { 4 }) {
                None => Err(AddressError::BadSubnet),
                Some(t) => Ok(t),
            };
        }
    }
    let class = if requested == 'a' || requested == 'b' || requested == 'c' {
        requested
    } else {
        let classes: Vec<char> = vec!['a', 'b', 'c'];
        let c = *pick(&classes);
        assert(classes@ == seq!['a', 'b', 'c']);
        c
    };
    let excluded = excluded_ranges(is_v6);
    let cands = if private {
        exclude_ranges(&private_ranges(is_v6), &excluded)
    } else if is_v6 {
        exclude_ranges(&v6_public_ranges(), &excluded)
    } else {
        let mut special = private_ranges(false);
        let mut reserved = excluded;
        special.append(&mut reserved);
        let single = vec![class_ranges(class)];
        assert(single@ == seq![class_range(class)]);
        assert(special@ == private_table(false) + excluded_table(false));
        exclude_ranges(&single, &special)
    };
    assert(cands@ == candidates(is_v6, class, private));
    if cands.len() == 0 {
        return Err(AddressError::NoCandidates);
    }
    let range = *pick(&cands);
    let ghost i = choose|i: int| 0 <= i < cands@.len() && cands@[i] == range;
    proof {
        lemma_sources_wf(is_v6, class);
        if private {
            lemma_kept_members(private_table(is_v6), excluded_table(is_v6), range);
            assert(cands@.contains(range));
            let j = choose|j: int| 0 <= j < private_table(is_v6).len() && private_table(is_v6)[j] == range;
        } else if is_v6 {
            lemma_kept_members(v6_public_table(), excluded_table(true), range);
            assert(cands@.contains(range));
            let j = choose|j: int| 0 <= j < v6_public_table().len() && v6_public_table()[j] == range;
        } else {
            lemma_kept_members(seq![class_range(class)], private_table(false) + excluded_table(false), range);
            assert(cands@.contains(range));
            assert(seq![class_range(class)][0] == class_range(class));
        }
    }
    let a = sample_within(&range);
    proof {
        lemma_pow2_128();
    }
    let t = format_address(is_v6, a);
    assert(is_class(class) && (is_class(requested) ==> class == requested));
    assert(candidates(is_v6, class, private)[i].contains(a as int));
    Ok(t)
}

/// An address inside one of the private networks of its family lies inside
/// none of the reserved networks of that family.
pub proof fn lemma_private_avoids_excluded(is_v6: bool, a: int)
    requires
        exists|i: int| 0 <= i < private_table(is_v6).len() && (#[trigger] private_table(is_v6)[i]).contains(a),
    ensures
        forall|j: int| 0 <= j < excluded_table(is_v6).len() ==> !(#[trigger] excluded_table(is_v6)[j]).contains(a),
{
    lemma_table_sizes();
    let p = private_table(is_v6);
    let e = excluded_table(is_v6);
    let i = choose|i: int| 0 <= i < p.len() && (#[trigger] p[i]).contains(a);
    if is_v6 {
        assert(0xfc00_0000_0000_0000_0000_0000_0000_0000 <= a < 0xfe00_0000_0000_0000_0000_0000_0000_0000) by {
            assert(i == 0 || i == 1 || i == 2);
        }
        assert forall|j: int| 0 <= j < e.len() implies !(#[trigger] e[j]).contains(a) by {
            assert(j == 0 || j == 1 || j == 2 || j == 3 || j == 4 || j == 5 || j == 6);
        }
    } else {
        assert((0x0A00_0000 <= a < 0x0B00_0000) || (0xAC10_0000 <= a < 0xAC20_0000)
            || (0xC0A8_0000 <= a < 0xC0A9_0000)) by {
            assert(i == 0 || i == 1 || i == 2);
        }
        assert forall|j: int| 0 <= j < e.len() implies !(#[trigger] e[j]).contains(a) by {
            assert(0 <= j < 16);
            if j < 8 {
                assert(j == 0 || j == 1 || j == 2 || j == 3 || j == 4 || j == 5 || j == 6 || j == 7);
            } else {
                assert(j == 8 || j == 9 || j == 10 || j == 11 || j == 12 || j == 13 || j == 14 || j == 15);
            }
        }
    }
}

/// Every private address that `ip_address` may return is the text of an
/// address that lies inside one of the listed private networks of its family
/// and inside none of the listed reserved networks.
pub proof fn lemma_private_addresses(is_v6: bool, class: char, t: Seq<char>)
    requires
        drawn_from(candidates(is_v6, class, true), is_v6, t),
    ensures
        exists|a: u128|
            #![trigger address_text(is_v6, a)]
            t == address_text(is_v6, a)
            && (exists|i: int| 0 <= i < private_table(is_v6).len() && (#[trigger] private_table(is_v6)[i]).contains(a as int))
            && (forall|j: int| 0 <= j < excluded_table(is_v6).len() ==> !(#[trigger] excluded_table(is_v6)[j]).contains(a as int)),
{
    let cands = candidates(is_v6, class, true);
    let (i, a) = choose|i: int, a: u128|
        0 <= i < cands.len() && #[trigger] cands[i].contains(a as int) && t == address_text(is_v6, a);
    let range = cands[i];
    assert(cands.contains(range));
    lemma_kept_members(private_table(is_v6), excluded_table(is_v6), range);
    let k = choose|k: int| 0 <= k < private_table(is_v6).len() && private_table(is_v6)[k] == range;
    assert(private_table(is_v6)[k].contains(a as int));
    lemma_private_avoids_excluded(is_v6, a as int);
}

/// The policy tables always leave a candidate range for a valid class.
pub proof fn lemma_candidates_nonempty(is_v6: bool, class: char, private: bool)
    requires
        is_class(class),
    ensures
        candidates(is_v6, class, private).len() > 0,
{
    let e = excluded_table(is_v6);
    if private || is_v6 {
        let src = if private { private_table(is_v6) } else { v6_public_table() };
        let x = src[src.len() - 1];
        assert forall|j: int| 0 <= j < e.len() implies e[j] != x by {
            if is_v6 {
                assert(j == 0 || j == 1 || j == 2 || j == 3 || j == 4 || j == 5 || j == 6);
            } else if j < 8 {
                assert(j == 0 || j == 1 || j == 2 || j == 3 || j == 4 || j == 5 || j == 6 || j == 7);
            } else {
                assert(j == 8 || j == 9 || j == 10 || j == 11 || j == 12 || j == 13 || j == 14 || j == 15);
            }
        }
        assert(src.contains(x));
        lemma_kept_members(src, e, x);
    } else {
        let x = class_range(class);
        let special = private_table(false) + e;
        assert forall|j: int| 0 <= j < special.len() implies special[j] != x by {
            if j < 3 {
                assert(j == 0 || j == 1 || j == 2);
            } else if j < 11 {
                assert(special[j] == e[j - 3]);
                assert(j == 3 || j == 4 || j == 5 || j == 6 || j == 7 || j == 8 || j == 9 || j == 10);
            } else {
                assert(special[j] == e[j - 3]);
                assert(j == 11 || j == 12 || j == 13 || j == 14 || j == 15 || j == 16 || j == 17 || j == 18);
            }
        }
        assert(seq![x][0] == x);
        assert(seq![x].contains(x));
        lemma_kept_members(seq![x], special, x);
    }
}

/// The non-empty subnet literal among the arguments, if any.
pub open spec fn subnet_arg(from_subnet: Option<String>) -> Option<Seq<char>> {
    match from_subnet {
        Some(s) => if s@.len() > 0 { Some(s@) } else { None },
        None => None,
    }
}

/// A public address of version `version` (default 4) and class `address_class`
/// (IPv4 only; `a`, `b` or `c`, any other value picks one at random), or an
/// address from `from_subnet` when that is a non-empty CIDR literal.
pub fn public_ip(
    version: Option<u32>,
    address_class: Option<char>,
    from_subnet: Option<String>,
) -> (r: Result<String, AddressError>)
    ensures
        address_outcome(version.unwrap_or(4), address_class.unwrap_or('r'), false, subnet_arg(from_subnet), r),
        (version.unwrap_or(4) == 4 || version.unwrap_or(4) == 6) && subnet_arg(from_subnet) is None ==> r is Ok,
        forall|a: u32, p: u8|
            #![trigger cidr4_text(a, p)]
            version.unwrap_or(4) == 4 && p <= 32 && subnet_arg(from_subnet) == Some(cidr4_text(a, p)) ==> r is Ok
                && drawn_from(seq![block_of(false, a as int, p)], false, r->Ok_0@),
{
    let v = match version {
        Some(v) => v,
        None => 4,
    };
    let class = match address_class {
        Some(c) => c,
        None => 'r',
    };
    let r = ip_address(Some(v), Some(class), None, from_subnet);
    proof {
        lemma_candidates_nonempty(v == 6, 'a', false);
        lemma_candidates_nonempty(v == 6, 'b', false);
        lemma_candidates_nonempty(v == 6, 'c', false);
    }
    r
}

/// A private address of version `version` (default 4), or an address from
/// `from_subnet` when that is a non-empty CIDR literal.
pub fn private_ip(
    version: Option<u32>,
    address_class: Option<char>,
    from_subnet: Option<String>,
) -> (r: Result<String, AddressError>)
    ensures
        address_outcome(version.unwrap_or(4), address_class.unwrap_or('r'), true, subnet_arg(from_subnet), r),
        (version.unwrap_or(4) == 4 || version.unwrap_or(4) == 6) && subnet_arg(from_subnet) is None ==> r is Ok,
        forall|a: u32, p: u8|
            #![trigger cidr4_text(a, p)]
            version.unwrap_or(4) == 4 && p <= 32 && subnet_arg(from_subnet) == Some(cidr4_text(a, p)) ==> r is Ok
                && drawn_from(seq![block_of(false, a as int, p)], false, r->Ok_0@),
{
    let r = ip_address(version, address_class, Some(true), from_subnet);
    proof {
        let v6 = version.unwrap_or(4) == 6;
        lemma_candidates_nonempty(v6, 'a', true);
        lemma_candidates_nonempty(v6, 'b', true);
        lemma_candidates_nonempty(v6, 'c', true);
    }
    r
}

/// A random port number: a system port in `[0, 1023)` when `is_system`
/// holds, else a user port in `[1024, 49151)` when `is_user` holds, else a
/// dynamic port in `[49152, 65535)` when `is_dynamic` holds, else any in `[0, 65535)`.
pub fn port_number(is_system: Option<bool>, is_user: Option<bool>, is_dynamic: Option<bool>) -> (r: u32)
    ensures
        if is_system.unwrap_or(false) {
            r < 1023
        } else if is_user.unwrap_or(false) {
            1024 <= r < 49151
        } else if is_dynamic.unwrap_or(false) {
            49152 <= r < 65535
        } else {
            r < 65535
        },
{
    let system = match is_system { Some(b) => b, None => false };
    let user = match is_user { Some(b) => b, None => false };
    let dynamic = match is_dynamic { Some(b) => b, None => false };
    if system {
        random_in(0, 1023) as u32
    } else if user {
        random_in(1024, 49151) as u32
    } else if dynamic {
        random_in(49152, 65535) as u32
    } else {
        random_in(0, 65535) as u32
    }
}

/// A random MAC address `hh:hh:hh:hh:hh:hh`, in upper case when `upper_case`
/// holds (default lower case). The organisationally unique identifier `oui`
/// is accepted and has no effect.
pub fn mac_address(upper_case: Option<bool>, oui: Option<String>) -> (r: String)
    ensures
        hex_filled("^^:^^:^^:^^:^^:^^"@, r@, upper_case.unwrap_or(false)),
{
    hex_pattern(Some("^^:^^:^^:^^:^^:^^"), upper_case)
}

/// The parts of a fully qualified domain name `sub_domain.domain.tld`.
#[derive(Debug)]
pub struct FQDN {
    pub domain: String,
    pub sub_domain: String,
    pub tld: String,
    pub fqdn: String,
}

/// A fully qualified domain name for `company_name`: a site name from the
/// table, the company name and a top-level domain from the table, joined with
/// dots; its first three dot-separated pieces are the sub-domain, the domain
/// and the top-level domain. `None` for an empty company name.
pub fn fqdn(company_name: &str) -> (r: Option<FQDN>)
    ensures
        r is None <==> company_name@.len() == 0,
        r matches Some(f) ==> exists|loc: &'static str, tld: &'static str|
            #![trigger location_table().contains(loc), tld_table().contains(tld)]
            location_table().contains(loc) && tld_table().contains(tld) && {
                let full = loc@ + seq!['.'] + company_name@ + seq!['.'] + tld@;
                let parts = split_on(full, '.');
                &&& f.fqdn@ == full
                &&& f.sub_domain@ == parts[0]
                &&& f.domain@ == parts[1]
                &&& f.tld@ == parts[2]
            },
{
    if company_name.is_empty() {
        return None;
    }
    let loc = *pick(&locations());
    let tld = *pick(&tlds());
    let mut full = chars_of(loc);
    full.push('.');
    let c = chars_of(company_name);
    push_all(&mut full, &c);
    full.push('.');
    let t = chars_of(tld);
    push_all(&mut full, &t);
    let text = string_of(&full);
    let parts = split_text(text.as_str(), '.');
    proof {
        let a = loc@ + seq!['.'];
        let b = a + company_name@ + seq!['.'];
        lemma_split_nonempty(loc@, '.');
        lemma_split_sep(loc@, '.');
        assert(loc@.push('.') =~= a);
        lemma_split_grows(a, company_name@, '.');
        lemma_split_sep(a + company_name@, '.');
        assert((a + company_name@).push('.') =~= b);
        lemma_split_grows(b, tld@, '.');
        assert(b + tld@ =~= full@);
        assert(views(parts@)[0] == parts@[0]@);
        assert(views(parts@)[1] == parts@[1]@);
        assert(views(parts@)[2] == parts@[2]@);
    }
    Some(FQDN {
        domain: parts[1].clone(),
        sub_domain: parts[0].clone(),
        tld: parts[2].clone(),
        fqdn: text,
    })
}

} // verus!

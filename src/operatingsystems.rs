//! Operating-system flavoured values: logon identifiers, UUIDs, host and server names.

use vstd::prelude::*;
use crate::constants::{
    app_code_table, app_codes, brand_table, brands, nix_host_table, nix_hosts, server_prefix_table,
    server_prefixes, server_suffix_table, server_suffixes, win_host_table, win_hosts,
};
use crate::random::{pick, random_alphanumeric, random_flag, random_in};
use crate::text::{chars_of, decimal, digit_char, is_hex_char, push_all, push_decimal, push_digit, string_of};
use crate::utils::{hex_filled, hex_pattern};

verus! {

/// The kinds of operating system that names are generated for.
#[derive(Clone, Copy, Debug, PartialEq, Eq, Structural)]
pub enum OsType {
    Windows,
    Linux,
    Others,
}

/// `batch_size` (default 1) Windows logon identifiers: `0x` and seven
/// lower-case hexadecimal digits.
pub fn logon_id(batch_size: Option<u32>) -> (r: Vec<String>)
    ensures
        r@.len() == batch_size.unwrap_or(1),
        forall|i: int| 0 <= i < r@.len() ==> hex_filled("0x^^^^^^^"@, (#[trigger] r@[i])@, false),
{
    let batch = match batch_size {
        Some(b) => b,
        None => 1,
    };
    let mut ids: Vec<String> = Vec::new();
    let mut k: u32 = 0;
    while k < batch
        invariant
            k <= batch,
            ids@.len() == k,
            forall|i: int| 0 <= i < ids@.len() ==> hex_filled("0x^^^^^^^"@, (#[trigger] ids@[i])@, false),
        decreases batch - k,
    {
        ids.push(hex_pattern(Some("0x^^^^^^^"), None));
        k += 1;
    }
    assert(batch == batch_size.unwrap_or(1));
    ids
}

/// The hyphenated lower-case text of a UUID: 36 characters, hyphens at
/// positions 8, 13, 18 and 23, hexadecimal digits elsewhere.
pub open spec fn uuid_shaped(s: Seq<char>) -> bool {
    &&& s.len() == 36
    &&& forall|i: int|
        0 <= i < 36 ==> if i == 8 || i == 13 || i == 18 || i == 23 {
            #[trigger] s[i] == '-'
        } else {
            is_hex_char(s[i], false)
        }
}

/// Relies on uuid's `Uuid::new_v4` and its `Display`, which writes the
/// hyphenated lower-case form.
#[verifier::external_body]
fn uuid_v4_text() -> (r: String)
    ensures
        uuid_shaped(r@),
{
    uuid::Uuid::new_v4().to_string()
}

/// `batch_size` (default 1) random (version 4) UUIDs.
pub fn new_uuid(batch_size: Option<u32>) -> (r: Vec<String>)
    ensures
        r@.len() == batch_size.unwrap_or(1),
        forall|i: int| 0 <= i < r@.len() ==> uuid_shaped((#[trigger] r@[i])@),
{
    let batch = match batch_size {
        Some(b) => b,
        None => 1,
    };
    let mut ids: Vec<String> = Vec::new();
    let mut k: u32 = 0;
    while k < batch
        invariant
            k <= batch,
            ids@.len() == k,
            forall|i: int| 0 <= i < ids@.len() ==> uuid_shaped((#[trigger] ids@[i])@),
        decreases batch - k,
    {
        ids.push(uuid_v4_text());
        k += 1;
    }
    assert(batch == batch_size.unwrap_or(1));
    ids
}

/// An ASCII capital letter or digit.
pub open spec fn is_upper_alnum(c: char) -> bool {
    ('A' <= c <= 'Z') || ('0' <= c <= '9')
}

/// The name stems a localhost name may start with.
pub open spec fn localhost_stems(windows: bool, linux: bool) -> Seq<&'static str> {
    if windows {
        win_host_table() + brand_table()
    } else if linux {
        nix_host_table()
    } else {
        nix_host_table() + win_host_table()
    }
}

/// `s` is a localhost name: a stem, a hyphen, and when `suffix_local` holds the
/// given name, or without one 8 to 11 random capitals and digits.
pub open spec fn localhost_shaped(windows: bool, linux: bool, name: Seq<char>, suffix_local: bool, s: Seq<char>) -> bool {
    exists|stem: &'static str, suffix: Seq<char>|
        #![trigger localhost_stems(windows, linux).contains(stem), local_suffix(name, suffix)]
        localhost_stems(windows, linux).contains(stem) && local_suffix(name, suffix)
            && s == stem@ + seq!['-'] + (if suffix_local { suffix } else { Seq::empty() })
}

/// The suffix of a localhost name: the given name, or without one 8 to 11
/// random capitals and digits.
pub open spec fn local_suffix(name: Seq<char>, suffix: Seq<char>) -> bool {
    if name.len() > 0 {
        suffix == name
    } else {
        8 <= suffix.len() < 12 && forall|i: int| 0 <= i < suffix.len() ==> is_upper_alnum(#[trigger] suffix[i])
    }
}

fn random_upper_alnum(n: u64) -> (r: Vec<char>)
    ensures
        r@.len() == n,
        forall|i: int| 0 <= i < r@.len() ==> is_upper_alnum(#[trigger] r@[i]),
{
    let mut out: Vec<char> = Vec::new();
    let mut k: u64 = 0;
    while k < n
        invariant
            k <= n,
            out@.len() == k,
            forall|i: int| 0 <= i < out@.len() ==> is_upper_alnum(#[trigger] out@[i]),
        decreases n - k,
    {
        let c = random_alphanumeric();
        let u = if 'a' <= c && c <= 'z' { (((c as u32) - 32) as u8) as char } else { c };
        out.push(u);
        k += 1;
    }
    out
}

fn localhost_stem_list(windows: bool, linux: bool) -> (r: Vec<&'static str>)
    ensures
        r@ == localhost_stems(windows, linux),
        r@.len() > 0,
{
    if windows {
        let mut v = win_hosts();
        let mut b = brands();
        v.append(&mut b);
        v
    } else if linux {
        nix_hosts()
    } else {
        let mut v = nix_hosts();
        let mut w = win_hosts();
        v.append(&mut w);
        v
    }
}

/// `batch_size` (default 1) random localhost names:
/// a Windows stem or brand (`windows`), a Unix stem (`linux`), or either kind,
/// then a hyphen, then, when `suffix_local` holds, `name` or a random suffix.
pub fn localhost_name(
    windows: Option<bool>,
    linux: Option<bool>,
    name: Option<String>,
    suffix_local: Option<bool>,
    batch_size: Option<u32>,
) -> (r: Vec<String>)
    ensures
        r@.len() == batch_size.unwrap_or(1),
        forall|i: int| 0 <= i < r@.len() ==> localhost_shaped(
            windows.unwrap_or(false),
            linux.unwrap_or(false),
            match name { Some(n) => n@, None => Seq::empty() },
            suffix_local.unwrap_or(false),
            (#[trigger] r@[i])@,
        ),
{
    let windows = match windows { Some(b) => b, None => false };
    let linux = match linux { Some(b) => b, None => false };
    let name_chars = match &name {
        Some(n) => chars_of(n.as_str()),
        None => Vec::new(),
    };
    let suffix_local = match suffix_local { Some(b) => b, None => false };
    let batch = match batch_size { Some(b) => b, None => 1 };
    let stems = localhost_stem_list(windows, linux);
    let ghost nm = match name { Some(n) => n@, None => Seq::<char>::empty() };
    let mut names: Vec<String> = Vec::new();
    let mut k: u32 = 0;
    while k < batch
        invariant
            k <= batch,
            names@.len() == k,
            name_chars@ == nm,
            stems@ == localhost_stems(windows, linux),
            stems@.len() > 0,
            forall|i: int| 0 <= i < names@.len() ==> localhost_shaped(windows, linux, nm, suffix_local, (#[trigger] names@[i])@),
        decreases batch - k,
    {
        let n = random_in(8, 12);
        let suffix = if name_chars.len() > 0 {
            let mut c: Vec<char> = Vec::new();
            push_all(&mut c, &name_chars);
            assert(c@ =~= nm);
            c
        } else {
            random_upper_alnum(n)
        };
        let stem = *pick(&stems);
        let mut out = chars_of(stem);
        out.push('-');
        if suffix_local {
            push_all(&mut out, &suffix);
        } else {
            assert(out@ + Seq::<char>::empty() =~= out@);
        }
        let hn = string_of(&out);
        assert(hn@ == stem@ + seq!['-'] + (if suffix_local { suffix@ } else { Seq::empty() }));
        assert(localhost_stems(windows, linux).contains(stem));
        assert(local_suffix(nm, suffix@));
        assert(localhost_shaped(windows, linux, nm, suffix_local, hn@));
        let ghost before = names@;
        names.push(hn);
        assert(forall|i: int| 0 <= i < before.len() ==> names@[i] == before[i]);
        k += 1;
    }
    assert(batch == batch_size.unwrap_or(1));
    names
}

/// `s` without its decimal digits.
pub open spec fn strip_digits(s: Seq<char>) -> Seq<char>
    decreases s.len(),
{
    if s.len() == 0 {
        Seq::empty()
    } else {
        strip_digits(s.drop_last()) + if '0' <= s.last() <= '9' { Seq::empty() } else { seq![s.last()] }
    }
}

/// The suffixes a hostname may end with; without Apple ones unless `mac` holds.
pub open spec fn hostname_suffix_table(mac: bool) -> Seq<&'static str> {
    if mac {
        seq!["-PC", "-MAC", "-OSX", "-LINUX", "-CHROMEBOOK"]
    } else {
        seq!["-PC", "-LINUX", "-CHROMEBOOK"]
    }
}

fn hostname_suffixes(mac: bool) -> (r: Vec<&'static str>)
    ensures
        r@ == hostname_suffix_table(mac),
{
    if mac {
        vec!["-PC", "-MAC", "-OSX", "-LINUX", "-CHROMEBOOK"]
    } else {
        vec!["-PC", "-LINUX", "-CHROMEBOOK"]
    }
}

/// A two-digit host number `01` to `09`, or nothing.
pub open spec fn host_number(num: Seq<char>) -> bool {
    num.len() == 0 || exists|d: nat| 1 <= d <= 9 && num == seq!['0', #[trigger] digit_char(d)]
}

/// The suffix of a hostname: the one requested, or when that is absent or
/// empty one from the table.
pub open spec fn host_suffix(suffix_str: Option<&str>, mac_suffix: Option<bool>, suffix: &str) -> bool {
    let mac = match mac_suffix {
        Some(b) => b,
        None => true,
    };
    match suffix_str {
        Some(s) => if s@.len() > 0 { suffix == s } else { hostname_suffix_table(mac).contains(suffix) },
        None => hostname_suffix_table(mac).contains(suffix),
    }
}

/// A hostname made of `prefix_str` without its digits, maybe a host number
/// `01` to `09`, and `suffix_str`, or when that is absent or empty a suffix
/// from the table (Apple ones only when `mac_suffix`, default true, holds).
pub fn hostname(prefix_str: &str, suffix_str: Option<&str>, mac_suffix: Option<bool>) -> (r: String)
    ensures
        exists|num: Seq<char>, suffix: &str|
            #![trigger host_number(num), host_suffix(suffix_str, mac_suffix, suffix)]
            host_number(num) && host_suffix(suffix_str, mac_suffix, suffix)
                && r@ == strip_digits(prefix_str@) + num + suffix@,
{
    let mac = match mac_suffix { Some(b) => b, None => true };
    let x = random_in(1, 10);
    let chars = chars_of(prefix_str);
    let mut out: Vec<char> = Vec::new();
    let mut i: usize = 0;
    while i < chars.len()
        invariant
            i <= chars@.len(),
            chars@ == prefix_str@,
            out@ == strip_digits(chars@.subrange(0, i as int)),
        decreases chars@.len() - i,
    {
        let c = chars[i];
        assert(chars@.subrange(0, i + 1).drop_last() == chars@.subrange(0, i as int));
        if !('0' <= c && c <= '9') {
            out.push(c);
        } else {
            assert(out@ + Seq::<char>::empty() =~= out@);
        }
        i += 1;
    }
    assert(chars@.subrange(0, chars@.len() as int) == chars@);
    let ghost stripped = out@;
    let ghost mut num = Seq::<char>::empty();
    if random_flag() {
        out.push('0');
        push_digit(&mut out, x);
        proof {
            num = seq!['0', digit_char(x as nat)];
        }
        assert(out@ =~= stripped + num);
    } else {
        assert(out@ =~= stripped + num);
    }
    assert(host_number(num));
    let suffix: &str = match suffix_str {
        Some(s) => if !s.is_empty() { s } else { *pick(&hostname_suffixes(mac)) },
        None => *pick(&hostname_suffixes(mac)),
    };
    assert(host_suffix(suffix_str, mac_suffix, suffix));
    let tail = chars_of(suffix);
    push_all(&mut out, &tail);
    let r = string_of(&out);
    assert(r@ == strip_digits(prefix_str@) + num + suffix@);
    r
}

/// The Windows Server releases that Windows server names carry.
pub open spec fn is_server_year(y: nat) -> bool {
    y == 2012 || y == 2014 || y == 2016 || y == 2019
}

/// The three-digit server number `001` to `009`.
pub open spec fn three_digit(d: nat) -> Seq<char> {
    seq!['0', '0', digit_char(d)]
}

/// The end of a default server name: a number `01` to `04`, or a suffix from the table.
pub open spec fn server_tail(tail: Seq<char>) -> bool {
    (exists|d: nat| 1 <= d <= 4 && tail == seq!['0', #[trigger] digit_char(d)])
    || (exists|suf: &'static str| server_suffix_table().contains(suf) && tail == (#[trigger] suf@))
}

/// `s` is a server name of the requested kind.
pub open spec fn server_shaped(windows: bool, linux: bool, s: Seq<char>) -> bool {
    if windows {
        exists|y: nat, d: nat|
            is_server_year(y) && 1 <= d <= 9 && s == seq!['W'] + #[trigger] decimal(y) + seq!['R', '2'] + #[trigger] three_digit(d) + "-SRV"@
    } else if linux {
        exists|stem: &'static str, d: nat, app: &'static str|
            #![trigger nix_host_table().contains(stem), three_digit(d), app_code_table().contains(app)]
            nix_host_table().contains(stem) && 1 <= d <= 9 && app_code_table().contains(app)
            && s == stem@ + three_digit(d) + app@ + "-SRV"@
    } else {
        exists|pre: &'static str, app: &'static str, tail: Seq<char>|
            #![trigger server_prefix_table().contains(pre), app_code_table().contains(app), server_tail(tail)]
            server_prefix_table().contains(pre) && app_code_table().contains(app) && server_tail(tail)
                && s == pre@ + app@ + tail
    }
}

/// A random server name: Windows style `W<year>R2<nnn>-SRV`, Unix style
/// `<stem><nnn><app>-SRV`, or by default `<prefix><app>` and a two-digit
/// number or a suffix.
pub fn servername(windows: Option<bool>, linux: Option<bool>) -> (r: String)
    ensures
        server_shaped(windows.unwrap_or(false), linux.unwrap_or(false) , r@),
{
    let windows = match windows { Some(b) => b, None => false };
    let linux = match linux { Some(b) => b, None => false };
    let mut out: Vec<char> = Vec::new();
    if windows {
        let years: Vec<u64> = vec![2012, 2014, 2016, 2019];
        let y = *pick(&years);
        let d = random_in(1, 10);
        out.push('W');
        push_decimal(&mut out, y);
        out.push('R');
        out.push('2');
        out.push('0');
        out.push('0');
        push_digit(&mut out, d);
        let tail = chars_of("-SRV");
        push_all(&mut out, &tail);
        assert(is_server_year(y as nat));
        assert(out@ =~= seq!['W'] + decimal(y as nat) + seq!['R', '2'] + three_digit(d as nat) + "-SRV"@);
    } else if linux {
        let stem = *pick(&nix_hosts());
        let d = random_in(1, 10);
        let app = *pick(&app_codes());
        out = chars_of(stem);
        out.push('0');
        out.push('0');
        push_digit(&mut out, d);
        let a = chars_of(app);
        push_all(&mut out, &a);
        let tail = chars_of("-SRV");
        push_all(&mut out, &tail);
        assert(out@ =~= stem@ + three_digit(d as nat) + app@ + "-SRV"@);
        assert(nix_host_table().contains(stem) && app_code_table().contains(app));
    } else {
        let pre = *pick(&server_prefixes());
        let app = *pick(&app_codes());
        out = chars_of(pre);
        let a = chars_of(app);
        push_all(&mut out, &a);
        let ghost head = out@;
        if random_flag() {
            let d = random_in(1, 5);
            out.push('0');
            push_digit(&mut out, d);
            assert(out@ =~= pre@ + app@ + seq!['0', digit_char(d as nat)]);
            assert(server_tail(seq!['0', digit_char(d as nat)]));
            assert(server_prefix_table().contains(pre) && app_code_table().contains(app));
        } else {
            let suf = *pick(&server_suffixes());
            let t = chars_of(suf);
            push_all(&mut out, &t);
            assert(out@ =~= pre@ + app@ + suf@);
            assert(server_suffix_table().contains(suf));
            assert(server_tail(suf@));
            assert(server_prefix_table().contains(pre) && app_code_table().contains(app));
        }
    }
    string_of(&out)
}

} // verus!

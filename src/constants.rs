//! Word tables that generated names are assembled from.

use vstd::prelude::*;

verus! {

/// Top-level domains that fully qualified domain names end with.
pub open spec fn tld_table() -> Seq<&'static str> {
    seq!["com", "net", "org", "info", "biz", "io", "co", "us", "uk", "de", "fr", "in", "ru", "cn", "jp", "br", "au", "nl", "xyz", "online"]
}

pub fn tlds() -> (r: Vec<&'static str>)
    ensures
        r@ == tld_table(),
{
    vec!["com", "net", "org", "info", "biz", "io", "co", "us", "uk", "de", "fr", "in", "ru", "cn", "jp", "br", "au", "nl", "xyz", "online"]
}

/// Every top-level domain that generated domain names may end with.
pub open spec fn all_tld_table() -> Seq<&'static str> {
    seq![
        "com", "net", "org", "info", "biz", "io", "co", "us", "uk", "de", "fr", "in", "ru", "cn", "jp", "br",
        "au", "nl", "xyz", "online", "top", "site", "club", "app", "dev", "tech", "store", "shop", "pw", "cc",
        "tk", "ml", "ga", "cf", "ws", "me", "tv", "su", "ua", "kz", "ir", "vn", "es", "it", "pl", "ca",
    ]
}

pub fn all_tlds() -> (r: Vec<&'static str>)
    ensures
        r@ == all_tld_table(),
{
    vec![
        "com", "net", "org", "info", "biz", "io", "co", "us", "uk", "de", "fr", "in", "ru", "cn", "jp", "br",
        "au", "nl", "xyz", "online", "top", "site", "club", "app", "dev", "tech", "store", "shop", "pw", "cc",
        "tk", "ml", "ga", "cf", "ws", "me", "tv", "su", "ua", "kz", "ir", "vn", "es", "it", "pl", "ca",
    ]
}

/// Site names that stand before a company name in a fully qualified domain name.
pub open spec fn location_table() -> Seq<&'static str> {
    seq!["corp", "hq", "ny", "sf", "london", "paris", "berlin", "tokyo", "sydney", "mumbai", "toronto", "dublin"]
}

pub fn locations() -> (r: Vec<&'static str>)
    ensures
        r@ == location_table(),
{
    vec!["corp", "hq", "ny", "sf", "london", "paris", "berlin", "tokyo", "sydney", "mumbai", "toronto", "dublin"]
}

/// Name stems of Windows workstations.
pub open spec fn win_host_table() -> Seq<&'static str> {
    seq!["DESKTOP", "LAPTOP", "WORKSTATION", "WIN10", "WIN11", "PC", "OFFICE"]
}

pub fn win_hosts() -> (r: Vec<&'static str>)
    ensures
        r@ == win_host_table(),
{
    vec!["DESKTOP", "LAPTOP", "WORKSTATION", "WIN10", "WIN11", "PC", "OFFICE"]
}

/// Hardware brands that Windows workstations are named after.
pub open spec fn brand_table() -> Seq<&'static str> {
    seq!["DELL", "HP", "LENOVO", "ASUS", "ACER", "MSI", "TOSHIBA"]
}

pub fn brands() -> (r: Vec<&'static str>)
    ensures
        r@ == brand_table(),
{
    vec!["DELL", "HP", "LENOVO", "ASUS", "ACER", "MSI", "TOSHIBA"]
}

/// Name stems of Unix hosts.
pub open spec fn nix_host_table() -> Seq<&'static str> {
    seq!["ubuntu", "debian", "centos", "fedora", "redhat", "suse", "arch", "alpine", "kali", "mint"]
}

pub fn nix_hosts() -> (r: Vec<&'static str>)
    ensures
        r@ == nix_host_table(),
{
    vec!["ubuntu", "debian", "centos", "fedora", "redhat", "suse", "arch", "alpine", "kali", "mint"]
}

/// Application codes inside server names.
pub open spec fn app_code_table() -> Seq<&'static str> {
    seq!["WEB", "APP", "DB", "SQL", "MAIL", "DNS", "DC", "FS", "CTX", "EXCH", "FTP", "PRX"]
}

pub fn app_codes() -> (r: Vec<&'static str>)
    ensures
        r@ == app_code_table(),
{
    vec!["WEB", "APP", "DB", "SQL", "MAIL", "DNS", "DC", "FS", "CTX", "EXCH", "FTP", "PRX"]
}

/// Leading parts of server names.
pub open spec fn server_prefix_table() -> Seq<&'static str> {
    seq!["SRV", "PRD", "DEV", "UAT", "TST", "STG", "DR"]
}

pub fn server_prefixes() -> (r: Vec<&'static str>)
    ensures
        r@ == server_prefix_table(),
{
    vec!["SRV", "PRD", "DEV", "UAT", "TST", "STG", "DR"]
}

/// Trailing parts of server names.
pub open spec fn server_suffix_table() -> Seq<&'static str> {
    seq!["-SRV", "-VM", "-HOST", "-NODE", "-CL"]
}

pub fn server_suffixes() -> (r: Vec<&'static str>)
    ensures
        r@ == server_suffix_table(),
{
    vec!["-SRV", "-VM", "-HOST", "-NODE", "-CL"]
}

} // verus!

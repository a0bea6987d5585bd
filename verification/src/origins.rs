//! Which browser origins may call the gateway (CORS): local and private
//! network hosts, the development servers, and the product domains.
use vstd::prelude::*;
use crate::numbers::{parse_u8, spec_parse_u8};
use crate::text::{
    ends_with, has_prefix, has_suffix, split_once, split_once_char, starts_with, str_eq,
    strip_prefix,
};

verus! {

/// `s` without the trailing `/` characters, as `s.trim_end_matches('/')`.
pub open spec fn trim_trailing_slashes(s: Seq<char>) -> Seq<char>
    decreases s.len(),
{
    if s.len() > 0 && s.last() == '/' {
        trim_trailing_slashes(s.drop_last())
    } else {
        s
    }
}

/// The origin without an `http://` or `https://` scheme.
pub open spec fn without_scheme(origin: Seq<char>) -> Seq<char> {
    if has_prefix(origin, "http://"@) {
        origin.skip("http://"@.len() as int)
    } else if has_prefix(origin, "https://"@) {
        origin.skip("https://"@.len() as int)
    } else {
        origin
    }
}

/// The text before the first `.` (all of it when there is none).
pub open spec fn first_label(s: Seq<char>) -> Seq<char> {
    match split_once_char(s, '.') {
        Some((a, _)) => a,
        None => s,
    }
}

/// The host starts with `172.<n>` where `n` is a number from 16 to 31.
pub open spec fn in_private_172(host: Seq<char>) -> bool {
    has_prefix(host, "172."@) && (spec_parse_u8(first_label(host.skip("172."@.len() as int)))
        matches Some(octet) && 16 <= octet && octet <= 31)
}

/// The origin's host is loopback or in a private network range.
pub open spec fn spec_is_localhost(origin: Seq<char>) -> bool {
    let host = trim_trailing_slashes(without_scheme(origin));
    ||| has_prefix(host, "localhost"@)
    ||| has_prefix(host, "127.0.0.1"@)
    ||| has_prefix(host, "0.0.0.0"@)
    ||| has_prefix(host, "[::1]"@)
    ||| has_prefix(host, "10."@)
    ||| has_prefix(host, "192.168."@)
    ||| in_private_172(host)
}

/// One of the local development servers.
pub open spec fn is_dev_origin(origin: Seq<char>) -> bool {
    ||| origin == "http://localhost:3000"@
    ||| origin == "http://localhost:4173"@
    ||| origin == "http://localhost:5173"@
    ||| origin == "http://127.0.0.1:3000"@
    ||| origin == "http://127.0.0.1:4173"@
    ||| origin == "http://127.0.0.1:5173"@
}

/// One of the product origins.
pub open spec fn is_product_origin(origin: Seq<char>) -> bool {
    ||| origin == "https://lovable.dev"@
    ||| origin == "https://lovableproject.com"@
    ||| origin == "https://nauron.ai"@
}

/// The origin without `https://`.
pub open spec fn https_host(origin: Seq<char>) -> Seq<char> {
    if has_prefix(origin, "https://"@) {
        origin.skip("https://"@.len() as int)
    } else {
        origin
    }
}

/// The origin text may call the gateway.
pub open spec fn spec_origin_allowed(origin: Seq<char>) -> bool {
    ||| spec_is_localhost(origin)
    ||| is_dev_origin(origin)
    ||| is_product_origin(origin)
    ||| has_suffix(https_host(origin), ".lovable.dev"@)
    ||| has_suffix(https_host(origin), ".nauron.ai"@)
}

fn trim_end_slashes<'a>(s: &'a str) -> (r: &'a str)
    ensures
        r@ == trim_trailing_slashes(s@),
{
    let n = s.unicode_len();
    let mut k: usize = n;
    assert(s@.subrange(0, n as int) =~= s@);
    while k > 0 && s.get_char(k - 1) == '/'
        invariant
            n == s@.len(),
            k <= n,
            trim_trailing_slashes(s@.subrange(0, k as int)) == trim_trailing_slashes(s@),
        decreases k,
    {
        assert(s@.subrange(0, k as int).drop_last() =~= s@.subrange(0, k - 1));
        k = k - 1;
    }
    proof {
        assert(s@.subrange(0, n as int) =~= s@);
    }
    s.substring_char(0, k)
}

/// Whether the origin's host is loopback or in a private network range.
pub fn is_localhost(origin: &str) -> (r: bool)
    ensures
        r == spec_is_localhost(origin@),
{
    let stripped = match strip_prefix(origin, "http://") {
        Some(rest) => rest,
        None => match strip_prefix(origin, "https://") {
            Some(rest) => rest,
            None => origin,
        },
    };
    let host = trim_end_slashes(stripped);
    let in_172 = match strip_prefix(host, "172.") {
        Some(rest) => {
            let label = match split_once(rest, '.') {
                Some((a, _)) => a,
                None => rest,
            };
            match parse_u8(label) {
                Some(octet) => 16 <= octet && octet <= 31,
                None => false,
            }
        },
        None => false,
    };
    starts_with(host, "localhost") || starts_with(host, "127.0.0.1") || starts_with(host, "0.0.0.0")
        || starts_with(host, "[::1]") || starts_with(host, "10.") || starts_with(host, "192.168.")
        || in_172
}

/// Whether the origin text may call the gateway.
pub fn origin_allowed(origin: &str) -> (r: bool)
    ensures
        r == spec_origin_allowed(origin@),
{
    if is_localhost(origin) {
        return true;
    }
    let dev = str_eq(origin, "http://localhost:3000") || str_eq(origin, "http://localhost:4173")
        || str_eq(origin, "http://localhost:5173") || str_eq(origin, "http://127.0.0.1:3000")
        || str_eq(origin, "http://127.0.0.1:4173") || str_eq(origin, "http://127.0.0.1:5173");
    if dev {
        return true;
    }
    let host = match strip_prefix(origin, "https://") {
        Some(rest) => rest,
        None => origin,
    };
    str_eq(origin, "https://lovable.dev") || str_eq(origin, "https://lovableproject.com")
        || str_eq(origin, "https://nauron.ai") || ends_with(host, ".lovable.dev") || ends_with(
        host,
        ".nauron.ai",
    )
}

/// Whether a request's `Origin` header may call the gateway, given the
/// header's text (`None` when it is not visible ASCII): a header without text
/// is refused, and a text must be allowed.
pub fn is_allowed_origin(origin: Option<&str>) -> (r: bool)
    ensures
        r == (origin matches Some(text) && spec_origin_allowed(text@)),
{
    match origin {
        Some(text) => origin_allowed(text),
        None => false,
    }
}

/// The product origins, the development servers and every HTTPS subdomain
/// of `lovable.dev` and `nauron.ai` may call the gateway.
pub proof fn law_listed_origins_allowed(sub: Seq<char>)
    ensures
        spec_origin_allowed("https://lovable.dev"@),
        spec_origin_allowed("https://lovableproject.com"@),
        spec_origin_allowed("https://nauron.ai"@),
        spec_origin_allowed("http://localhost:3000"@),
        spec_origin_allowed("http://localhost:4173"@),
        spec_origin_allowed("http://localhost:5173"@),
        spec_origin_allowed("http://127.0.0.1:3000"@),
        spec_origin_allowed("http://127.0.0.1:4173"@),
        spec_origin_allowed("http://127.0.0.1:5173"@),
        spec_origin_allowed("https://"@ + sub + ".lovable.dev"@),
        spec_origin_allowed("https://"@ + sub + ".nauron.ai"@),
{
    let p = "https://"@;
    let a = p + sub + ".lovable.dev"@;
    let b = p + sub + ".nauron.ai"@;
    assert(a.subrange(0, p.len() as int) =~= p);
    assert(b.subrange(0, p.len() as int) =~= p);
    assert(https_host(a) =~= sub + ".lovable.dev"@);
    assert(https_host(b) =~= sub + ".nauron.ai"@);
    let ha = https_host(a);
    let hb = https_host(b);
    assert(ha.subrange(ha.len() - ".lovable.dev"@.len(), ha.len() as int) =~= ".lovable.dev"@);
    assert(hb.subrange(hb.len() - ".nauron.ai"@.len(), hb.len() as int) =~= ".nauron.ai"@);
}

/// Every local or private-network origin is allowed.
pub proof fn law_localhost_allowed(origin: Seq<char>)
    ensures
        spec_is_localhost(origin) ==> spec_origin_allowed(origin),
{
}

} // verus!

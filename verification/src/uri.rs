//! Profile identifiers: scheme dispatch and the ASPE URI grammar.
//!
//! A profile identifier names where a profile lives: `hkp:`/`hkps:` and
//! `wkd:` identifiers point at OpenPGP key discovery, `aspe:` identifiers
//! at a signed token served over HTTPS.  An ASPE identifier is
//! `aspe:<domain-part>:<local-part>` — non-empty parts, no further colon —
//! and its token is fetched from the domain's well-known path.

use vstd::prelude::*;
use vstd::string::StrSliceExecFns;
use vstd::string::StringExecFns;

use crate::error::AppError;
use crate::strutil::starts_with_spec;
use crate::strutil::str_starts_with;

verus! {

/// The scheme a profile identifier carries.
#[derive(Debug, Clone, Copy, PartialEq, Eq, Structural)]
pub enum ProfileScheme {
    Hkp,
    Hkps,
    Wkd,
    Aspe,
    Unknown,
}

/// The scheme an identifier's prefix selects.
pub open spec fn scheme_spec(s: Seq<char>) -> ProfileScheme {
    if starts_with_spec(s, "hkps:"@) {
        ProfileScheme::Hkps
    } else if starts_with_spec(s, "hkp:"@) {
        ProfileScheme::Hkp
    } else if starts_with_spec(s, "wkd:"@) {
        ProfileScheme::Wkd
    } else if starts_with_spec(s, "aspe:"@) {
        ProfileScheme::Aspe
    } else {
        ProfileScheme::Unknown
    }
}

/// Classify a profile identifier by its scheme prefix.
pub fn classify_profile_uri(uri: &str) -> (r: ProfileScheme)
    ensures
        r == scheme_spec(uri@),
{
    if str_starts_with(uri, "hkps:") {
        ProfileScheme::Hkps
    } else if str_starts_with(uri, "hkp:") {
        ProfileScheme::Hkp
    } else if str_starts_with(uri, "wkd:") {
        ProfileScheme::Wkd
    } else if str_starts_with(uri, "aspe:") {
        ProfileScheme::Aspe
    } else {
        ProfileScheme::Unknown
    }
}

/// Index of the first colon of `s`; the length of `s` when it has none.
pub open spec fn first_colon(s: Seq<char>) -> int
    decreases s.len(),
{
    if s.len() == 0 {
        0
    } else if s[0] == ':' {
        0
    } else {
        1 + first_colon(s.drop_first())
    }
}

/// Index of the first colon of `s`, in characters; the character length
/// of `s` when it has none.
pub fn find_first_colon(s: &str) -> (r: usize)
    ensures
        r == first_colon(s@),
        r <= s@.len(),
{
    let n = s.unicode_len();
    let mut p: usize = 0;
    proof {
        assert(s@.subrange(0, n as int) =~= s@);
    }
    while p < n
        invariant
            n == s@.len(),
            p <= n,
            first_colon(s@) == p + first_colon(s@.subrange(p as int, n as int)),
        decreases n - p,
    {
        proof {
            assert(s@.subrange(p as int, n as int)[0] == s@[p as int]);
        }
        if s.get_char(p) == ':' {
            return p;
        }
        proof {
            assert(s@.subrange(p as int, n as int).drop_first() =~= s@.subrange(
                p + 1,
                n as int,
            ));
        }
        p += 1;
    }
    proof {
        assert(s@.subrange(n as int, n as int).len() == 0);
    }
    n
}

/// Everything after the identifier's first colon, or nothing when it has
/// no colon.
pub fn scheme_remainder(uri: &str) -> (r: Option<String>)
    ensures
        match r {
            Some(rem) => first_colon(uri@) < uri@.len() && rem@ == uri@.subrange(
                first_colon(uri@) + 1,
                uri@.len() as int,
            ),
            None => first_colon(uri@) == uri@.len(),
        },
{
    let n = uri.unicode_len();
    let p = find_first_colon(uri);
    if p == n {
        return None;
    }
    Some(uri.substring_char(p + 1, n).to_owned())
}

/// A parsed ASPE profile identifier: the domain that serves the profile
/// and the profile's local identifier.
#[derive(Debug, Clone, PartialEq)]
pub struct AspeUri {
    pub domain_part: String,
    pub local_part: String,
}

/// The domain and local parts of an ASPE identifier, when `s` is one:
/// the `aspe:` scheme, a non-empty domain without colon, a colon, and a
/// non-empty local part without colon.
pub open spec fn parse_aspe_uri_spec(s: Seq<char>) -> Option<(Seq<char>, Seq<char>)> {
    if !starts_with_spec(s, "aspe:"@) {
        None
    } else {
        let rest = s.subrange(5, s.len() as int);
        let p = first_colon(rest);
        if p == 0 || p >= rest.len() {
            None
        } else {
            let local = rest.subrange(p + 1, rest.len() as int);
            if local.len() == 0 {
                None
            } else if first_colon(local) != local.len() {
                None
            } else {
                Some((rest.subrange(0, p), local))
            }
        }
    }
}

/// Parse an ASPE profile identifier.
pub fn parse_aspe_uri(s: &str) -> (r: Option<AspeUri>)
    ensures
        match r {
            Some(u) => parse_aspe_uri_spec(s@) == Some((u.domain_part@, u.local_part@)),
            None => parse_aspe_uri_spec(s@) is None,
        },
{
    proof {
        reveal_strlit("aspe:");
    }
    if !str_starts_with(s, "aspe:") {
        return None;
    }
    let len = s.unicode_len();
    let rest = s.substring_char(5, len);
    let rlen = rest.unicode_len();
    let p = find_first_colon(rest);
    if p == 0 || p >= rlen {
        return None;
    }
    let local = rest.substring_char(p + 1, rlen);
    if local.unicode_len() == 0 {
        return None;
    }
    let q = find_first_colon(local);
    if q != local.unicode_len() {
        return None;
    }
    let domain_part = rest.substring_char(0, p).to_owned();
    let local_part = local.to_owned();
    Some(AspeUri { domain_part, local_part })
}

/// The well-known path under which a domain serves its profile tokens.
pub open spec fn well_known_path() -> Seq<char> {
    "/.well-known/aspe/id/"@
}

/// The content type requested for a signed profile token.
pub fn jws_content_type() -> (r: &'static str)
    ensures
        r@ == "application/asp+jwt"@,
{
    "application/asp+jwt"
}

/// The HTTPS location of an ASPE identifier's signed token: the domain's
/// well-known path followed by the local part.  An identifier that is no
/// ASPE URI is rejected before any transport is involved.
pub fn aspe_token_url(aspe_uri: &str) -> (r: Result<String, AppError>)
    ensures
        match r {
            Ok(url) => parse_aspe_uri_spec(aspe_uri@) matches Some(parts) && url@ == "https://"@
                + parts.0 + well_known_path() + parts.1,
            Err(e) => e == AppError::FailedToParseAspeUri && parse_aspe_uri_spec(aspe_uri@)
                is None,
        },
{
    let u = match parse_aspe_uri(aspe_uri) {
        Some(u) => u,
        None => {
            return Err(AppError::FailedToParseAspeUri);
        },
    };
    let mut url = String::new();
    url.append("https://");
    url.append(u.domain_part.as_str());
    url.append("/.well-known/aspe/id/");
    url.append(u.local_part.as_str());
    Ok(url)
}

} // verus!

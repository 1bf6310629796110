//! Key extraction, algorithm selection, and the signature trust boundary.
//!
//! A signed token self-declares its key in the header.  `extract_key`
//! pulls that key out without trusting it; `select_and_verify` dispatches
//! on the key's curve tag — exactly `"Ed25519"` and `"P-256"` are
//! recognized, anything else fails closed — and has josekit check the
//! signature over the full raw token.  No payload attribute is read
//! before that check succeeds.
//!
//! What josekit computes is a deterministic function of the token text
//! alone: which key the header declares, whether a verifier can be built
//! from it, whether the signature verifies, and what each recognized
//! payload attribute reads as.  Those results are given names
//! (uninterpreted spec functions over the token's characters), the
//! trusted wrappers state their results in terms of the names, and the
//! verified pipeline's contracts — when extraction yields a descriptor,
//! when verification returns each error, what the decoded payload holds —
//! are exact over them.

use josekit::Value;
use josekit::jws::alg::ecdsa::EcdsaJwsAlgorithm;
use josekit::jws::alg::eddsa::EddsaJwsAlgorithm;
use josekit::jwt::JwtPayload;
use josekit::jwt::decode_with_verifier;
use vstd::prelude::*;

use crate::error::VerificationError;
use crate::payload::AttrValue;
use crate::payload::VerifiedPayload;
use crate::payload::claims_attr;
use crate::payload::claims_key;
use crate::payload::color_key;
use crate::payload::description_key;
use crate::payload::lookup_attr_spec;
use crate::payload::name_key;
use crate::payload::num_attr;
use crate::payload::payload_wf;
use crate::payload::text_attr;
use crate::payload::text_items;
use crate::payload::version_key;
use crate::strutil::str_eq;
use crate::strutil::string_views;

verus! {

#[verifier::external_type_specification]
#[verifier::external_body]
pub struct ExJwk(josekit::jwk::Jwk);

#[verifier::external_type_specification]
#[verifier::external_body]
pub struct ExJwtPayload(josekit::jwt::JwtPayload);

/// The header claim under which a token self-declares its key.
pub open spec fn key_claim_name() -> Seq<char> {
    "jwk"@
}

/// The view of an optional string.
pub open spec fn opt_view(o: Option<String>) -> Option<Seq<char>> {
    match o {
        Some(s) => Some(s@),
        None => None,
    }
}

/// The view of an optional list of optional strings.
pub open spec fn opt_list_view(o: Option<Vec<Option<String>>>) -> Option<
    Seq<Option<Seq<char>>>,
> {
    match o {
        Some(items) => Some(items@.map_values(|x: Option<String>| opt_view(x))),
        None => None,
    }
}

/// What the token's header declares under `key_claim`: nothing when the
/// header does not parse or holds no interpretable key object, otherwise
/// the declared key's optional curve tag.
pub uninterp spec fn header_key_curve(token: Seq<char>, key_claim: Seq<char>) -> Option<
    Option<Seq<char>>,
>;

/// Whether an EdDSA verifier can be built from the key the token declares
/// under `key_claim`.
pub uninterp spec fn eddsa_key_usable(token: Seq<char>, key_claim: Seq<char>) -> bool;

/// Whether the token's signature verifies under its own declared key with
/// EdDSA.
pub uninterp spec fn eddsa_accepts(token: Seq<char>, key_claim: Seq<char>) -> bool;

/// Whether an ECDSA P-256 verifier can be built from the key the token
/// declares under `key_claim`.
pub uninterp spec fn ecdsa_key_usable(token: Seq<char>, key_claim: Seq<char>) -> bool;

/// Whether the token's signature verifies under its own declared key with
/// ECDSA P-256.
pub uninterp spec fn ecdsa_accepts(token: Seq<char>, key_claim: Seq<char>) -> bool;

/// The verified payload's claim under `key`, read as an unsigned integer;
/// absent when the claim is missing or of another shape.
pub uninterp spec fn claim_u64_of(token: Seq<char>, key: Seq<char>) -> Option<u64>;

/// The verified payload's claim under `key`, read as text; absent when
/// the claim is missing or not text.
pub uninterp spec fn claim_text_of(token: Seq<char>, key: Seq<char>) -> Option<Seq<char>>;

/// The verified payload's claim under `key`, read as a list: each item's
/// text, or nothing where an item is not text; absent when the claim is
/// missing or not a list.
pub uninterp spec fn claim_texts_of(token: Seq<char>, key: Seq<char>) -> Option<
    Seq<Option<Seq<char>>>,
>;

/// Relies on josekit's `jwt::decode_header`, `JoseHeader::claim`,
/// `serde_json::Value::as_object`, `Jwk::from_map` and `Jwk::curve`: the
/// key object the token's header declares under `key_claim`, interpreted
/// as a JWK, beside its curve parameter — or nothing, when the header
/// does not parse, holds no such claim, or the claim is not an
/// interpretable key object.  Only the header is read, and the result
/// depends on the arguments alone.
#[verifier::external_body]
fn extract_header_key(token: &str, key_claim: &str) -> (r: Option<(josekit::jwk::Jwk, Option<
    String,
>)>)
    ensures
        r is Some <==> header_key_curve(token@, key_claim@) is Some,
        r matches Some(k) ==> header_key_curve(token@, key_claim@) == Some(opt_view(k.1)),
{
    let header = josekit::jwt::decode_header(token).ok()?;
    let key_object = header.claim(key_claim)?.as_object()?;
    let jwk = josekit::jwk::Jwk::from_map(key_object.clone()).ok()?;
    let curve = jwk.curve().map(str::to_string);
    Some((jwk, curve))
}

/// The recognized attribute reads of a verified payload, as plain values.
struct TokenAttrs {
    version: Option<u64>,
    name: Option<String>,
    description: Option<String>,
    display_color: Option<String>,
    claims: Option<Vec<Option<String>>>,
}

/// What one curve family's verification of a token yields.
enum TokenVerification {
    /// No verifier for this family could be bound to the token's own
    /// declared key (key missing, uninterpretable, or of the wrong kind).
    KeyUnusable,
    /// A verifier was bound, but the token does not verify under it.
    SignatureRejected,
    /// The token verifies; these are its recognized attribute reads.
    Verified(TokenAttrs),
}

/// Relies on josekit's `JwtPayload::claim` and `serde_json::Value`'s
/// `as_u64`/`as_str`/`as_array`: the shared reading tail of the two
/// verification wrappers below, which alone call it and whose `ensures`
/// state what these reads return.
#[verifier::external_body]
fn read_attrs(body: &JwtPayload, k_version: &str, k_name: &str, k_description: &str, k_color: &str, k_claims: &str) -> TokenAttrs {
    let text = |v: &Value| v.as_str().map(str::to_string);
    TokenAttrs {
        version: body.claim(k_version).and_then(|v| v.as_u64()),
        name: body.claim(k_name).and_then(text),
        description: body.claim(k_description).and_then(text),
        display_color: body.claim(k_color).and_then(text),
        claims: body.claim(k_claims).and_then(|v| v.as_array().map(|a| a.iter().map(text).collect())),
    }
}

/// Relies on josekit's `EddsaJwsAlgorithm::verifier_from_jwk` and
/// `jwt::decode_with_verifier`, and on `JwtPayload::claim` with
/// `serde_json::Value`'s `as_u64`/`as_str`/`as_array` for the attribute
/// reads (the extraction chain is `extract_header_key`'s).  Signature
/// verification and payload decoding are deterministic in the token and
/// its embedded key, so every result is a function of the arguments
/// alone.
#[verifier::external_body]
fn eddsa_verify_token(
    token: &str,
    key_claim: &str,
    k_version: &str,
    k_name: &str,
    k_description: &str,
    k_color: &str,
    k_claims: &str,
) -> (r: TokenVerification)
    ensures
        r is KeyUnusable <==> !eddsa_key_usable(token@, key_claim@),
        !(r is KeyUnusable) ==> (r is Verified <==> eddsa_accepts(token@, key_claim@)),
        r matches TokenVerification::Verified(attrs) ==> attrs.version == claim_u64_of(token@, k_version@),
        r matches TokenVerification::Verified(attrs) ==> opt_view(attrs.name) == claim_text_of(token@, k_name@),
        r matches TokenVerification::Verified(attrs) ==> opt_view(attrs.description) == claim_text_of(token@, k_description@),
        r matches TokenVerification::Verified(attrs) ==> opt_view(attrs.display_color) == claim_text_of(token@, k_color@),
        r matches TokenVerification::Verified(attrs) ==> opt_list_view(attrs.claims) == claim_texts_of(token@, k_claims@),
{
    let key = match extract_header_key(token, key_claim) { Some(k) => k.0, None => return TokenVerification::KeyUnusable };
    let verifier = match EddsaJwsAlgorithm::Eddsa.verifier_from_jwk(&key) { Ok(v) => v, Err(_) => return TokenVerification::KeyUnusable };
    let body = match decode_with_verifier(token, &verifier) { Ok(d) => d.0, Err(_) => return TokenVerification::SignatureRejected };
    TokenVerification::Verified(read_attrs(&body, k_version, k_name, k_description, k_color, k_claims))
}

/// Relies on josekit's `EcdsaJwsAlgorithm::verifier_from_jwk` (ES256) and
/// `jwt::decode_with_verifier`, and on `JwtPayload::claim` with
/// `serde_json::Value`'s `as_u64`/`as_str`/`as_array` for the attribute
/// reads (the extraction chain is `extract_header_key`'s).  Signature
/// verification and payload decoding are deterministic in the token and
/// its embedded key, so every result is a function of the arguments
/// alone.
#[verifier::external_body]
fn ecdsa_verify_token(
    token: &str,
    key_claim: &str,
    k_version: &str,
    k_name: &str,
    k_description: &str,
    k_color: &str,
    k_claims: &str,
) -> (r: TokenVerification)
    ensures
        r is KeyUnusable <==> !ecdsa_key_usable(token@, key_claim@),
        !(r is KeyUnusable) ==> (r is Verified <==> ecdsa_accepts(token@, key_claim@)),
        r matches TokenVerification::Verified(attrs) ==> attrs.version == claim_u64_of(token@, k_version@),
        r matches TokenVerification::Verified(attrs) ==> opt_view(attrs.name) == claim_text_of(token@, k_name@),
        r matches TokenVerification::Verified(attrs) ==> opt_view(attrs.description) == claim_text_of(token@, k_description@),
        r matches TokenVerification::Verified(attrs) ==> opt_view(attrs.display_color) == claim_text_of(token@, k_color@),
        r matches TokenVerification::Verified(attrs) ==> opt_list_view(attrs.claims) == claim_texts_of(token@, k_claims@),
{
    let key = match extract_header_key(token, key_claim) { Some(k) => k.0, None => return TokenVerification::KeyUnusable };
    let verifier = match EcdsaJwsAlgorithm::Es256.verifier_from_jwk(&key) { Ok(v) => v, Err(_) => return TokenVerification::KeyUnusable };
    let body = match decode_with_verifier(token, &verifier) { Ok(d) => d.0, Err(_) => return TokenVerification::SignatureRejected };
    TokenVerification::Verified(read_attrs(&body, k_version, k_name, k_description, k_color, k_claims))
}

/// The self-declared key pulled from a token header: its curve tag as
/// plain text beside the key object a verifier is built from.  This is
/// the claimant's own assertion of its key — untrusted input until the
/// token's signature verifies under it.
pub struct EmbeddedKeyDescriptor {
    pub curve: Option<String>,
    pub key: josekit::jwk::Jwk,
}

/// The curve families the dispatch recognizes, and the catch-all that
/// fails closed.
#[derive(Debug, Clone, Copy, PartialEq, Eq, Structural)]
pub enum CurveFamily {
    EdDsa25519,
    EcdsaP256,
    Unsupported,
}

/// The family a curve tag selects: exactly `"Ed25519"` and `"P-256"` are
/// recognized; any other tag, and an absent tag, is unsupported.
pub open spec fn curve_family_of(curve: Option<Seq<char>>) -> CurveFamily {
    match curve {
        Some(c) => {
            if c == "Ed25519"@ {
                CurveFamily::EdDsa25519
            } else if c == "P-256"@ {
                CurveFamily::EcdsaP256
            } else {
                CurveFamily::Unsupported
            }
        },
        None => CurveFamily::Unsupported,
    }
}

/// The family a descriptor's curve tag selects.
pub open spec fn curve_family_spec(curve: Option<String>) -> CurveFamily {
    curve_family_of(opt_view(curve))
}

/// The token authenticates: its header declares an interpretable key of a
/// supported curve family, that key is usable for the family, and the
/// token's signature verifies under it.
pub open spec fn token_authenticates(token: Seq<char>) -> bool {
    match header_key_curve(token, key_claim_name()) {
        Some(curve) => match curve_family_of(curve) {
            CurveFamily::EdDsa25519 => eddsa_key_usable(token, key_claim_name()) && eddsa_accepts(
                token,
                key_claim_name(),
            ),
            CurveFamily::EcdsaP256 => ecdsa_key_usable(token, key_claim_name()) && ecdsa_accepts(
                token,
                key_claim_name(),
            ),
            CurveFamily::Unsupported => false,
        },
        None => false,
    }
}

/// The claim URIs a verified token asserts: the text items of its claim
/// list, in order, or none when the list is absent or not a list.
pub open spec fn token_claims_view(token: Seq<char>) -> Seq<Seq<char>> {
    match claim_texts_of(token, claims_key()) {
        Some(items) => present_views(items),
        None => Seq::empty(),
    }
}

/// Pull a candidate public key descriptor out of the token's header,
/// reading neither payload nor signature: a descriptor comes back exactly
/// when the header declares an interpretable key, and it carries that
/// key's curve tag.  The descriptor is nothing but the claimant's
/// self-assertion; all later trust derives from the signature check
/// alone.
pub fn extract_key(token: &str) -> (r: Option<EmbeddedKeyDescriptor>)
    ensures
        r is Some <==> header_key_curve(token@, key_claim_name()) is Some,
        r matches Some(d) ==> header_key_curve(token@, key_claim_name()) == Some(
            opt_view(d.curve),
        ),
{
    match extract_header_key(token, "jwk") {
        Some((key, curve)) => Some(EmbeddedKeyDescriptor { curve, key }),
        None => None,
    }
}

/// Select the verifier family for a descriptor's curve tag.
pub fn select_algorithm(descriptor: &EmbeddedKeyDescriptor) -> (r: CurveFamily)
    ensures
        r == curve_family_spec(descriptor.curve),
{
    match &descriptor.curve {
        Some(c) => {
            if str_eq(c.as_str(), "Ed25519") {
                CurveFamily::EdDsa25519
            } else if str_eq(c.as_str(), "P-256") {
                CurveFamily::EcdsaP256
            } else {
                CurveFamily::Unsupported
            }
        },
        None => CurveFamily::Unsupported,
    }
}

/// The text items of a claim list handed over by the signature check:
/// each present item in order, absent items dropped.
pub open spec fn present_texts(items: Seq<Option<String>>) -> Seq<String>
    decreases items.len(),
{
    if items.len() == 0 {
        Seq::empty()
    } else {
        match items[0] {
            Some(s) => seq![s] + present_texts(items.drop_first()),
            None => present_texts(items.drop_first()),
        }
    }
}

/// The same selection over views.
pub open spec fn present_views(items: Seq<Option<Seq<char>>>) -> Seq<Seq<char>>
    decreases items.len(),
{
    if items.len() == 0 {
        Seq::empty()
    } else {
        match items[0] {
            Some(s) => seq![s] + present_views(items.drop_first()),
            None => present_views(items.drop_first()),
        }
    }
}

proof fn lemma_text_items_concat(a: Seq<AttrValue>, b: Seq<AttrValue>)
    ensures
        text_items(a + b) == text_items(a) + text_items(b),
    decreases a.len(),
{
    if a.len() == 0 {
        assert(a + b =~= b);
        assert(text_items(a) =~= Seq::<String>::empty());
        assert(text_items(a) + text_items(b) =~= text_items(b));
    } else {
        assert((a + b).drop_first() =~= a.drop_first() + b);
        lemma_text_items_concat(a.drop_first(), b);
        assert((a + b)[0] == a[0]);
        match a[0] {
            AttrValue::Text(s) => {
                assert(text_items(a + b) =~= seq![s] + (text_items(a.drop_first()) + text_items(
                    b,
                )));
                assert(text_items(a) + text_items(b) =~= seq![s] + (text_items(a.drop_first())
                    + text_items(b)));
            },
            _ => {},
        }
    }
}

proof fn lemma_present_texts_concat(a: Seq<Option<String>>, b: Seq<Option<String>>)
    ensures
        present_texts(a + b) == present_texts(a) + present_texts(b),
    decreases a.len(),
{
    if a.len() == 0 {
        assert(a + b =~= b);
        assert(present_texts(a) =~= Seq::<String>::empty());
        assert(present_texts(a) + present_texts(b) =~= present_texts(b));
    } else {
        assert((a + b).drop_first() =~= a.drop_first() + b);
        lemma_present_texts_concat(a.drop_first(), b);
        assert((a + b)[0] == a[0]);
        match a[0] {
            Some(s) => {
                assert(present_texts(a + b) =~= seq![s] + (present_texts(a.drop_first())
                    + present_texts(b)));
                assert(present_texts(a) + present_texts(b) =~= seq![s] + (present_texts(
                    a.drop_first(),
                ) + present_texts(b)));
            },
            None => {},
        }
    }
}

/// The views of the present texts are the present views.
proof fn lemma_present_views(items: Seq<Option<String>>)
    ensures
        string_views(present_texts(items)) == present_views(
            items.map_values(|o: Option<String>| opt_view(o)),
        ),
    decreases items.len(),
{
    let mapped = items.map_values(|o: Option<String>| opt_view(o));
    if items.len() == 0 {
        assert(present_texts(items) =~= Seq::<String>::empty());
        assert(string_views(present_texts(items)) =~= Seq::<Seq<char>>::empty());
        assert(mapped.len() == 0);
        assert(present_views(mapped) =~= Seq::<Seq<char>>::empty());
    } else {
        lemma_present_views(items.drop_first());
        assert(mapped.drop_first() =~= items.drop_first().map_values(
            |o: Option<String>| opt_view(o),
        ));
        assert(mapped[0] == opt_view(items[0]));
        let rest_views = present_views(mapped.drop_first());
        match items[0] {
            Some(s) => {
                assert(present_views(mapped) == seq![s@] + rest_views);
                assert(string_views(seq![s] + present_texts(items.drop_first())) =~= seq![s@]
                    + string_views(present_texts(items.drop_first())));
            },
            None => {
                assert(present_views(mapped) == rest_views);
            },
        }
    }
}

/// Each handed-over list item as an attribute value: its text, or the
/// meaningless value where no text was present.
fn attr_items(items: Vec<Option<String>>) -> (r: Vec<AttrValue>)
    ensures
        text_items(r@) == present_texts(items@),
{
    let n = items.len();
    let mut out: Vec<AttrValue> = Vec::new();
    let mut i: usize = 0;
    proof {
        assert(items@.subrange(0, 0) =~= Seq::<Option<String>>::empty());
        assert(out@ =~= Seq::<AttrValue>::empty());
    }
    while i < n
        invariant
            n == items@.len(),
            i <= n,
            text_items(out@) == present_texts(items@.subrange(0, i as int)),
        decreases n - i,
    {
        let ghost old_out = out@;
        let item_value = match &items[i] {
            Some(s) => AttrValue::Text(s.clone()),
            None => AttrValue::Other,
        };
        out.push(item_value);
        proof {
            assert(out@ =~= old_out + seq![out@[out@.len() - 1]]);
            lemma_text_items_concat(old_out, seq![out@[out@.len() - 1]]);
            assert(items@.subrange(0, i + 1) =~= items@.subrange(0, i as int) + seq![
                items@[i as int],
            ]);
            lemma_present_texts_concat(items@.subrange(0, i as int), seq![items@[i as int]]);
            let last = out@[out@.len() - 1];
            assert(seq![items@[i as int]].drop_first() =~= Seq::<Option<String>>::empty());
            assert(seq![last].drop_first() =~= Seq::<AttrValue>::empty());
            assert(present_texts(Seq::<Option<String>>::empty()) =~= Seq::<String>::empty());
            assert(text_items(Seq::<AttrValue>::empty()) =~= Seq::<String>::empty());
            match items@[i as int] {
                Some(s) => {
                    assert(present_texts(seq![items@[i as int]]) =~= seq![s]);
                    assert(text_items(seq![last]) =~= seq![s]);
                },
                None => {
                    assert(present_texts(seq![items@[i as int]]) =~= Seq::<String>::empty());
                    assert(text_items(seq![last]) =~= Seq::<String>::empty());
                },
            }
        }
        i += 1;
    }
    proof {
        assert(items@.subrange(0, n as int) =~= items@);
    }
    out
}

/// Build the library's payload model from the attribute reads the
/// signature check handed over: one entry per recognized key, carrying
/// the read value or the meaningless value where the read gave nothing.
pub fn payload_from_attrs(
    version: Option<u64>,
    name: Option<String>,
    description: Option<String>,
    display_color: Option<String>,
    claims: Option<Vec<Option<String>>>,
) -> (r: VerifiedPayload)
    ensures
        payload_wf(r.entries@),
        num_attr(r.entries@, version_key()) == version,
        text_attr(r.entries@, name_key()) == name,
        text_attr(r.entries@, description_key()) == description,
        text_attr(r.entries@, color_key()) == display_color,
        claims_attr(r.entries@, claims_key()) == match claims {
            Some(items) => present_texts(items@),
            None => Seq::<String>::empty(),
        },
{
    let version_value = match version {
        Some(n) => AttrValue::Num(n),
        None => AttrValue::Other,
    };
    let name_value = match name {
        Some(s) => AttrValue::Text(s),
        None => AttrValue::Other,
    };
    let description_value = match description {
        Some(s) => AttrValue::Text(s),
        None => AttrValue::Other,
    };
    let color_value = match display_color {
        Some(s) => AttrValue::Text(s),
        None => AttrValue::Other,
    };
    let claims_value = match claims {
        Some(items) => AttrValue::List(attr_items(items)),
        None => AttrValue::Other,
    };
    let mut entries: Vec<(String, AttrValue)> = Vec::new();
    entries.push(("http://ariadne.id/version".to_owned(), version_value));
    entries.push(("http://ariadne.id/name".to_owned(), name_value));
    entries.push(("http://ariadne.id/description".to_owned(), description_value));
    entries.push(("http://ariadne.id/color".to_owned(), color_value));
    entries.push(("http://ariadne.id/claims".to_owned(), claims_value));
    proof {
        reveal_strlit("http://ariadne.id/version");
        reveal_strlit("http://ariadne.id/name");
        reveal_strlit("http://ariadne.id/description");
        reveal_strlit("http://ariadne.id/color");
        reveal_strlit("http://ariadne.id/claims");
        let s = entries@;
        assert(s.len() == 5);
        assert(s[0].0@ == version_key());
        assert(s[1].0@ == name_key());
        assert(s[2].0@ == description_key());
        assert(s[3].0@ == color_key());
        assert(s[4].0@ == claims_key());
        assert(version_key() != name_key());
        assert(version_key() != description_key());
        assert(version_key() != color_key());
        assert(version_key() != claims_key());
        assert(name_key() != description_key());
        assert(name_key() != color_key());
        assert(name_key() != claims_key());
        assert(description_key() != color_key());
        assert(description_key() != claims_key());
        assert(color_key() != claims_key());
        assert(s.drop_first() =~= s.subrange(1, 5));
        assert(s.subrange(1, 5).drop_first() =~= s.subrange(2, 5));
        assert(s.subrange(2, 5).drop_first() =~= s.subrange(3, 5));
        assert(s.subrange(3, 5).drop_first() =~= s.subrange(4, 5));
        assert(s.subrange(1, 5)[0] == s[1]);
        assert(s.subrange(2, 5)[0] == s[2]);
        assert(s.subrange(3, 5)[0] == s[3]);
        assert(s.subrange(4, 5)[0] == s[4]);
        assert(lookup_attr_spec(s, version_key()) == Some(s[0].1));
        assert(lookup_attr_spec(s, name_key()) == lookup_attr_spec(s.subrange(1, 5), name_key()));
        assert(lookup_attr_spec(s.subrange(1, 5), name_key()) == Some(s[1].1));
        assert(lookup_attr_spec(s, description_key()) == lookup_attr_spec(
            s.subrange(1, 5),
            description_key(),
        ));
        assert(lookup_attr_spec(s.subrange(1, 5), description_key()) == lookup_attr_spec(
            s.subrange(2, 5),
            description_key(),
        ));
        assert(lookup_attr_spec(s.subrange(2, 5), description_key()) == Some(s[2].1));
        assert(lookup_attr_spec(s, color_key()) == lookup_attr_spec(
            s.subrange(1, 5),
            color_key(),
        ));
        assert(lookup_attr_spec(s.subrange(1, 5), color_key()) == lookup_attr_spec(
            s.subrange(2, 5),
            color_key(),
        ));
        assert(lookup_attr_spec(s.subrange(2, 5), color_key()) == lookup_attr_spec(
            s.subrange(3, 5),
            color_key(),
        ));
        assert(lookup_attr_spec(s.subrange(3, 5), color_key()) == Some(s[3].1));
        assert(lookup_attr_spec(s, claims_key()) == lookup_attr_spec(
            s.subrange(1, 5),
            claims_key(),
        ));
        assert(lookup_attr_spec(s.subrange(1, 5), claims_key()) == lookup_attr_spec(
            s.subrange(2, 5),
            claims_key(),
        ));
        assert(lookup_attr_spec(s.subrange(2, 5), claims_key()) == lookup_attr_spec(
            s.subrange(3, 5),
            claims_key(),
        ));
        assert(lookup_attr_spec(s.subrange(3, 5), claims_key()) == lookup_attr_spec(
            s.subrange(4, 5),
            claims_key(),
        ));
        assert(lookup_attr_spec(s.subrange(4, 5), claims_key()) == Some(s[4].1));
    }
    VerifiedPayload { entries }
}

/// Select a verifier family for the descriptor's curve tag, bind a
/// verifier to the token's own declared key, and have josekit check the
/// signature over the full raw token.  Fails closed: an unrecognized or
/// absent curve tag is rejected before any verifier is built; a supported
/// family with an unusable key is the invalid-key error; a bound verifier
/// that rejects the token is the invalid-signature error; and the payload
/// is read only after verification succeeds, with every recognized
/// attribute equal to its named read of the token.
pub fn select_and_verify(descriptor: &EmbeddedKeyDescriptor, token: &str) -> (r: Result<
    VerifiedPayload,
    VerificationError,
>)
    ensures
        r == Err::<VerifiedPayload, VerificationError>(VerificationError::UnsupportedAlgorithm)
            <==> curve_family_spec(descriptor.curve) is Unsupported,
        curve_family_spec(descriptor.curve) is EdDsa25519 ==> {
            &&& (r == Err::<VerifiedPayload, VerificationError>(VerificationError::InvalidKey)
                <==> !eddsa_key_usable(token@, key_claim_name()))
            &&& (r == Err::<VerifiedPayload, VerificationError>(
                VerificationError::SignatureInvalid,
            ) <==> eddsa_key_usable(token@, key_claim_name()) && !eddsa_accepts(
                token@,
                key_claim_name(),
            ))
            &&& (r is Ok <==> eddsa_key_usable(token@, key_claim_name()) && eddsa_accepts(
                token@,
                key_claim_name(),
            ))
        },
        curve_family_spec(descriptor.curve) is EcdsaP256 ==> {
            &&& (r == Err::<VerifiedPayload, VerificationError>(VerificationError::InvalidKey)
                <==> !ecdsa_key_usable(token@, key_claim_name()))
            &&& (r == Err::<VerifiedPayload, VerificationError>(
                VerificationError::SignatureInvalid,
            ) <==> ecdsa_key_usable(token@, key_claim_name()) && !ecdsa_accepts(
                token@,
                key_claim_name(),
            ))
            &&& (r is Ok <==> ecdsa_key_usable(token@, key_claim_name()) && ecdsa_accepts(
                token@,
                key_claim_name(),
            ))
        },
        r matches Ok(p) ==> {
            &&& payload_wf(p.entries@)
            &&& num_attr(p.entries@, version_key()) == claim_u64_of(token@, version_key())
            &&& opt_view(text_attr(p.entries@, name_key())) == claim_text_of(token@, name_key())
            &&& opt_view(text_attr(p.entries@, description_key())) == claim_text_of(
                token@,
                description_key(),
            )
            &&& opt_view(text_attr(p.entries@, color_key())) == claim_text_of(token@, color_key())
            &&& string_views(claims_attr(p.entries@, claims_key())) == token_claims_view(token@)
        },
{
    let verified = match select_algorithm(descriptor) {
        CurveFamily::EdDsa25519 => eddsa_verify_token(
            token,
            "jwk",
            "http://ariadne.id/version",
            "http://ariadne.id/name",
            "http://ariadne.id/description",
            "http://ariadne.id/color",
            "http://ariadne.id/claims",
        ),
        CurveFamily::EcdsaP256 => ecdsa_verify_token(
            token,
            "jwk",
            "http://ariadne.id/version",
            "http://ariadne.id/name",
            "http://ariadne.id/description",
            "http://ariadne.id/color",
            "http://ariadne.id/claims",
        ),
        CurveFamily::Unsupported => {
            return Err(VerificationError::UnsupportedAlgorithm);
        },
    };
    let attrs = match verified {
        TokenVerification::KeyUnusable => {
            return Err(VerificationError::InvalidKey);
        },
        TokenVerification::SignatureRejected => {
            return Err(VerificationError::SignatureInvalid);
        },
        TokenVerification::Verified(attrs) => attrs,
    };
    let ghost claims_snapshot = attrs.claims;
    let payload = payload_from_attrs(
        attrs.version,
        attrs.name,
        attrs.description,
        attrs.display_color,
        attrs.claims,
    );
    proof {
        match claims_snapshot {
            Some(items) => {
                lemma_present_views(items@);
            },
            None => {
                assert(string_views(Seq::<String>::empty()) =~= Seq::<Seq<char>>::empty());
            },
        }
    }
    Ok(payload)
}

} // verus!

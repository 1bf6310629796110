//! The verified payload model and the profile decoder.
//!
//! A `VerifiedPayload` is the decoded, signature-checked body of a signed
//! token: an ordered mapping from namespaced attribute keys to JSON-like
//! values.  It exists only after signature verification has succeeded.
//! `decode` turns it into a `ProfileRecord`; every attribute is
//! independently optional, and a present attribute of the wrong shape
//! degrades to "absent" rather than failing the decode.

use vstd::prelude::*;

use crate::strutil::str_eq;

verus! {

/// A JSON-like attribute value carried by a verified payload.
///
/// `Other` stands for any value the profile attributes give no meaning to
/// (null, booleans, objects, non-integer numbers, and so on).
#[derive(Debug, PartialEq)]
pub enum AttrValue {
    Num(u64),
    Text(String),
    List(Vec<AttrValue>),
    Other,
}

/// The decoded, signature-checked body of a token: an ordered mapping of
/// namespaced attribute keys to JSON-like values.
#[derive(Debug, PartialEq)]
pub struct VerifiedPayload {
    pub entries: Vec<(String, AttrValue)>,
}

/// The structured profile derived from a verified payload.
///
/// An absent claims attribute and an empty claim list are represented the
/// same way, as an empty `claim_uris`; that is this crate's documented
/// ordering-and-absence policy for rendering.
#[derive(Debug, Clone, PartialEq)]
pub struct ProfileRecord {
    pub uri: String,
    pub version: Option<u64>,
    pub name: Option<String>,
    pub description: Option<String>,
    pub display_color: Option<String>,
    pub claim_uris: Vec<String>,
}

/// First value bound to `key`, searching the mapping front to back.
pub open spec fn lookup_attr_spec(entries: Seq<(String, AttrValue)>, key: Seq<char>) -> Option<
    AttrValue,
>
    decreases entries.len(),
{
    if entries.len() == 0 {
        None
    } else if entries[0].0@ == key {
        Some(entries[0].1)
    } else {
        lookup_attr_spec(entries.drop_first(), key)
    }
}

/// The attribute under `key` read as an unsigned integer; anything else is absent.
pub open spec fn num_attr(entries: Seq<(String, AttrValue)>, key: Seq<char>) -> Option<u64> {
    match lookup_attr_spec(entries, key) {
        Some(AttrValue::Num(n)) => Some(n),
        _ => None,
    }
}

/// The attribute under `key` read as text; anything else is absent.
pub open spec fn text_attr(entries: Seq<(String, AttrValue)>, key: Seq<char>) -> Option<String> {
    match lookup_attr_spec(entries, key) {
        Some(AttrValue::Text(s)) => Some(s),
        _ => None,
    }
}

/// The text items of a list, in order; items of any other shape are dropped.
pub open spec fn text_items(items: Seq<AttrValue>) -> Seq<String>
    decreases items.len(),
{
    if items.len() == 0 {
        Seq::empty()
    } else {
        match items[0] {
            AttrValue::Text(s) => seq![s] + text_items(items.drop_first()),
            _ => text_items(items.drop_first()),
        }
    }
}

/// The claim list under `key`: its text items in order, or empty when the
/// attribute is absent or not a list.
pub open spec fn claims_attr(entries: Seq<(String, AttrValue)>, key: Seq<char>) -> Seq<String> {
    match lookup_attr_spec(entries, key) {
        Some(AttrValue::List(items)) => text_items(items@),
        _ => Seq::empty(),
    }
}

pub open spec fn version_key() -> Seq<char> {
    "http://ariadne.id/version"@
}

pub open spec fn name_key() -> Seq<char> {
    "http://ariadne.id/name"@
}

pub open spec fn description_key() -> Seq<char> {
    "http://ariadne.id/description"@
}

pub open spec fn color_key() -> Seq<char> {
    "http://ariadne.id/color"@
}

pub open spec fn claims_key() -> Seq<char> {
    "http://ariadne.id/claims"@
}

/// A key the profile attributes give a meaning to.
pub open spec fn recognized_key(k: Seq<char>) -> bool {
    ||| k == version_key()
    ||| k == name_key()
    ||| k == description_key()
    ||| k == color_key()
    ||| k == claims_key()
}

/// A payload as produced from a verified token: only recognized keys, each
/// at most once.
pub open spec fn payload_wf(entries: Seq<(String, AttrValue)>) -> bool {
    &&& forall|i: int| 0 <= i < entries.len() ==> recognized_key(#[trigger] entries[i].0@)
    &&& forall|i: int, j: int|
        0 <= i < j < entries.len() ==> #[trigger] entries[i].0@ != #[trigger] entries[j].0@
}

/// First value bound to `key` in the payload, searching front to back.
pub fn lookup_attr<'a>(payload: &'a VerifiedPayload, key: &str) -> (r: Option<&'a AttrValue>)
    ensures
        match r {
            Some(v) => lookup_attr_spec(payload.entries@, key@) == Some(*v),
            None => lookup_attr_spec(payload.entries@, key@) is None,
        },
{
    let entries = &payload.entries;
    let ghost all = entries@;
    let n = entries.len();
    let mut i: usize = 0;
    proof {
        assert(all.subrange(0, n as int) =~= all);
    }
    while i < n
        invariant
            n == all.len(),
            i <= n,
            entries@ == all,
            payload.entries@ == all,
            lookup_attr_spec(all, key@) == lookup_attr_spec(all.subrange(i as int, n as int), key@),
        decreases n - i,
    {
        proof {
            assert(all.subrange(i as int, n as int)[0] == all[i as int]);
        }
        if str_eq(entries[i].0.as_str(), key) {
            proof {
                assert(lookup_attr_spec(all.subrange(i as int, n as int), key@) == Some(
                    all[i as int].1,
                ));
            }
            return Some(&entries[i].1);
        }
        proof {
            assert(all.subrange(i as int, n as int).drop_first() =~= all.subrange(
                i + 1,
                n as int,
            ));
        }
        i += 1;
    }
    proof {
        assert(all.subrange(n as int, n as int).len() == 0);
    }
    None
}

/// The text items of `items`, in order, dropped where not text.
fn collect_texts(items: &Vec<AttrValue>) -> (r: Vec<String>)
    ensures
        r@ == text_items(items@),
{
    let n = items.len();
    let mut out: Vec<String> = Vec::new();
    let mut i: usize = 0;
    proof {
        assert(items@.subrange(0, n as int) =~= items@);
        assert(out@ + text_items(items@) =~= text_items(items@));
    }
    while i < n
        invariant
            n == items@.len(),
            i <= n,
            text_items(items@) == out@ + text_items(items@.subrange(i as int, n as int)),
        decreases n - i,
    {
        proof {
            assert(items@.subrange(i as int, n as int)[0] == items@[i as int]);
            assert(items@.subrange(i as int, n as int).drop_first() =~= items@.subrange(
                i + 1,
                n as int,
            ));
        }
        match &items[i] {
            AttrValue::Text(s) => {
                out.push(s.clone());
            },
            _ => {},
        }
        i += 1;
    }
    proof {
        assert(text_items(items@.subrange(n as int, n as int)) =~= Seq::<String>::empty());
        assert(out@ =~= out@ + text_items(items@.subrange(n as int, n as int)));
    }
    out
}

/// Decode a verified payload into a profile record.
///
/// Total over every payload: a missing attribute, or one of an unexpected
/// shape, resolves to "absent" for that field alone and never fails the
/// decode.  The claim list keeps its text entries in order of appearance
/// and drops the rest.
pub fn decode(subject_uri: &str, payload: &VerifiedPayload) -> (r: ProfileRecord)
    ensures
        r.uri@ == subject_uri@,
        r.version == num_attr(payload.entries@, version_key()),
        r.name == text_attr(payload.entries@, name_key()),
        r.description == text_attr(payload.entries@, description_key()),
        r.display_color == text_attr(payload.entries@, color_key()),
        r.claim_uris@ == claims_attr(payload.entries@, claims_key()),
{
    let version: Option<u64> = match lookup_attr(payload, "http://ariadne.id/version") {
        Some(AttrValue::Num(n)) => Some(*n),
        _ => None,
    };
    let name: Option<String> = match lookup_attr(payload, "http://ariadne.id/name") {
        Some(AttrValue::Text(s)) => Some(s.clone()),
        _ => None,
    };
    let description: Option<String> = match lookup_attr(payload, "http://ariadne.id/description") {
        Some(AttrValue::Text(s)) => Some(s.clone()),
        _ => None,
    };
    let display_color: Option<String> = match lookup_attr(payload, "http://ariadne.id/color") {
        Some(AttrValue::Text(s)) => Some(s.clone()),
        _ => None,
    };
    let claim_uris: Vec<String> = match lookup_attr(payload, "http://ariadne.id/claims") {
        Some(AttrValue::List(items)) => collect_texts(items),
        _ => Vec::new(),
    };
    ProfileRecord {
        uri: subject_uri.to_owned(),
        version,
        name,
        description,
        display_color,
        claim_uris,
    }
}

} // verus!

//! The profile aggregate: pipeline composition and rendering.
//!
//! `profile_from_token` runs the in-memory half of the pipeline — key
//! extraction, algorithm dispatch, signature check, payload decode — and
//! collapses every authentication failure into the single "could not be
//! authenticated" error, distinguishable from transport failures.
//! `AspProfile::assemble` then pairs the decoded record with the claim
//! outcomes; `to_text` renders the multi-line summary, marking each
//! claim verified or not.

use vstd::prelude::*;
use vstd::string::StringExecFns;

use crate::claims::VerifiedProof;
use crate::error::AppError;
use crate::jose::claim_text_of;
use crate::jose::claim_u64_of;
use crate::jose::extract_key;
use crate::jose::opt_view;
use crate::jose::select_and_verify;
use crate::jose::token_authenticates;
use crate::jose::token_claims_view;
use crate::payload::ProfileRecord;
use crate::payload::color_key;
use crate::payload::decode;
use crate::payload::description_key;
use crate::payload::name_key;
use crate::payload::version_key;
use crate::strutil::dec_rep;
use crate::strutil::string_views;
use crate::strutil::u64_to_string;

verus! {

/// The aggregate result of the pipeline: the profile's attributes plus
/// one outcome per asserted claim, in claim order.  Constructed once,
/// after every claim check has finished, and immutable thereafter.
#[derive(Debug, Clone, PartialEq)]
pub struct AspProfile {
    pub profile_uri: String,
    pub version: Option<u64>,
    pub name: Option<String>,
    pub description: Option<String>,
    pub color: Option<String>,
    pub verified_proofs: Vec<VerifiedProof>,
}

/// Decode a fetched token into a profile record, trusting nothing but a
/// signature that verifies under the token's own embedded key: a record
/// comes back exactly when the token authenticates — its header declares
/// an interpretable key of a supported curve family and the signature
/// verifies under that key — and its fields equal the verified payload's
/// named attribute reads.  Every authentication failure — missing or
/// uninterpretable key, unsupported curve, invalid key material, bad
/// signature — collapses into `AppError::AspeJWTInvalid`: no
/// partially-trusted profile exists.
pub fn profile_from_token(profile_uri: &str, token: &str) -> (r: Result<ProfileRecord, AppError>)
    ensures
        r is Ok <==> token_authenticates(token@),
        r matches Err(e) ==> e == AppError::AspeJWTInvalid,
        r matches Ok(rec) ==> {
            &&& rec.uri@ == profile_uri@
            &&& rec.version == claim_u64_of(token@, version_key())
            &&& opt_view(rec.name) == claim_text_of(token@, name_key())
            &&& opt_view(rec.description) == claim_text_of(token@, description_key())
            &&& opt_view(rec.display_color) == claim_text_of(token@, color_key())
            &&& string_views(rec.claim_uris@) == token_claims_view(token@)
        },
{
    let descriptor = match extract_key(token) {
        Some(d) => d,
        None => {
            return Err(AppError::AspeJWTInvalid);
        },
    };
    let payload = match select_and_verify(&descriptor, token) {
        Ok(p) => p,
        Err(_) => {
            return Err(AppError::AspeJWTInvalid);
        },
    };
    Ok(decode(profile_uri, &payload))
}

/// The text of an absent optional attribute: nothing.
pub open spec fn opt_text(o: Option<String>) -> Seq<char> {
    match o {
        Some(s) => s@,
        None => Seq::empty(),
    }
}

/// One claim's line of the text rendering.
pub open spec fn proof_line(p: VerifiedProof) -> Seq<char> {
    "    "@ + p.uri@ + (if p.verification_result is Some {
        ": ok\n"@
    } else {
        ": failed\n"@
    })
}

/// The claims' lines, in claim order.
pub open spec fn proof_lines(ps: Seq<VerifiedProof>) -> Seq<char>
    decreases ps.len(),
{
    if ps.len() == 0 {
        Seq::empty()
    } else {
        proof_line(ps[0]) + proof_lines(ps.drop_first())
    }
}

/// Append the claims' lines to a rendering in progress.
pub fn append_proof_lines(out: &mut String, ps: &Vec<VerifiedProof>)
    ensures
        final(out)@ == old(out)@ + proof_lines(ps@),
{
    let n = ps.len();
    let mut i: usize = 0;
    proof {
        assert(ps@.subrange(0, n as int) =~= ps@);
        assert(out@ + proof_lines(ps@.subrange(n as int, n as int)) =~= out@);
    }
    while i < n
        invariant
            n == ps@.len(),
            i <= n,
            out@ + proof_lines(ps@.subrange(i as int, n as int)) == old(out)@ + proof_lines(ps@),
        decreases n - i,
    {
        proof {
            assert(ps@.subrange(i as int, n as int)[0] == ps@[i as int]);
            assert(ps@.subrange(i as int, n as int).drop_first() =~= ps@.subrange(
                i + 1,
                n as int,
            ));
        }
        let ghost before = out@;
        out.append("    ");
        out.append(ps[i].uri.as_str());
        if ps[i].verification_result.is_some() {
            out.append(": ok\n");
        } else {
            out.append(": failed\n");
        }
        proof {
            assert(out@ =~= before + proof_line(ps@[i as int]));
            assert(out@ + proof_lines(ps@.subrange(i + 1, n as int)) =~= before + proof_lines(
                ps@.subrange(i as int, n as int),
            ));
        }
        i += 1;
    }
    proof {
        assert(out@ =~= out@ + proof_lines(ps@.subrange(n as int, n as int)));
    }
}

/// The multi-line text rendering of a profile: its identifying lines,
/// then one line per claim, each marked verified or not.  An absent
/// version renders as zero; absent text attributes render empty; a
/// profile without claims lists none — the same as one whose claim list
/// was absent, this crate's documented policy.
pub open spec fn profile_text_spec(p: AspProfile) -> Seq<char> {
    "Profile URI: "@ + p.profile_uri@ + " Version: "@ + dec_rep(
        match p.version {
            Some(v) => v as int,
            None => 0,
        },
    ) + "\n"@ + "Name: "@ + opt_text(p.name) + "\n"@ + "Description: "@ + opt_text(p.description)
        + "\n"@ + "Claims:\n"@ + proof_lines(p.verified_proofs@)
}

impl AspProfile {
    /// Combine a decoded record with its assembled claim outcomes.  Pure
    /// combination: no failure modes.
    pub fn assemble(record: ProfileRecord, outcomes: Vec<VerifiedProof>) -> (r: AspProfile)
        ensures
            r.profile_uri == record.uri,
            r.version == record.version,
            r.name == record.name,
            r.description == record.description,
            r.color == record.display_color,
            r.verified_proofs == outcomes,
    {
        AspProfile {
            profile_uri: record.uri,
            version: record.version,
            name: record.name,
            description: record.description,
            color: record.display_color,
            verified_proofs: outcomes,
        }
    }

    /// Render the human-readable multi-line summary.
    pub fn to_text(&self) -> (r: String)
        ensures
            r@ == profile_text_spec(*self),
    {
        let mut out = String::new();
        out.append("Profile URI: ");
        out.append(self.profile_uri.as_str());
        out.append(" Version: ");
        let v: u64 = match &self.version {
            Some(v) => *v,
            None => 0,
        };
        let rendered = u64_to_string(v);
        out.append(rendered.as_str());
        out.append("\n");
        out.append("Name: ");
        match &self.name {
            Some(s) => out.append(s.as_str()),
            None => {},
        };
        out.append("\n");
        out.append("Description: ");
        match &self.description {
            Some(s) => out.append(s.as_str()),
            None => {},
        };
        out.append("\n");
        out.append("Claims:\n");
        append_proof_lines(&mut out, &self.verified_proofs);
        out
    }
}

} // verus!

//! Key-based profiles: an OpenPGP key's identities and their claims.
//!
//! Certificate discovery and parsing are collaborators: they hand this
//! module a fingerprint and, per user id, the proof URIs the key's
//! metadata asserts.  The module builds the profile subject
//! (`openpgp4fpr:` followed by the fingerprint), groups each identity's
//! claim outcomes, and renders the summary; claim checking itself goes
//! through the same orchestrator as every other profile.

use vstd::prelude::*;
use vstd::string::StringExecFns;

use crate::claims::VerifiedProof;
use crate::profile::append_proof_lines;
use crate::profile::proof_lines;

verus! {

/// One user id of the key, with the outcome of every claim its metadata
/// asserts.
#[derive(Debug, Clone, PartialEq)]
pub struct UserIDVerifiedProofs {
    pub userid: String,
    pub proofs: Vec<VerifiedProof>,
}

impl UserIDVerifiedProofs {
    /// A user id with no claim outcomes recorded yet.
    pub fn new(userid: String) -> (r: UserIDVerifiedProofs)
        ensures
            r.userid == userid,
            r.proofs@ == Seq::<VerifiedProof>::empty(),
    {
        UserIDVerifiedProofs { userid, proofs: Vec::new() }
    }
}

/// A key's profile: its fingerprint, the subject URI derived from it,
/// and each user id's claim outcomes.
#[derive(Debug, Clone, PartialEq)]
pub struct KeyProfile {
    pub fingerprint: String,
    pub proof_uri: String,
    pub userid_proofs: Vec<UserIDVerifiedProofs>,
}

impl KeyProfile {
    /// The profile of a key with the given fingerprint, before any user
    /// id's outcomes are attached.  The subject URI every claim is
    /// checked against is `openpgp4fpr:` followed by the fingerprint.
    pub fn new(fingerprint: String) -> (r: KeyProfile)
        ensures
            r.fingerprint == fingerprint,
            r.proof_uri@ == "openpgp4fpr:"@ + fingerprint@,
            r.userid_proofs@ == Seq::<UserIDVerifiedProofs>::empty(),
    {
        let mut proof_uri = String::new();
        proof_uri.append("openpgp4fpr:");
        proof_uri.append(fingerprint.as_str());
        KeyProfile { fingerprint, proof_uri, userid_proofs: Vec::new() }
    }

    /// Attach one user id's claim outcomes, after the rest.
    pub fn add_userid_proofs(&mut self, proofs: UserIDVerifiedProofs)
        ensures
            final(self).fingerprint == old(self).fingerprint,
            final(self).proof_uri == old(self).proof_uri,
            final(self).userid_proofs@ == old(self).userid_proofs@.push(proofs),
    {
        self.userid_proofs.push(proofs)
    }

    /// Render the human-readable multi-line summary.
    pub fn to_text(&self) -> (r: String)
        ensures
            r@ == key_profile_text_spec(*self),
    {
        let mut out = String::new();
        out.append("OpenPGP Key Fingerprint: ");
        out.append(self.fingerprint.as_str());
        out.append("\n");
        let sections = &self.userid_proofs;
        let n = sections.len();
        let mut i: usize = 0;
        proof {
            assert(sections@.subrange(0, n as int) =~= sections@);
            assert(out@ + userid_sections(sections@.subrange(n as int, n as int)) =~= out@);
        }
        while i < n
            invariant
                n == sections@.len(),
                sections@ == self.userid_proofs@,
                out@ + userid_sections(sections@.subrange(i as int, n as int)) == "OpenPGP Key Fingerprint: "@
                    + self.fingerprint@ + "\n"@ + userid_sections(sections@),
                i <= n,
            decreases n - i,
        {
            proof {
                assert(sections@.subrange(i as int, n as int)[0] == sections@[i as int]);
                assert(sections@.subrange(i as int, n as int).drop_first() =~= sections@.subrange(
                    i + 1,
                    n as int,
                ));
            }
            let ghost before = out@;
            out.append("  UserID: ");
            out.append(sections[i].userid.as_str());
            out.append("\n");
            append_proof_lines(&mut out, &sections[i].proofs);
            proof {
                assert(out@ =~= before + userid_section(sections@[i as int]));
                assert(out@ + userid_sections(sections@.subrange(i + 1, n as int)) =~= before
                    + userid_sections(sections@.subrange(i as int, n as int)));
            }
            i += 1;
        }
        proof {
            assert(userid_sections(sections@.subrange(n as int, n as int)) =~= Seq::<
                char,
            >::empty());
            assert(out@ =~= out@ + userid_sections(sections@.subrange(n as int, n as int)));
        }
        out
    }
}

/// One user id's part of the text rendering: its line, then its claims'
/// lines.
pub open spec fn userid_section(u: UserIDVerifiedProofs) -> Seq<char> {
    "  UserID: "@ + u.userid@ + "\n"@ + proof_lines(u.proofs@)
}

/// All user ids' parts, in order.
pub open spec fn userid_sections(us: Seq<UserIDVerifiedProofs>) -> Seq<char>
    decreases us.len(),
{
    if us.len() == 0 {
        Seq::empty()
    } else {
        userid_section(us[0]) + userid_sections(us.drop_first())
    }
}

/// The multi-line text rendering of a key profile.
pub open spec fn key_profile_text_spec(k: KeyProfile) -> Seq<char> {
    "OpenPGP Key Fingerprint: "@ + k.fingerprint@ + "\n"@ + userid_sections(k.userid_proofs@)
}

/// The display string of a user id: its name and bracketed email, either
/// empty where the certificate carries none.
pub fn user_id_to_user_id_string(name: Option<&str>, email: Option<&str>) -> (r: String)
    ensures
        r@ == (match name {
            Some(n) => n@,
            None => Seq::<char>::empty(),
        }) + " <"@ + (match email {
            Some(e) => e@,
            None => Seq::<char>::empty(),
        }) + ">"@,
{
    let mut out = String::new();
    match name {
        Some(n) => out.append(n),
        None => {},
    };
    out.append(" <");
    match email {
        Some(e) => out.append(e),
        None => {},
    };
    out.append(">");
    out
}

} // verus!

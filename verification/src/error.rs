//! Error taxonomy of the profile pipeline.
//!
//! Authentication errors (`VerificationError`, collapsed into
//! `AppError::AspeJWTInvalid` at the pipeline boundary) mean the profile
//! could not be authenticated and no profile is produced.  Transport
//! errors are distinct: a caller may retry them, while retrying an
//! authentication failure without a new token is pointless.  Per-claim
//! errors never reach this module as failures; they become warnings
//! (`ProofError`) and an unverified outcome.

use vstd::prelude::*;
use vstd::string::StrSliceExecFns;

verus! {

/// Why a signed token could not be authenticated.
#[derive(Debug, Clone, Copy, PartialEq, Eq, Structural)]
pub enum VerificationError {
    /// The self-declared key names no supported curve family.
    UnsupportedAlgorithm,
    /// The key material could not be turned into a verifier.
    InvalidKey,
    /// The signature does not verify over this exact token.
    SignatureInvalid,
}

/// The errors the pipeline surfaces to its caller.  Transport failures
/// carry the transport's own description, as text.
#[derive(Debug, Clone, PartialEq)]
pub enum AppError {
    ProfileURIMalformed,
    ProfileNotProvided,
    FailedToReadKeyFile(String),
    FailedToParseAspeUri,
    AspeJWTInvalid,
    FailedToFetchAspeJWT(String),
}

/// The message text of each `AppError` variant.
pub open spec fn app_error_message_spec(e: AppError) -> Seq<char> {
    match e {
        AppError::ProfileURIMalformed => {
            "DOIP_PROFILE_URI does not match 'hkp:', 'hkps:', 'wkd:' or 'aspe:' pattern"@
        },
        AppError::ProfileNotProvided => "No key was provided"@,
        AppError::FailedToReadKeyFile(_) => "Failed to Read Key File"@,
        AppError::FailedToParseAspeUri => "Failed to parse AspeUri please check format"@,
        AppError::AspeJWTInvalid => "Failed to parse aspe JWT"@,
        AppError::FailedToFetchAspeJWT(_) => "Failed to fetch aspe JWT"@,
    }
}

impl AppError {
    /// A human-readable description of the error.
    pub fn message(&self) -> (r: String)
        ensures
            r@ == app_error_message_spec(*self),
    {
        match self {
            AppError::ProfileURIMalformed => {
                "DOIP_PROFILE_URI does not match 'hkp:', 'hkps:', 'wkd:' or 'aspe:' pattern".to_owned()
            },
            AppError::ProfileNotProvided => "No key was provided".to_owned(),
            AppError::FailedToReadKeyFile(_) => "Failed to Read Key File".to_owned(),
            AppError::FailedToParseAspeUri => "Failed to parse AspeUri please check format".to_owned(),
            AppError::AspeJWTInvalid => "Failed to parse aspe JWT".to_owned(),
            AppError::FailedToFetchAspeJWT(_) => "Failed to fetch aspe JWT".to_owned(),
        }
    }
}

/// The advisory recorded when one claim's verification fails.  It names
/// the claim, a truncated reference to the asserted service, and the
/// underlying error's description; it is a warning, never a failure of
/// the batch.
#[derive(Debug, Clone, PartialEq)]
pub struct ProofError {
    pub proof_uri: String,
    pub truncated_service_uri: String,
    pub doip_error: String,
}

/// How many characters of the asserted service URI a warning keeps.
pub open spec fn service_uri_keep() -> int {
    30
}

/// The truncated reference to the asserted service: its first thirty
/// characters.
pub open spec fn truncated_spec(service_uri: Seq<char>) -> Seq<char> {
    if service_uri.len() <= service_uri_keep() {
        service_uri
    } else {
        service_uri.subrange(0, service_uri_keep())
    }
}

impl ProofError {
    /// Record which claim failed against which service, and why.
    pub fn from(proof_uri: String, service_uri: String, doip_error: String) -> (r: ProofError)
        ensures
            r.proof_uri == proof_uri,
            r.doip_error == doip_error,
            r.truncated_service_uri@ == truncated_spec(service_uri@),
    {
        let len = service_uri.as_str().unicode_len();
        let keep: usize = if len <= 30 {
            len
        } else {
            30
        };
        let truncated_service_uri = service_uri.as_str().substring_char(0, keep).to_owned();
        proof {
            if service_uri@.len() <= 30 {
                assert(service_uri@.subrange(0, service_uri@.len() as int) =~= service_uri@);
            }
        }
        ProofError { proof_uri, truncated_service_uri, doip_error }
    }

    /// The warning's text.
    pub fn warn_text(&self) -> (r: String)
        ensures
            r@ == "Failed to verify "@ + self.truncated_service_uri@ + " for "@ + self.proof_uri@
                + " due to "@ + self.doip_error@,
    {
        let mut out = String::new();
        out.append("Failed to verify ");
        out.append(self.truncated_service_uri.as_str());
        out.append(" for ");
        out.append(self.proof_uri.as_str());
        out.append(" due to ");
        out.append(self.doip_error.as_str());
        out
    }
}

} // verus!

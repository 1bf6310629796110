use doip_client::error::AppError;
use doip_client::error::ProofError;
use doip_client::claims::VerifiedProof;
use doip_client::openpgp::KeyProfile;
use doip_client::openpgp::UserIDVerifiedProofs;
use doip_client::openpgp::user_id_to_user_id_string;
use doip_client::str_eq;
use doip_client::uri::ProfileScheme;
use doip_client::uri::aspe_token_url;
use doip_client::uri::classify_profile_uri;
use doip_client::uri::jws_content_type;
use doip_client::uri::parse_aspe_uri;
use doip_client::uri::scheme_remainder;

#[test]
fn aspe_uri_parses_into_domain_and_local_part() {
    let uri = parse_aspe_uri("aspe:keyoxide.org:TOICV3SYXNJP7E4P5AOK5DHW44").unwrap();
    assert_eq!(uri.domain_part, "keyoxide.org".to_string());
    assert_eq!(uri.local_part, "TOICV3SYXNJP7E4P5AOK5DHW44".to_string());
}

#[test]
fn malformed_aspe_uris_are_rejected() {
    assert!(parse_aspe_uri("").is_none());
    assert!(parse_aspe_uri("aspe:").is_none());
    assert!(parse_aspe_uri("aspe:example.org").is_none());
    assert!(parse_aspe_uri("aspe::LOCAL").is_none());
    assert!(parse_aspe_uri("aspe:example.org:").is_none());
    assert!(parse_aspe_uri("aspe:example.org:A:B").is_none());
    assert!(parse_aspe_uri("wkd:user@example.org").is_none());
}

#[test]
fn token_url_is_the_well_known_path() {
    let url = aspe_token_url("aspe:keyoxide.org:ABC").unwrap();
    assert_eq!(url, "https://keyoxide.org/.well-known/aspe/id/ABC".to_string());
    assert_eq!(
        aspe_token_url("aspe:nonsense"),
        Err(AppError::FailedToParseAspeUri)
    );
    assert_eq!(jws_content_type(), "application/asp+jwt");
}

#[test]
fn profile_uri_schemes_classify_by_prefix() {
    assert_eq!(classify_profile_uri("hkp:test@doip.rocks"), ProfileScheme::Hkp);
    assert_eq!(
        classify_profile_uri("hkps:3637202523E7C1309AB79E99EF2DC5827B445F4B"),
        ProfileScheme::Hkps
    );
    assert_eq!(classify_profile_uri("wkd:alexis.lowe@chimbosonic.com"), ProfileScheme::Wkd);
    assert_eq!(classify_profile_uri("aspe:keyoxide.org:ABC"), ProfileScheme::Aspe);
    assert_eq!(classify_profile_uri("ftp://example.org"), ProfileScheme::Unknown);
    assert_eq!(classify_profile_uri("hk"), ProfileScheme::Unknown);
}

#[test]
fn scheme_remainder_is_everything_after_the_first_colon() {
    assert_eq!(
        scheme_remainder("hkp:test@doip.rocks"),
        Some("test@doip.rocks".to_string())
    );
    assert_eq!(scheme_remainder("wkd:"), Some("".to_string()));
    assert_eq!(scheme_remainder("no-colon-here"), None);
}

#[test]
fn proof_error_truncates_the_service_reference() {
    let long_service = "https://very.long.service.example/with/a/deep/path";
    let error = ProofError::from(
        "openpgp4fpr:ABCDEF".to_string(),
        long_service.to_string(),
        "network unreachable".to_string(),
    );
    assert_eq!(error.truncated_service_uri.chars().count(), 30);
    assert_eq!(error.truncated_service_uri, "https://very.long.service.exam".to_string());
    assert_eq!(
        error.warn_text(),
        "Failed to verify https://very.long.service.exam for openpgp4fpr:ABCDEF due to network unreachable"
    );

    let short = ProofError::from(
        "openpgp4fpr:ABCDEF".to_string(),
        "dns:x.example".to_string(),
        "lookup failed".to_string(),
    );
    assert_eq!(short.truncated_service_uri, "dns:x.example".to_string());
}

#[test]
fn app_error_messages_match_their_variants() {
    assert_eq!(
        AppError::ProfileURIMalformed.message(),
        "DOIP_PROFILE_URI does not match 'hkp:', 'hkps:', 'wkd:' or 'aspe:' pattern"
    );
    assert_eq!(AppError::ProfileNotProvided.message(), "No key was provided");
    assert_eq!(
        AppError::FailedToReadKeyFile("gone".to_string()).message(),
        "Failed to Read Key File"
    );
    assert_eq!(
        AppError::FailedToParseAspeUri.message(),
        "Failed to parse AspeUri please check format"
    );
    assert_eq!(AppError::AspeJWTInvalid.message(), "Failed to parse aspe JWT");
    assert_eq!(
        AppError::FailedToFetchAspeJWT("timeout".to_string()).message(),
        "Failed to fetch aspe JWT"
    );
}

#[test]
fn key_profile_builds_subject_uri_and_sections() {
    let mut profile = KeyProfile::new("3637202523E7C1309AB79E99EF2DC5827B445F4B".to_string());
    assert_eq!(
        profile.proof_uri,
        "openpgp4fpr:3637202523E7C1309AB79E99EF2DC5827B445F4B".to_string()
    );
    let mut section = UserIDVerifiedProofs::new("Alexis Lowe <alexis@example.org>".to_string());
    assert!(section.proofs.is_empty());
    section.proofs.push(VerifiedProof::new("dns:chimbosonic.com".to_string(), None));
    profile.add_userid_proofs(section);
    assert_eq!(profile.userid_proofs.len(), 1);
    let text = profile.to_text();
    assert_eq!(
        text,
        "OpenPGP Key Fingerprint: 3637202523E7C1309AB79E99EF2DC5827B445F4B\n  UserID: Alexis Lowe <alexis@example.org>\n    dns:chimbosonic.com: failed\n"
    );
}

#[test]
fn user_id_strings_default_missing_parts_to_empty() {
    assert_eq!(
        user_id_to_user_id_string(Some("Alexis"), Some("alexis@example.org")),
        "Alexis <alexis@example.org>"
    );
    assert_eq!(user_id_to_user_id_string(None, Some("a@b.c")), " <a@b.c>");
    assert_eq!(user_id_to_user_id_string(Some("Name"), None), "Name <>");
    assert_eq!(user_id_to_user_id_string(None, None), " <>");
}

#[test]
fn str_eq_compares_by_characters() {
    assert!(str_eq("héllo", "héllo"));
    assert!(!str_eq("héllo", "hello"));
    assert!(!str_eq("abc", "abcd"));
    assert!(str_eq("", ""));
}

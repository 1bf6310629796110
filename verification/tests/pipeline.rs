use base64::Engine;
use doip_client::claims::ServiceProvider;
use doip_client::claims::VerificationResult;
use doip_client::claims::assemble_outcomes;
use doip_client::claims::plan_claims;
use doip_client::error::AppError;
use doip_client::error::VerificationError;
use doip_client::jose::extract_key;
use doip_client::jose::select_and_verify;
use doip_client::payload::decode;
use doip_client::profile::AspProfile;
use doip_client::profile::profile_from_token;

fn b64(data: &[u8]) -> String {
    base64::engine::general_purpose::URL_SAFE_NO_PAD.encode(data)
}

fn ed25519_keypair() -> josekit::jwk::Jwk {
    josekit::jwk::Jwk::generate_ed_key(josekit::jwk::alg::ed::EdCurve::Ed25519).unwrap()
}

fn p256_keypair() -> josekit::jwk::Jwk {
    josekit::jwk::Jwk::generate_ec_key(josekit::jwk::alg::ec::EcCurve::P256).unwrap()
}

fn header_with_jwk(keypair: &josekit::jwk::Jwk) -> josekit::jws::JwsHeader {
    let public = keypair.to_public_key().unwrap();
    let public_map: serde_json::Map<String, serde_json::Value> = public.into();
    let mut header = josekit::jws::JwsHeader::new();
    header.set_claim("jwk", Some(serde_json::Value::Object(public_map))).unwrap();
    header
}

fn alice_payload() -> josekit::jwt::JwtPayload {
    let mut payload = josekit::jwt::JwtPayload::new();
    payload
        .set_claim("http://ariadne.id/version", Some(serde_json::Value::from(1u64)))
        .unwrap();
    payload
        .set_claim("http://ariadne.id/name", Some(serde_json::Value::from("Alice")))
        .unwrap();
    payload
        .set_claim(
            "http://ariadne.id/claims",
            Some(serde_json::Value::Array(vec![serde_json::Value::from(
                "https://service.example/alice",
            )])),
        )
        .unwrap();
    payload
}

fn signed_alice_token_ed25519() -> String {
    let keypair = ed25519_keypair();
    let header = header_with_jwk(&keypair);
    let signer =
        josekit::jws::alg::eddsa::EddsaJwsAlgorithm::Eddsa.signer_from_jwk(&keypair).unwrap();
    josekit::jwt::encode_with_signer(&alice_payload(), &header, &signer).unwrap()
}

#[test]
fn valid_ed25519_token_verifies_and_decodes() {
    let token = signed_alice_token_ed25519();
    let descriptor = extract_key(&token).unwrap();
    let payload = select_and_verify(&descriptor, &token).unwrap();
    let record = decode("aspe:example.org:ALICE", &payload);
    assert_eq!(record.name, Some("Alice".to_string()));
    assert_eq!(record.version, Some(1));
    assert_eq!(record.claim_uris, vec!["https://service.example/alice".to_string()]);
}

#[test]
fn valid_p256_token_verifies() {
    let keypair = p256_keypair();
    let header = header_with_jwk(&keypair);
    let signer =
        josekit::jws::alg::ecdsa::EcdsaJwsAlgorithm::Es256.signer_from_jwk(&keypair).unwrap();
    let token = josekit::jwt::encode_with_signer(&alice_payload(), &header, &signer).unwrap();
    let descriptor = extract_key(&token).unwrap();
    assert_eq!(descriptor.curve.as_deref(), Some("P-256"));
    let payload = select_and_verify(&descriptor, &token).unwrap();
    let record = decode("aspe:example.org:ALICE", &payload);
    assert_eq!(record.name, Some("Alice".to_string()));
}

#[test]
fn tampered_payload_is_signature_invalid() {
    let token = signed_alice_token_ed25519();
    let parts: Vec<&str> = token.split('.').collect();
    assert_eq!(parts.len(), 3);
    let forged_payload = b64(b"{\"http://ariadne.id/name\":\"Mallory\"}");
    let tampered = format!("{}.{}.{}", parts[0], forged_payload, parts[2]);
    let descriptor = extract_key(&tampered).unwrap();
    let result = select_and_verify(&descriptor, &tampered);
    assert_eq!(result, Err(VerificationError::SignatureInvalid));
}

#[test]
fn unsupported_curve_is_rejected_before_any_verification() {
    let header = b64(
        b"{\"alg\":\"EdDSA\",\"jwk\":{\"kty\":\"OKP\",\"crv\":\"Curve25519-legacy\",\"x\":\"AAAA\"}}",
    );
    let payload = b64(b"{\"http://ariadne.id/name\":\"Alice\"}");
    let token = format!("{}.{}.{}", header, payload, b64(b"not-a-signature"));
    let descriptor = extract_key(&token).unwrap();
    assert_eq!(descriptor.curve.as_deref(), Some("Curve25519-legacy"));
    let result = select_and_verify(&descriptor, &token);
    assert_eq!(result, Err(VerificationError::UnsupportedAlgorithm));
}

#[test]
fn absent_curve_is_rejected() {
    let header = b64(b"{\"alg\":\"EdDSA\",\"jwk\":{\"kty\":\"OKP\",\"x\":\"AAAA\"}}");
    let payload = b64(b"{}");
    let token = format!("{}.{}.{}", header, payload, b64(b"sig"));
    let descriptor = extract_key(&token).unwrap();
    assert_eq!(descriptor.curve, None);
    let result = select_and_verify(&descriptor, &token);
    assert_eq!(result, Err(VerificationError::UnsupportedAlgorithm));
}

#[test]
fn supported_curve_with_malformed_key_is_invalid_key() {
    let header = b64(b"{\"alg\":\"EdDSA\",\"jwk\":{\"kty\":\"OKP\",\"crv\":\"Ed25519\"}}");
    let payload = b64(b"{}");
    let token = format!("{}.{}.{}", header, payload, b64(b"sig"));
    let descriptor = extract_key(&token).unwrap();
    let result = select_and_verify(&descriptor, &token);
    assert_eq!(result, Err(VerificationError::InvalidKey));
}

#[test]
fn token_without_embedded_key_yields_no_descriptor() {
    let header = b64(b"{\"alg\":\"EdDSA\"}");
    let token = format!("{}.{}.{}", header, b64(b"{}"), b64(b"sig"));
    assert!(extract_key(&token).is_none());
    assert!(extract_key("not a token at all").is_none());
}

#[test]
fn scenario_verified_claim() {
    let token = signed_alice_token_ed25519();
    let record = profile_from_token("aspe:example.org:ALICE", &token).unwrap();
    assert_eq!(record.name, Some("Alice".to_string()));
    let requests = plan_claims(record.uri.as_str(), &record.claim_uris);
    assert_eq!(requests.len(), 1);
    let completed = vec![(
        requests[0].claim_uri.clone(),
        Some(VerificationResult {
            result: true,
            service_provider: Some(ServiceProvider { about: "service".to_string() }),
            proxy_used: None,
        }),
    )];
    let outcomes = assemble_outcomes(&record.claim_uris, completed).unwrap();
    let profile = AspProfile::assemble(record, outcomes);
    assert_eq!(profile.name, Some("Alice".to_string()));
    assert_eq!(profile.verified_proofs.len(), 1);
    assert!(profile.verified_proofs[0].verification_result.is_some());
    let text = profile.to_text();
    assert_eq!(
        text,
        "Profile URI: aspe:example.org:ALICE Version: 1\nName: Alice\nDescription: \nClaims:\n    https://service.example/alice: ok\n"
    );
}

#[test]
fn scenario_claim_check_error_still_yields_profile() {
    let token = signed_alice_token_ed25519();
    let record = profile_from_token("aspe:example.org:ALICE", &token).unwrap();
    let completed = vec![(record.claim_uris[0].clone(), None)];
    let outcomes = assemble_outcomes(&record.claim_uris, completed).unwrap();
    let profile = AspProfile::assemble(record, outcomes);
    assert_eq!(profile.name, Some("Alice".to_string()));
    assert_eq!(profile.verified_proofs.len(), 1);
    assert!(profile.verified_proofs[0].verification_result.is_none());
    let text = profile.to_text();
    assert_eq!(
        text,
        "Profile URI: aspe:example.org:ALICE Version: 1\nName: Alice\nDescription: \nClaims:\n    https://service.example/alice: failed\n"
    );
}

#[test]
fn scenario_unsupported_curve_produces_no_record() {
    let header = b64(
        b"{\"alg\":\"EdDSA\",\"jwk\":{\"kty\":\"OKP\",\"crv\":\"Curve25519-legacy\",\"x\":\"AAAA\"}}",
    );
    let token = format!("{}.{}.{}", header, b64(b"{}"), b64(b"sig"));
    let result = profile_from_token("aspe:example.org:ALICE", &token);
    assert_eq!(result, Err(AppError::AspeJWTInvalid));
}

#[test]
fn scenario_tampered_token_produces_no_record() {
    let token = signed_alice_token_ed25519();
    let parts: Vec<&str> = token.split('.').collect();
    let tampered = format!("{}.{}.{}", parts[0], b64(b"{\"v\":2}"), parts[2]);
    let result = profile_from_token("aspe:example.org:ALICE", &tampered);
    assert_eq!(result, Err(AppError::AspeJWTInvalid));
}

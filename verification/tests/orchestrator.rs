use doip_client::claims::AppVerificationResult;
use doip_client::claims::ServiceProvider;
use doip_client::claims::VerificationResult;
use doip_client::claims::VerifiedProof;
use doip_client::claims::assemble_outcomes;
use doip_client::claims::plan_claims;

fn ok_result(about: &str) -> VerificationResult {
    VerificationResult {
        result: true,
        service_provider: Some(ServiceProvider { about: about.to_string() }),
        proxy_used: None,
    }
}

fn uris(names: &[&str]) -> Vec<String> {
    names.iter().map(|n| n.to_string()).collect()
}

#[test]
fn plan_is_one_request_per_claim_in_order() {
    let claim_uris = uris(&["https://a.example/x", "dns:b.example", "https://c.example/y"]);
    let requests = plan_claims("aspe:example.org:ME", &claim_uris);
    assert_eq!(requests.len(), 3);
    for (request, claim_uri) in requests.iter().zip(claim_uris.iter()) {
        assert_eq!(&request.claim_uri, claim_uri);
        assert_eq!(request.subject_uri, "aspe:example.org:ME".to_string());
    }
}

#[test]
fn plan_of_zero_claims_issues_nothing() {
    let requests = plan_claims("aspe:example.org:ME", &Vec::new());
    assert!(requests.is_empty());
}

#[test]
fn outcomes_follow_claim_order_not_completion_order() {
    let claim_uris = uris(&["one", "two", "three"]);
    let completed = vec![
        ("three".to_string(), Some(ok_result("c"))),
        ("one".to_string(), Some(ok_result("a"))),
        ("two".to_string(), None),
    ];
    let out = assemble_outcomes(&claim_uris, completed).unwrap();
    assert_eq!(out.len(), 3);
    assert_eq!(out[0].uri, "one".to_string());
    assert_eq!(out[1].uri, "two".to_string());
    assert_eq!(out[2].uri, "three".to_string());
    assert_eq!(
        out[0].verification_result,
        Some(AppVerificationResult {
            result: true,
            service_provider_info: Some("a".to_string()),
            proxy_used: None,
        })
    );
    assert_eq!(out[1].verification_result, None);
    assert_eq!(
        out[2].verification_result,
        Some(AppVerificationResult {
            result: true,
            service_provider_info: Some("c".to_string()),
            proxy_used: None,
        })
    );
}

#[test]
fn one_failure_never_touches_other_outcomes_or_the_batch() {
    let claim_uris = uris(&["one", "two", "three"]);
    let all_good = vec![
        ("one".to_string(), Some(ok_result("a"))),
        ("two".to_string(), Some(ok_result("b"))),
        ("three".to_string(), Some(ok_result("c"))),
    ];
    let with_failure = vec![
        ("one".to_string(), Some(ok_result("a"))),
        ("two".to_string(), None),
        ("three".to_string(), Some(ok_result("c"))),
    ];
    let good = assemble_outcomes(&claim_uris, all_good).unwrap();
    let mixed = assemble_outcomes(&claim_uris, with_failure).unwrap();
    assert_eq!(good.len(), mixed.len());
    assert_eq!(good[0], mixed[0]);
    assert_eq!(good[2], mixed[2]);
    assert!(good[1].verification_result.is_some());
    assert!(mixed[1].verification_result.is_none());
}

#[test]
fn empty_batch_assembles_to_nothing() {
    let out = assemble_outcomes(&Vec::new(), Vec::new()).unwrap();
    assert!(out.is_empty());
}

#[test]
fn missing_completion_is_rejected() {
    let claim_uris = uris(&["one", "two"]);
    let completed = vec![("one".to_string(), None)];
    assert!(assemble_outcomes(&claim_uris, completed).is_none());
}

#[test]
fn unexpected_completion_is_rejected() {
    let claim_uris = uris(&["one"]);
    let completed = vec![("one".to_string(), None), ("stray".to_string(), None)];
    assert!(assemble_outcomes(&claim_uris, completed).is_none());
}

#[test]
fn duplicate_claim_uris_each_get_an_outcome() {
    let claim_uris = uris(&["same", "same"]);
    let completed = vec![("same".to_string(), Some(ok_result("a"))), ("same".to_string(), None)];
    let out = assemble_outcomes(&claim_uris, completed).unwrap();
    assert_eq!(out.len(), 2);
    assert_eq!(out[0].uri, "same".to_string());
    assert_eq!(out[1].uri, "same".to_string());
    let some_count =
        out.iter().filter(|p| p.verification_result.is_some()).count();
    assert_eq!(some_count, 1);
}

#[test]
fn verified_proof_conversion_projects_provider_about() {
    let result = VerificationResult {
        result: true,
        service_provider: Some(ServiceProvider { about: "service description".to_string() }),
        proxy_used: Some("proxy.example".to_string()),
    };
    let proof = VerifiedProof::new("https://a.example/x".to_string(), Some(result));
    assert_eq!(proof.uri, "https://a.example/x".to_string());
    let converted = proof.verification_result.unwrap();
    assert!(converted.result);
    assert_eq!(converted.service_provider_info, Some("service description".to_string()));
    assert_eq!(converted.proxy_used, Some("proxy.example".to_string()));
}

#[test]
fn verified_proof_without_result_stays_unverified() {
    let proof = VerifiedProof::new("https://a.example/x".to_string(), None);
    assert!(proof.verification_result.is_none());
}

//! Claim verification outcomes and the fan-out/fan-in orchestrator core.
//!
//! For each claim URI of a profile, one independent check is issued against
//! the external claim-checking capability.  The checks run concurrently and
//! finish in no particular order, so the caller hands back one completed
//! `(claim uri, result)` pair per check, in any order, and
//! `assemble_outcomes` re-associates every outcome with its originating
//! claim URI.  A failed check is a value (`None`), never a failure of the
//! batch: whether assembly succeeds depends only on the claim URIs, not on
//! any outcome.

use vstd::multiset::Multiset;
use vstd::prelude::*;

use crate::strutil::str_eq;

verus! {

broadcast use vstd::seq_lib::group_to_multiset_ensures, vstd::multiset::group_multiset_axioms;

/// The service provider a claim was checked against, reduced to the
/// descriptive text the result model keeps of it.
#[derive(Debug, Clone, PartialEq)]
pub struct ServiceProvider {
    pub about: String,
}

/// What the external claim-checking capability reports for one claim:
/// whether the service confirmed the claim, the provider it was matched
/// to, and the proxy used to reach it, if any.
#[derive(Debug, Clone, PartialEq)]
pub struct VerificationResult {
    pub result: bool,
    pub service_provider: Option<ServiceProvider>,
    pub proxy_used: Option<String>,
}

/// The per-claim outcome kept by a verified profile.
#[derive(Debug, Clone, PartialEq)]
pub struct AppVerificationResult {
    pub result: bool,
    pub service_provider_info: Option<String>,
    pub proxy_used: Option<String>,
}

/// The outcome derived from one capability report.
pub open spec fn app_result_spec(vr: VerificationResult) -> AppVerificationResult {
    AppVerificationResult {
        result: vr.result,
        service_provider_info: match vr.service_provider {
            Some(sp) => Some(sp.about),
            None => None,
        },
        proxy_used: vr.proxy_used,
    }
}

impl From<VerificationResult> for AppVerificationResult {
    fn from(vr: VerificationResult) -> (r: AppVerificationResult) {
        AppVerificationResult {
            result: vr.result,
            service_provider_info: match vr.service_provider {
                Some(sp) => Some(sp.about),
                None => None,
            },
            proxy_used: vr.proxy_used,
        }
    }
}

impl vstd::std_specs::convert::FromSpecImpl<VerificationResult> for AppVerificationResult {
    open spec fn obeys_from_spec() -> bool {
        true
    }

    open spec fn from_spec(vr: VerificationResult) -> AppVerificationResult {
        app_result_spec(vr)
    }
}

/// One claim URI paired with the outcome of its verification.  An absent
/// outcome means the claim could not be verified; it is recorded, not
/// propagated as an error.
#[derive(Debug, Clone, PartialEq)]
pub struct VerifiedProof {
    pub uri: String,
    pub verification_result: Option<AppVerificationResult>,
}

/// A capability report turned into the outcome the library keeps.
pub open spec fn outcome_spec(o: Option<VerificationResult>) -> Option<AppVerificationResult> {
    match o {
        Some(vr) => Some(app_result_spec(vr)),
        None => None,
    }
}

impl VerifiedProof {
    /// Record the outcome of one claim check under its claim URI.
    pub fn new(proof: String, verification_result: Option<VerificationResult>) -> (r:
        VerifiedProof)
        ensures
            r.uri == proof,
            r.verification_result == outcome_spec(verification_result),
    {
        VerifiedProof {
            uri: proof,
            verification_result: match verification_result {
                Some(vr) => Some(AppVerificationResult::from(vr)),
                None => None,
            },
        }
    }
}

/// One check to issue against the claim-checking capability.
#[derive(Debug, Clone, PartialEq)]
pub struct ClaimCheckRequest {
    pub claim_uri: String,
    pub subject_uri: String,
}

/// The claim URIs of a batch, as character sequences.
pub open spec fn claim_views(uris: Seq<String>) -> Seq<Seq<char>> {
    uris.map_values(|s: String| s@)
}

/// The claim URIs of completed checks, as character sequences.
pub open spec fn uri_views(pairs: Seq<(String, Option<VerificationResult>)>) -> Seq<Seq<char>> {
    pairs.map_values(|p: (String, Option<VerificationResult>)| p.0@)
}

/// Completed checks reduced to what assembly preserves of them: the claim
/// URI's characters and the derived outcome.
pub open spec fn completed_pair_views(pairs: Seq<(String, Option<VerificationResult>)>) -> Seq<
    (Seq<char>, Option<AppVerificationResult>),
> {
    pairs.map_values(|p: (String, Option<VerificationResult>)| (p.0@, outcome_spec(p.1)))
}

/// Assembled outcomes reduced the same way.
pub open spec fn proof_pair_views(proofs: Seq<VerifiedProof>) -> Seq<
    (Seq<char>, Option<AppVerificationResult>),
> {
    proofs.map_values(|p: VerifiedProof| (p.uri@, p.verification_result))
}

/// Plan the batch: one independent request per claim URI, in input order.
/// Zero claim URIs plan zero requests, so nothing is ever issued for an
/// empty batch.
pub fn plan_claims(subject_uri: &str, claim_uris: &Vec<String>) -> (r: Vec<ClaimCheckRequest>)
    ensures
        r@.len() == claim_uris@.len(),
        forall|i: int|
            0 <= i < r@.len() ==> #[trigger] r@[i].claim_uri@ == claim_uris@[i]@
                && r@[i].subject_uri@ == subject_uri@,
        claim_uris@.len() == 0 ==> r@.len() == 0,
{
    let n = claim_uris.len();
    let mut out: Vec<ClaimCheckRequest> = Vec::new();
    let mut i: usize = 0;
    while i < n
        invariant
            n == claim_uris@.len(),
            i <= n,
            out@.len() == i,
            forall|k: int|
                0 <= k < i ==> #[trigger] out@[k].claim_uri@ == claim_uris@[k]@
                    && out@[k].subject_uri@ == subject_uri@,
        decreases n - i,
    {
        out.push(
            ClaimCheckRequest {
                claim_uri: claim_uris[i].clone(),
                subject_uri: subject_uri.to_owned(),
            },
        );
        i += 1;
    }
    out
}

/// Index of a completed check for `target`, if any is left.
fn find_uri(remaining: &Vec<(String, Option<VerificationResult>)>, target: &str) -> (r: Option<
    usize,
>)
    ensures
        match r {
            Some(j) => j < remaining@.len() && remaining@[j as int].0@ == target@,
            None => forall|k: int| 0 <= k < remaining@.len() ==> remaining@[k].0@ != target@,
        },
{
    let n = remaining.len();
    let mut j: usize = 0;
    while j < n
        invariant
            n == remaining@.len(),
            j <= n,
            forall|k: int| 0 <= k < j ==> remaining@[k].0@ != target@,
        decreases n - j,
    {
        if str_eq(remaining[j].0.as_str(), target) {
            return Some(j);
        }
        j += 1;
    }
    None
}

/// Re-associate completed checks with the claim URIs that originated them.
///
/// Returns one `VerifiedProof` per claim URI, in the order the claim URIs
/// were given, regardless of the order in which the checks completed.
/// Assembly succeeds exactly when the completed checks carry the claim
/// URIs of the batch, as a multiset; the outcomes themselves play no part
/// in that decision, so no failed check can fail the batch.
#[verifier::loop_isolation(false)]
pub fn assemble_outcomes(
    claim_uris: &Vec<String>,
    completed: Vec<(String, Option<VerificationResult>)>,
) -> (r: Option<Vec<VerifiedProof>>)
    ensures
        match r {
            Some(out) => {
                &&& out@.len() == claim_uris@.len()
                &&& forall|i: int|
                    0 <= i < out@.len() ==> #[trigger] out@[i].uri@ == claim_uris@[i]@
                &&& proof_pair_views(out@).to_multiset() == completed_pair_views(
                    completed@,
                ).to_multiset()
                &&& claim_views(claim_uris@).to_multiset() == uri_views(completed@).to_multiset()
            },
            None => claim_views(claim_uris@).to_multiset() != uri_views(completed@).to_multiset(),
        },
{
    let ghost comp = completed@;
    let ghost comp_pairs_ms = completed_pair_views(comp).to_multiset();
    let ghost comp_uris_ms = uri_views(comp).to_multiset();
    let n = claim_uris.len();
    let mut remaining = completed;
    let mut out: Vec<VerifiedProof> = Vec::new();
    let mut i: usize = 0;
    proof {
        assert(proof_pair_views(out@) =~= Seq::<(Seq<char>, Option<AppVerificationResult>)>::empty());
        vstd::multiset::lemma_multiset_empty_len(proof_pair_views(out@).to_multiset());
        assert(proof_pair_views(out@).to_multiset() =~= Multiset::empty());
        assert(claim_views(claim_uris@.subrange(0, 0)) =~= Seq::<Seq<char>>::empty());
        vstd::multiset::lemma_multiset_empty_len(claim_views(claim_uris@.subrange(0, 0)).to_multiset());
        assert(claim_views(claim_uris@.subrange(0, 0)).to_multiset() =~= Multiset::empty());
        assert(proof_pair_views(out@).to_multiset().add(
            completed_pair_views(remaining@).to_multiset(),
        ) =~= comp_pairs_ms);
        assert(claim_views(claim_uris@.subrange(0, 0)).to_multiset().add(
            uri_views(remaining@).to_multiset(),
        ) =~= comp_uris_ms);
    }
    while i < n
        invariant
            n == claim_uris@.len(),
            i <= n,
            out@.len() == i,
            comp_pairs_ms == completed_pair_views(comp).to_multiset(),
            comp_uris_ms == uri_views(comp).to_multiset(),
            forall|k: int| 0 <= k < i ==> #[trigger] out@[k].uri@ == claim_uris@[k]@,
            proof_pair_views(out@).to_multiset().add(completed_pair_views(remaining@).to_multiset())
                == comp_pairs_ms,
            claim_views(claim_uris@.subrange(0, i as int)).to_multiset().add(
                uri_views(remaining@).to_multiset(),
            ) == comp_uris_ms,
        decreases n - i,
    {
        let ghost target_view = claim_uris@[i as int]@;
        match find_uri(&remaining, claim_uris[i].as_str()) {
            None => {
                proof {
                    assert(claim_views(claim_uris@).to_multiset() != comp_uris_ms) by {
                        if claim_views(claim_uris@).to_multiset() == comp_uris_ms {
                            let prefix = claim_views(claim_uris@.subrange(0, i as int));
                            let rest = claim_views(
                                claim_uris@.subrange(i as int, n as int),
                            );
                            assert(claim_views(claim_uris@) =~= prefix + rest);
                            vstd::seq_lib::lemma_multiset_commutative(prefix, rest);
                            let prefix_ms = prefix.to_multiset();
                            let rest_ms = rest.to_multiset();
                            let rem_ms = uri_views(remaining@).to_multiset();
                            assert(prefix_ms.add(rest_ms) == prefix_ms.add(rem_ms));
                            assert(prefix_ms.add(rest_ms).count(target_view) == prefix_ms.count(
                                target_view,
                            ) + rest_ms.count(target_view));
                            assert(prefix_ms.add(rem_ms).count(target_view) == prefix_ms.count(
                                target_view,
                            ) + rem_ms.count(target_view));
                            assert(rest_ms.count(target_view) == rem_ms.count(target_view));
                            assert(rest[0] == target_view);
                            assert(rest.contains(target_view));
                            assert(rest_ms.count(target_view) > 0);
                            assert(!uri_views(remaining@).contains(target_view));
                            assert(rem_ms.count(target_view) == 0);
                        }
                    }
                }
                return None;
            },
            Some(j) => {
                let ghost old_rem = remaining@;
                let ghost old_out = out@;
                let pair = remaining.remove(j);
                let uri_copy = claim_uris[i].clone();
                let vp = VerifiedProof::new(uri_copy, pair.1);
                out.push(vp);
                proof {
                    let pv = (target_view, outcome_spec(old_rem[j as int].1));
                    assert(completed_pair_views(old_rem)[j as int] == pv);
                    assert(uri_views(old_rem)[j as int] == target_view);
                    assert(completed_pair_views(remaining@) =~= completed_pair_views(
                        old_rem,
                    ).remove(j as int));
                    assert(uri_views(remaining@) =~= uri_views(old_rem).remove(j as int));
                    assert(proof_pair_views(out@) =~= proof_pair_views(old_out).push(pv));
                    assert(claim_views(claim_uris@.subrange(0, i + 1)) =~= claim_views(
                        claim_uris@.subrange(0, i as int),
                    ).push(target_view));
                    let out_ms_old = proof_pair_views(old_out).to_multiset();
                    let rem_ms_old = completed_pair_views(old_rem).to_multiset();
                    assert(proof_pair_views(out@).to_multiset() =~= out_ms_old.insert(pv));
                    assert(completed_pair_views(remaining@).to_multiset() =~= rem_ms_old.remove(
                        pv,
                    ));
                    assert(rem_ms_old.count(pv) >= 1) by {
                        assert(completed_pair_views(old_rem).contains(pv));
                    }
                    assert(out_ms_old.insert(pv).add(rem_ms_old.remove(pv)) =~= out_ms_old.add(
                        rem_ms_old,
                    ));
                    let pre_ms_old = claim_views(claim_uris@.subrange(0, i as int)).to_multiset();
                    let uris_ms_old = uri_views(old_rem).to_multiset();
                    assert(claim_views(claim_uris@.subrange(0, i + 1)).to_multiset()
                        =~= pre_ms_old.insert(target_view));
                    assert(uri_views(remaining@).to_multiset() =~= uris_ms_old.remove(
                        target_view,
                    ));
                    assert(uris_ms_old.count(target_view) >= 1) by {
                        assert(uri_views(old_rem).contains(target_view));
                    }
                    assert(pre_ms_old.insert(target_view).add(uris_ms_old.remove(target_view))
                        =~= pre_ms_old.add(uris_ms_old));
                }
            },
        }
        i += 1;
    }
    if remaining.len() > 0 {
        proof {
            assert(claim_views(claim_uris@).to_multiset() != comp_uris_ms) by {
                if claim_views(claim_uris@).to_multiset() == comp_uris_ms {
                    assert(claim_views(claim_uris@.subrange(0, n as int)) =~= claim_views(
                        claim_uris@,
                    ));
                    let rem_ms = uri_views(remaining@).to_multiset();
                    assert(comp_uris_ms.add(rem_ms) == comp_uris_ms);
                    assert(comp_uris_ms.add(rem_ms).len() == comp_uris_ms.len() + rem_ms.len());
                    assert(rem_ms.len() == 0);
                    assert(uri_views(remaining@).to_multiset().len() == uri_views(
                        remaining@,
                    ).len());
                    assert(uri_views(remaining@).len() > 0);
                }
            }
        }
        return None;
    }
    proof {
        assert(claim_views(claim_uris@.subrange(0, n as int)) =~= claim_views(claim_uris@));
        assert(uri_views(remaining@) =~= Seq::<Seq<char>>::empty());
        vstd::multiset::lemma_multiset_empty_len(uri_views(remaining@).to_multiset());
        assert(uri_views(remaining@).to_multiset() =~= Multiset::empty());
        assert(completed_pair_views(remaining@) =~= Seq::<
            (Seq<char>, Option<AppVerificationResult>),
        >::empty());
        vstd::multiset::lemma_multiset_empty_len(completed_pair_views(remaining@).to_multiset());
        assert(completed_pair_views(remaining@).to_multiset() =~= Multiset::empty());
        assert(proof_pair_views(out@).to_multiset().add(Multiset::empty()) =~= proof_pair_views(
            out@,
        ).to_multiset());
        assert(claim_views(claim_uris@).to_multiset().add(Multiset::empty()) =~= claim_views(
            claim_uris@,
        ).to_multiset());
    }
    Some(out)
}

/// A value appearing at two different indices has multiplicity at least two.
proof fn lemma_count_two_indices<A>(s: Seq<A>, i: int, j: int)
    requires
        0 <= i < j < s.len(),
        s[i] == s[j],
    ensures
        s.to_multiset().count(s[i]) >= 2,
{
    assert(s.remove(i).to_multiset() =~= s.to_multiset().remove(s[i]));
    assert(s.remove(i)[j - 1] == s[i]);
    assert(s.remove(i).contains(s[i]));
    assert(s.remove(i).to_multiset().count(s[i]) > 0);
}

/// One claim never affects another: for pairwise-distinct claim URIs, any
/// assembly `out` of the completed checks `completed` (related as in the
/// postcondition of `assemble_outcomes`) gives claim `i` exactly the
/// outcome completed for its own URI, wherever in the batch that check
/// finished and whatever every other check reported.
pub proof fn lemma_claim_isolation(
    claim_uris: Seq<String>,
    completed: Seq<(String, Option<VerificationResult>)>,
    out: Seq<VerifiedProof>,
    i: int,
    j: int,
)
    requires
        out.len() == claim_uris.len(),
        forall|k: int| 0 <= k < out.len() ==> #[trigger] out[k].uri@ == claim_uris[k]@,
        proof_pair_views(out).to_multiset() == completed_pair_views(completed).to_multiset(),
        claim_views(claim_uris).to_multiset() == uri_views(completed).to_multiset(),
        forall|k1: int, k2: int|
            0 <= k1 < k2 < claim_uris.len() ==> #[trigger] claim_uris[k1]@ != #[trigger] claim_uris[k2]@,
        0 <= i < claim_uris.len(),
        0 <= j < completed.len(),
        completed[j].0@ == claim_uris[i]@,
    ensures
        out[i].verification_result == outcome_spec(completed[j].1),
{
    let u = claim_uris[i]@;
    let p = (u, out[i].verification_result);
    assert(proof_pair_views(out)[i] == p);
    assert(proof_pair_views(out).contains(p));
    assert(completed_pair_views(completed).to_multiset().count(p) > 0);
    assert(completed_pair_views(completed).contains(p));
    let j2 = choose|j2: int|
        0 <= j2 < completed_pair_views(completed).len() && completed_pair_views(completed)[j2]
            == p;
    assert(completed[j2].0@ == u);
    assert(outcome_spec(completed[j2].1) == out[i].verification_result);
    assert(claim_views(claim_uris).no_duplicates()) by {
        assert forall|a: int, b: int|
            0 <= a < claim_views(claim_uris).len() && 0 <= b < claim_views(claim_uris).len() && a
                != b implies claim_views(claim_uris)[a] != claim_views(claim_uris)[b] by {
            if a < b {
                assert(claim_uris[a]@ != claim_uris[b]@);
            } else {
                assert(claim_uris[b]@ != claim_uris[a]@);
            }
        }
    }
    claim_views(claim_uris).lemma_multiset_has_no_duplicates();
    assert(claim_views(claim_uris)[i] == u);
    assert(claim_views(claim_uris).contains(u));
    assert(claim_views(claim_uris).to_multiset().count(u) == 1);
    assert(uri_views(completed).to_multiset().count(u) == 1);
    if j2 != j {
        let a = if j2 < j { j2 } else { j };
        let b = if j2 < j { j } else { j2 };
        assert(uri_views(completed)[a] == u);
        assert(uri_views(completed)[b] == u);
        lemma_count_two_indices(uri_views(completed), a, b);
        assert(uri_views(completed).to_multiset().count(u) >= 2);
        assert(false);
    }
}

/// One failing claim never changes the batch's overall outcome: whether
/// assembly succeeds is decided by the claim URIs of the completed checks
/// alone — two batches whose checks completed for the same URIs succeed
/// or fail together, whatever each check reported.
pub proof fn lemma_batch_success_ignores_outcomes(
    claim_uris: Seq<String>,
    completed1: Seq<(String, Option<VerificationResult>)>,
    completed2: Seq<(String, Option<VerificationResult>)>,
)
    requires
        uri_views(completed1) == uri_views(completed2),
    ensures
        claim_views(claim_uris).to_multiset() == uri_views(completed1).to_multiset()
            <==> claim_views(claim_uris).to_multiset() == uri_views(completed2).to_multiset(),
{
}

} // verus!

//! The signed control plane of a candidate execution, checked before any
//! private corpus is opened: the trusted admission, the private
//! authorization at its pinned location, the out-of-band pins, the role of
//! the signing node, and the executables the process runs.
//!
//! What these checks read from disk or from the process comes in as plain
//! values: each pinned document parsed and as file bytes, what was observed
//! of the current executable, and the digest observed for the evaluator
//! runtime.
use vstd::prelude::*;

use crate::corpus::executable::{executable_refusal, hash_executable, ExecutableObservation};
use crate::digest::{digest_bytes, digest_text};
use crate::release_gate::admission::{
    ReleaseGateAdmissionV1, ReleaseGateCorpusManifestV1, VerifiedReleaseGateCorpus,
};
use crate::release_gate::authorization::{authorization_tree, CandidateExecutionAuthorization};
use crate::release_gate::paths::{is_same_path, same_path};
use crate::release_gate::plan::{CandidateExecutionExpectations, CandidateExecutionPlan};
use crate::release_gate::signing::authorization_verifies;
use crate::release_gate::trust::{
    canonical_document_bytes, document_bytes_ok, document_digest, corpus_references_ok, trusted_admission_ok, verify_release_gate_corpus_references,
    verify_trusted_candidate_admission, CandidateReleaseTrustPolicy,
};
use crate::release_gate::{CandidateCatalog, CandidateGateError};
use crate::text::text_eq;

verus! {

/// The executable a candidate process is pinned as.
#[derive(Clone, Copy, Debug, PartialEq, Eq, Structural)]
pub enum CandidateExecutableRole {
    Runner,
    Verifier,
}

/// The executable digest the plan pins for a role.
pub open spec fn pinned_executable_digest(plan: CandidateExecutionPlan, role: CandidateExecutableRole) -> Seq<
    char,
> {
    match role {
        CandidateExecutableRole::Runner => plan.runtime.runner_executable_sha256@,
        CandidateExecutableRole::Verifier => plan.runtime.verifier_executable_sha256@,
    }
}

/// An observed digest is present and equals the pinned one.
pub open spec fn observed_matches(observed: Option<Seq<char>>, pinned: Seq<char>) -> bool {
    observed is Some && observed->0 == pinned
}

/// The text of an optional digest.
pub open spec fn opt_view(o: Option<String>) -> Option<Seq<char>> {
    match o {
        Some(s) => Some(s@),
        None => None,
    }
}

/// The executable is observed, admitted, and its bytes have the pinned
/// address.
pub open spec fn executable_matches(observed: Option<ExecutableObservation>, pinned: Seq<char>) -> bool {
    &&& observed is Some
    &&& executable_refusal(observed->0) is None
    &&& digest_text(observed->0.bytes@) == pinned
}

/// Checks the executable of the current process against the digest the plan
/// pins for its role: it must be admitted as an executable (a single-link,
/// executable, non-empty regular file, not a link and not group- or
/// other-writable, unchanged while read), and its bytes must have the pinned
/// address. `None` is an executable that could not be resolved.
pub fn validate_candidate_current_executable_binding(
    plan: &CandidateExecutionPlan,
    role: CandidateExecutableRole,
    observed: Option<&ExecutableObservation>,
) -> (r: Result<(), CandidateGateError>)
    ensures
        r is Ok <==> executable_matches(
            match observed {
                Some(o) => Some(*o),
                None => None,
            },
            pinned_executable_digest(*plan, role),
        ),
{
    let (expected, runner) = match role {
        CandidateExecutableRole::Runner => (plan.runtime.runner_executable_sha256.as_str(), true),
        CandidateExecutableRole::Verifier => (plan.runtime.verifier_executable_sha256.as_str(), false),
    };
    let label = if runner {
        "candidate runner executable"
    } else {
        "candidate verifier executable"
    };
    let digest = match observed {
        Some(o) => match hash_executable(label, o) {
            Ok(d) => Some(d),
            Err(_) => None,
        },
        None => None,
    };
    let observed_digest = match digest {
        Some(d) => d,
        None => {
            return Err(
                CandidateGateError::new(
                    if runner {
                        "candidate runner executable cannot be verified"
                    } else {
                        "candidate verifier executable cannot be verified"
                    },
                ),
            );
        },
    };
    if !text_eq(observed_digest.as_str(), expected) {
        return Err(
            CandidateGateError::new(
                if runner {
                    "candidate runner executable does not match the signed private plan"
                } else {
                    "candidate verifier executable does not match the signed private plan"
                },
            ),
        );
    }
    Ok(())
}

/// Checks that the current process is the runner executable pinned by the
/// plan.
pub fn validate_candidate_runner_executable_binding(
    plan: &CandidateExecutionPlan,
    observed: Option<&ExecutableObservation>,
) -> (r: Result<(), CandidateGateError>)
    ensures
        r is Ok <==> executable_matches(
            match observed {
                Some(o) => Some(*o),
                None => None,
            },
            plan.runtime.runner_executable_sha256@,
        ),
{
    validate_candidate_current_executable_binding(plan, CandidateExecutableRole::Runner, observed)
}

/// Checks the digest observed for the evaluator runtime against the plan.
pub fn validate_candidate_evaluator_runtime_binding(
    plan: &CandidateExecutionPlan,
    observed_digest: Option<&str>,
) -> (r: Result<(), CandidateGateError>)
    ensures
        r is Ok <==> (observed_digest is Some && observed_digest->0@
            == plan.runtime.evaluator_runtime_sha256@),
{
    match observed_digest {
        Some(d) => {
            if !text_eq(d, plan.runtime.evaluator_runtime_sha256.as_str()) {
                return Err(
                    CandidateGateError::new(
                        "candidate evaluator runtime does not match the signed private plan",
                    ),
                );
            }
            Ok(())
        },
        None => Err(CandidateGateError::new("candidate evaluator runtime cannot be verified")),
    }
}

/// The authorization, read as canonical bytes from its pinned location,
/// matches its pinned digest, names that location in its plan, and
/// verifies against the admission and the pinned signer.
pub open spec fn authorization_reference_ok(
    authorization: CandidateExecutionAuthorization,
    canonical_bytes: Seq<u8>,
    path: Seq<char>,
    expected_sha256: Seq<char>,
    admission: ReleaseGateAdmissionV1,
    core_task_ids: Seq<Seq<char>>,
    signer_node_id: Seq<char>,
    signer_public_key: Seq<char>,
) -> bool {
    &&& document_bytes_ok(authorization_tree(authorization), canonical_bytes)
    &&& document_digest(authorization_tree(authorization)) == expected_sha256
    &&& same_path(authorization.plan.authorization_path@, path)
    &&& authorization_verifies(authorization, admission, core_task_ids, signer_node_id, signer_public_key)
}

/// Checks a private authorization, parsed from the file bytes read at
/// `path`, which must be its canonical encoding, against its pinned digest
/// (of that encoding), its location and its signer, and returns it.
pub fn read_verified_execution_authorization(
    authorization: CandidateExecutionAuthorization,
    canonical_bytes: &[u8],
    path: &str,
    expected_authorization_sha256: &str,
    admission: &ReleaseGateAdmissionV1,
    catalog: &CandidateCatalog,
    expected_signer_node_id: &str,
    expected_signer_public_key: &str,
) -> (r: Result<CandidateExecutionAuthorization, CandidateGateError>)
    ensures
        match r {
            Ok(a) => a == authorization && authorization_reference_ok(
                authorization,
                canonical_bytes@,
                path@,
                expected_authorization_sha256@,
                *admission,
                catalog@,
                expected_signer_node_id@,
                expected_signer_public_key@,
            ),
            Err(_) => !authorization_reference_ok(
                authorization,
                canonical_bytes@,
                path@,
                expected_authorization_sha256@,
                *admission,
                catalog@,
                expected_signer_node_id@,
                expected_signer_public_key@,
            ),
        },
{
    let canonical = canonical_document_bytes(canonical_bytes, &authorization.to_json())?;
    let digest = digest_bytes(canonical.as_slice());
    if !text_eq(digest.as_str(), expected_authorization_sha256) {
        return Err(CandidateGateError::new("candidate authorization does not match its pinned digest"));
    }
    if !is_same_path(authorization.plan.authorization_path.as_str(), path) {
        return Err(
            CandidateGateError::new("candidate authorization location does not match its signed plan"),
        );
    }
    authorization.verify(admission, catalog, expected_signer_node_id, expected_signer_public_key)?;
    Ok(authorization)
}

/// What the control-plane checks read: the pinned admission, trust policy
/// and authorization, each parsed and as canonical bytes, the protected
/// trust-policy digest, what was observed of the current executable, and the
/// digest observed for the evaluator runtime.
pub struct CandidateControlPlaneInputs {
    pub admission: ReleaseGateAdmissionV1,
    pub admission_bytes: Vec<u8>,
    pub trust_policy: CandidateReleaseTrustPolicy,
    pub trust_policy_bytes: Vec<u8>,
    pub protected_trust_policy_digest: String,
    pub authorization: CandidateExecutionAuthorization,
    pub authorization_bytes: Vec<u8>,
    pub current_executable: Option<ExecutableObservation>,
    pub evaluator_runtime_digest: Option<String>,
}

/// What the corpus checks read: the outer manifest, parsed and as canonical
/// bytes, and the canonical bytes of both inner commitments.
pub struct CandidateCorpusInputs {
    pub manifest: ReleaseGateCorpusManifestV1,
    pub manifest_bytes: Vec<u8>,
    pub core_commitment_bytes: Vec<u8>,
    pub contrast_commitment_bytes: Vec<u8>,
}

/// The node that signs for a role is the one the plan names: the runner
/// node for the runner, and for the verifier the verifier node, distinct
/// from the runner node. No node given means no role check.
pub open spec fn role_signer_ok(
    plan: CandidateExecutionPlan,
    role: CandidateExecutableRole,
    node_id: Option<Seq<char>>,
) -> bool {
    match node_id {
        Some(n) => match role {
            CandidateExecutableRole::Runner => n == plan.controlled_inputs.runner_signer_node_id@,
            CandidateExecutableRole::Verifier => n == plan.controlled_inputs.verifier_signer_node_id@ && n
                != plan.controlled_inputs.runner_signer_node_id@,
        },
        None => true,
    }
}

/// Every control-plane check passes.
pub open spec fn control_plane_ok(
    expectations: CandidateExecutionExpectations,
    role: CandidateExecutableRole,
    role_signer_node_id: Option<Seq<char>>,
    validate_collection_time: bool,
    inputs: CandidateControlPlaneInputs,
    core_task_ids: Seq<Seq<char>>,
) -> bool {
    let plan = inputs.authorization.plan;
    &&& trusted_admission_ok(
        expectations,
        inputs.admission,
        inputs.admission_bytes@,
        inputs.trust_policy_bytes@,
        inputs.trust_policy,
        inputs.protected_trust_policy_digest@,
        core_task_ids,
    )
    &&& validate_collection_time ==> inputs.admission.in_collection_window(expectations.observed_at@)
    &&& authorization_reference_ok(
        inputs.authorization,
        inputs.authorization_bytes@,
        expectations.authorization_path@,
        expectations.authorization_sha256@,
        inputs.admission,
        core_task_ids,
        expectations.authorization_signer_node_id@,
        expectations.authorization_signer_public_key@,
    )
    &&& expectations.plan_references_match(plan)
    &&& role_signer_ok(plan, role, role_signer_node_id)
    &&& executable_matches(inputs.current_executable, pinned_executable_digest(plan, role))
    &&& observed_matches(opt_view(inputs.evaluator_runtime_digest), plan.runtime.evaluator_runtime_sha256@)
}

fn check_role_signer(plan: &CandidateExecutionPlan, role: CandidateExecutableRole, node_id: Option<&str>) -> (r:
    Result<(), CandidateGateError>)
    ensures
        r is Ok <==> role_signer_ok(
            *plan,
            role,
            match node_id {
                Some(n) => Some(n@),
                None => None,
            },
        ),
{
    if let Some(n) = node_id {
        let controlled = &plan.controlled_inputs;
        match role {
            CandidateExecutableRole::Runner => {
                if !text_eq(n, controlled.runner_signer_node_id.as_str()) {
                    return Err(
                        CandidateGateError::new(
                            "candidate runner key does not match the signed private plan",
                        ),
                    );
                }
            },
            CandidateExecutableRole::Verifier => {
                if !text_eq(n, controlled.verifier_signer_node_id.as_str()) || text_eq(
                    n,
                    controlled.runner_signer_node_id.as_str(),
                ) {
                    return Err(
                        CandidateGateError::new(
                            "candidate verifier identity is not the distinct authorized verifier",
                        ),
                    );
                }
            },
        }
    }
    Ok(())
}

fn opt_str(o: &Option<String>) -> (r: Option<&str>)
    ensures
        match r {
            Some(s) => o is Some && s@ == o->0@,
            None => o is None,
        },
{
    match o {
        Some(s) => Some(s.as_str()),
        None => None,
    }
}

/// Verifies the trusted admission (and, where asked, the collection
/// window), the private authorization, the out-of-band pins, the role's
/// signing node and the executable and runtime bindings, in that order.
pub fn verify_candidate_control_plane(
    expectations: &CandidateExecutionExpectations,
    role: CandidateExecutableRole,
    role_signer_node_id: Option<&str>,
    validate_collection_time: bool,
    inputs: CandidateControlPlaneInputs,
    catalog: &CandidateCatalog,
) -> (r: Result<(CandidateExecutionAuthorization, ReleaseGateAdmissionV1), CandidateGateError>)
    ensures
        match r {
            Ok((a, ad)) => a == inputs.authorization && ad == inputs.admission && control_plane_ok(
                *expectations,
                role,
                match role_signer_node_id {
                    Some(n) => Some(n@),
                    None => None,
                },
                validate_collection_time,
                inputs,
                catalog@,
            ),
            Err(_) => !control_plane_ok(
                *expectations,
                role,
                match role_signer_node_id {
                    Some(n) => Some(n@),
                    None => None,
                },
                validate_collection_time,
                inputs,
                catalog@,
            ),
        },
{
    let ghost original = inputs;
    let CandidateControlPlaneInputs {
        admission,
        admission_bytes,
        trust_policy,
        trust_policy_bytes,
        protected_trust_policy_digest,
        authorization,
        authorization_bytes,
        current_executable,
        evaluator_runtime_digest,
    } = inputs;
    let verified = verify_trusted_candidate_admission(
        expectations,
        admission,
        admission_bytes.as_slice(),
        trust_policy_bytes.as_slice(),
        &trust_policy,
        protected_trust_policy_digest.as_str(),
        catalog,
    )?;
    if validate_collection_time {
        verified.admission.validate_execution_time(expectations.observed_at.as_str())?;
    }
    let authorization = read_verified_execution_authorization(
        authorization,
        authorization_bytes.as_slice(),
        expectations.authorization_path.as_str(),
        expectations.authorization_sha256.as_str(),
        &verified.admission,
        catalog,
        expectations.authorization_signer_node_id.as_str(),
        expectations.authorization_signer_public_key.as_str(),
    )?;
    expectations.validate_plan_references(&authorization.plan)?;
    check_role_signer(&authorization.plan, role, role_signer_node_id)?;
    let current = match &current_executable {
        Some(o) => Some(o),
        None => None,
    };
    validate_candidate_current_executable_binding(&authorization.plan, role, current)?;
    validate_candidate_evaluator_runtime_binding(&authorization.plan, opt_str(&evaluator_runtime_digest))?;
    Ok((authorization, verified.admission))
}

/// Every control-plane check and every corpus reference check passes.
pub open spec fn execution_ok(
    expectations: CandidateExecutionExpectations,
    role: CandidateExecutableRole,
    role_signer_node_id: Option<Seq<char>>,
    validate_collection_time: bool,
    inputs: CandidateControlPlaneInputs,
    corpus: CandidateCorpusInputs,
    core_task_ids: Seq<Seq<char>>,
) -> bool {
    &&& control_plane_ok(
        expectations,
        role,
        role_signer_node_id,
        validate_collection_time,
        inputs,
        core_task_ids,
    )
    &&& corpus_references_ok(
        corpus.manifest,
        corpus.manifest_bytes@,
        expectations.corpus_manifest_sha256@,
        expectations.corpus_manifest_path@,
        corpus.core_commitment_bytes@,
        expectations.core_corpus_commitment_path@,
        expectations.core_corpus_commitment_sha256@,
        corpus.contrast_commitment_bytes@,
        expectations.contrast_corpus_commitment_path@,
        expectations.contrast_corpus_commitment_sha256@,
    )
}

fn verify_corpus_inputs(expectations: &CandidateExecutionExpectations, corpus: CandidateCorpusInputs) -> (r:
    Result<VerifiedReleaseGateCorpus, CandidateGateError>)
    ensures
        match r {
            Ok(v) => v.manifest == corpus.manifest && corpus_references_ok(
                corpus.manifest,
                corpus.manifest_bytes@,
                expectations.corpus_manifest_sha256@,
                expectations.corpus_manifest_path@,
                corpus.core_commitment_bytes@,
                expectations.core_corpus_commitment_path@,
                expectations.core_corpus_commitment_sha256@,
                corpus.contrast_commitment_bytes@,
                expectations.contrast_corpus_commitment_path@,
                expectations.contrast_corpus_commitment_sha256@,
            ),
            Err(_) => !corpus_references_ok(
                corpus.manifest,
                corpus.manifest_bytes@,
                expectations.corpus_manifest_sha256@,
                expectations.corpus_manifest_path@,
                corpus.core_commitment_bytes@,
                expectations.core_corpus_commitment_path@,
                expectations.core_corpus_commitment_sha256@,
                corpus.contrast_commitment_bytes@,
                expectations.contrast_corpus_commitment_path@,
                expectations.contrast_corpus_commitment_sha256@,
            ),
        },
{
    let CandidateCorpusInputs { manifest, manifest_bytes, core_commitment_bytes, contrast_commitment_bytes } =
        corpus;
    verify_release_gate_corpus_references(
        manifest,
        manifest_bytes.as_slice(),
        expectations.corpus_manifest_path.as_str(),
        expectations.corpus_manifest_sha256.as_str(),
        core_commitment_bytes.as_slice(),
        expectations.core_corpus_commitment_path.as_str(),
        expectations.core_corpus_commitment_sha256.as_str(),
        contrast_commitment_bytes.as_slice(),
        expectations.contrast_corpus_commitment_path.as_str(),
        expectations.contrast_corpus_commitment_sha256.as_str(),
    )
}

/// Verifies the control plane for a role, within the collection window,
/// and then the corpus references.
pub fn verify_candidate_execution(
    expectations: &CandidateExecutionExpectations,
    role: CandidateExecutableRole,
    role_signer_node_id: Option<&str>,
    inputs: CandidateControlPlaneInputs,
    corpus: CandidateCorpusInputs,
    catalog: &CandidateCatalog,
) -> (r: Result<
    (CandidateExecutionAuthorization, ReleaseGateAdmissionV1, VerifiedReleaseGateCorpus),
    CandidateGateError,
>)
    ensures
        match r {
            Ok((a, ad, c)) => a == inputs.authorization && ad == inputs.admission && c.manifest
                == corpus.manifest && execution_ok(
                *expectations,
                role,
                match role_signer_node_id {
                    Some(n) => Some(n@),
                    None => None,
                },
                true,
                inputs,
                corpus,
                catalog@,
            ),
            Err(_) => !execution_ok(
                *expectations,
                role,
                match role_signer_node_id {
                    Some(n) => Some(n@),
                    None => None,
                },
                true,
                inputs,
                corpus,
                catalog@,
            ),
        },
{
    let (authorization, admission) = verify_candidate_control_plane(
        expectations,
        role,
        role_signer_node_id,
        true,
        inputs,
        catalog,
    )?;
    let verified_corpus = verify_corpus_inputs(expectations, corpus)?;
    Ok((authorization, admission, verified_corpus))
}

/// Validates the signed runner control plane before any private corpus is
/// opened. The collection window is not checked here, so that model-free
/// corpus validation can complete before a scheduled repeat.
pub fn verify_candidate_runner_preparation_authorization(
    expectations: &CandidateExecutionExpectations,
    inputs: CandidateControlPlaneInputs,
    corpus: CandidateCorpusInputs,
    catalog: &CandidateCatalog,
) -> (r: Result<
    (CandidateExecutionAuthorization, ReleaseGateAdmissionV1, VerifiedReleaseGateCorpus),
    CandidateGateError,
>)
    ensures
        match r {
            Ok((a, ad, c)) => a == inputs.authorization && ad == inputs.admission && c.manifest
                == corpus.manifest && execution_ok(
                *expectations,
                CandidateExecutableRole::Runner,
                None,
                false,
                inputs,
                corpus,
                catalog@,
            ),
            Err(_) => !execution_ok(
                *expectations,
                CandidateExecutableRole::Runner,
                None,
                false,
                inputs,
                corpus,
                catalog@,
            ),
        },
{
    let (authorization, admission) = verify_candidate_control_plane(
        expectations,
        CandidateExecutableRole::Runner,
        None,
        false,
        inputs,
        catalog,
    )?;
    let verified_corpus = verify_corpus_inputs(expectations, corpus)?;
    Ok((authorization, admission, verified_corpus))
}

/// Preparation differs from execution only in the collection window: the
/// checks pass with the window exactly when they pass without it and the
/// observation time lies in the signed window.
pub proof fn law_preparation_omits_only_the_collection_window(
    expectations: CandidateExecutionExpectations,
    role: CandidateExecutableRole,
    role_signer_node_id: Option<Seq<char>>,
    inputs: CandidateControlPlaneInputs,
    corpus: CandidateCorpusInputs,
    core_task_ids: Seq<Seq<char>>,
)
    ensures
        execution_ok(expectations, role, role_signer_node_id, true, inputs, corpus, core_task_ids) <==> (
        execution_ok(expectations, role, role_signer_node_id, false, inputs, corpus, core_task_ids)
            && inputs.admission.in_collection_window(expectations.observed_at@)),
{
}

} // verus!

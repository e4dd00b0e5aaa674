use aiq_runner::digest::{canonical_bytes, Json};
use aiq_runner::release_gate::trust::canonical_document_bytes;
use aiq_runner::release_gate::admission::{
    ReleaseGateAdmissionSigner, ReleaseGateAdmissionV1, ReleaseGateContrastBinding,
    ReleaseGateModelConfiguration, ReleaseGateModelMatrix, ReleaseGateObservationUniverse,
    ReleaseGateRepeat, ReleaseGateRetryPolicy,
};
use aiq_runner::release_gate::evaluator::{
    candidate_score_fraction, CandidateAssertion, CandidateEvaluatorComponent,
};
use aiq_runner::release_gate::plan::{
    build_candidate_execution_plan, CandidateControlledInputs, CandidateExecutionPlan,
    CandidatePlanInputs, CandidateRuntimeBindings,
};
use aiq_runner::release_gate::signing::CandidateAuthorizationIdentity;
use aiq_runner::release_gate::trust::{
    decode_canonical_base64, verify_candidate_admission_trust_reference, verify_canonical_admission_reference,
    verify_release_gate_corpus_references,
    CandidateReleaseTrustPolicy, CandidateTrustedSigner,
};
use aiq_runner::release_gate::{
    CandidateAttemptFailure, CandidateExecutionUnitKind, canonical_model_id_list, contrast_id_str, expected_contrast_arm_order_list, model_identity,
    CandidateCatalog, CANDIDATE_CATALOG_RELEASE_IDENTITY_SHA256, CANDIDATE_CODEX_EGRESS_PROXY_ENDPOINT,
    CANDIDATE_CONTRAST_OBSERVATION_COUNT, CANDIDATE_CONTRAST_PAIR_COUNT,
    CANDIDATE_CORE_OBSERVATION_COUNT, CANDIDATE_MODEL_ID_MAPPING_SHA256,
    CANDIDATE_MODEL_MATRIX_SHA256, CANDIDATE_TASK_IDENTITY_SHA256, RELEASE_GATE_ADMISSION_SCHEMA,
    RELEASE_IDENTITY, SORTED_KEY_JSON,
};
use aiq_runner::corpus::executable::{ExecutableObservation, FileStamp};
use aiq_runner::digest::digest_bytes;
use aiq_runner::release_gate::admission::ReleaseGateCorpusManifestV1;
use aiq_runner::release_gate::control::{
    read_verified_execution_authorization,
    validate_candidate_current_executable_binding, validate_candidate_runner_executable_binding,
    verify_candidate_execution, verify_candidate_runner_preparation_authorization,
    CandidateControlPlaneInputs, CandidateCorpusInputs, CandidateExecutableRole,
};
use aiq_runner::release_gate::plan::CandidateExecutionExpectations;
use aiq_runner::release_gate::outputs::{CandidateOutputLedger, MAX_RESUMED_OUTPUT_BYTES};
use aiq_runner::release_gate::paths::do_paths_overlap;
use aiq_runner::release_gate::{
    reject_released_path, resolve_candidate_execution_identity, CandidateOutputState, ForbiddenCandidatePath,
};
use aiq_runner::release_gate::RELEASE_GATE_CORPUS_MANIFEST_SCHEMA;
use ed25519_dalek::Signer;

const RUNNER_EXECUTABLE: &[u8] = b"\x7fELF candidate runner";
const VERIFIER_EXECUTABLE: &[u8] = b"\x7fELF candidate verifier";

/// An admitted executable file holding `bytes`.
fn executable(bytes: &[u8]) -> ExecutableObservation {
    let stamp = FileStamp { device: 1, inode: 2, length: bytes.len() as u64 };
    ExecutableObservation {
        is_symlink: false,
        is_file: true,
        mode: Some(0o755),
        link_count: 1,
        stamp,
        opened_is_file: true,
        opened_length: bytes.len() as u64,
        bytes: bytes.to_vec(),
        stamp_after_read: Some(stamp),
    }
}

fn digest(c: char) -> String {
    format!("sha256:{}", c.to_string().repeat(64))
}

fn task_ids() -> Vec<String> {
    (1..=72).map(|index| format!("core-task-{index:02}")).collect()
}

fn catalog() -> CandidateCatalog {
    CandidateCatalog::from_task_ids(task_ids()).expect("candidate catalog")
}

fn admission() -> ReleaseGateAdmissionV1 {
    let configurations = (0..17)
        .map(|index| {
            let identity = model_identity(index);

            ReleaseGateModelConfiguration {
                model_id: identity.canonical_model_id,
                family: identity.family,
                reasoning_effort: identity.reasoning_effort,
                execution_model_id: identity.execution_model_id,
            }
        })
        .collect::<Vec<_>>();

    ReleaseGateAdmissionV1 {
        schema_version: RELEASE_GATE_ADMISSION_SCHEMA.to_owned(),
        signature_domain: RELEASE_GATE_ADMISSION_SCHEMA.to_owned(),
        signature_encoding: SORTED_KEY_JSON.to_owned(),
        release_identity: RELEASE_IDENTITY.to_owned(),
        catalog_release_identity_digest: CANDIDATE_CATALOG_RELEASE_IDENTITY_SHA256.to_owned(),
        task_metadata_identity_digest: CANDIDATE_TASK_IDENTITY_SHA256.to_owned(),
        corpus_commitment_digest: digest('a'),
        plan_id: "candidate-release-plan-001".to_owned(),
        execution_plan_digest: digest('b'),
        model_id_mapping_digest: CANDIDATE_MODEL_ID_MAPPING_SHA256.to_owned(),
        issued_at: "2026-08-01T00:00:00.000Z".to_owned(),
        collection_not_before: "2026-08-02T00:00:00.000Z".to_owned(),
        collection_not_after: "2026-08-02T04:00:00.000Z".to_owned(),
        repeat_schedule: (0..3)
            .map(|index| ReleaseGateRepeat {
                repeat_id: format!("repeat-{}", index + 1),
                scheduled_at: format!("2026-08-02T0{}:00:00.000Z", index + 1),
                contrast_arm_order: expected_contrast_arm_order_list(index),
            })
            .collect(),
        observation_universe: ReleaseGateObservationUniverse {
            task_ids: task_ids(),
            model_ids: canonical_model_id_list(),
            raw_cell_count: CANDIDATE_CORE_OBSERVATION_COUNT,
            contrast_pair_count: CANDIDATE_CONTRAST_PAIR_COUNT,
            contrast_observation_count: CANDIDATE_CONTRAST_OBSERVATION_COUNT,
        },
        infrastructure_retry_policy: ReleaseGateRetryPolicy {
            max_attempts: 3,
            backoff_seconds: vec![0, 30, 90],
            retryable_classifications: vec!["pre_model_admission".to_owned()],
            model_or_evaluator_failures_retryable: false,
        },
        model_matrix: ReleaseGateModelMatrix {
            digest: CANDIDATE_MODEL_MATRIX_SHA256.to_owned(),
            configurations,
        },
        contrast_bindings: vec![
            ReleaseGateContrastBinding {
                contrast_id: contrast_id_str(0).to_owned(),
                reference_variant_digest: digest('c'),
                challenge_variant_digest: digest('d'),
            },
            ReleaseGateContrastBinding {
                contrast_id: contrast_id_str(1).to_owned(),
                reference_variant_digest: digest('e'),
                challenge_variant_digest: digest('f'),
            },
            ReleaseGateContrastBinding {
                contrast_id: contrast_id_str(2).to_owned(),
                reference_variant_digest: digest('1'),
                challenge_variant_digest: digest('2'),
            },
        ],
        signer: ReleaseGateAdmissionSigner {
            key_id: "release-key-2026".to_owned(),
            algorithm: "ed25519".to_owned(),
        },
        signature: format!("{}==", "A".repeat(86)),
    }
}

fn path(root: &str, name: &str) -> String {
    format!("{root}/{name}")
}

fn controlled_inputs(root: &str) -> CandidateControlledInputs {
    CandidateControlledInputs {
        core_tasks_root: path(root, "controlled-core-tasks"),
        contrast_tasks_root: path(root, "controlled-contrast-tasks"),
        source_root: path(root, "controlled-source"),
        core_workspace_root: path(root, "core-workspaces"),
        contrast_workspace_root: path(root, "contrast-workspaces"),
        execution_root: path(root, "execution"),
        evaluator_root: path(root, "evaluators"),
        evaluator_runtime: path(root, "bin-node"),
        codex_toolchain_root: path(root, "codex-toolchain"),
        capabilities: path(root, "capabilities.json"),
        schedule: path(root, "schedule.json"),
        codex_binary: path(root, "bin-codex"),
        codex_home: path(root, "codex-home"),
        codex_egress_proxy: CANDIDATE_CODEX_EGRESS_PROXY_ENDPOINT.to_owned(),
        artifact_root: path(root, "artifacts"),
        work_root: path(root, "candidate-work"),
        verifier_replay_root: path(root, "verifier-replay"),
        jobs: 1,
        runner_signer_node_id: format!("node_{}", "a".repeat(64)),
        verifier_signer_node_id: format!("node_{}", "b".repeat(64)),
    }
}

fn plan(root: &str, admission: &ReleaseGateAdmissionV1) -> CandidateExecutionPlan {
    pinned_plan(root, admission, &digest('a'), &digest('8'), &digest('9'))
}

fn pinned_plan(
    root: &str,
    admission: &ReleaseGateAdmissionV1,
    trust_policy_sha256: &str,
    core_sha256: &str,
    contrast_sha256: &str,
) -> CandidateExecutionPlan {
    build_candidate_execution_plan(
        admission,
        CandidatePlanInputs {
            signed_admission_path: path(root, "admission.json"),
            signed_admission_sha256: admission.canonical_sha256().expect("admission digest"),
            signed_admission_key_id: admission.signer.key_id.clone(),
            release_trust_policy_path: path(root, "release-trust-policy.json"),
            release_trust_policy_sha256: trust_policy_sha256.to_owned(),
            corpus_manifest_path: path(root, "release-corpus.json"),
            corpus_manifest_sha256: admission.corpus_commitment_digest.clone(),
            core_corpus_commitment_path: path(root, "core-corpus.json"),
            core_corpus_commitment_sha256: core_sha256.to_owned(),
            contrast_corpus_commitment_path: path(root, "contrast-corpus.json"),
            contrast_corpus_commitment_sha256: contrast_sha256.to_owned(),
            authorization_path: path(root, "authorization.json"),
            runtime: CandidateRuntimeBindings {
                runner_executable_sha256: digest_bytes(RUNNER_EXECUTABLE),
                verifier_executable_sha256: digest_bytes(VERIFIER_EXECUTABLE),
                evaluator_runtime_sha256: digest('2'),
                core_harness_sha256: digest('3'),
                core_tool_policy_sha256: digest('4'),
                core_network_policy_sha256: digest('5'),
                contrast_harness_sha256: digest('6'),
                contrast_tool_policy_sha256: digest('7'),
                contrast_network_policy_sha256: digest('5'),
            },
            controlled_inputs: controlled_inputs(root),
            output_root: path(root, "outputs"),
        },
        &catalog(),
    )
    .expect("build candidate plan")
}

#[test]
fn canonical_base64_rejects_nonzero_unused_bits() {
    assert_eq!(decode_canonical_base64("Zg==").expect("canonical one byte"), b"f");
    assert_eq!(decode_canonical_base64("Zm8=").expect("canonical two bytes"), b"fo");
    assert_eq!(decode_canonical_base64("Zm9v").expect("canonical three bytes"), b"foo");
    assert!(decode_canonical_base64("Zh==").is_err());
    assert!(decode_canonical_base64("Zm9=").is_err());
}

#[test]
fn canonical_base64_rejects_misplaced_padding_and_foreign_characters() {
    assert_eq!(decode_canonical_base64("Zm9vYmFy").expect("two groups"), b"foobar");
    assert_eq!(decode_canonical_base64("Zm9vYg==").expect("padded tail"), b"foob");
    assert!(decode_canonical_base64("").is_err());
    assert!(decode_canonical_base64("Zm9").is_err());
    assert!(decode_canonical_base64("Zg==Zm9v").is_err());
    assert!(decode_canonical_base64("Z===").is_err());
    assert!(decode_canonical_base64("Zm9*").is_err());
    assert!(decode_canonical_base64("Zm-v").is_err());
}

#[test]
fn evaluator_fraction_is_exact_and_rejects_cross_component_drift() {
    let weights = [3_000, 2_500, 2_500, 2_000];
    let components = weights
        .into_iter()
        .enumerate()
        .map(|(component, weight_basis_points)| CandidateEvaluatorComponent {
            component_id: format!("component_{:02}", component + 1),
            weight_basis_points,
            assertions: (0..4)
                .map(|assertion| CandidateAssertion {
                    assertion_id: format!(
                        "component_{:02}_assertion_{:02}",
                        component + 1,
                        assertion + 1
                    ),
                    passed: !(component == 0 && assertion == 0),
                    evidence_sha256: digest(char::from(b'a' + assertion as u8)),
                })
                .collect(),
        })
        .collect::<Vec<_>>();

    assert_eq!(candidate_score_fraction(&components).expect("score"), (37, 40));

    let mut drifted = components;

    drifted.swap(0, 1);

    assert!(candidate_score_fraction(&drifted).is_err());
}

#[test]
fn authorization_is_private_signed_and_verifies_only_for_its_signer() {
    let admission = admission();
    let catalog = catalog();
    let identity = CandidateAuthorizationIdentity::from_secret([7_u8; 32]);
    let signer = identity.signer().clone();
    let authorization = identity
        .authorize(plan("/controlled/root", &admission), &admission, &catalog)
        .expect("authorize plan");

    authorization
        .verify(&admission, &catalog, &signer.node_id, &signer.public_key)
        .expect("verify authorization");

    assert!(signer.node_id.starts_with("candidate_node_"));
    assert_eq!(signer.public_key.len(), 64);
    assert_eq!(authorization.signature.len(), 128);

    let other = CandidateAuthorizationIdentity::from_secret([8_u8; 32]);

    assert!(authorization
        .verify(&admission, &catalog, &other.signer().node_id, &other.signer().public_key)
        .is_err());

    let mut tampered = authorization.clone();

    tampered.plan.controlled_inputs.jobs = 2;

    assert!(tampered.verify(&admission, &catalog, &signer.node_id, &signer.public_key).is_err());
}

fn base64(bytes: &[u8]) -> String {
    const DIGITS: &[u8] = b"ABCDEFGHIJKLMNOPQRSTUVWXYZabcdefghijklmnopqrstuvwxyz0123456789+/";
    let mut out = String::new();

    for chunk in bytes.chunks(3) {
        let b0 = chunk[0] as u32;
        let b1 = chunk.get(1).copied().unwrap_or(0) as u32;
        let b2 = chunk.get(2).copied().unwrap_or(0) as u32;
        let word = (b0 << 16) | (b1 << 8) | b2;

        out.push(DIGITS[(word >> 18) as usize & 63] as char);
        out.push(DIGITS[(word >> 12) as usize & 63] as char);
        out.push(if chunk.len() > 1 { DIGITS[(word >> 6) as usize & 63] as char } else { '=' });
        out.push(if chunk.len() > 2 { DIGITS[word as usize & 63] as char } else { '=' });
    }

    out
}

fn trusted_signer(key_id: &str, public_key: [u8; 32]) -> CandidateTrustedSigner {
    let mut der = vec![0x30, 0x2a, 0x30, 0x05, 0x06, 0x03, 0x2b, 0x65, 0x70, 0x03, 0x21, 0x00];

    der.extend_from_slice(&public_key);

    CandidateTrustedSigner {
        key_id: key_id.to_owned(),
        algorithm: "ed25519".to_owned(),
        public_key_spki_base64: base64(&der),
        public_key_fingerprint: aiq_runner::digest::digest_bytes(&der),
    }
}

#[test]
fn admission_signature_verifies_only_under_the_pinned_authority() {
    let authority = ed25519_dalek::SigningKey::from_bytes(&[11_u8; 32]);
    let promotion = ed25519_dalek::SigningKey::from_bytes(&[12_u8; 32]);
    let mut admission = admission();
    let preimage = canonical_bytes(&admission.unsigned_json()).expect("admission preimage");

    admission.signature = base64(&authority.sign(&preimage).to_bytes());

    let policy = CandidateReleaseTrustPolicy {
        schema_version: "aiq.release-gate-trust.v1".to_owned(),
        release_identity: RELEASE_IDENTITY.to_owned(),
        authority_signers: vec![trusted_signer(
            "release-key-2026",
            authority.verifying_key().to_bytes(),
        )],
        promotion_signers: vec![trusted_signer("promotion-key-2026", promotion.verifying_key().to_bytes())],
    };
    let policy_bytes = canonical_bytes(&policy.to_json()).expect("policy bytes");
    let pin = aiq_runner::digest::digest_bytes(&policy_bytes);

    assert!(verify_candidate_admission_trust_reference(&policy_bytes, &policy, &pin, &pin, &admission)
        .is_ok());
    assert!(verify_candidate_admission_trust_reference(&policy_bytes, &policy, &pin, &digest('5'), &admission)
        .is_err());
    assert!(verify_candidate_admission_trust_reference(b"other", &policy, &pin, &pin, &admission).is_err());
    // A trailing line feed keeps the canonical digest; other bytes do not.
    let mut with_newline = policy_bytes.clone();
    with_newline.push(b'\n');
    assert!(verify_candidate_admission_trust_reference(&with_newline, &policy, &pin, &pin, &admission).is_ok());
    let mut spaced = b" ".to_vec();
    spaced.extend_from_slice(&policy_bytes);
    assert_eq!(
        verify_candidate_admission_trust_reference(&spaced, &policy, &pin, &pin, &admission)
            .err()
            .expect("not canonical")
            .message(),
        "candidate reference bytes are not canonical JSON"
    );

    let mut forged = admission.clone();

    forged.signature = base64(&promotion.sign(&preimage).to_bytes());

    assert!(verify_candidate_admission_trust_reference(&policy_bytes, &policy, &pin, &pin, &forged)
        .is_err());

    let mut duplicated = policy.clone();

    duplicated.promotion_signers[0].key_id = "release-key-2026".to_owned();

    assert!(verify_candidate_admission_trust_reference(&policy_bytes, &duplicated, &pin, &pin, &admission)
        .is_err());
}

#[test]
fn reference_bytes_must_be_the_canonical_encoding() {
    let document = Json::Object(vec![
        ("b".to_owned(), Json::Number(1)),
        ("a".to_owned(), Json::Text("x".to_owned())),
    ]);

    assert_eq!(canonical_document_bytes(br#"{"a":"x","b":1}"#, &document).expect("canonical"), br#"{"a":"x","b":1}"#);
    assert!(canonical_document_bytes(b"{\"a\":\"x\",\"b\":1}\n", &document).is_ok());
    assert!(canonical_document_bytes(b"{\"b\":1,\"a\":\"x\"}", &document).is_err());
    assert!(canonical_document_bytes(b"{\"a\": \"x\",\"b\":1}", &document).is_err());
    assert!(canonical_document_bytes(b"{\"a\":\"x\",\"b\":1}\n\n", &document).is_err());
}

#[test]
fn each_observation_instant_belongs_to_one_repeat_partition() {
    let admission = admission();

    assert!(admission.validate_repeat_execution_time("repeat-1", "2026-08-02T01:30:00.000Z").is_ok());
    assert!(admission.validate_repeat_execution_time("repeat-2", "2026-08-02T01:30:00.000Z").is_err());
    assert!(admission.validate_repeat_execution_time("repeat-2", "2026-08-02T02:00:00.000Z").is_ok());
    assert!(admission.validate_repeat_execution_time("repeat-1", "2026-08-02T02:00:00.000Z").is_err());
    assert!(admission.validate_repeat_execution_time("repeat-3", "2026-08-02T03:59:59.000Z").is_ok());
    assert!(admission.validate_repeat_execution_time("repeat-3", "2026-08-02T04:00:01.000Z").is_err());
    assert!(admission.validate_repeat_execution_time("repeat-4", "2026-08-02T03:30:00.000Z").is_err());
}

#[test]
fn a_repeat_slice_holds_exactly_its_seven_units() {
    let admission = admission();
    let catalog = catalog();
    let plan = plan("/controlled/root", &admission);
    let units = plan.units_for_repeat(&admission, &catalog, "repeat-2").expect("repeat units");

    assert_eq!(units.len(), 7);
    assert!(units.iter().all(|unit| unit.repeat_id == "repeat-2"));
    assert_eq!(units[0].kind, CandidateExecutionUnitKind::Core);
    assert!(units[1..].iter().all(|unit| unit.kind == CandidateExecutionUnitKind::Contrast));
    assert_eq!(
        plan.execution_units.iter().filter(|unit| unit.repeat_id == "repeat-2").count(),
        7
    );
    assert!(plan.units_for_repeat(&admission, &catalog, "repeat-9").is_err());
}

#[test]
fn plan_outputs_are_distinct_and_apart_from_the_replay_root() {
    let admission = admission();
    let plan = plan("/controlled/root", &admission);
    let mut outputs = plan
        .execution_units
        .iter()
        .flat_map(|unit| {
            [
                unit.outputs.result_package_bundle.clone(),
                unit.outputs.evaluator_result_bundle.clone(),
                unit.outputs.verifier_replay_bundle.clone(),
                unit.outputs.attempt_log_bundle.clone(),
            ]
        })
        .collect::<Vec<_>>();

    outputs.push(plan.aggregate_outputs.source_observations.clone());
    outputs.push(plan.aggregate_outputs.release_gate_evidence.clone());

    let count = outputs.len();

    outputs.sort();
    outputs.dedup();

    assert_eq!(count, 86);
    assert_eq!(outputs.len(), 86);
    assert!(outputs
        .iter()
        .all(|path| !path.starts_with(&plan.controlled_inputs.verifier_replay_root)));
}

#[test]
fn only_pre_model_admission_failures_are_retried() {
    let admission = admission();

    assert_eq!(admission.retry_after_failure(1, false, CandidateAttemptFailure::PreModelAdmission).expect("retry"), Some(30));
    assert_eq!(admission.retry_after_failure(2, false, CandidateAttemptFailure::PreModelAdmission).expect("retry"), Some(90));
    assert_eq!(admission.retry_after_failure(3, false, CandidateAttemptFailure::PreModelAdmission).expect("retry"), None);
    assert_eq!(admission.retry_after_failure(1, true, CandidateAttemptFailure::PreModelAdmission).expect("retry"), None);
    assert_eq!(admission.retry_after_failure(1, false, CandidateAttemptFailure::ModelFailure).expect("retry"), None);
    assert_eq!(admission.retry_after_failure(1, false, CandidateAttemptFailure::EvaluatorFailure).expect("retry"), None);
    assert!(admission.retry_after_failure(0, false, CandidateAttemptFailure::PreModelAdmission).is_err());
    assert!(admission.retry_after_failure(4, false, CandidateAttemptFailure::PreModelAdmission).is_err());
}

struct ControlPlaneFixture {
    expectations: CandidateExecutionExpectations,
    admission: ReleaseGateAdmissionV1,
    admission_bytes: Vec<u8>,
    policy: CandidateReleaseTrustPolicy,
    policy_bytes: Vec<u8>,
    authorization: aiq_runner::release_gate::authorization::CandidateExecutionAuthorization,
    authorization_bytes: Vec<u8>,
    manifest_bytes: Vec<u8>,
    core_bytes: Vec<u8>,
    contrast_bytes: Vec<u8>,
}

fn control_plane_fixture() -> ControlPlaneFixture {
    let root = "/controlled/root";
    let authority = ed25519_dalek::SigningKey::from_bytes(&[11_u8; 32]);
    let promotion = ed25519_dalek::SigningKey::from_bytes(&[12_u8; 32]);
    let core_bytes = b"{\"core\":true}".to_vec();
    let contrast_bytes = b"{\"contrast\":true}".to_vec();
    let manifest_bytes = canonical_bytes(&corpus_manifest(&core_bytes, &contrast_bytes).to_json()).expect("manifest bytes");
    let policy = CandidateReleaseTrustPolicy {
        schema_version: "aiq.release-gate-trust.v1".to_owned(),
        release_identity: RELEASE_IDENTITY.to_owned(),
        authority_signers: vec![trusted_signer("release-key-2026", authority.verifying_key().to_bytes())],
        promotion_signers: vec![trusted_signer("promotion-key-2026", promotion.verifying_key().to_bytes())],
    };
    let policy_bytes = canonical_bytes(&policy.to_json()).expect("policy bytes");
    let policy_pin = digest_bytes(&policy_bytes);
    let mut admission = admission();

    admission.corpus_commitment_digest = digest_bytes(&manifest_bytes);

    let preimage = canonical_bytes(&admission.unsigned_json()).expect("admission preimage");

    admission.signature = base64(&authority.sign(&preimage).to_bytes());

    let admission_bytes = canonical_bytes(&admission.to_json()).expect("admission bytes");
    let plan = pinned_plan(
        root,
        &admission,
        &policy_pin,
        &digest_bytes(&core_bytes),
        &digest_bytes(&contrast_bytes),
    );
    let identity = CandidateAuthorizationIdentity::from_secret([7_u8; 32]);
    let signer = identity.signer().clone();
    let authorization = identity.authorize(plan, &admission, &catalog()).expect("authorize plan");
    let authorization_bytes = canonical_bytes(&authorization.to_json()).expect("authorization bytes");
    let expectations = CandidateExecutionExpectations {
        authorization_path: path(root, "authorization.json"),
        authorization_sha256: digest_bytes(&authorization_bytes),
        authorization_signer_node_id: signer.node_id.clone(),
        authorization_signer_public_key: signer.public_key.clone(),
        signed_admission_path: path(root, "admission.json"),
        signed_admission_sha256: digest_bytes(&admission_bytes),
        signed_admission_key_id: "release-key-2026".to_owned(),
        release_trust_policy_path: path(root, "release-trust-policy.json"),
        release_trust_policy_sha256: policy_pin,
        execution_plan_sha256: admission.execution_plan_digest.clone(),
        corpus_manifest_path: path(root, "release-corpus.json"),
        corpus_manifest_sha256: admission.corpus_commitment_digest.clone(),
        core_corpus_commitment_path: path(root, "core-corpus.json"),
        core_corpus_commitment_sha256: digest_bytes(&core_bytes),
        contrast_corpus_commitment_path: path(root, "contrast-corpus.json"),
        contrast_corpus_commitment_sha256: digest_bytes(&contrast_bytes),
        verifier_replay_root: path(root, "verifier-replay"),
        observed_at: "2026-08-02T01:30:00.000Z".to_owned(),
    };

    ControlPlaneFixture {
        expectations,
        admission,
        admission_bytes,
        policy,
        policy_bytes,
        authorization,
        authorization_bytes,
        manifest_bytes,
        core_bytes,
        contrast_bytes,
    }
}

fn control_inputs(f: &ControlPlaneFixture, current: Option<&[u8]>) -> CandidateControlPlaneInputs {
    CandidateControlPlaneInputs {
        admission: f.admission.clone(),
        admission_bytes: f.admission_bytes.clone(),
        trust_policy: f.policy.clone(),
        trust_policy_bytes: f.policy_bytes.clone(),
        protected_trust_policy_digest: f.expectations.release_trust_policy_sha256.clone(),
        authorization: f.authorization.clone(),
        authorization_bytes: f.authorization_bytes.clone(),
        current_executable: current.map(executable),
        evaluator_runtime_digest: Some(f.authorization.plan.runtime.evaluator_runtime_sha256.clone()),
    }
}

fn corpus_manifest(core_bytes: &[u8], contrast_bytes: &[u8]) -> ReleaseGateCorpusManifestV1 {
    ReleaseGateCorpusManifestV1 {
        schema_version: RELEASE_GATE_CORPUS_MANIFEST_SCHEMA.to_owned(),
        release_identity: RELEASE_IDENTITY.to_owned(),
        catalog_release_identity_digest: CANDIDATE_CATALOG_RELEASE_IDENTITY_SHA256.to_owned(),
        task_metadata_identity_digest: CANDIDATE_TASK_IDENTITY_SHA256.to_owned(),
        canonicalization: SORTED_KEY_JSON.to_owned(),
        core_task_count: 72,
        contrast_task_count: 6,
        core_corpus_commitment_sha256: digest_bytes(core_bytes),
        contrast_corpus_commitment_sha256: digest_bytes(contrast_bytes),
    }
}

fn corpus_inputs(f: &ControlPlaneFixture) -> CandidateCorpusInputs {
    CandidateCorpusInputs {
        manifest: corpus_manifest(&f.core_bytes, &f.contrast_bytes),
        manifest_bytes: f.manifest_bytes.clone(),
        core_commitment_bytes: f.core_bytes.clone(),
        contrast_commitment_bytes: f.contrast_bytes.clone(),
    }
}

#[test]
fn runner_preparation_checks_every_pin_before_the_corpus() {
    let f = control_plane_fixture();
    let runner = RUNNER_EXECUTABLE;
    let verifier = VERIFIER_EXECUTABLE;
    let catalog = catalog();

    let (authorization, admission, corpus) = verify_candidate_runner_preparation_authorization(
        &f.expectations,
        control_inputs(&f, Some(runner)),
        corpus_inputs(&f),
        &catalog,
    )
    .expect("runner preparation");

    assert_eq!(authorization.signature, f.authorization.signature);
    assert_eq!(admission.signature, f.admission.signature);
    assert_eq!(corpus.manifest_sha256, digest_bytes(&f.manifest_bytes));

    // Another executable, or one whose digest could not be taken, is refused.
    for observed in [Some(verifier), None] {
        let error = verify_candidate_runner_preparation_authorization(
            &f.expectations,
            control_inputs(&f, observed),
            corpus_inputs(&f),
            &catalog,
        )
        .err()
        .expect("foreign executable");
        assert!(error.message().starts_with("candidate runner executable"));
    }

    // The authorization bytes must be its canonical encoding, at its pinned digest.
    let mut moved = control_inputs(&f, Some(runner));
    moved.authorization_bytes = b"{}".to_vec();
    let error = verify_candidate_runner_preparation_authorization(&f.expectations, moved, corpus_inputs(&f), &catalog)
        .err()
        .expect("authorization bytes");
    assert_eq!(error.message(), "candidate reference bytes are not canonical JSON");
    let mut repinned = f.expectations.clone();
    repinned.authorization_sha256 = digest('e');
    let error = verify_candidate_runner_preparation_authorization(
        &repinned,
        control_inputs(&f, Some(runner)),
        corpus_inputs(&f),
        &catalog,
    )
    .err()
    .expect("authorization digest");
    assert!(error.message().contains("authorization"));

    // Inner corpus bytes must match their pins.
    let mut corpus = corpus_inputs(&f);
    corpus.core_commitment_bytes = b"{}".to_vec();
    assert!(verify_candidate_runner_preparation_authorization(
        &f.expectations,
        control_inputs(&f, Some(runner)),
        corpus,
        &catalog,
    )
    .is_err());

    // Preparation does not check the collection window; execution does.
    let mut late = f.expectations.clone();
    late.observed_at = "2026-08-03T00:00:00.000Z".to_owned();
    assert!(verify_candidate_runner_preparation_authorization(
        &late,
        control_inputs(&f, Some(runner)),
        corpus_inputs(&f),
        &catalog,
    )
    .is_ok());
    assert!(verify_candidate_execution(
        &late,
        CandidateExecutableRole::Runner,
        None,
        control_inputs(&f, Some(runner)),
        corpus_inputs(&f),
        &catalog,
    )
    .is_err());
    assert!(verify_candidate_execution(
        &f.expectations,
        CandidateExecutableRole::Runner,
        Some(&f.authorization.plan.controlled_inputs.runner_signer_node_id),
        control_inputs(&f, Some(runner)),
        corpus_inputs(&f),
        &catalog,
    )
    .is_ok());
}

#[test]
fn executable_bindings_follow_the_role() {
    let f = control_plane_fixture();
    let plan = &f.authorization.plan;
    let runner = executable(RUNNER_EXECUTABLE);
    let verifier = executable(VERIFIER_EXECUTABLE);

    assert!(validate_candidate_runner_executable_binding(plan, Some(&runner)).is_ok());
    assert!(validate_candidate_runner_executable_binding(plan, Some(&verifier)).is_err());
    assert!(validate_candidate_current_executable_binding(plan, CandidateExecutableRole::Verifier, Some(&verifier))
        .is_ok());
    // The runner's bytes must be an admitted executable, not merely hash right.
    let mut shared = executable(RUNNER_EXECUTABLE);
    shared.mode = Some(0o775);
    assert_eq!(
        validate_candidate_runner_executable_binding(plan, Some(&shared)).err().expect("writable").message(),
        "candidate runner executable cannot be verified"
    );
    let mut linked = executable(RUNNER_EXECUTABLE);
    linked.link_count = 2;
    assert!(validate_candidate_runner_executable_binding(plan, Some(&linked)).is_err());
    assert_eq!(
        validate_candidate_current_executable_binding(plan, CandidateExecutableRole::Verifier, None)
            .err()
            .expect("unverifiable")
            .message(),
        "candidate verifier executable cannot be verified"
    );

    // The verifier node must be the plan's verifier, distinct from the runner.
    let catalog = catalog();
    let runner_node = plan.controlled_inputs.runner_signer_node_id.clone();
    let verifier_node = plan.controlled_inputs.verifier_signer_node_id.clone();
    let verify_as = |node: &str| {
        verify_candidate_execution(
            &f.expectations,
            CandidateExecutableRole::Verifier,
            Some(node),
            control_inputs(&f, Some(VERIFIER_EXECUTABLE)),
            corpus_inputs(&f),
            &catalog,
        )
    };
    assert!(verify_as(&verifier_node).is_ok());
    assert_eq!(
        verify_as(&runner_node).err().expect("runner as verifier").message(),
        "candidate verifier identity is not the distinct authorized verifier"
    );
}

#[test]
fn fresh_reservations_survive_repeat_boundary_and_resume_exact_plan() {
    let admission = admission();
    let catalog = catalog();
    let plan = plan("/controlled/root", &admission);
    let first_repeat = plan.units_for_repeat(&admission, &catalog, "repeat-1").expect("first repeat").to_vec();
    let mut fresh = CandidateOutputLedger::reserve(&plan, &admission, &catalog).expect("reserve complete output set");

    assert_eq!(fresh.states().len(), 86);

    let mut filled = std::collections::BTreeMap::new();
    for unit in &first_repeat {
        for (key, _) in unit.outputs.keyed_paths(&unit.unit_id) {
            let digest = fresh.fill(&key, key.as_bytes()).expect("fill repeat-one output");
            assert_eq!(digest, digest_bytes(key.as_bytes()));
            filled.insert(fresh.path(&key).expect("path"), key.as_bytes().to_vec());
        }
    }

    let contents = plan
        .output_paths()
        .iter()
        .map(|(_, path)| filled.get(path).cloned().unwrap_or_default())
        .collect::<Vec<_>>();
    let mut resumed = CandidateOutputLedger::resume(&plan, &admission, &catalog, &contents).expect("resume");
    let states = resumed.states();

    assert_eq!(states.iter().filter(|(_, s)| matches!(s, CandidateOutputState::Filled { .. })).count(), 28);
    assert_eq!(states.iter().filter(|(_, s)| matches!(s, CandidateOutputState::Reserved)).count(), 58);
    assert_eq!(
        resumed.fill("repeat-01-core/result_package_bundle", b"overwrite").err().expect("immutable").message(),
        "candidate completed output cannot be overwritten"
    );
    assert_eq!(
        resumed.filled_digest("repeat-01-core/result_package_bundle").expect("filled"),
        digest_bytes(b"repeat-01-core/result_package_bundle")
    );
}

#[test]
fn output_ledger_refuses_what_the_plan_does_not_allow() {
    let admission = admission();
    let catalog = catalog();
    let plan = plan("/controlled/root", &admission);
    let mut ledger = CandidateOutputLedger::reserve(&plan, &admission, &catalog).expect("reserve");
    let key = "aggregate/source_observations";

    assert_eq!(ledger.path(key), Some(plan.aggregate_outputs.source_observations.clone()));
    assert_eq!(ledger.fill(key, b"").err().expect("empty").message(), "candidate completed output must not be empty");
    assert_eq!(
        ledger.fill("aggregate/unknown", b"x").err().expect("unknown").message(),
        "candidate output key is not in the signed plan"
    );
    assert_eq!(
        ledger.filled_digest(key).err().expect("reserved").message(),
        "candidate aggregate requires every unit output to be filled"
    );
    ledger.fill(key, b"observations").expect("first fill");
    assert!(ledger.fill(key, b"observations").is_err());

    let mut invalid = plan.clone();
    invalid.controlled_inputs.jobs = 0;
    assert!(CandidateOutputLedger::reserve(&invalid, &admission, &catalog).is_err());

    let mut contents = vec![Vec::new(); 86];
    contents[0] = vec![0_u8; (MAX_RESUMED_OUTPUT_BYTES + 1) as usize];
    assert_eq!(
        CandidateOutputLedger::resume(&plan, &admission, &catalog, &contents).err().expect("too large").message(),
        "candidate resumed output exceeds its verification limit"
    );
}

#[test]
fn validates_public_universe_model_resolution_and_retry_semantics() {
    let admission = admission();

    admission.validate("release-key-2026", &catalog()).expect("valid admission");

    assert_eq!(
        resolve_candidate_execution_identity("gpt-5.6-terra-ultra").expect("resolve terra ultra").model_name,
        "gpt-5.6-terra"
    );
    assert!(resolve_candidate_execution_identity("gpt-5.6-luna-ultra").is_err());
    assert_eq!(admission.retry_after_failure(1, false, CandidateAttemptFailure::PreModelAdmission).expect("retry"), Some(30));
    assert_eq!(admission.retry_after_failure(2, false, CandidateAttemptFailure::PreModelAdmission).expect("retry"), Some(90));
    assert_eq!(admission.retry_after_failure(1, true, CandidateAttemptFailure::PreModelAdmission).expect("no retry"), None);
    assert_eq!(admission.retry_after_failure(1, false, CandidateAttemptFailure::EvaluatorFailure).expect("no retry"), None);
}

#[test]
fn candidate_output_never_enters_a_released_surface() {
    for (path, surface) in [
        (ForbiddenCandidatePath::OfficialPackage, "Official package"),
        (ForbiddenCandidatePath::OfficialSubmission, "Official submission"),
        (ForbiddenCandidatePath::Ranking, "ranking"),
        (ForbiddenCandidatePath::ReleasedCatalog, "released catalog"),
    ] {
        assert_eq!(
            reject_released_path(path).err().expect("refused").message(),
            format!("AIQ Core 1.0.2 candidate output cannot enter the {surface} path")
        );
    }
}

#[test]
fn overlapping_paths_are_equal_or_nested_by_component() {
    assert!(do_paths_overlap("/a/b", "/a/b/"));
    assert!(do_paths_overlap("/a/b", "/a/b/c"));
    assert!(do_paths_overlap("/a/b/c", "/a"));
    assert!(!do_paths_overlap("/a/b", "/a/bc"));
    assert!(!do_paths_overlap("/a/b", "a/b"));
}

#[test]
fn authorization_is_private_signed_and_not_a_public_admission() {
    let admission = admission();
    let catalog = catalog();
    let identity = CandidateAuthorizationIdentity::from_secret([7_u8; 32]);
    let authorization = identity
        .authorize(plan("/controlled/root", &admission), &admission, &catalog)
        .expect("authorize plan");

    authorization
        .verify(&admission, &catalog, &identity.signer().node_id, &identity.signer().public_key)
        .expect("verify authorization");

    // The persisted authorization is read back from its canonical bytes at
    // its pinned location and digest.
    let bytes = canonical_bytes(&authorization.to_json()).expect("authorization bytes");
    let digest = digest_bytes(&bytes);
    assert_eq!(digest, authorization.digest().expect("digest"));
    let read = read_verified_execution_authorization(
        authorization.clone(),
        &bytes,
        &authorization.plan.authorization_path,
        &digest,
        &admission,
        &catalog,
        &identity.signer().node_id,
        &identity.signer().public_key,
    )
    .expect("read authorization");

    assert_eq!(read.signature, authorization.signature);
    assert_eq!(read.digest().expect("digest"), authorization.digest().expect("digest"));
    assert!(read_verified_execution_authorization(
        authorization.clone(),
        &bytes,
        "/controlled/root/elsewhere.json",
        &digest,
        &admission,
        &catalog,
        &identity.signer().node_id,
        &identity.signer().public_key,
    )
    .is_err());
}

#[test]
fn canonical_admission_and_split_corpus_references_are_exact() {
    let admission = admission();
    let admission_bytes = canonical_bytes(&admission.to_json()).expect("admission bytes");
    let admission_digest = digest_bytes(&admission_bytes);

    verify_canonical_admission_reference(
        admission.clone(),
        &admission_bytes,
        &admission_digest,
        &admission.execution_plan_digest,
        &admission.corpus_commitment_digest,
        &admission.signer.key_id,
        &catalog(),
    )
    .expect("canonical admission");

    // One trailing line feed is accepted; the digest stays that of the
    // canonical encoding.
    let mut with_newline = admission_bytes.clone();
    with_newline.push(b'\n');
    let verified = verify_canonical_admission_reference(
        admission.clone(),
        &with_newline,
        &admission_digest,
        &admission.execution_plan_digest,
        &admission.corpus_commitment_digest,
        &admission.signer.key_id,
        &catalog(),
    )
    .expect("canonical admission with newline");
    assert_eq!(verified.canonical_sha256, admission_digest);

    // Bytes that are not the admission's canonical encoding are refused,
    // even where their digest is the pinned one.
    let mut spaced = b" ".to_vec();
    spaced.extend_from_slice(&admission_bytes);
    assert_eq!(
        verify_canonical_admission_reference(
            admission.clone(),
            &spaced,
            &digest_bytes(&spaced),
            &admission.execution_plan_digest,
            &admission.corpus_commitment_digest,
            &admission.signer.key_id,
            &catalog(),
        )
        .err()
        .expect("not canonical")
        .message(),
        "candidate reference bytes are not canonical JSON"
    );
    let mut other = admission.clone();
    other.plan_id = format!("{}-other", other.plan_id);
    assert!(verify_canonical_admission_reference(
        other,
        &admission_bytes,
        &admission_digest,
        &admission.execution_plan_digest,
        &admission.corpus_commitment_digest,
        &admission.signer.key_id,
        &catalog(),
    )
    .is_err());

    let core = canonical_bytes(&Json::Object(vec![
        ("schema_version".to_owned(), Json::Text("aiq.corpus-commitment.v2".to_owned())),
        ("side".to_owned(), Json::Text("core".to_owned())),
    ]))
    .expect("core bytes");
    let contrast = canonical_bytes(&Json::Object(vec![
        ("schema_version".to_owned(), Json::Text("aiq.corpus-commitment.v2".to_owned())),
        ("side".to_owned(), Json::Text("contrast".to_owned())),
    ]))
    .expect("contrast bytes");
    let manifest = ReleaseGateCorpusManifestV1 {
        schema_version: RELEASE_GATE_CORPUS_MANIFEST_SCHEMA.to_owned(),
        release_identity: RELEASE_IDENTITY.to_owned(),
        catalog_release_identity_digest: CANDIDATE_CATALOG_RELEASE_IDENTITY_SHA256.to_owned(),
        task_metadata_identity_digest: CANDIDATE_TASK_IDENTITY_SHA256.to_owned(),
        canonicalization: SORTED_KEY_JSON.to_owned(),
        core_task_count: 72,
        contrast_task_count: 6,
        core_corpus_commitment_sha256: digest_bytes(&core),
        contrast_corpus_commitment_sha256: digest_bytes(&contrast),
    };
    let manifest_bytes = canonical_bytes(&manifest.to_json()).expect("manifest bytes");
    let mut other_count = corpus_manifest(&core, &contrast);
    other_count.contrast_task_count = 7;
    assert_eq!(
        verify_release_gate_corpus_references(
            other_count,
            &manifest_bytes,
            "/controlled/release-corpus.json",
            &digest_bytes(&manifest_bytes),
            &core,
            "/controlled/core.json",
            &digest_bytes(&core),
            &contrast,
            "/controlled/contrast.json",
            &digest_bytes(&contrast),
        )
        .err()
        .expect("typed manifest differs from its bytes")
        .message(),
        "candidate reference bytes are not canonical JSON"
    );
    let verified = verify_release_gate_corpus_references(
        manifest,
        &manifest_bytes,
        "/controlled/release-corpus.json",
        &digest_bytes(&manifest_bytes),
        &core,
        "/controlled/core.json",
        &digest_bytes(&core),
        &contrast,
        "/controlled/contrast.json",
        &digest_bytes(&contrast),
    )
    .expect("split corpus references");

    assert_eq!(verified.manifest.core_task_count, 72);
    assert_eq!(verified.manifest.contrast_task_count, 6);
}

use aiq_runner::release_gate::parse_canonical_timestamp;

/// Days from 1970-01-01 to a proleptic Gregorian date, by the civil-calendar
/// formula the timestamp contract states.
fn civil_days(y: i64, m: i64, d: i64) -> i64 {
    let y2 = if m <= 2 { y - 1 } else { y };
    let era = y2.div_euclid(400);
    let yoe = y2 - era * 400;
    let mp = if m > 2 { m - 3 } else { m + 9 };
    let doy = (153 * mp + 2) / 5 + d - 1;
    let doe = yoe * 365 + yoe / 4 - yoe / 100 + doy;
    era * 146_097 + doe - 719_468
}

fn month_days(y: i64, m: i64) -> i64 {
    let leap = (y % 4 == 0 && y % 100 != 0) || y % 400 == 0;
    match m {
        2 if leap => 29,
        2 => 28,
        4 | 6 | 9 | 11 => 30,
        _ => 31,
    }
}

#[test]
fn canonical_timestamps_name_their_calendar_instant() {
    assert_eq!(parse_canonical_timestamp("1970-01-01T00:00:00.000Z").expect("epoch"), 0);
    assert_eq!(
        parse_canonical_timestamp("2026-08-02T01:30:00.250Z").expect("instant"),
        1_785_634_200_250_000_000
    );
    for (y, m, d, h, mi, s, ms) in [
        (1, 1, 1, 0, 0, 0, 0),
        (1600, 2, 29, 12, 0, 0, 1),
        (1899, 12, 31, 23, 59, 59, 999),
        (2000, 2, 29, 6, 7, 8, 9),
        (2024, 3, 1, 0, 0, 0, 0),
        (2100, 2, 28, 23, 0, 1, 500),
        (9998, 12, 31, 23, 59, 59, 999),
    ] {
        assert!(d <= month_days(y, m));
        let text = format!("{y:04}-{m:02}-{d:02}T{h:02}:{mi:02}:{s:02}.{ms:03}Z");
        let expected = ((civil_days(y, m, d) * 86_400 + h * 3_600 + mi * 60 + s) as i128 * 1_000 + ms as i128)
            * 1_000_000;
        assert_eq!(parse_canonical_timestamp(&text).expect("calendar instant"), expected, "{text}");
    }
    // Every day of a leap-century span, against the same formula.
    let mut y = 1896;
    while y <= 1904 {
        for m in 1..=12 {
            for d in 1..=month_days(y, m) {
                let text = format!("{y:04}-{m:02}-{d:02}T00:00:00.000Z");
                let expected = civil_days(y, m, d) as i128 * 86_400_000_000_000;
                assert_eq!(parse_canonical_timestamp(&text).expect("day"), expected, "{text}");
            }
        }
        y += 4;
    }
    assert!(parse_canonical_timestamp("2023-02-29T00:00:00.000Z").is_err());
    assert!(parse_canonical_timestamp("2026-08-02T01:30:00Z").is_err());
}

use aiq_runner::release_gate::evaluator::CandidateEvaluatorResult;

fn evaluator_components() -> Vec<CandidateEvaluatorComponent> {
    [3_000, 2_500, 2_500, 2_000]
        .into_iter()
        .enumerate()
        .map(|(component, weight_basis_points)| CandidateEvaluatorComponent {
            component_id: format!("component_{:02}", component + 1),
            weight_basis_points,
            assertions: (0..4)
                .map(|assertion| CandidateAssertion {
                    assertion_id: format!("component_{:02}_assertion_{:02}", component + 1, assertion + 1),
                    passed: !(component == 0 && assertion == 0),
                    evidence_sha256: digest(char::from(b'a' + assertion as u8)),
                })
                .collect(),
        })
        .collect()
}

fn evaluator_result(components: Vec<CandidateEvaluatorComponent>, numerator: u64) -> CandidateEvaluatorResult {
    CandidateEvaluatorResult {
        schema_version: "aiq.candidate-evaluator-result.v1".to_owned(),
        task_id: "task-a".to_owned(),
        task_version: "1.0.2".to_owned(),
        scorer_version: "1.0.2".to_owned(),
        components,
        score_numerator: numerator,
        score_denominator: 40,
        score_decimal_6: "0.925000".to_owned(),
    }
}

#[test]
fn evaluator_result_digest_fails_with_the_first_refusal() {
    let valid = evaluator_result(evaluator_components(), 37);
    let digest = valid.digest().expect("digest");
    assert!(digest.starts_with("sha256:"));
    assert_eq!(evaluator_result(evaluator_components(), 37).digest().expect("digest"), digest);

    let refusal = |r: &CandidateEvaluatorResult| r.digest().err().expect("refused").message();
    assert_eq!(
        refusal(&evaluator_result(evaluator_components(), 36)),
        "candidate evaluator score does not match its binary assertions"
    );
    let mut swapped = evaluator_components();
    swapped.swap(0, 1);
    let swapped_result = evaluator_result(swapped, 37);
    assert_eq!(
        refusal(&swapped_result),
        "candidate evaluator component identity, weight, or assertion count is invalid"
    );
    let mut evidence = evaluator_components();
    evidence[2].assertions[1].evidence_sha256 = "sha256:short".to_owned();
    assert_eq!(
        refusal(&evaluator_result(evidence, 37)),
        "candidate evaluator assertion identity or evidence is invalid"
    );
    let mut three = evaluator_components();
    three.pop();
    assert_eq!(
        refusal(&evaluator_result(three, 37)),
        "candidate evaluator must contain exactly four ordered components"
    );
    let mut renamed = evaluator_result(evaluator_components(), 37);
    renamed.scorer_version = "9.9.9".to_owned();
    assert_eq!(refusal(&renamed), "candidate evaluator result identity is invalid");
    let mut decimal = evaluator_result(evaluator_components(), 37);
    decimal.score_decimal_6 = "0.9250".to_owned();
    assert_eq!(refusal(&decimal), "candidate evaluator score does not match its binary assertions");
}

#[test]
fn ledger_states_are_listed_in_key_order() {
    let admission = admission();
    let catalog = catalog();
    let plan = plan("/controlled/root", &admission);
    let ledger = CandidateOutputLedger::reserve(&plan, &admission, &catalog).expect("reserve");
    let states = ledger.states();
    assert_eq!(states.len(), 86);
    assert!(states.windows(2).all(|w| w[0].0 < w[1].0));
    let mut keys = plan.output_paths().iter().map(|(key, _)| key.clone()).collect::<Vec<_>>();
    keys.sort();
    assert_eq!(states.iter().map(|(key, _)| key.clone()).collect::<Vec<_>>(), keys);
}

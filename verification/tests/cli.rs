use aiq_runner::cli::{
    calibration_output_reservation, official_output_reservation,
    bind_execution_concurrency, canary_path_digest, parse_artifact_upload_concurrency,
    parse_run_observed_at, permission_canary_evidence_digest, preflight_expiry,
    require_successful_package_submission, safe_task_issue_message, select_models, select_tasks, ensure_unique_task_ids,
    validate_dispatch_window, validate_run_mode_options, DispatchDeadline, ExecutionWindow,
    PermissionEvidenceDigests, SubmissionBundleOutcome, SubmissionOutcome, SubmissionOutcomeKind,
    DEFAULT_ARTIFACT_UPLOAD_CONCURRENCY, MAX_ARTIFACT_UPLOAD_CONCURRENCY,
};
use aiq_runner::capacity::MAX_RUN_JOBS;
use aiq_runner::model::{ModelConfig, ModelFamily, ReasoningEffort};
use aiq_runner::corpus::RunClass;
use aiq_runner::digest::{canonical_hash, Json};

fn text(s: &str) -> Json {
    Json::Text(s.to_owned())
}

fn legacy_canary_digest(bindings: &[(String, String, String)]) -> String {
    let items = bindings
        .iter()
        .map(|(a, b, c)| Json::Array(vec![text(a), text(b), text(c)]))
        .collect::<Vec<_>>();

    canonical_hash(&Json::Array(vec![
        text("aiq.permission-canary-evidence.v1"),
        Json::Array(items),
        text("passed"),
    ]))
    .expect("legacy permission canary evidence digest")
}

#[test]
fn permission_canary_evidence_digest_commits_to_executable_canary_schema() {
    let bindings = vec![
        ("workspace".to_owned(), "sha256:workspace".to_owned(), "directory".to_owned()),
        ("toolchain".to_owned(), "sha256:toolchain".to_owned(), "directory".to_owned()),
    ];
    let digest =
        permission_canary_evidence_digest(&bindings).expect("permission canary evidence digest");
    let legacy_digest = legacy_canary_digest(&bindings);

    assert!(digest.starts_with("sha256:"));
    assert_ne!(digest, legacy_digest);
    assert_eq!(
        digest,
        permission_canary_evidence_digest(&bindings).expect("stable permission canary evidence digest")
    );
}

#[test]
fn package_concurrency_is_explicitly_bound_and_cannot_drift() {
    let mut missing = None;

    bind_execution_concurrency(&mut missing, Some(17)).expect("bind frozen run");

    assert_eq!(missing, Some(17));
    assert!(bind_execution_concurrency(&mut missing, Some(16)).is_err());

    let mut absent = None;

    assert!(bind_execution_concurrency(&mut absent, None).is_err());
    assert!(bind_execution_concurrency(&mut absent, Some(0)).is_err());
    assert!(bind_execution_concurrency(&mut absent, Some(MAX_RUN_JOBS + 1)).is_err());
}

#[test]
fn submit_artifact_upload_concurrency_has_a_bounded_default_and_override() {
    let default = DEFAULT_ARTIFACT_UPLOAD_CONCURRENCY.to_string();

    assert_eq!(
        parse_artifact_upload_concurrency(&default).expect("default submit arguments"),
        DEFAULT_ARTIFACT_UPLOAD_CONCURRENCY
    );

    let override_value = MAX_ARTIFACT_UPLOAD_CONCURRENCY.to_string();

    assert_eq!(
        parse_artifact_upload_concurrency(&override_value).expect("bounded submit override"),
        MAX_ARTIFACT_UPLOAD_CONCURRENCY
    );
    assert!(parse_artifact_upload_concurrency("0").is_err());
    assert!(parse_artifact_upload_concurrency("33").is_err());
}

fn outcome(kind: SubmissionOutcomeKind, status: Option<u16>) -> SubmissionBundleOutcome {
    SubmissionBundleOutcome {
        schema_version: "aiq.submission-outcome.v1".to_owned(),
        artifacts_total: 1,
        artifacts_stored: 1,
        artifacts_duplicate: 0,
        package: SubmissionOutcome {
            kind,
            status,
            server_disposition: "untrusted response body highly-secret".to_owned(),
        },
    }
}

#[test]
fn submit_cli_succeeds_only_for_accepted_or_exact_duplicate_packages() {
    for kind in [SubmissionOutcomeKind::Accepted, SubmissionOutcomeKind::Duplicate] {
        assert!(require_successful_package_submission(&outcome(kind, Some(202))).is_ok());
    }
    for (kind, status) in [
        (SubmissionOutcomeKind::Conflict, Some(409)),
        (SubmissionOutcomeKind::ClientError, Some(422)),
        (SubmissionOutcomeKind::ServerError, Some(503)),
        (SubmissionOutcomeKind::Network, None),
        (SubmissionOutcomeKind::Timeout, None),
        (SubmissionOutcomeKind::Configuration, None),
    ] {
        let diagnostic = require_successful_package_submission(&outcome(kind, status))
            .expect_err("non-queue outcome must make submit fail");

        assert!(diagnostic.contains(kind.as_str()));
        assert!(!diagnostic.contains("untrusted response body"));
        assert!(!diagnostic.contains("highly-secret"));
    }
}

#[test]
fn failed_submission_names_its_kind_and_status() {
    assert_eq!(
        require_successful_package_submission(&outcome(SubmissionOutcomeKind::Conflict, Some(409)))
            .expect_err("conflict"),
        "package submission failed with conflict with HTTP 409"
    );
    assert_eq!(
        require_successful_package_submission(&outcome(SubmissionOutcomeKind::Timeout, None))
            .expect_err("timeout"),
        "package submission failed with timeout without an HTTP status"
    );
}

#[test]
fn artifact_upload_concurrency_accepts_only_plain_decimal_counts() {
    assert_eq!(parse_artifact_upload_concurrency("+7"), Ok(7));
    assert_eq!(parse_artifact_upload_concurrency("007"), Ok(7));
    assert_eq!(parse_artifact_upload_concurrency("1"), Ok(1));
    assert_eq!(
        parse_artifact_upload_concurrency("x"),
        Err("artifact upload concurrency must be a positive integer".to_owned())
    );
    assert!(parse_artifact_upload_concurrency("").is_err());
    assert!(parse_artifact_upload_concurrency("+").is_err());
    assert!(parse_artifact_upload_concurrency("-1").is_err());
    assert!(parse_artifact_upload_concurrency(" 1").is_err());
    assert!(parse_artifact_upload_concurrency("99999999999999999999999").is_err());
    assert_eq!(
        parse_artifact_upload_concurrency("40"),
        Err("artifact upload concurrency must be between 1 and 32".to_owned())
    );
}

#[test]
fn observed_at_is_canonical_positive_unix_milliseconds() {
    assert_eq!(parse_run_observed_at("unix-ms:1700000000000").expect("canonical"), "unix-ms:1700000000000");
    assert_eq!(parse_run_observed_at("unix-ms:5").expect("canonical"), "unix-ms:5");
    assert!(parse_run_observed_at("unix-ms:0").is_err());
    assert!(parse_run_observed_at("unix-ms:01").is_err());
    assert!(parse_run_observed_at("unix-ms:").is_err());
    assert!(parse_run_observed_at("unix-s:5").is_err());
    assert!(parse_run_observed_at("unix-ms:+5").is_err());
    assert!(parse_run_observed_at("unix-ms:18446744073709551616").is_err());
    assert_eq!(
        parse_run_observed_at("unix-ms:18446744073709551615").expect("largest"),
        "unix-ms:18446744073709551615"
    );
}

#[test]
fn dispatch_is_admitted_only_inside_the_slot_before_expiry() {
    let window = ExecutionWindow { scheduled_unix_ms: 1_000, next_slot_unix_ms: 2_000 };

    assert_eq!(
        validate_dispatch_window(5_000, &window, 1_500),
        Ok(DispatchDeadline { dispatched_unix_ms: 1_500, next_slot_unix_ms: 2_000 })
    );
    assert!(validate_dispatch_window(5_000, &window, 1_000).is_ok());
    assert!(validate_dispatch_window(5_000, &window, 999).is_err());
    assert!(validate_dispatch_window(5_000, &window, 2_000).is_err());
    assert!(validate_dispatch_window(1_500, &window, 1_500).is_err());
}

#[test]
fn preflight_expiry_is_checked_millisecond_arithmetic() {
    assert_eq!(preflight_expiry(1_000, 60), Ok((1_000, 61_000)));
    assert!(preflight_expiry(u64::MAX - 10, 1).is_err());
    assert!(preflight_expiry(0, u64::MAX / 999).is_err());
}

#[test]
fn official_runs_need_the_official_shape_and_a_durable_output() {
    assert!(validate_run_mode_options(RunClass::Official, true, "out.json").is_ok());
    assert!(validate_run_mode_options(RunClass::Official, false, "out.json").is_err());
    assert!(validate_run_mode_options(RunClass::Official, true, "-").is_err());
    assert!(validate_run_mode_options(RunClass::Calibration, false, "-").is_ok());
}

#[test]
fn issue_messages_never_echo_unknown_codes() {
    assert_eq!(safe_task_issue_message("invalid_json"), "task record is not valid JSON");
    assert_eq!(safe_task_issue_message("duplicate_task"), "task identifier and version must be unique");
    assert_eq!(safe_task_issue_message("secret-token"), "task input is invalid");
}

#[test]
fn task_selection_is_exact_and_keeps_task_order() {
    let tasks = vec!["a".to_owned(), "b".to_owned(), "c".to_owned()];

    assert_eq!(select_tasks(&tasks, &Vec::new()), Ok(vec![0, 1, 2]));
    assert_eq!(select_tasks(&tasks, &vec!["c".to_owned(), "a".to_owned()]), Ok(vec![0, 2]));
    assert!(select_tasks(&tasks, &vec!["a".to_owned(), "a".to_owned()]).is_err());
    assert!(select_tasks(&tasks, &vec!["z".to_owned()]).is_err());
}

#[test]
fn permission_evidence_digests_bind_each_component() {
    let digests = PermissionEvidenceDigests {
        permission_policy_digest: "sha256:policy".to_owned(),
        managed_requirements_digest: "sha256:requirements".to_owned(),
        profile_selection_digest: "sha256:profile".to_owned(),
        canary_digest: "sha256:canary".to_owned(),
    };
    let combined = digests.combined_digest().expect("combined digest");
    let mut changed = digests.clone();

    changed.canary_digest = "sha256:other".to_owned();

    assert!(combined.starts_with("sha256:"));
    assert_eq!(combined.len(), 71);
    assert_ne!(combined, changed.combined_digest().expect("changed digest"));
    assert_ne!(
        canary_path_digest("/controlled/a").expect("path digest"),
        canary_path_digest("/controlled/b").expect("path digest")
    );
}

#[test]
fn merged_task_sources_keep_the_first_task_of_each_identifier() {
    let ids = vec!["a".to_owned(), "b".to_owned(), "a".to_owned(), "c".to_owned(), "b".to_owned()];

    assert_eq!(ensure_unique_task_ids(&ids), (vec![0, 1, 3], true));
    assert_eq!(ensure_unique_task_ids(&vec!["x".to_owned(), "y".to_owned()]), (vec![0, 1], false));
    assert_eq!(ensure_unique_task_ids(&Vec::new()), (Vec::new(), false));
}

#[test]
fn model_selectors_pick_matrix_cells_in_matrix_order() {
    assert_eq!(select_models(&Vec::new()).expect("whole matrix").len(), 17);
    let picked = select_models(&vec!["terra-high".to_owned(), "sol-low".to_owned()]).expect("two cells");
    assert_eq!(
        picked,
        vec![
            ModelConfig { family: ModelFamily::Sol, reasoning_effort: ReasoningEffort::Low },
            ModelConfig { family: ModelFamily::Terra, reasoning_effort: ReasoningEffort::High },
        ]
    );
    assert_eq!(
        select_models(&vec!["sol-low".to_owned(), "sol-low".to_owned()]).err().expect("duplicate"),
        "model selectors must be unique"
    );
    assert_eq!(
        select_models(&vec!["not-a-model".to_owned()]).err().expect("unknown"),
        "one or more model selectors do not match the exact matrix"
    );
    assert!(select_models(&vec!["luna-ultra".to_owned()]).is_err());
    assert_eq!(select_models(&vec!["luna-max".to_owned()]).expect("last cell").len(), 1);
}

#[test]
fn output_reservations_name_their_run() {
    assert_eq!(official_output_reservation("run-7"), "AIQ_OFFICIAL_OUTPUT_RESERVED_V1 run-7\n");
    assert_eq!(calibration_output_reservation("run-7"), "AIQ_CALIBRATION_OUTPUT_RESERVED_V1 run-7\n");
}

use aiq_runner::cli::{validation_requirements, CorpusValidationMode};

#[test]
fn validation_options_fit_the_loaded_tasks() {
    let all = |mode, count| validation_requirements(true, true, true, true, true, true, mode, count);
    assert!(all(CorpusValidationMode::Released, 72).is_ok());
    assert!(all(CorpusValidationMode::Core, 72).is_ok());
    assert!(all(CorpusValidationMode::Contrast, 6).is_ok());
    assert_eq!(all(CorpusValidationMode::Contrast, 5).err().expect("count"), "contrast validation requires exactly six tasks");
    assert_eq!(
        validation_requirements(true, false, true, true, true, true, CorpusValidationMode::Released, 1).err().expect("corpus"),
        "external task validation requires --corpus-commitment"
    );
    assert_eq!(
        validation_requirements(true, true, true, true, true, false, CorpusValidationMode::Released, 1).err().expect("toolchain"),
        "external task validation requires --codex-toolchain-root"
    );
    assert!(validation_requirements(false, false, false, false, false, false, CorpusValidationMode::Released, 3).is_ok());
    for (evaluator_root, mode) in [(true, CorpusValidationMode::Released), (false, CorpusValidationMode::Core)] {
        assert_eq!(
            validation_requirements(false, false, false, evaluator_root, false, false, mode, 3).err().expect("options"),
            "evaluator options require at least one external task"
        );
    }
}

use aiq_runner::cli::{check_admitted_permission_evidence, live_run_admission};

#[test]
fn live_runs_read_an_admission_exactly_when_official() {
    assert_eq!(live_run_admission(RunClass::Official, true), Ok(true));
    assert_eq!(live_run_admission(RunClass::Calibration, false), Ok(false));
    assert_eq!(
        live_run_admission(RunClass::Official, false).err().expect("missing"),
        "Official run requires --official-admission before any paid preflight"
    );
    assert_eq!(
        live_run_admission(RunClass::Calibration, true).err().expect("extra"),
        "calibration runs must not consume an Official admission receipt"
    );
    assert!(check_admitted_permission_evidence(None, "sha256:x").is_ok());
    assert!(check_admitted_permission_evidence(Some(Some("sha256:x")), "sha256:x").is_ok());
    for admitted in [Some(Some("sha256:y")), Some(None)] {
        assert_eq!(
            check_admitted_permission_evidence(admitted, "sha256:x").err().expect("changed"),
            "permission evidence changed after Official admission; no task model was invoked"
        );
    }
}

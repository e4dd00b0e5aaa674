use aiq_runner::corpus::{
    is_valid_executable_file_size, is_valid_runtime_version, is_valid_source_path, validate_historical_calibration_provenance,
    validate_run_provenance, RunClass, RunProvenanceCommitment,
    CONTROLLED_CONTRAST_CATALOG_IDENTITY_SHA256,
};

use aiq_runner::corpus::document::{validate_runner_runtime_provenance, RunnerRuntimeProvenance};
use aiq_runner::corpus::toolchain::{validate_controlled_openssl_environment, ExecutionToolPolicy};
use aiq_runner::digest::{canonical_hash, Json};

fn repeated(c: &str) -> String {
    format!("sha256:{}", c.repeat(64))
}

/// The ordered task-metadata identity of the fixture's core catalog.
fn core_identity() -> String {
    repeated("5f")[..71].to_owned()
}

fn fixture_run_provenance_for_class(
    run_class: RunClass,
    task_set_digest: String,
    evaluator_digest: String,
    runtime_digest: String,
    preflight_digest: String,
) -> RunProvenanceCommitment {
    RunProvenanceCommitment {
        schema_version: "aiq.run-provenance.v3".to_owned(),
        run_class,
        corpus_release_id: "corpus_fixture".to_owned(),
        corpus_commitment_sha256: repeated("1"),
        catalog_digest: core_identity(),
        task_set_digest,
        evaluator_digest,
        runtime_digest,
        preflight_digest,
        harness_digest: repeated("2"),
        prompt_digest: repeated("3"),
        tool_policy_digest: repeated("4"),
        network_policy_digest: repeated("5"),
        environment_digest: repeated("6"),
        source_manifest_digest: repeated("7"),
        runner_executable_digest: repeated("8"),
        codex_executable_digest: repeated("9"),
        codex_code_mode_host_digest: repeated("b"),
        permission_evidence_digest: repeated("a"),
    }
}

#[test]
fn executable_size_validation_rejects_empty_files_without_a_maximum() {
    assert!(!is_valid_executable_file_size(0));
    assert!(is_valid_executable_file_size(270_605_984));
    assert!(is_valid_executable_file_size(512 * 1_024 * 1_024 + 1));
    assert!(is_valid_executable_file_size(u64::MAX));
}

#[test]
fn current_and_contrast_provenance_enforce_run_class() {
    let task_set = repeated("b");
    let preflight = repeated("c");
    let mut provenance = fixture_run_provenance_for_class(
        RunClass::Calibration,
        task_set.clone(),
        repeated("d"),
        repeated("e"),
        preflight.clone(),
    );

    assert!(validate_run_provenance(&provenance, &task_set, &preflight, &core_identity()).is_ok());

    provenance.run_class = RunClass::Official;

    assert!(validate_run_provenance(&provenance, &task_set, &preflight, &core_identity()).is_ok());

    provenance.catalog_digest = CONTROLLED_CONTRAST_CATALOG_IDENTITY_SHA256.to_owned();

    assert!(validate_run_provenance(&provenance, &task_set, &preflight, &core_identity()).is_err());

    provenance.run_class = RunClass::Calibration;

    assert!(validate_run_provenance(&provenance, &task_set, &preflight, &core_identity()).is_ok());

    provenance.run_class = RunClass::Official;

    assert!(validate_run_provenance(&provenance, &task_set, &preflight, &core_identity()).is_err());

    provenance.run_class = RunClass::Calibration;
    provenance.catalog_digest = repeated("f");

    assert!(validate_run_provenance(&provenance, &task_set, &preflight, &core_identity()).is_err());
    assert!(validate_historical_calibration_provenance(&provenance, &task_set, &preflight, &core_identity()).is_ok());

    provenance.run_class = RunClass::Official;

    assert!(validate_historical_calibration_provenance(&provenance, &task_set, &preflight, &core_identity()).is_err());
}

#[test]
fn source_manifest_path_grammar_matches_the_public_commitment_contract() {
    assert!(is_valid_source_path("apps/aiq-runner/src/runner.rs"));
    assert!(is_valid_source_path(".github/dependabot.yml"));
    assert!(is_valid_source_path("component.../file_name-01.rs"));

    for path in [
        "",
        "/absolute.rs",
        "./file.rs",
        "dir/./file.rs",
        "dir/../file.rs",
        "../file.rs",
        "dir//file.rs",
        "dir/",
        "dir\\file.rs",
        "C:/file.rs",
        "dir/file.rs\n",
        "dir/file.rs\r\n",
        "dir/file.rs\u{2028}",
        "dir/file.rs\u{2029}",
    ] {
        assert!(!is_valid_source_path(path), "{path:?} must be rejected");
    }

    assert!(!is_valid_source_path(&"a".repeat(241)));
}

#[test]
fn bounded_runtime_version_is_not_parsed_as_a_digest() {
    assert!(is_valid_runtime_version("v24.18.0"));
    assert!(!is_valid_runtime_version(""));
    assert!(!is_valid_runtime_version(&"9".repeat(129)));
    assert!(!is_valid_runtime_version("v24\n"));
}

fn platform_policy(platform: &str) -> ExecutionToolPolicy {
    ExecutionToolPolicy {
        schema_version: "aiq.execution-tool-policy.v1".to_owned(),
        platform: platform.to_owned(),
        architecture: "x64".to_owned(),
        platform_minimal_path: "linux_v1".to_owned(),
        inherit_path: false,
        use_shell_profile: false,
        commands: Vec::new(),
    }
}

#[test]
fn controlled_openssl_environment_has_one_platform_mapping() {
    for (platform, openssl_conf) in [("darwin", "/dev/null"), ("linux", "/dev/null"), ("win32", "NUL")] {
        let policy = platform_policy(platform);

        validate_controlled_openssl_environment(
            &Some(platform.to_owned()),
            &Some(openssl_conf.to_owned()),
            &policy,
        )
        .expect("platform-bound OpenSSL configuration");

        let wrong = if openssl_conf == "NUL" { "/dev/null" } else { "NUL" };

        assert!(validate_controlled_openssl_environment(
            &Some(platform.to_owned()),
            &Some(wrong.to_owned()),
            &policy,
        )
        .is_err());
    }
}

fn runner_source_manifest(digest: &str) -> Json {
    Json::Object(vec![
        ("schema_version".to_owned(), Json::Text("aiq.runner-source-manifest.v1".to_owned())),
        ("package".to_owned(), Json::Text("aiq-runner".to_owned())),
        ("scope".to_owned(), Json::Text("cargo_build_and_test_inputs".to_owned())),
        ("path_base".to_owned(), Json::Text("repository_root".to_owned())),
        (
            "entries".to_owned(),
            Json::Array(vec![Json::Object(vec![
                ("path".to_owned(), Json::Text("apps/aiq-runner/src/runner.rs".to_owned())),
                ("sha256".to_owned(), Json::Text(digest.to_owned())),
            ])]),
        ),
    ])
}

fn runner_provenance(identity_kind: &str, built_binary_is_null: bool, manifest_entry: &str) -> RunnerRuntimeProvenance {
    let manifest_sha256 =
        canonical_hash(&runner_source_manifest(&repeated("1"))).expect("source manifest digest");
    RunnerRuntimeProvenance {
        identity_kind: identity_kind.to_owned(),
        built_binary_is_null,
        source_manifest_sha256: manifest_sha256,
        source_manifest: runner_source_manifest(manifest_entry),
    }
}

#[test]
fn runner_runtime_provenance_requires_exact_source_only_contract() {
    assert!(validate_runner_runtime_provenance(&runner_provenance("source_only", true, &repeated("1"))).is_ok());
    assert!(validate_runner_runtime_provenance(&runner_provenance("built_binary", true, &repeated("1"))).is_err());
    assert!(validate_runner_runtime_provenance(&runner_provenance("source_only", false, &repeated("1"))).is_err());
    assert!(validate_runner_runtime_provenance(&runner_provenance("source_only", true, &repeated("2"))).is_err());
}

use aiq_runner::corpus::toolchain::{
    validate_model_toolchain, validate_model_toolchain_static, EvaluatorRuntime, ObservedToolchainEntry,
    ObservedToolchainRoot, ToolchainCommand,
};
use aiq_runner::digest::digest_bytes;

const NODE_BYTES: &[u8] = b"\x7fELF node runtime";
const RG_BYTES: &[u8] = b"\x7fELF ripgrep";

fn toolchain_policy() -> ExecutionToolPolicy {
    ExecutionToolPolicy {
        schema_version: "aiq.execution-tool-policy.v1".to_owned(),
        platform: "linux".to_owned(),
        architecture: "x64".to_owned(),
        platform_minimal_path: "linux_v1".to_owned(),
        inherit_path: false,
        use_shell_profile: false,
        commands: vec![
            ToolchainCommand {
                name: "node".to_owned(),
                executable_ref: "node".to_owned(),
                executable_sha256: digest_bytes(NODE_BYTES),
                version: "v22.1.0".to_owned(),
            },
            ToolchainCommand {
                name: "rg".to_owned(),
                executable_ref: "rg".to_owned(),
                executable_sha256: digest_bytes(RG_BYTES),
                version: "ripgrep 15.1.0".to_owned(),
            },
        ],
    }
}

fn evaluator_runtime() -> EvaluatorRuntime {
    EvaluatorRuntime {
        executable: "/controlled/toolchain/node".to_owned(),
        executable_digest: digest_bytes(NODE_BYTES),
        version: "v22.1.0".to_owned(),
    }
}

fn toolchain_entry(name: &str, bytes: &[u8], version: &str) -> ObservedToolchainEntry {
    ObservedToolchainEntry {
        file_name: name.to_owned(),
        canonical_path: format!("/controlled/toolchain/{name}"),
        is_symlink: false,
        is_file: true,
        mode: Some(0o755),
        bytes: bytes.to_vec(),
        version: version.to_owned(),
    }
}

fn toolchain_root() -> ObservedToolchainRoot {
    ObservedToolchainRoot {
        path: "/controlled/./toolchain".to_owned(),
        is_symlink: false,
        is_dir: true,
        canonical_path: "/controlled/toolchain".to_owned(),
        entries: vec![
            toolchain_entry("rg", RG_BYTES, "ripgrep 15.1.0"),
            toolchain_entry("node", NODE_BYTES, "v22.1.0"),
        ],
    }
}

fn toolchain_refusal(root: &ObservedToolchainRoot) -> String {
    validate_model_toolchain(root, &toolchain_policy(), &evaluator_runtime(), "linux", "x86_64")
        .err()
        .expect("refused")
        .message()
}

#[test]
fn controlled_toolchain_hashes_the_committed_files() {
    let policy = toolchain_policy();
    let validated = validate_model_toolchain(&toolchain_root(), &policy, &evaluator_runtime(), "linux", "x86_64")
        .expect("toolchain");
    assert_eq!(validated.root(), "/controlled/toolchain");
    assert_eq!(validated.digest(), canonical_hash(&policy.to_json()).expect("policy digest"));
    assert_eq!(validated.path_value(), "/controlled/toolchain:/usr/local/sbin:/usr/local/bin:/usr/sbin:/usr/bin:/sbin:/bin");

    assert!(validate_model_toolchain(&toolchain_root(), &policy, &evaluator_runtime(), "macos", "x86_64").is_err());
}

#[test]
fn controlled_toolchain_rejects_root_and_entry_drift() {
    let mut relative = toolchain_root();
    relative.path = "relative/toolchain".to_owned();
    assert_eq!(toolchain_refusal(&relative), "Codex toolchain root must be absolute");

    let mut linked_root = toolchain_root();
    linked_root.is_symlink = true;
    assert_eq!(toolchain_refusal(&linked_root), "Codex toolchain root must be a regular directory");

    let mut file_root = toolchain_root();
    file_root.is_dir = false;
    assert_eq!(toolchain_refusal(&file_root), "Codex toolchain root must be a regular directory");

    let mut linked_entry = toolchain_root();
    linked_entry.entries[0].is_symlink = true;
    assert_eq!(toolchain_refusal(&linked_entry), "Codex toolchain entries must be regular executable files");

    let mut not_executable = toolchain_root();
    not_executable.entries[1].mode = Some(0o644);
    assert_eq!(toolchain_refusal(&not_executable), "Codex toolchain entry is not executable");

    let mut tampered = toolchain_root();
    tampered.entries[0].bytes.push(0);
    assert_eq!(
        toolchain_refusal(&tampered),
        "Codex toolchain executable identity does not match its commitment"
    );

    let mut other_version = toolchain_root();
    other_version.entries[0].version = "ripgrep 15.2.0".to_owned();
    assert_eq!(
        toolchain_refusal(&other_version),
        "Codex toolchain executable identity does not match its commitment"
    );
    // Without probing, the committed version stands in for the observed one.
    assert!(validate_model_toolchain_static(
        &other_version,
        &toolchain_policy(),
        &evaluator_runtime(),
        "linux",
        "x86_64"
    )
    .is_ok());

    let mut moved_node = toolchain_root();
    moved_node.entries[1].canonical_path = "/elsewhere/node".to_owned();
    assert_eq!(
        toolchain_refusal(&moved_node),
        "model and evaluator Node.js runtimes must have one exact identity"
    );

    let mut extra = toolchain_root();
    extra.entries.push(toolchain_entry("git", b"git", "git 2"));
    assert_eq!(
        toolchain_refusal(&extra),
        "Codex toolchain root must contain exactly the committed executables"
    );
}

use aiq_runner::corpus::document::{
    catalog_contract, commitment_json, validate_evaluator_runtime_commitment, validate_selected_catalog_budgets, CatalogContract,
    CorpusCatalog, CorpusCommitment, CorpusExecution, CorpusRuntimeProvenance, FrozenCatalogTask, SelectedTask,
    SourceManifest, BUDGET_MISMATCH,
};

fn frozen_catalog() -> Vec<FrozenCatalogTask> {
    (0..72)
        .map(|i| FrozenCatalogTask {
            task_id: format!("core-task-{i:02}"),
            task_version: "1.0.0".to_owned(),
            allowed_tools: vec!["shell".to_owned()],
            budget: format!("{{\"max_steps\":{}}}", 10 + i),
        })
        .collect()
}

fn selected(task_id: &str, budget: &str) -> SelectedTask {
    SelectedTask {
        task_id: task_id.to_owned(),
        task_version: "1.0.0".to_owned(),
        content_hash: repeated("c"),
        hidden: true,
        catalog_entry_digest: None,
        allowed_tools: vec!["shell".to_owned()],
        budget: budget.to_owned(),
        external_evaluator: None,
    }
}

#[test]
fn core_validation_refuses_each_budget_mismatch_with_its_message() {
    let contract = CatalogContract::core_catalog(frozen_catalog(), &core_identity()).expect("core contract");
    assert!(validate_selected_catalog_budgets(&[selected("core-task-03", "{\"max_steps\":13}")], &contract).is_ok());
    for bad in [selected("core-task-03", "{\"max_steps\":1}"), selected("core-task-99", "{\"max_steps\":13}")] {
        assert_eq!(
            validate_selected_catalog_budgets(&[bad], &contract).err().expect("mismatch").message(),
            BUDGET_MISMATCH
        );
    }
    assert_eq!(BUDGET_MISMATCH, "selected Core task budget does not match the frozen public catalog");
}

#[test]
fn core_contract_takes_its_identity_from_the_catalog_authority() {
    let catalog = CorpusCatalog {
        schema_version: "aiq.benchmark-catalog.v1".to_owned(),
        task_set_id: "aiq-core".to_owned(),
        task_set_version: "1.1.0".to_owned(),
        identity_sha256: core_identity(),
        identity_scope: "ordered_full_task_metadata".to_owned(),
    };
    let contract = catalog_contract(&catalog, frozen_catalog(), &core_identity()).expect("supported catalog");
    assert_eq!(contract.identity_sha256, core_identity());
    assert_eq!(
        catalog_contract(&catalog, frozen_catalog(), &repeated("9")).err().expect("other identity").message(),
        "corpus catalog identity is unsupported"
    );
    assert!(CatalogContract::core_catalog(frozen_catalog()[..71].to_vec(), &core_identity()).is_err());
}

fn minimal_commitment(task_set_version: &str) -> CorpusCommitment {
    CorpusCommitment {
        schema_version: "aiq.corpus-commitment.v3".to_owned(),
        release_id: "corpus_fixture".to_owned(),
        controlled: true,
        synthetic: false,
        catalog: CorpusCatalog {
            schema_version: "aiq.benchmark-catalog.v1".to_owned(),
            task_set_id: "aiq-core".to_owned(),
            task_set_version: task_set_version.to_owned(),
            identity_sha256: core_identity(),
            identity_scope: "ordered_full_task_metadata".to_owned(),
        },
        execution: CorpusExecution {
            harness_sha256: repeated("1"),
            runner_prompt_source_sha256: repeated("2"),
            declared_tool_policy_sha256: repeated("3"),
            declared_network_policy_sha256: repeated("4"),
            environment_sha256: repeated("5"),
        },
        tasks: Vec::new(),
    }
}

fn minimal_provenance(node_version: &str) -> CorpusRuntimeProvenance {
    CorpusRuntimeProvenance {
        runner: runner_provenance("source_only", true, &repeated("1")),
        source_manifest: SourceManifest {
            schema_version: "aiq.runner-source-manifest.v1".to_owned(),
            package: "aiq-runner".to_owned(),
            scope: "cargo_build_and_test_inputs".to_owned(),
            path_base: "repository_root".to_owned(),
            entries: Vec::new(),
        },
        node_executable_sha256: Some(digest_bytes(NODE_BYTES)),
        node_version: Some(node_version.to_owned()),
        model_toolchain: Some(toolchain_policy()),
        operating_system_platform: Some("linux".to_owned()),
        openssl_conf: Some("/dev/null".to_owned()),
        document: Json::Object(Vec::new()),
    }
}

#[test]
fn evaluator_runtime_commitment_is_checked_against_the_hashed_document() {
    let contract = CatalogContract::core_catalog(frozen_catalog(), &core_identity()).expect("core contract");
    let check = |document: &Json, expected: &str, commitment: &CorpusCommitment, provenance: &CorpusRuntimeProvenance| {
        validate_evaluator_runtime_commitment(
            commitment,
            document,
            expected,
            provenance,
            &evaluator_runtime(),
            &contract,
            &toolchain_root(),
            "linux",
            "x86_64",
        )
        .err()
        .expect("refused")
        .message()
    };
    let mismatch = "evaluator runtime or corpus identity does not match the signed provenance";
    let current = minimal_commitment("1.1.0");
    let document = commitment_json(&current, Json::Object(Vec::new()));
    let expected = canonical_hash(&document).expect("document digest");

    // Another document digest, or another runtime version, is refused first.
    assert_eq!(check(&document, &repeated("e"), &current, &minimal_provenance("v22.1.0")), mismatch);
    assert_eq!(check(&document, &expected, &current, &minimal_provenance("v22.2.0")), mismatch);

    // The typed commitment must be the hashed document's.
    let unsupported = minimal_commitment("9.9.9");
    assert_eq!(
        check(&document, &expected, &unsupported, &minimal_provenance("v22.1.0")),
        "corpus commitment shape is invalid"
    );

    // The typed runtime provenance must be the record's own.
    assert_eq!(
        check(&document, &expected, &current, &minimal_provenance("v22.1.0")),
        "corpus runtime provenance shape is invalid"
    );

    // With the document and runtime matching, the catalog is checked next.
    let unsupported_document = commitment_json(&unsupported, Json::Object(Vec::new()));
    let unsupported_sha256 = canonical_hash(&unsupported_document).expect("document digest");
    assert_eq!(
        check(&unsupported_document, &unsupported_sha256, &unsupported, &minimal_provenance("v22.1.0")),
        "corpus catalog identity is unsupported"
    );
}

#[test]
fn described_document_has_the_typed_address_whatever_its_member_order() {
    let commitment = minimal_commitment("1.1.0");
    let typed = commitment_json(&commitment, Json::Object(Vec::new()));
    // The same document with its members in reverse order.
    let reordered = match commitment_json(&commitment, Json::Object(Vec::new())) {
        Json::Object(mut members) => {
            members.reverse();
            Json::Object(members)
        },
        other => other,
    };
    assert_eq!(canonical_hash(&reordered), canonical_hash(&typed));
}

use aiq_runner::corpus::document::{evaluator_digest, read_execution_tool_policy};

#[test]
fn evaluator_identities_are_addressed_in_order() {
    let evaluator = |name: &str| Json::Object(vec![("kind".to_owned(), Json::Text(name.to_owned()))]);
    let tasks = vec![
        ("task-a".to_owned(), "1.0.2".to_owned(), evaluator("node")),
        ("task-b".to_owned(), "1.0.2".to_owned(), evaluator("builtin")),
    ];
    let expected = canonical_hash(&Json::Array(vec![
        Json::Array(vec![Json::Text("task-a".to_owned()), Json::Text("1.0.2".to_owned()), evaluator("node")]),
        Json::Array(vec![Json::Text("task-b".to_owned()), Json::Text("1.0.2".to_owned()), evaluator("builtin")]),
    ]))
    .expect("digest");
    assert_eq!(evaluator_digest(&tasks).expect("digest"), expected);
    let reordered = vec![
        ("task-b".to_owned(), "1.0.2".to_owned(), evaluator("builtin")),
        ("task-a".to_owned(), "1.0.2".to_owned(), evaluator("node")),
    ];
    assert_ne!(evaluator_digest(&reordered).expect("digest"), expected);
}

#[test]
fn tool_policy_is_read_only_from_a_v3_commitment() {
    let with_policy = |schema: &str, policy: bool| {
        let mut provenance = Vec::new();
        if policy {
            provenance.push(("model_toolchain".to_owned(), toolchain_policy().to_json()));
        }
        Json::Object(vec![
            ("schema_version".to_owned(), Json::Text(schema.to_owned())),
            (
                "execution".to_owned(),
                Json::Object(vec![("runtime_provenance".to_owned(), Json::Object(provenance))]),
            ),
        ])
    };
    let policy = read_execution_tool_policy(&with_policy("aiq.corpus-commitment.v3", true)).expect("policy");
    assert_eq!(canonical_hash(&policy), canonical_hash(&toolchain_policy().to_json()));
    assert_eq!(
        read_execution_tool_policy(&with_policy("aiq.corpus-commitment.v2", true)).err().expect("v2").message(),
        "corpus commitment schema is not v3"
    );
    assert_eq!(
        read_execution_tool_policy(&with_policy("aiq.corpus-commitment.v3", false)).err().expect("none").message(),
        "corpus commitment omits model toolchain"
    );
}

use aiq_runner::corpus::validate_candidate_qualification_provenance_v1_1_0;

#[test]
fn qualification_accepts_only_calibration_evidence_of_the_candidate_catalog() {
    let task_set = repeated("b");
    let preflight = repeated("c");
    let candidate = repeated("7");
    let mut provenance =
        fixture_run_provenance_for_class(RunClass::Calibration, task_set.clone(), repeated("d"), repeated("e"), preflight.clone());
    provenance.catalog_digest = candidate.clone();
    assert!(validate_candidate_qualification_provenance_v1_1_0(&provenance, &task_set, &preflight, &candidate).is_ok());
    // Historical calibration validation agrees, whatever core identity it is given.
    assert!(validate_historical_calibration_provenance(&provenance, &task_set, &preflight, &core_identity()).is_ok());

    provenance.run_class = RunClass::Official;
    assert!(validate_candidate_qualification_provenance_v1_1_0(&provenance, &task_set, &preflight, &candidate).is_err());

    provenance.run_class = RunClass::Calibration;
    provenance.catalog_digest = core_identity();
    assert!(validate_candidate_qualification_provenance_v1_1_0(&provenance, &task_set, &preflight, &candidate).is_err());
}

use aiq_runner::corpus::document::{
    validate_candidate_core_corpus_commitment_v1_1_0, validate_contrast_corpus_commitment, validate_core_corpus_commitment,
    validate_corpus_commitment,
};

#[test]
fn core_entry_points_are_one_validator() {
    let core = CatalogContract::core_catalog(frozen_catalog(), &core_identity()).expect("core contract");
    let contrast = CatalogContract::contrast();
    let current = minimal_commitment("1.1.0");
    let document = commitment_json(&current, Json::Object(Vec::new()));
    let provenance = minimal_provenance("v22.1.0");
    for contract in [&core, &contrast] {
        let a = validate_corpus_commitment(&current, &document, contract, &[], &provenance, &[]).err().expect("refused").message();
        let b = validate_core_corpus_commitment(&current, &document, contract, &[], &provenance, &[]).err().expect("refused").message();
        let c = validate_candidate_core_corpus_commitment_v1_1_0(&current, &document, contract, &[], &provenance, &[])
            .err()
            .expect("refused")
            .message();
        assert_eq!(a, b);
        assert_eq!(b, c);
    }
    assert_eq!(
        validate_corpus_commitment(&current, &document, &contrast, &[], &provenance, &[]).err().expect("refused").message(),
        "corpus catalog identity is unsupported"
    );
}

#[test]
fn contrast_validation_needs_a_valid_digest_and_the_contrast_catalog() {
    let current = minimal_commitment("1.1.0");
    let document = commitment_json(&current, Json::Object(Vec::new()));
    let provenance = minimal_provenance("v22.1.0");
    let refuse = |expected: &str| {
        validate_contrast_corpus_commitment(&current, &document, &[], &provenance, &[], expected)
            .err()
            .expect("refused")
            .message()
    };
    assert_eq!(refuse("not-a-digest"), "contrast corpus digest is invalid");
    assert_eq!(refuse(&repeated("A")), "contrast corpus digest is invalid");
    // A core commitment does not satisfy the contrast catalog contract.
    let digest = canonical_hash(&document).expect("document digest");
    assert_eq!(refuse(&digest), "corpus commitment header is invalid");
    let contrast = CatalogContract::contrast();
    assert_eq!(contrast.task_set_version, "1.0.7");
    assert_eq!(contrast.task_set_id, "aiq-core-contrast");
}

use aiq_runner::corpus::document::{validate_selected_tasks, CorpusTask, SelectedEvaluator};

fn committed(task_id: &str, baseline: &str) -> CorpusTask {
    CorpusTask {
        task_id: task_id.to_owned(),
        task_version: "1.0.0".to_owned(),
        task_definition_sha256: repeated("c"),
        baseline_workspace_tree_sha256: baseline.to_owned(),
        fixture_bundle_sha256: repeated("3"),
        catalog_entry_sha256: repeated("4"),
        evaluator_runtime_kind: "node".to_owned(),
        evaluator_runtime_executable_sha256: repeated("5"),
        evaluator_executable_sha256: repeated("6"),
        evaluator_configuration_sha256: repeated("7"),
        acceptance_suite_sha256: repeated("8"),
        leakage_review_sha256: repeated("9"),
    }
}

fn runnable(task_id: &str) -> SelectedTask {
    SelectedTask {
        catalog_entry_digest: Some(repeated("4")),
        external_evaluator: Some(SelectedEvaluator {
            runtime_is_node: true,
            runtime_executable_digest: repeated("5"),
            executable_digest: repeated("6"),
            configuration_digest: repeated("7"),
        }),
        ..selected(task_id, "standard")
    }
}

#[test]
fn baseline_digests_are_keyed_by_task_in_order() {
    let commitment = vec![committed("b-task", &repeated("b")), committed("a-task", &repeated("a")), committed("c-task", &repeated("d"))];
    let pairs = validate_selected_tasks(&commitment, &[runnable("c-task"), runnable("a-task")]).expect("selection");
    assert_eq!(
        pairs,
        vec![("a-task".to_owned(), repeated("a")), ("c-task".to_owned(), repeated("d"))]
    );
    assert_eq!(
        validate_selected_tasks(&commitment, &[runnable("a-task"), runnable("a-task")]).err().expect("twice").message(),
        "selected task does not match the committed corpus commitment"
    );
    assert_eq!(
        validate_selected_tasks(&commitment, &[runnable("z-task")]).err().expect("absent").message(),
        "selected task is absent from the corpus commitment"
    );
    assert_eq!(
        validate_selected_tasks(&commitment, &[]).err().expect("empty").message(),
        "selected task set is empty"
    );
}

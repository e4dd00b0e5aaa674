use aiq_runner::seal::{
    probe_version_line, sealed_node_path, validate_fixture_refs, validate_git_identity, validate_relative_path,
    validate_runtime_authority, validate_token,
};

#[test]
fn sealed_runtime_resolves_to_the_single_toolchain_node_path() {
    assert_eq!(sealed_node_path("sealed", false), "sealed/toolchain/node");
    assert_eq!(sealed_node_path("sealed", true), "sealed/toolchain/node.exe");
    assert_ne!(sealed_node_path("sealed", false), "sealed/runtime/node");
}

#[test]
fn multiline_version_probe_uses_the_canonical_first_line() {
    assert_eq!(probe_version_line("v22.1.0\nextra\n").expect("version"), "v22.1.0");
    assert_eq!(probe_version_line("v22.1.0\r\nextra").expect("version"), "v22.1.0");
    assert_eq!(probe_version_line("v22.1.0").expect("version"), "v22.1.0");
    assert!(probe_version_line("").is_err());
    assert!(probe_version_line("\nv22").is_err());

    let detail = "feature".repeat(24);
    let output = format!("ripgrep 15.1.0 (rev af60c2de9d)\n{detail}\n");

    assert_eq!(probe_version_line(&output).expect("version"), "ripgrep 15.1.0 (rev af60c2de9d)");
}

#[test]
fn fixture_refs_bind_exactly_the_task_fixture_and_acceptance() {
    let fixture = "aiq-controlled-fixture://aiq-core/1.0.6/task-a".to_owned();
    let acceptance = "aiq-controlled-acceptance://aiq-core/1.0.6/task-a".to_owned();

    assert!(validate_fixture_refs("task-a", &vec![fixture.clone(), acceptance.clone()]).is_ok());
    assert!(validate_fixture_refs("task-a", &vec![acceptance.clone(), fixture.clone()]).is_ok());
    assert!(validate_fixture_refs("task-a", &vec![fixture.clone(), fixture.clone()]).is_err());
    assert!(validate_fixture_refs("task-b", &vec![fixture.clone(), acceptance.clone()]).is_err());
    assert!(validate_fixture_refs("task-a", &vec![fixture]).is_err());
}

use aiq_runner::seal::{
    validate_acceptance_classes, validate_catalog, validate_shared_runtime_identities,
    CatalogMetadataIdentity, CorpusKind, RuntimeBinding, SealCatalog,
};

fn names(classes: &[&str]) -> Vec<String> {
    classes.iter().map(|class| format!("{class}.json")).collect()
}

#[test]
fn acceptance_classes_are_kind_specific_and_core_allows_only_reviewed_optional_classes() {
    let core_required = ["adversarial_format", "alternate_correct", "gold", "partial"];
    let mut files = names(&core_required);
    let mut sorted = core_required.map(str::to_owned).to_vec();

    sorted.sort();

    assert_eq!(validate_acceptance_classes(&files, CorpusKind::Core).expect("core classes"), sorted);

    files.push("empty.json".to_owned());

    assert!(validate_acceptance_classes(&files, CorpusKind::Core).is_ok());

    files.push("unknown.json".to_owned());

    assert!(validate_acceptance_classes(&files, CorpusKind::Core).is_err());

    files.pop();
    files.retain(|file| file != "gold.json");

    assert!(validate_acceptance_classes(&files, CorpusKind::Core).is_err());

    let contrast_required = ["challenge", "empty", "format", "near_miss", "reference", "tamper"];
    let mut contrast_files = names(&contrast_required);

    assert!(validate_acceptance_classes(&contrast_files, CorpusKind::Contrast).is_ok());

    contrast_files.push("partial.json".to_owned());

    assert!(validate_acceptance_classes(&contrast_files, CorpusKind::Contrast).is_err());
}

#[test]
fn every_task_must_match_the_one_shared_runtime_identity() {
    let digest = format!("sha256:{}", "a".repeat(64));
    let matching = (0..72)
        .map(|_| RuntimeBinding { is_node: true, executable_digest: digest.clone() })
        .collect::<Vec<_>>();

    assert!(validate_shared_runtime_identities(&matching, &digest).is_ok());

    let mismatch = format!("sha256:{}", "b".repeat(64));
    let bindings = vec![
        RuntimeBinding { is_node: true, executable_digest: digest.clone() },
        RuntimeBinding { is_node: true, executable_digest: mismatch },
    ];

    assert!(validate_shared_runtime_identities(&bindings, &digest).is_err());
    assert!(validate_shared_runtime_identities(&Vec::new(), &digest).is_err());
}

fn contrast_catalog(task_ids: &[&str]) -> SealCatalog {
    SealCatalog {
        schema_version: "aiq.contrast-corpus.v1".to_owned(),
        task_set_id: "aiq-core-contrast".to_owned(),
        task_set_version: "1.0.6".to_owned(),
        identity_sha256: Some(format!("sha256:{}", "5".repeat(64))),
        identity_scope: Some("ordered_full_task_metadata".to_owned()),
        task_metadata_identity: None,
        task_ids: task_ids.iter().map(|id| Some((*id).to_owned())).collect(),
    }
}

#[test]
fn catalog_reorders_an_exact_differently_ordered_id_set() {
    let expected = ["c1-a", "c1-b", "c2-a", "c2-b", "c3-a", "c3-b"];
    let catalog = contrast_catalog(&expected);
    let observed = expected.iter().rev().map(|id| (*id).to_owned()).collect::<Vec<_>>();
    let (order, digest, scope) =
        validate_catalog(CorpusKind::Contrast, &catalog, &observed).expect("exact set");
    let reordered = order.iter().map(|position| observed[*position].clone()).collect::<Vec<_>>();

    assert_eq!(reordered, expected.map(str::to_owned).to_vec());
    assert!(digest.starts_with("sha256:"));
    assert_eq!(scope, "ordered_full_task_metadata");

    let duplicate = vec![observed[0].clone(), observed[0].clone()];

    assert!(validate_catalog(CorpusKind::Contrast, &catalog, &duplicate).is_err());

    let mut core = contrast_catalog(&expected);

    core.task_metadata_identity = Some(CatalogMetadataIdentity {
        algorithm: "sha256".to_owned(),
        canonicalization: "aiq.sorted-key-json.v1".to_owned(),
        digest: format!("sha256:{}", "5".repeat(64)),
        scope: "ordered_full_task_metadata".to_owned(),
    });

    assert!(validate_catalog(CorpusKind::Contrast, &core, &observed).is_err());
}

use aiq_runner::corpus::document::{
    derive_execution_digests, CorpusCatalog, CorpusExecution, CorpusTask, SourceManifest, SourceManifestEntry,
};
use aiq_runner::corpus::toolchain::{ExecutionToolPolicy, ToolchainCommand};
use aiq_runner::digest::{canonical_bytes, canonical_hash, digest_bytes, Json};
use aiq_runner::seal::authoring::{authoring_documents, AuthoringInputs, TaskAcceptanceClasses};
use aiq_runner::seal::commitment::{
    leakage_review_json, seal_commitment, seal_receipt_json, task_commitment_aggregate_sha256, SealReceiptInputs, SealedOutputTrees,
};
use aiq_runner::corpus::document::{commitment_json, CorpusCommitment};
use aiq_runner::seal::{build_source_manifest, controlled_tree_digest, runtime_provenance_json, source_manifest_sha256};
use sha2::Digest;

fn policy() -> ExecutionToolPolicy {
    ExecutionToolPolicy {
        schema_version: "aiq.execution-tool-policy.v1".to_owned(),
        platform: "linux".to_owned(),
        architecture: "x64".to_owned(),
        platform_minimal_path: "linux_v1".to_owned(),
        inherit_path: false,
        use_shell_profile: false,
        commands: vec![
            ToolchainCommand {
                name: "node".to_owned(),
                executable_ref: "node".to_owned(),
                executable_sha256: format!("sha256:{}", "1".repeat(64)),
                version: "v22.1.0".to_owned(),
            },
            ToolchainCommand {
                name: "rg".to_owned(),
                executable_ref: "rg".to_owned(),
                executable_sha256: format!("sha256:{}", "2".repeat(64)),
                version: "ripgrep 15.1.0".to_owned(),
            },
        ],
    }
}

fn source_manifest(with_runner: bool) -> SourceManifest {
    let mut entries = vec![SourceManifestEntry {
        path: "Cargo.toml".to_owned(),
        sha256: format!("sha256:{}", "3".repeat(64)),
    }];

    if with_runner {
        entries.push(SourceManifestEntry {
            path: "apps/aiq-runner/src/runner.rs".to_owned(),
            sha256: format!("sha256:{}", "4".repeat(64)),
        });
    }

    SourceManifest {
        schema_version: "aiq.runner-source-manifest.v1".to_owned(),
        package: "aiq-runner".to_owned(),
        scope: "cargo_build_and_test_inputs".to_owned(),
        path_base: "repository_root".to_owned(),
        entries,
    }
}

fn provenance(policy: &ExecutionToolPolicy, manifest: &SourceManifest) -> Json {
    runtime_provenance_json(
        Json::Object(vec![("platform".to_owned(), Json::Text("linux".to_owned()))]),
        Json::Object(vec![("timezone".to_owned(), Json::Text("UTC".to_owned()))]),
        &format!("sha256:{}", "5".repeat(64)),
        "v22.1.0",
        Json::Object(vec![("name".to_owned(), Json::Text("node".to_owned()))]),
        Json::Object(vec![("v8".to_owned(), Json::Text("12.4".to_owned()))]),
        policy,
        &format!("sha256:{}", "6".repeat(64)),
        manifest,
        &format!("sha256:{}", "7".repeat(64)),
    )
}

#[test]
fn sealed_execution_digests_are_derived_from_their_sources() {
    let policy = policy();
    let manifest = source_manifest(true);
    let document = provenance(&policy, &manifest);
    let tasks = vec![
        ("task-a".to_owned(), vec!["shell".to_owned()]),
        ("task-b".to_owned(), vec!["none".to_owned()]),
    ];
    let derived = derive_execution_digests(&document, &tasks, &policy, &manifest.entries)
        .expect("derived digests");

    assert_eq!(derived.environment_sha256, canonical_hash(&document).expect("environment"));
    assert_eq!(derived.runner_prompt_sha256, format!("sha256:{}", "4".repeat(64)));
    assert!(derived.tool_policy_sha256.starts_with("sha256:"));
    assert_ne!(derived.tool_policy_sha256, derived.network_policy_sha256);

    let reordered = vec![tasks[1].clone(), tasks[0].clone()];
    let other = derive_execution_digests(&document, &reordered, &policy, &manifest.entries)
        .expect("derived digests");

    assert_ne!(derived.tool_policy_sha256, other.tool_policy_sha256);
    assert_eq!(derived.network_policy_sha256, other.network_policy_sha256);

    let without_runner = source_manifest(false);

    assert!(derive_execution_digests(&document, &tasks, &policy, &without_runner.entries).is_err());
}

fn raw_sha256(bytes: &[u8]) -> String {
    format!("sha256:{}", hex::encode(sha2::Sha256::digest(bytes)))
}

/// The controlled-tree document of a listing, built independently of the library.
fn tree_value(files: &[(String, Vec<u8>)]) -> serde_json::Value {
    let entries = files
        .iter()
        .map(|(path, bytes)| {
            let mut entry = serde_json::Map::new();
            entry.insert("path".to_owned(), text_value(path));
            entry.insert("sha256".to_owned(), text_value(&raw_sha256(bytes)));
            serde_json::Value::Object(entry)
        })
        .collect();
    let mut tree = serde_json::Map::new();
    tree.insert("schema_version".to_owned(), text_value("aiq.controlled-tree.v1"));
    tree.insert("entries".to_owned(), serde_json::Value::Array(entries));
    serde_json::Value::Object(tree)
}

fn value_sha256(value: &serde_json::Value) -> String {
    raw_sha256(&serde_json_canonicalizer::to_vec(value).expect("canonical"))
}

fn manifest_value(m: &SourceManifest) -> serde_json::Value {
    let entries = m
        .entries
        .iter()
        .map(|e| {
            let mut entry = serde_json::Map::new();
            entry.insert("path".to_owned(), text_value(&e.path));
            entry.insert("sha256".to_owned(), text_value(&e.sha256));
            serde_json::Value::Object(entry)
        })
        .collect();
    let mut value = serde_json::Map::new();
    value.insert("schema_version".to_owned(), text_value(&m.schema_version));
    value.insert("package".to_owned(), text_value(&m.package));
    value.insert("scope".to_owned(), text_value(&m.scope));
    value.insert("path_base".to_owned(), text_value(&m.path_base));
    value.insert("entries".to_owned(), serde_json::Value::Array(entries));
    serde_json::Value::Object(value)
}

fn listing(prefix: &str) -> Vec<(String, Vec<u8>)> {
    vec![
        (format!("{prefix}/a.json"), format!("{prefix} first").into_bytes()),
        (format!("{prefix}/b/c.txt"), format!("{prefix} second").into_bytes()),
    ]
}

fn authority() -> Json {
    Json::Object(vec![
        ("schema_version".to_owned(), Json::Text("aiq.corpus-runtime-authority.v1".to_owned())),
        ("node_version".to_owned(), Json::Text("v22.1.0".to_owned())),
    ])
}

fn authoring_inputs_of(corpus_kind: CorpusKind) -> AuthoringInputs {
    let d = |c: char| format!("sha256:{}", c.to_string().repeat(64));
    let mut manifest = source_manifest(true);
    manifest.entries.push(SourceManifestEntry { path: "tools/sealer.rs".to_owned(), sha256: d('9') });
    AuthoringInputs {
        corpus_kind,
        release_id: "core-2026-08".to_owned(),
        source_commit: "a".repeat(40),
        source_tree: "b".repeat(40),
        task_count: 1,
        acceptance_classes_by_task: vec![TaskAcceptanceClasses {
            task_id: "task-a".to_owned(),
            classes: vec!["adversarial_format".to_owned(), "gold".to_owned()],
        }],
        tasks_tree: listing("tasks"),
        baselines_tree: listing("baselines"),
        acceptance_tree: listing("acceptance"),
        evaluator_tree: listing("evaluator"),
        toolchain_tree: listing("toolchain"),
        source_manifest: manifest,
        runtime_authority: authority(),
        harness_schema_sha256: d('a'),
        input_schema_sha256: d('b'),
        runtime_authority_schema_sha256: d('c'),
        seal_receipt_schema_sha256: d('d'),
        task_schema_sha256: d('e'),
        catalog_sha256: d('f'),
        commitment_schema_sha256: d('0'),
        leakage_review_schema_sha256: d('8'),
        evaluator_sha256: d('1'),
        node_sha256: d('2'),
        rg_sha256: d('3'),
        generator_source_sha256: d('4'),
        task_commitments: vec![committed_task("task-a")],
    }
}

fn authoring_inputs() -> AuthoringInputs {
    authoring_inputs_of(CorpusKind::Core)
}

fn text_value(s: &str) -> serde_json::Value {
    serde_json::Value::String(s.to_owned())
}

fn texts_value(items: &[&str]) -> serde_json::Value {
    serde_json::Value::Array(items.iter().map(|s| text_value(s)).collect())
}

#[test]
fn authoring_input_manifest_serializes_every_committed_input() {
    let inputs = authoring_inputs();
    let documents = authoring_documents(&inputs, "tools/sealer.rs").expect("authoring documents");

    let mut by_task = serde_json::Map::new();
    by_task.insert("task-a".to_owned(), texts_value(&["adversarial_format", "gold"]));
    let mut expected = serde_json::Map::new();
    expected.insert("schema_version".to_owned(), text_value("aiq.corpus-authoring-input.v1"));
    expected.insert("corpus_kind".to_owned(), text_value("core"));
    expected.insert("release_id".to_owned(), text_value(&inputs.release_id));
    expected.insert("source_commit".to_owned(), text_value(&inputs.source_commit));
    expected.insert("source_tree".to_owned(), text_value(&inputs.source_tree));
    expected.insert("task_count".to_owned(), serde_json::Value::from(1_u64));
    expected.insert(
        "acceptance_required_classes".to_owned(),
        texts_value(&["adversarial_format", "alternate_correct", "gold", "partial"]),
    );
    expected.insert("acceptance_optional_classes".to_owned(), texts_value(&["empty", "timeout"]));
    expected.insert("acceptance_classes_by_task".to_owned(), serde_json::Value::Object(by_task));
    let manifest_sha256 = value_sha256(&manifest_value(&inputs.source_manifest));
    for (key, value) in [
        ("tasks_tree_sha256", value_sha256(&tree_value(&inputs.tasks_tree))),
        ("baselines_tree_sha256", value_sha256(&tree_value(&inputs.baselines_tree))),
        ("acceptance_tree_sha256", value_sha256(&tree_value(&inputs.acceptance_tree))),
        ("evaluator_tree_sha256", value_sha256(&tree_value(&inputs.evaluator_tree))),
        ("toolchain_tree_sha256", value_sha256(&tree_value(&inputs.toolchain_tree))),
        ("source_manifest_sha256", manifest_sha256),
        ("runtime_authority_sha256", canonical_hash(&authority()).expect("authority digest")),
    ] {
        expected.insert(key.to_owned(), text_value(&value));
    }
    let expected_bytes =
        serde_json_canonicalizer::to_vec(&serde_json::Value::Object(expected)).expect("canonical");

    assert_eq!(canonical_bytes(&documents.input_manifest).expect("bytes"), expected_bytes);
    assert_eq!(documents.input_manifest_sha256, digest_bytes(&expected_bytes));
    assert_eq!(canonical_hash(&documents.harness), Some(documents.harness_sha256.clone()));

    let harness = String::from_utf8(canonical_bytes(&documents.harness).expect("harness bytes")).expect("utf8");
    assert!(harness.contains(&format!("\"sealer_source_sha256\":\"sha256:{}\"", "9".repeat(64))));
    assert!(harness.contains("\"schema_version\":\"aiq.core-authoring-harness.v3\""));
    assert!(harness.contains("\"benchmarks/candidates/aiq-core-1.0.6/catalog.json\""));
    assert!(harness.contains("\"source_path\":\"scripts/candidates/aiq-core-1.0.6/generate-benchmark-catalog.ts\""));
}

#[test]
fn harness_requires_the_sealer_source_in_the_inventory() {
    let inputs = authoring_inputs();
    assert_eq!(
        authoring_documents(&inputs, "tools/absent.rs").err().expect("missing sealer"),
        "source inventory omits sealer source"
    );
    let contrast = authoring_inputs_of(CorpusKind::Contrast);
    let documents = authoring_documents(&contrast, "tools/sealer.rs").expect("contrast documents");
    let harness = String::from_utf8(canonical_bytes(&documents.harness).expect("bytes")).expect("utf8");
    assert!(harness.contains("\"acceptance_optional_classes\":[]"));
    assert!(harness.contains("contrast-catalog.json"));
    assert_ne!(documents.input_manifest_sha256, authoring_documents(&inputs, "tools/sealer.rs").unwrap().input_manifest_sha256);
}

fn committed_task(id: &str) -> CorpusTask {
    let d = |c: char| format!("sha256:{}", c.to_string().repeat(64));
    CorpusTask {
        task_id: id.to_owned(),
        task_version: "1.0.6".to_owned(),
        task_definition_sha256: d('1'),
        baseline_workspace_tree_sha256: d('2'),
        fixture_bundle_sha256: d('3'),
        catalog_entry_sha256: d('4'),
        evaluator_runtime_kind: "node".to_owned(),
        evaluator_runtime_executable_sha256: d('5'),
        evaluator_executable_sha256: d('6'),
        evaluator_configuration_sha256: d('7'),
        acceptance_suite_sha256: d('8'),
        leakage_review_sha256: d('9'),
    }
}

fn task_value(t: &CorpusTask) -> serde_json::Value {
    let mut m = serde_json::Map::new();
    for (k, v) in [
        ("task_id", &t.task_id),
        ("task_version", &t.task_version),
        ("task_definition_sha256", &t.task_definition_sha256),
        ("baseline_workspace_tree_sha256", &t.baseline_workspace_tree_sha256),
        ("fixture_bundle_sha256", &t.fixture_bundle_sha256),
        ("catalog_entry_sha256", &t.catalog_entry_sha256),
        ("evaluator_runtime_kind", &t.evaluator_runtime_kind),
        ("evaluator_runtime_executable_sha256", &t.evaluator_runtime_executable_sha256),
        ("evaluator_executable_sha256", &t.evaluator_executable_sha256),
        ("evaluator_configuration_sha256", &t.evaluator_configuration_sha256),
        ("acceptance_suite_sha256", &t.acceptance_suite_sha256),
        ("leakage_review_sha256", &t.leakage_review_sha256),
    ] {
        m.insert(k.to_owned(), text_value(v));
    }
    serde_json::Value::Object(m)
}

#[test]
fn sealed_commitment_encodes_catalog_execution_and_tasks() {
    let d = |c: char| format!("sha256:{}", c.to_string().repeat(64));
    let catalog = CorpusCatalog {
        schema_version: "aiq.catalog.v2".to_owned(),
        task_set_id: "aiq-core".to_owned(),
        task_set_version: "1.0.6".to_owned(),
        identity_sha256: d('a'),
        identity_scope: "ordered_full_task_metadata".to_owned(),
    };
    let execution = CorpusExecution {
        harness_sha256: d('b'),
        runner_prompt_source_sha256: d('c'),
        declared_tool_policy_sha256: d('d'),
        declared_network_policy_sha256: d('e'),
        environment_sha256: d('f'),
    };
    let tasks = vec![committed_task("task-b"), committed_task("task-a")];
    let provenance = Json::Object(vec![("schema_version".to_owned(), Json::Text("aiq.execution-provenance.v1".to_owned()))]);
    let sealed = seal_commitment("core-2026-08", &catalog, &execution, provenance, &tasks).expect("sealed");

    let mut catalog_value = serde_json::Map::new();
    catalog_value.insert("schema_version".to_owned(), text_value("aiq.catalog.v2"));
    catalog_value.insert("task_set_id".to_owned(), text_value("aiq-core"));
    catalog_value.insert("task_set_version".to_owned(), text_value("1.0.6"));
    catalog_value.insert("identity_sha256".to_owned(), text_value(&d('a')));
    catalog_value.insert("identity_scope".to_owned(), text_value("ordered_full_task_metadata"));
    let mut provenance_value = serde_json::Map::new();
    provenance_value.insert("schema_version".to_owned(), text_value("aiq.execution-provenance.v1"));
    let mut execution_value = serde_json::Map::new();
    execution_value.insert("harness_sha256".to_owned(), text_value(&d('b')));
    execution_value.insert("runner_prompt_source_sha256".to_owned(), text_value(&d('c')));
    execution_value.insert("declared_tool_policy_sha256".to_owned(), text_value(&d('d')));
    execution_value.insert("declared_network_policy_sha256".to_owned(), text_value(&d('e')));
    execution_value.insert("environment_sha256".to_owned(), text_value(&d('f')));
    execution_value.insert("runtime_provenance".to_owned(), serde_json::Value::Object(provenance_value));
    let mut expected = serde_json::Map::new();
    expected.insert("schema_version".to_owned(), text_value("aiq.corpus-commitment.v2"));
    expected.insert("release_id".to_owned(), text_value("core-2026-08"));
    expected.insert("controlled".to_owned(), serde_json::Value::Bool(true));
    expected.insert("synthetic".to_owned(), serde_json::Value::Bool(false));
    expected.insert("catalog".to_owned(), serde_json::Value::Object(catalog_value));
    expected.insert("execution".to_owned(), serde_json::Value::Object(execution_value));
    expected.insert("tasks".to_owned(), serde_json::Value::Array(tasks.iter().map(task_value).collect()));
    let expected_bytes =
        serde_json_canonicalizer::to_vec(&serde_json::Value::Object(expected)).expect("canonical");

    assert_eq!(sealed.bytes, expected_bytes);
    assert_eq!(sealed.canonical_sha256, digest_bytes(&expected_bytes));
    assert_eq!(sealed.raw_file_sha256, sealed.canonical_sha256);

    let aggregate = task_commitment_aggregate_sha256(&tasks).expect("aggregate");
    let task_array = serde_json::Value::Array(tasks.iter().map(task_value).collect());
    assert_eq!(aggregate, digest_bytes(&serde_json_canonicalizer::to_vec(&task_array).expect("tasks")));
    let reordered = vec![committed_task("task-a"), committed_task("task-b")];
    assert_ne!(task_commitment_aggregate_sha256(&reordered).expect("aggregate"), aggregate);
}

#[test]
fn seal_receipt_binds_every_output_tree() {
    let d = |c: char| format!("sha256:{}", c.to_string().repeat(64));
    let receipt = SealReceiptInputs {
        corpus_kind: CorpusKind::Contrast,
        release_id: "contrast-2026-08".to_owned(),
        catalog_identity_sha256: d('a'),
        task_count: 6,
        source_commit: "c".repeat(40),
        source_tree: "e".repeat(40),
        source_manifest_sha256: d('1'),
        commitment_canonical_sha256: d('2'),
        commitment_raw_file_sha256: d('2'),
        authoring_input_manifest_sha256: d('3'),
        harness_manifest_sha256: d('4'),
        trees: SealedOutputTrees {
            tasks: d('5'),
            baselines: d('6'),
            acceptance: d('7'),
            leakage_reviews: d('8'),
            evaluator: d('9'),
            toolchain: d('b'),
            source_snapshot: d('c'),
            sealed: d('d'),
        },
    };
    let bytes = canonical_bytes(&seal_receipt_json(&receipt)).expect("receipt");
    let text = String::from_utf8(bytes).expect("utf8");
    assert!(text.starts_with("{\"authoring_input_manifest_sha256\":"));
    assert!(text.contains("\"corpus_kind\":\"contrast\""));
    assert!(text.contains("\"task_count\":6"));
    assert!(text.contains(&format!(
        "\"output_trees\":{{\"acceptance\":\"{}\",\"baselines\":\"{}\",\"evaluator\":\"{}\",\"leakage_reviews\":\"{}\",\"source_snapshot\":\"{}\",\"tasks\":\"{}\",\"toolchain\":\"{}\"}}",
        d('7'), d('6'), d('9'), d('8'), d('c'), d('5'), d('b')
    )));
    assert!(text.contains(&format!("\"sealed_tree_sha256\":\"{}\"", d('d'))));
}

#[test]
fn seal_inputs_follow_their_grammars() {
    assert!(validate_token("aiq-core/1.0.6_rc.1").is_ok());
    assert!(validate_token("").is_err());
    assert!(validate_token("has space").is_err());
    assert!(validate_token(&"a".repeat(129)).is_err());
    assert!(validate_git_identity(&"0123456789abcdef".repeat(3)[..40]).is_ok());
    assert!(validate_git_identity(&"A".repeat(40)).is_err());
    assert!(validate_git_identity(&"a".repeat(39)).is_err());
    assert!(validate_relative_path("apps/aiq-runner/Cargo.toml").is_ok());
    assert!(validate_relative_path("../escape").is_err());
    assert!(validate_relative_path("/absolute").is_err());

    let components = ["icu", "tz", "unicode", "v8", "modules", "openssl", "zlib"]
        .iter()
        .map(|c| c.to_string())
        .collect::<Vec<_>>();
    assert!(validate_runtime_authority("aiq.corpus-runtime-authority.v1", "node", &components).is_ok());
    assert!(validate_runtime_authority("aiq.corpus-runtime-authority.v1", "deno", &components).is_err());
    assert!(validate_runtime_authority("aiq.corpus-runtime-authority.v1", "node", &components[1..].to_vec()).is_err());
}

#[test]
fn canonical_preimages_are_deterministic_and_tamper_evident() {
    let first = leakage_review_json("coding-01", "1.0.6", &vec!["reviewed".to_owned()]);
    let second = leakage_review_json("coding-01", "1.0.6", &vec!["changed".to_owned()]);

    assert_eq!(canonical_bytes(&first).expect("first"), canonical_bytes(&first).expect("again"));
    assert_ne!(canonical_hash(&first).expect("first hash"), canonical_hash(&second).expect("second hash"));
    assert_eq!(
        String::from_utf8(canonical_bytes(&first).expect("first")).expect("utf8"),
        "{\"leakage_notes\":[\"reviewed\"],\"reviewed\":true,\"schema_version\":\"aiq.leakage-review.v1\",\"status\":\"reviewed\",\"task_id\":\"coding-01\",\"task_version\":\"1.0.6\"}"
    );
}

#[test]
fn controlled_tree_digest_addresses_every_file_by_its_bytes() {
    let files = listing("tasks");
    let digest = controlled_tree_digest(&files).expect("tree digest");
    assert_eq!(digest, value_sha256(&tree_value(&files)));

    // Tampering with one file's bytes changes the tree's address.
    let mut tampered = files.clone();
    tampered[1].1.push(b'!');
    assert_ne!(controlled_tree_digest(&tampered).expect("tree digest"), digest);

    // So does renaming a file.
    let mut renamed = files.clone();
    renamed[0].0 = "tasks/z.json".to_owned();
    assert_ne!(controlled_tree_digest(&renamed).expect("tree digest"), digest);

    // An empty tree is addressed too.
    assert_eq!(controlled_tree_digest(&Vec::new()).expect("empty tree"), value_sha256(&tree_value(&[])));
}

#[test]
fn source_manifest_is_built_from_the_files_bytes() {
    let files = vec![
        ("apps/aiq-runner/src/runner.rs".to_owned(), b"fn main() {}".to_vec()),
        ("benchmarks/corpus-source-inventory-v1.json".to_owned(), b"{}".to_vec()),
    ];
    let manifest = build_source_manifest(&files).expect("manifest");
    assert_eq!(manifest.schema_version, "aiq.runner-source-manifest.v1");
    assert_eq!(manifest.package, "aiq-runner");
    assert_eq!(manifest.scope, "cargo_build_and_test_inputs");
    assert_eq!(manifest.path_base, "repository_root");
    assert_eq!(manifest.entries.len(), 2);
    assert_eq!(manifest.entries[0].path, "apps/aiq-runner/src/runner.rs");
    assert_eq!(manifest.entries[0].sha256, raw_sha256(b"fn main() {}"));
    assert_eq!(manifest.entries[1].sha256, raw_sha256(b"{}"));
    assert_eq!(source_manifest_sha256(&manifest), Some(value_sha256(&manifest_value(&manifest))));

    assert_eq!(
        build_source_manifest(&files[..1].to_vec()).err().expect("no inventory"),
        "source inventory must include itself"
    );
    let mut oversized = files.clone();
    oversized[0].1 = vec![b' '; 16 * 1_024 * 1_024 + 1];
    assert_eq!(
        build_source_manifest(&oversized).err().expect("oversized"),
        "input must be a bounded non-symlink regular file"
    );
}

#[test]
fn sealed_commitment_reads_back_as_its_typed_fields() {
    let catalog = CorpusCatalog {
        schema_version: "aiq.benchmark-catalog.v1".to_owned(),
        task_set_id: "aiq-core".to_owned(),
        task_set_version: "1.1.0".to_owned(),
        identity_sha256: format!("sha256:{}", "5f".repeat(32)),
        identity_scope: "ordered_full_task_metadata".to_owned(),
    };
    let execution = CorpusExecution {
        harness_sha256: format!("sha256:{}", "1".repeat(64)),
        runner_prompt_source_sha256: format!("sha256:{}", "2".repeat(64)),
        declared_tool_policy_sha256: format!("sha256:{}", "3".repeat(64)),
        declared_network_policy_sha256: format!("sha256:{}", "4".repeat(64)),
        environment_sha256: format!("sha256:{}", "5".repeat(64)),
    };
    let tasks = vec![committed_task("task-a"), committed_task("task-b")];
    let sealed = seal_commitment("corpus_fixture", &catalog, &execution, authority(), &tasks).expect("sealed");
    let typed = CorpusCommitment {
        schema_version: "aiq.corpus-commitment.v2".to_owned(),
        release_id: "corpus_fixture".to_owned(),
        controlled: true,
        synthetic: false,
        catalog,
        execution,
        tasks,
    };
    assert_eq!(
        canonical_bytes(&commitment_json(&typed, authority())).expect("typed bytes"),
        canonical_bytes(&sealed.document).expect("sealed bytes")
    );
}

#[test]
fn hex_text_is_lowercase_two_digits_per_byte() {
    assert_eq!(aiq_runner::digest::hex_encode(&[0x00, 0x0f, 0xab, 0xff]), "000fabff");
    assert_eq!(aiq_runner::digest::hex_encode(&[]), "");
    assert_eq!(aiq_runner::digest::hex_encode(b"\x7fELF"), hex::encode(b"\x7fELF"));
}

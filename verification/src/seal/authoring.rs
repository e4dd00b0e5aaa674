//! The two authoring documents a seal writes before its commitment: the
//! authoring-input manifest, which pins every controlled input tree, and
//! the harness manifest, which pins the sealer, its schemas, runtimes and
//! catalog generator. Each is addressed by the digest of its canonical
//! encoding.
use vstd::prelude::*;

use crate::corpus::document::{SourceManifest, SourceManifestEntry};
use crate::digest::{
    canonical_digest, canonical_hash, items_tree, json_array, json_object, json_text, json_texts, member,
    members_tree, texts_tree, Json, JsonTree,
};
use crate::corpus::document::CorpusTask;
use crate::seal::commitment::{corpus_tasks_tree, task_commitment_aggregate_sha256};
use crate::seal::{
    controlled_tree_digest, controlled_tree_tree, files_bounded, kind_catalog_path, kind_harness_schema,
    required_classes, source_manifest_sha256, source_manifest_tree, CorpusKind, MAX_SEAL_FILE_BYTES,
};
use crate::text::text_eq;

verus! {

/// The acceptance classes one task's suite holds.
#[derive(Clone, Debug)]
pub struct TaskAcceptanceClasses {
    pub task_id: String,
    pub classes: Vec<String>,
}

/// What the authoring documents commit to, as read by the sealer: the
/// release and source identity, each task's acceptance classes, the five
/// controlled trees as `(relative path, bytes)` listings in path order, the
/// runner source manifest, the runtime authority document, the ordered
/// committed tasks, and the raw digests of the schemas, runtimes and
/// generator the harness names.
#[derive(Debug)]
pub struct AuthoringInputs {
    pub corpus_kind: CorpusKind,
    pub release_id: String,
    pub source_commit: String,
    pub source_tree: String,
    pub task_count: u64,
    pub acceptance_classes_by_task: Vec<TaskAcceptanceClasses>,
    pub tasks_tree: Vec<(String, Vec<u8>)>,
    pub baselines_tree: Vec<(String, Vec<u8>)>,
    pub acceptance_tree: Vec<(String, Vec<u8>)>,
    pub evaluator_tree: Vec<(String, Vec<u8>)>,
    pub toolchain_tree: Vec<(String, Vec<u8>)>,
    pub source_manifest: SourceManifest,
    pub runtime_authority: Json,
    pub harness_schema_sha256: String,
    pub input_schema_sha256: String,
    pub runtime_authority_schema_sha256: String,
    pub seal_receipt_schema_sha256: String,
    pub task_schema_sha256: String,
    pub catalog_sha256: String,
    pub commitment_schema_sha256: String,
    pub leakage_review_schema_sha256: String,
    pub evaluator_sha256: String,
    pub node_sha256: String,
    pub rg_sha256: String,
    pub generator_source_sha256: String,
    pub task_commitments: Vec<CorpusTask>,
}

/// The digests the authoring documents name, computed from the inputs.
#[derive(Clone, Debug)]
pub struct InputDigests {
    pub tasks_tree: String,
    pub baselines_tree: String,
    pub acceptance_tree: String,
    pub evaluator_tree: String,
    pub toolchain_tree: String,
    pub source_manifest: String,
    pub runtime_authority: String,
    pub task_commitment_aggregate: String,
}

/// The two authoring documents and the digests of their canonical encodings.
pub struct AuthoringDocuments {
    pub digests: InputDigests,
    pub input_manifest: Json,
    pub input_manifest_sha256: String,
    pub harness: Json,
    pub harness_sha256: String,
}

/// Every controlled tree's files are within the seal's size bound.
pub open spec fn trees_bounded(a: AuthoringInputs) -> bool {
    &&& files_bounded(a.tasks_tree@, MAX_SEAL_FILE_BYTES)
    &&& files_bounded(a.baselines_tree@, MAX_SEAL_FILE_BYTES)
    &&& files_bounded(a.acceptance_tree@, MAX_SEAL_FILE_BYTES)
    &&& files_bounded(a.evaluator_tree@, MAX_SEAL_FILE_BYTES)
    &&& files_bounded(a.toolchain_tree@, MAX_SEAL_FILE_BYTES)
}

/// The documents each input digest addresses.
pub open spec fn digested_documents(a: AuthoringInputs) -> Seq<JsonTree> {
    seq![
        controlled_tree_tree(a.tasks_tree@),
        controlled_tree_tree(a.baselines_tree@),
        controlled_tree_tree(a.acceptance_tree@),
        controlled_tree_tree(a.evaluator_tree@),
        controlled_tree_tree(a.toolchain_tree@),
        source_manifest_tree(a.source_manifest),
        a.runtime_authority.tree(),
        corpus_tasks_tree(a.task_commitments@),
    ]
}

/// The digests in the order of `digested_documents`.
pub open spec fn digest_list(d: InputDigests) -> Seq<Seq<char>> {
    seq![
        d.tasks_tree@,
        d.baselines_tree@,
        d.acceptance_tree@,
        d.evaluator_tree@,
        d.toolchain_tree@,
        d.source_manifest@,
        d.runtime_authority@,
        d.task_commitment_aggregate@,
    ]
}

/// The trees are bounded and each digest addresses the canonical encoding of
/// its document.
pub open spec fn input_digests_of(a: AuthoringInputs, d: InputDigests) -> bool {
    &&& trees_bounded(a)
    &&& forall|i: int|
        0 <= i < 8 ==> canonical_digest(#[trigger] digested_documents(a)[i]) == Some(digest_list(d)[i])
}

/// The serialized name of a corpus kind.
pub open spec fn kind_text(kind: CorpusKind) -> Seq<char> {
    match kind {
        CorpusKind::Core => "core"@,
        CorpusKind::Contrast => "contrast"@,
    }
}

/// Acceptance classes a task of the kind may have beyond the required ones.
pub open spec fn optional_classes(kind: CorpusKind) -> Seq<Seq<char>> {
    match kind {
        CorpusKind::Core => seq!["empty"@, "timeout"@],
        CorpusKind::Contrast => Seq::empty(),
    }
}

/// Each task's classes, keyed by task identifier.
pub open spec fn classes_by_task_tree(c: Seq<TaskAcceptanceClasses>) -> JsonTree {
    JsonTree::Object(
        Seq::new(
            c.len(),
            |i: int| (c[i].task_id@, JsonTree::Array(texts_tree(c[i].classes.deep_view()))),
        ),
    )
}

/// A text array.
pub open spec fn text_array(items: Seq<Seq<char>>) -> JsonTree {
    JsonTree::Array(texts_tree(items))
}

/// The authoring-input manifest.
pub open spec fn authoring_input_tree(a: AuthoringInputs, d: InputDigests) -> JsonTree {
    JsonTree::Object(
        seq![
            ("schema_version"@, JsonTree::Text("aiq.corpus-authoring-input.v1"@)),
            ("corpus_kind"@, JsonTree::Text(kind_text(a.corpus_kind))),
            ("release_id"@, JsonTree::Text(a.release_id@)),
            ("source_commit"@, JsonTree::Text(a.source_commit@)),
            ("source_tree"@, JsonTree::Text(a.source_tree@)),
            ("task_count"@, JsonTree::Number(a.task_count)),
            ("acceptance_required_classes"@, text_array(required_classes(a.corpus_kind))),
            ("acceptance_optional_classes"@, text_array(optional_classes(a.corpus_kind))),
            ("acceptance_classes_by_task"@, classes_by_task_tree(a.acceptance_classes_by_task@)),
            ("tasks_tree_sha256"@, JsonTree::Text(d.tasks_tree@)),
            ("baselines_tree_sha256"@, JsonTree::Text(d.baselines_tree@)),
            ("acceptance_tree_sha256"@, JsonTree::Text(d.acceptance_tree@)),
            ("evaluator_tree_sha256"@, JsonTree::Text(d.evaluator_tree@)),
            ("toolchain_tree_sha256"@, JsonTree::Text(d.toolchain_tree@)),
            ("source_manifest_sha256"@, JsonTree::Text(d.source_manifest@)),
            ("runtime_authority_sha256"@, JsonTree::Text(d.runtime_authority@)),
        ],
    )
}

/// Path of the catalog generator's source.
pub open spec fn generator_source_path() -> Seq<char> {
    "scripts/candidates/aiq-core-1.0.6/generate-benchmark-catalog.ts"@
}

/// The canonical-encoding and manifest algorithms a seal uses.
pub open spec fn algorithm_ids() -> Seq<Seq<char>> {
    seq![
        "rfc8785-jcs-sha256"@,
        "aiq.workspace-manifest.v1"@,
        "aiq.controlled-tree.v1"@,
        "sha256-raw-file-v1"@,
        "aiq.runner-source-manifest.v1"@,
    ]
}

/// The harness manifest, given the sealer source's digest. Schema digests
/// are keyed by repository path, in path order.
pub open spec fn harness_tree(a: AuthoringInputs, d: InputDigests, sealer_source_sha256: Seq<char>) -> JsonTree {
    JsonTree::Object(
        seq![
            ("schema_version"@, JsonTree::Text(kind_harness_schema(a.corpus_kind))),
            ("corpus_kind"@, JsonTree::Text(kind_text(a.corpus_kind))),
            ("task_count"@, JsonTree::Number(a.task_count)),
            ("acceptance_required_classes"@, text_array(required_classes(a.corpus_kind))),
            ("acceptance_optional_classes"@, text_array(optional_classes(a.corpus_kind))),
            ("acceptance_classes_by_task"@, classes_by_task_tree(a.acceptance_classes_by_task@)),
            ("source_commit"@, JsonTree::Text(a.source_commit@)),
            ("source_tree"@, JsonTree::Text(a.source_tree@)),
            ("source_manifest_sha256"@, JsonTree::Text(d.source_manifest@)),
            ("sealer_source_sha256"@, JsonTree::Text(sealer_source_sha256)),
            (
                "input_contract_schema_sha256"@,
                JsonTree::Object(
                    seq![
                        (
                            "benchmarks/schema/corpus-authoring-harness-v3.schema.json"@,
                            JsonTree::Text(a.harness_schema_sha256@),
                        ),
                        (
                            "benchmarks/schema/corpus-authoring-input-v1.schema.json"@,
                            JsonTree::Text(a.input_schema_sha256@),
                        ),
                        (
                            "benchmarks/schema/corpus-runtime-authority-v1.schema.json"@,
                            JsonTree::Text(a.runtime_authority_schema_sha256@),
                        ),
                        (
                            "benchmarks/schema/corpus-seal-receipt-v1.schema.json"@,
                            JsonTree::Text(a.seal_receipt_schema_sha256@),
                        ),
                    ],
                ),
            ),
            (
                "task_catalog_corpus_evaluator_schema_sha256"@,
                JsonTree::Object(
                    seq![
                        (kind_catalog_path(a.corpus_kind), JsonTree::Text(a.catalog_sha256@)),
                        (
                            "benchmarks/candidates/aiq-core-1.0.6/task.schema.json"@,
                            JsonTree::Text(a.task_schema_sha256@),
                        ),
                        (
                            "benchmarks/schema/corpus-commitment-v2.schema.json"@,
                            JsonTree::Text(a.commitment_schema_sha256@),
                        ),
                        (
                            "benchmarks/schema/leakage-review-v1.schema.json"@,
                            JsonTree::Text(a.leakage_review_schema_sha256@),
                        ),
                    ],
                ),
            ),
            ("evaluator_sha256"@, JsonTree::Text(a.evaluator_sha256@)),
            ("node_sha256"@, JsonTree::Text(a.node_sha256@)),
            ("rg_sha256"@, JsonTree::Text(a.rg_sha256@)),
            (
                "catalog_generator"@,
                JsonTree::Object(
                    seq![
                        ("name"@, JsonTree::Text("aiq-core-catalog-generator"@)),
                        ("version"@, JsonTree::Text("1.0.6"@)),
                        ("toolchain_source"@, JsonTree::Text("repository_source"@)),
                        ("source_path"@, JsonTree::Text(generator_source_path())),
                        ("source_sha256"@, JsonTree::Text(a.generator_source_sha256@)),
                    ],
                ),
            ),
            ("algorithm_ids"@, text_array(algorithm_ids())),
            (
                "ordered_task_commitment_aggregate_sha256"@,
                JsonTree::Text(d.task_commitment_aggregate@),
            ),
        ],
    )
}

/// Entry `i` is the first manifest entry for the path.
pub open spec fn first_entry_for(entries: Seq<SourceManifestEntry>, path: Seq<char>, i: int) -> bool {
    &&& 0 <= i < entries.len()
    &&& entries[i].path@ == path
    &&& forall|j: int| 0 <= j < i ==> entries[j].path@ != path
}

fn static_texts(items: Vec<&'static str>) -> (j: Json)
    ensures
        j.tree() == JsonTree::Array(Seq::new(items@.len(), |i: int| JsonTree::Text(items@[i]@))),
{
    let ghost v = items@;
    let mut out: Vec<Json> = Vec::new();
    let mut i: usize = 0;
    while i < items.len()
        invariant
            i <= items@.len(),
            out@.len() == i,
            forall|k: int| 0 <= k < i ==> #[trigger] out@[k].tree() == JsonTree::Text(items@[k]@),
        decreases items@.len() - i,
    {
        out.push(json_text(items[i]));
        i += 1;
    }
    let ghost outs = out@;
    let j = json_array(out);
    assert(items_tree(outs) =~= Seq::new(v.len(), |i: int| JsonTree::Text(v[i]@)));
    j
}

fn class_list_json(classes: Vec<&'static str>, Ghost(expected): Ghost<Seq<Seq<char>>>) -> (j: Json)
    requires
        classes@.len() == expected.len(),
        forall|i: int| 0 <= i < expected.len() ==> (#[trigger] classes@[i])@ == expected[i],
    ensures
        j.tree() == text_array(expected),
{
    let j = static_texts(classes);
    assert(j.tree()->Array_0 =~= texts_tree(expected));
    j
}

fn required_json(kind: CorpusKind) -> (j: Json)
    ensures
        j.tree() == text_array(required_classes(kind)),
{
    match kind {
        CorpusKind::Core => class_list_json(
            vec!["adversarial_format", "alternate_correct", "gold", "partial"],
            Ghost(required_classes(kind)),
        ),
        CorpusKind::Contrast => class_list_json(
            vec!["challenge", "empty", "format", "near_miss", "reference", "tamper"],
            Ghost(required_classes(kind)),
        ),
    }
}

fn optional_json(kind: CorpusKind) -> (j: Json)
    ensures
        j.tree() == text_array(optional_classes(kind)),
{
    match kind {
        CorpusKind::Core => class_list_json(vec!["empty", "timeout"], Ghost(optional_classes(kind))),
        CorpusKind::Contrast => class_list_json(Vec::new(), Ghost(optional_classes(kind))),
    }
}

fn kind_json(kind: CorpusKind) -> (j: Json)
    ensures
        j.tree() == JsonTree::Text(kind_text(kind)),
{
    match kind {
        CorpusKind::Core => json_text("core"),
        CorpusKind::Contrast => json_text("contrast"),
    }
}

fn classes_by_task_json(c: &Vec<TaskAcceptanceClasses>) -> (j: Json)
    ensures
        j.tree() == classes_by_task_tree(c@),
{
    let mut members: Vec<(String, Json)> = Vec::new();
    let mut i: usize = 0;
    while i < c.len()
        invariant
            i <= c@.len(),
            members@.len() == i,
            forall|k: int|
                0 <= k < i ==> (#[trigger] members@[k]).0@ == c@[k].task_id@ && members@[k].1.tree()
                    == JsonTree::Array(texts_tree(c@[k].classes.deep_view())),
        decreases c@.len() - i,
    {
        members.push(member(c[i].task_id.as_str(), json_texts(&c[i].classes)));
        i += 1;
    }
    let ghost ms = members@;
    let j = json_object(members);
    assert(members_tree(ms) =~= classes_by_task_tree(c@)->Object_0);
    j
}

/// Builds the authoring-input manifest.
pub fn authoring_input_manifest(a: &AuthoringInputs, d: &InputDigests) -> (j: Json)
    ensures
        j.tree() == authoring_input_tree(*a, *d),
{
    let mut m: Vec<(String, Json)> = Vec::new();
    m.push(member("schema_version", json_text("aiq.corpus-authoring-input.v1")));
    m.push(member("corpus_kind", kind_json(a.corpus_kind)));
    m.push(member("release_id", json_text(a.release_id.as_str())));
    m.push(member("source_commit", json_text(a.source_commit.as_str())));
    m.push(member("source_tree", json_text(a.source_tree.as_str())));
    m.push(member("task_count", Json::Number(a.task_count)));
    m.push(member("acceptance_required_classes", required_json(a.corpus_kind)));
    m.push(member("acceptance_optional_classes", optional_json(a.corpus_kind)));
    m.push(member("acceptance_classes_by_task", classes_by_task_json(&a.acceptance_classes_by_task)));
    m.push(member("tasks_tree_sha256", json_text(d.tasks_tree.as_str())));
    m.push(member("baselines_tree_sha256", json_text(d.baselines_tree.as_str())));
    m.push(member("acceptance_tree_sha256", json_text(d.acceptance_tree.as_str())));
    m.push(member("evaluator_tree_sha256", json_text(d.evaluator_tree.as_str())));
    m.push(member("toolchain_tree_sha256", json_text(d.toolchain_tree.as_str())));
    m.push(member("source_manifest_sha256", json_text(d.source_manifest.as_str())));
    m.push(member("runtime_authority_sha256", json_text(d.runtime_authority.as_str())));
    let ghost ms = m@;
    let j = json_object(m);
    assert(members_tree(ms) =~= authoring_input_tree(*a, *d)->Object_0);
    j
}

fn catalog_path_of(kind: CorpusKind) -> (r: &'static str)
    ensures
        r@ == kind_catalog_path(kind),
{
    match kind {
        CorpusKind::Core => "benchmarks/candidates/aiq-core-1.0.6/catalog.json",
        CorpusKind::Contrast => "benchmarks/candidates/aiq-core-1.0.6/contrast-catalog.json",
    }
}

fn harness_schema_of(kind: CorpusKind) -> (r: &'static str)
    ensures
        r@ == kind_harness_schema(kind),
{
    match kind {
        CorpusKind::Core => "aiq.core-authoring-harness.v3",
        CorpusKind::Contrast => "aiq.contrast-authoring-harness.v3",
    }
}

/// Finds the first source-manifest entry for a path.
fn find_entry(entries: &Vec<SourceManifestEntry>, path: &str) -> (r: Option<usize>)
    ensures
        match r {
            Some(i) => first_entry_for(entries@, path@, i as int),
            None => forall|j: int| 0 <= j < entries@.len() ==> entries@[j].path@ != path@,
        },
{
    let mut i: usize = 0;
    while i < entries.len()
        invariant
            i <= entries@.len(),
            forall|j: int| 0 <= j < i ==> entries@[j].path@ != path@,
        decreases entries@.len() - i,
    {
        if text_eq(entries[i].path.as_str(), path) {
            return Some(i);
        }
        i += 1;
    }
    None
}

/// Builds the harness manifest, naming the digest of the sealer's source as
/// the source manifest records it at `sealer_source_path`.
pub fn harness_manifest(a: &AuthoringInputs, d: &InputDigests, sealer_source_path: &str) -> (r: Result<
    Json,
    String,
>)
    ensures
        match r {
            Ok(j) => exists|i: int|
                first_entry_for(a.source_manifest.entries@, sealer_source_path@, i) && j.tree()
                    == harness_tree(*a, *d, a.source_manifest.entries@[i].sha256@),
            Err(_) => forall|j: int|
                0 <= j < a.source_manifest.entries@.len() ==> a.source_manifest.entries@[j].path@
                    != sealer_source_path@,
        },
{
    let index = match find_entry(&a.source_manifest.entries, sealer_source_path) {
        Some(i) => i,
        None => {
            return Err("source inventory omits sealer source".to_owned());
        },
    };
    let sealer = a.source_manifest.entries[index].sha256.as_str();
    let mut contract: Vec<(String, Json)> = Vec::new();
    contract.push(
        member(
            "benchmarks/schema/corpus-authoring-harness-v3.schema.json",
            json_text(a.harness_schema_sha256.as_str()),
        ),
    );
    contract.push(
        member(
            "benchmarks/schema/corpus-authoring-input-v1.schema.json",
            json_text(a.input_schema_sha256.as_str()),
        ),
    );
    contract.push(
        member(
            "benchmarks/schema/corpus-runtime-authority-v1.schema.json",
            json_text(a.runtime_authority_schema_sha256.as_str()),
        ),
    );
    contract.push(
        member(
            "benchmarks/schema/corpus-seal-receipt-v1.schema.json",
            json_text(a.seal_receipt_schema_sha256.as_str()),
        ),
    );
    let ghost cs = contract@;
    let contract_json = json_object(contract);
    let mut domain: Vec<(String, Json)> = Vec::new();
    domain.push(member(catalog_path_of(a.corpus_kind), json_text(a.catalog_sha256.as_str())));
    domain.push(
        member(
            "benchmarks/candidates/aiq-core-1.0.6/task.schema.json",
            json_text(a.task_schema_sha256.as_str()),
        ),
    );
    domain.push(
        member(
            "benchmarks/schema/corpus-commitment-v2.schema.json",
            json_text(a.commitment_schema_sha256.as_str()),
        ),
    );
    domain.push(
        member(
            "benchmarks/schema/leakage-review-v1.schema.json",
            json_text(a.leakage_review_schema_sha256.as_str()),
        ),
    );
    let ghost ds = domain@;
    let domain_json = json_object(domain);
    let mut generator: Vec<(String, Json)> = Vec::new();
    generator.push(member("name", json_text("aiq-core-catalog-generator")));
    generator.push(member("version", json_text("1.0.6")));
    generator.push(member("toolchain_source", json_text("repository_source")));
    generator.push(
        member("source_path", json_text("scripts/candidates/aiq-core-1.0.6/generate-benchmark-catalog.ts")),
    );
    generator.push(member("source_sha256", json_text(a.generator_source_sha256.as_str())));
    let ghost gs = generator@;
    let generator_json = json_object(generator);
    let ids: Vec<&'static str> = vec![
        "rfc8785-jcs-sha256",
        "aiq.workspace-manifest.v1",
        "aiq.controlled-tree.v1",
        "sha256-raw-file-v1",
        "aiq.runner-source-manifest.v1",
    ];
    let ghost idv = ids@;
    let algorithms = static_texts(ids);
    assert(Seq::new(idv.len(), |i: int| idv[i]@) =~= algorithm_ids());
    let mut m: Vec<(String, Json)> = Vec::new();
    m.push(member("schema_version", json_text(harness_schema_of(a.corpus_kind))));
    m.push(member("corpus_kind", kind_json(a.corpus_kind)));
    m.push(member("task_count", Json::Number(a.task_count)));
    m.push(member("acceptance_required_classes", required_json(a.corpus_kind)));
    m.push(member("acceptance_optional_classes", optional_json(a.corpus_kind)));
    m.push(member("acceptance_classes_by_task", classes_by_task_json(&a.acceptance_classes_by_task)));
    m.push(member("source_commit", json_text(a.source_commit.as_str())));
    m.push(member("source_tree", json_text(a.source_tree.as_str())));
    m.push(member("source_manifest_sha256", json_text(d.source_manifest.as_str())));
    m.push(member("sealer_source_sha256", json_text(sealer)));
    m.push(member("input_contract_schema_sha256", contract_json));
    m.push(member("task_catalog_corpus_evaluator_schema_sha256", domain_json));
    m.push(member("evaluator_sha256", json_text(a.evaluator_sha256.as_str())));
    m.push(member("node_sha256", json_text(a.node_sha256.as_str())));
    m.push(member("rg_sha256", json_text(a.rg_sha256.as_str())));
    m.push(member("catalog_generator", generator_json));
    m.push(member("algorithm_ids", algorithms));
    m.push(
        member(
            "ordered_task_commitment_aggregate_sha256",
            json_text(d.task_commitment_aggregate.as_str()),
        ),
    );
    let ghost ms = m@;
    let j = json_object(m);
    let ghost want = harness_tree(*a, *d, sealer@);
    assert(members_tree(cs) =~= want->Object_0[10].1->Object_0);
    assert(members_tree(ds) =~= want->Object_0[11].1->Object_0);
    assert(members_tree(gs) =~= want->Object_0[15].1->Object_0);
    assert(Seq::new(idv.len(), |i: int| JsonTree::Text(idv[i]@)) =~= texts_tree(algorithm_ids()));
    assert(members_tree(ms) =~= want->Object_0);
    Ok(j)
}

/// Computes the digests the authoring documents name: each controlled
/// tree's, the source manifest's, the runtime authority's and the ordered
/// task-commitment aggregate, each of a canonical encoding.
pub fn input_digests(a: &AuthoringInputs) -> (r: Result<InputDigests, String>)
    ensures
        match r {
            Ok(d) => input_digests_of(*a, d),
            Err(_) => !trees_bounded(*a) || exists|i: int|
                0 <= i < 8 && canonical_digest(#[trigger] digested_documents(*a)[i]) is None,
        },
{
    let ghost docs = digested_documents(*a);
    let tasks_tree = controlled_tree_digest(&a.tasks_tree)?;
    let baselines_tree = controlled_tree_digest(&a.baselines_tree)?;
    let acceptance_tree = controlled_tree_digest(&a.acceptance_tree)?;
    let evaluator_tree = controlled_tree_digest(&a.evaluator_tree)?;
    let toolchain_tree = controlled_tree_digest(&a.toolchain_tree)?;
    let source_manifest = match source_manifest_sha256(&a.source_manifest) {
        Some(d) => d,
        None => {
            assert(canonical_digest(docs[5]) is None);
            return Err("source manifest cannot be canonicalized".to_owned());
        },
    };
    let runtime_authority = match canonical_hash(&a.runtime_authority) {
        Some(d) => d,
        None => {
            assert(canonical_digest(docs[6]) is None);
            return Err("runtime authority cannot be canonicalized".to_owned());
        },
    };
    let task_commitment_aggregate = match task_commitment_aggregate_sha256(&a.task_commitments) {
        Some(d) => d,
        None => {
            assert(canonical_digest(docs[7]) is None);
            return Err("task commitments cannot be canonicalized".to_owned());
        },
    };
    let d = InputDigests {
        tasks_tree,
        baselines_tree,
        acceptance_tree,
        evaluator_tree,
        toolchain_tree,
        source_manifest,
        runtime_authority,
        task_commitment_aggregate,
    };
    assert forall|i: int| 0 <= i < 8 implies canonical_digest(#[trigger] docs[i]) == Some(
        digest_list(d)[i],
    ) by {
        if i == 0 {
        } else if i == 1 {
        } else if i == 2 {
        } else if i == 3 {
        } else if i == 4 {
        } else if i == 5 {
        } else if i == 6 {
        } else {
        }
    }
    Ok(d)
}

/// Builds both authoring documents and addresses each by the digest of its
/// canonical encoding.
pub fn authoring_documents(a: &AuthoringInputs, sealer_source_path: &str) -> (r: Result<
    AuthoringDocuments,
    String,
>)
    ensures
        match r {
            Ok(d) => {
                &&& input_digests_of(*a, d.digests)
                &&& d.input_manifest.tree() == authoring_input_tree(*a, d.digests)
                &&& canonical_digest(authoring_input_tree(*a, d.digests)) == Some(
                    d.input_manifest_sha256@,
                )
                &&& exists|i: int|
                    first_entry_for(a.source_manifest.entries@, sealer_source_path@, i) && d.harness.tree()
                        == harness_tree(*a, d.digests, a.source_manifest.entries@[i].sha256@)
                &&& canonical_digest(d.harness.tree()) == Some(d.harness_sha256@)
            },
            Err(_) => {
                ||| !trees_bounded(*a)
                ||| exists|i: int|
                    0 <= i < 8 && canonical_digest(#[trigger] digested_documents(*a)[i]) is None
                ||| forall|j: int|
                    0 <= j < a.source_manifest.entries@.len() ==> a.source_manifest.entries@[j].path@
                        != sealer_source_path@
                ||| exists|d: InputDigests|
                    input_digests_of(*a, d) && (canonical_digest(authoring_input_tree(*a, d)) is None
                        || exists|i: int|
                        first_entry_for(a.source_manifest.entries@, sealer_source_path@, i)
                            && canonical_digest(
                            harness_tree(*a, d, a.source_manifest.entries@[i].sha256@),
                        ) is None)
            },
        },
{
    let digests = input_digests(a)?;
    let input_manifest = authoring_input_manifest(a, &digests);
    let input_manifest_sha256 = match canonical_hash(&input_manifest) {
        Some(d) => d,
        None => {
            return Err("authoring input manifest cannot be canonicalized".to_owned());
        },
    };
    let harness = harness_manifest(a, &digests, sealer_source_path)?;
    let harness_sha256 = match canonical_hash(&harness) {
        Some(d) => d,
        None => {
            return Err("harness manifest cannot be canonicalized".to_owned());
        },
    };
    Ok(AuthoringDocuments { digests, input_manifest, input_manifest_sha256, harness, harness_sha256 })
}

} // verus!

//! The sealed corpus commitment and the seal receipt: the commitment names
//! the release, its catalog identity, the execution digests and runtime
//! provenance, and every task's committed digests; the receipt binds the
//! commitment, both authoring documents and the sealed output trees.
use vstd::prelude::*;

use crate::corpus::document::{commitment_tree, CorpusCatalog, CorpusCommitment, CorpusExecution, CorpusTask};
use crate::digest::{
    canonical_bytes, canonical_digest, canonical_hash, digest_bytes, digest_text, items_tree, json_array,
    json_object, json_text, json_texts, member, members_tree, spec_canonical_json, texts_tree, Json, JsonTree,
};
use crate::seal::authoring::kind_text;
use crate::seal::CorpusKind;

verus! {

/// The leakage review a seal writes for each task.
pub open spec fn leakage_review_tree(task_id: Seq<char>, task_version: Seq<char>, notes: Seq<Seq<char>>) -> JsonTree {
    JsonTree::Object(
        seq![
            ("schema_version"@, JsonTree::Text("aiq.leakage-review.v1"@)),
            ("task_id"@, JsonTree::Text(task_id)),
            ("task_version"@, JsonTree::Text(task_version)),
            ("reviewed"@, JsonTree::Bool(true)),
            ("status"@, JsonTree::Text("reviewed"@)),
            ("leakage_notes"@, JsonTree::Array(texts_tree(notes))),
        ],
    )
}

/// Builds a task's leakage review.
pub fn leakage_review_json(task_id: &str, task_version: &str, notes: &Vec<String>) -> (j: Json)
    ensures
        j.tree() == leakage_review_tree(task_id@, task_version@, notes.deep_view()),
{
    let mut m: Vec<(String, Json)> = Vec::new();
    m.push(member("schema_version", json_text("aiq.leakage-review.v1")));
    m.push(member("task_id", json_text(task_id)));
    m.push(member("task_version", json_text(task_version)));
    m.push(member("reviewed", Json::Bool(true)));
    m.push(member("status", json_text("reviewed")));
    m.push(member("leakage_notes", json_texts(notes)));
    let ghost ms = m@;
    let j = json_object(m);
    assert(members_tree(ms) =~= leakage_review_tree(task_id@, task_version@, notes.deep_view())->Object_0);
    j
}

/// One committed task.
pub open spec fn corpus_task_tree(t: CorpusTask) -> JsonTree {
    JsonTree::Object(
        seq![
            ("task_id"@, JsonTree::Text(t.task_id@)),
            ("task_version"@, JsonTree::Text(t.task_version@)),
            ("task_definition_sha256"@, JsonTree::Text(t.task_definition_sha256@)),
            ("baseline_workspace_tree_sha256"@, JsonTree::Text(t.baseline_workspace_tree_sha256@)),
            ("fixture_bundle_sha256"@, JsonTree::Text(t.fixture_bundle_sha256@)),
            ("catalog_entry_sha256"@, JsonTree::Text(t.catalog_entry_sha256@)),
            ("evaluator_runtime_kind"@, JsonTree::Text(t.evaluator_runtime_kind@)),
            (
                "evaluator_runtime_executable_sha256"@,
                JsonTree::Text(t.evaluator_runtime_executable_sha256@),
            ),
            ("evaluator_executable_sha256"@, JsonTree::Text(t.evaluator_executable_sha256@)),
            ("evaluator_configuration_sha256"@, JsonTree::Text(t.evaluator_configuration_sha256@)),
            ("acceptance_suite_sha256"@, JsonTree::Text(t.acceptance_suite_sha256@)),
            ("leakage_review_sha256"@, JsonTree::Text(t.leakage_review_sha256@)),
        ],
    )
}

/// The ordered committed tasks.
pub open spec fn corpus_tasks_tree(tasks: Seq<CorpusTask>) -> JsonTree {
    JsonTree::Array(Seq::new(tasks.len(), |i: int| corpus_task_tree(tasks[i])))
}

/// The sealed corpus commitment.
pub open spec fn sealed_commitment_tree(
    release_id: Seq<char>,
    catalog: CorpusCatalog,
    execution: CorpusExecution,
    runtime_provenance: JsonTree,
    tasks: Seq<CorpusTask>,
) -> JsonTree {
    JsonTree::Object(
        seq![
            ("schema_version"@, JsonTree::Text("aiq.corpus-commitment.v2"@)),
            ("release_id"@, JsonTree::Text(release_id)),
            ("controlled"@, JsonTree::Bool(true)),
            ("synthetic"@, JsonTree::Bool(false)),
            (
                "catalog"@,
                JsonTree::Object(
                    seq![
                        ("schema_version"@, JsonTree::Text(catalog.schema_version@)),
                        ("task_set_id"@, JsonTree::Text(catalog.task_set_id@)),
                        ("task_set_version"@, JsonTree::Text(catalog.task_set_version@)),
                        ("identity_sha256"@, JsonTree::Text(catalog.identity_sha256@)),
                        ("identity_scope"@, JsonTree::Text(catalog.identity_scope@)),
                    ],
                ),
            ),
            (
                "execution"@,
                JsonTree::Object(
                    seq![
                        ("harness_sha256"@, JsonTree::Text(execution.harness_sha256@)),
                        (
                            "runner_prompt_source_sha256"@,
                            JsonTree::Text(execution.runner_prompt_source_sha256@),
                        ),
                        (
                            "declared_tool_policy_sha256"@,
                            JsonTree::Text(execution.declared_tool_policy_sha256@),
                        ),
                        (
                            "declared_network_policy_sha256"@,
                            JsonTree::Text(execution.declared_network_policy_sha256@),
                        ),
                        ("environment_sha256"@, JsonTree::Text(execution.environment_sha256@)),
                        ("runtime_provenance"@, runtime_provenance),
                    ],
                ),
            ),
            ("tasks"@, corpus_tasks_tree(tasks)),
        ],
    )
}

fn corpus_task_json(t: &CorpusTask) -> (j: Json)
    ensures
        j.tree() == corpus_task_tree(*t),
{
    let mut m: Vec<(String, Json)> = Vec::new();
    m.push(member("task_id", json_text(t.task_id.as_str())));
    m.push(member("task_version", json_text(t.task_version.as_str())));
    m.push(member("task_definition_sha256", json_text(t.task_definition_sha256.as_str())));
    m.push(member("baseline_workspace_tree_sha256", json_text(t.baseline_workspace_tree_sha256.as_str())));
    m.push(member("fixture_bundle_sha256", json_text(t.fixture_bundle_sha256.as_str())));
    m.push(member("catalog_entry_sha256", json_text(t.catalog_entry_sha256.as_str())));
    m.push(member("evaluator_runtime_kind", json_text(t.evaluator_runtime_kind.as_str())));
    m.push(
        member(
            "evaluator_runtime_executable_sha256",
            json_text(t.evaluator_runtime_executable_sha256.as_str()),
        ),
    );
    m.push(member("evaluator_executable_sha256", json_text(t.evaluator_executable_sha256.as_str())));
    m.push(member("evaluator_configuration_sha256", json_text(t.evaluator_configuration_sha256.as_str())));
    m.push(member("acceptance_suite_sha256", json_text(t.acceptance_suite_sha256.as_str())));
    m.push(member("leakage_review_sha256", json_text(t.leakage_review_sha256.as_str())));
    let ghost ms = m@;
    let j = json_object(m);
    assert(members_tree(ms) =~= corpus_task_tree(*t)->Object_0);
    j
}

/// The committed tasks as a JSON array, in order.
pub fn corpus_tasks_json(tasks: &Vec<CorpusTask>) -> (j: Json)
    ensures
        j.tree() == corpus_tasks_tree(tasks@),
{
    let mut out: Vec<Json> = Vec::new();
    let mut i: usize = 0;
    while i < tasks.len()
        invariant
            i <= tasks@.len(),
            out@.len() == i,
            forall|k: int| 0 <= k < i ==> #[trigger] out@[k].tree() == corpus_task_tree(tasks@[k]),
        decreases tasks@.len() - i,
    {
        out.push(corpus_task_json(&tasks[i]));
        i += 1;
    }
    let ghost outs = out@;
    let j = json_array(out);
    assert(items_tree(outs) =~= corpus_tasks_tree(tasks@)->Array_0);
    j
}

/// The ordered task-commitment aggregate the harness names: the digest of
/// the canonical encoding of the ordered committed tasks.
pub fn task_commitment_aggregate_sha256(tasks: &Vec<CorpusTask>) -> (r: Option<String>)
    ensures
        match r {
            Some(d) => canonical_digest(corpus_tasks_tree(tasks@)) == Some(d@),
            None => canonical_digest(corpus_tasks_tree(tasks@)) is None,
        },
{
    canonical_hash(&corpus_tasks_json(tasks))
}

/// Builds the sealed corpus commitment.
pub fn sealed_commitment_json(
    release_id: &str,
    catalog: &CorpusCatalog,
    execution: &CorpusExecution,
    runtime_provenance: Json,
    tasks: &Vec<CorpusTask>,
) -> (j: Json)
    ensures
        j.tree() == sealed_commitment_tree(release_id@, *catalog, *execution, runtime_provenance.tree(), tasks@),
{
    let ghost rp = runtime_provenance.tree();
    let mut c: Vec<(String, Json)> = Vec::new();
    c.push(member("schema_version", json_text(catalog.schema_version.as_str())));
    c.push(member("task_set_id", json_text(catalog.task_set_id.as_str())));
    c.push(member("task_set_version", json_text(catalog.task_set_version.as_str())));
    c.push(member("identity_sha256", json_text(catalog.identity_sha256.as_str())));
    c.push(member("identity_scope", json_text(catalog.identity_scope.as_str())));
    let ghost cs = c@;
    let catalog_json = json_object(c);
    let mut e: Vec<(String, Json)> = Vec::new();
    e.push(member("harness_sha256", json_text(execution.harness_sha256.as_str())));
    e.push(member("runner_prompt_source_sha256", json_text(execution.runner_prompt_source_sha256.as_str())));
    e.push(member("declared_tool_policy_sha256", json_text(execution.declared_tool_policy_sha256.as_str())));
    e.push(
        member("declared_network_policy_sha256", json_text(execution.declared_network_policy_sha256.as_str())),
    );
    e.push(member("environment_sha256", json_text(execution.environment_sha256.as_str())));
    e.push(member("runtime_provenance", runtime_provenance));
    let ghost es = e@;
    let execution_json = json_object(e);
    let mut m: Vec<(String, Json)> = Vec::new();
    m.push(member("schema_version", json_text("aiq.corpus-commitment.v2")));
    m.push(member("release_id", json_text(release_id)));
    m.push(member("controlled", Json::Bool(true)));
    m.push(member("synthetic", Json::Bool(false)));
    m.push(member("catalog", catalog_json));
    m.push(member("execution", execution_json));
    m.push(member("tasks", corpus_tasks_json(tasks)));
    let ghost ms = m@;
    let j = json_object(m);
    let ghost want = sealed_commitment_tree(release_id@, *catalog, *execution, rp, tasks@);
    assert(members_tree(cs) =~= want->Object_0[4].1->Object_0);
    assert(members_tree(es) =~= want->Object_0[5].1->Object_0);
    assert(members_tree(ms) =~= want->Object_0);
    j
}

/// A sealed commitment with its canonical encoding and both its
/// addresses: of the document, and of the encoded file's raw bytes.
pub struct SealedCommitment {
    pub document: Json,
    pub canonical_sha256: String,
    pub bytes: Vec<u8>,
    pub raw_file_sha256: String,
}

/// Encodes and addresses the sealed commitment.
pub fn seal_commitment(
    release_id: &str,
    catalog: &CorpusCatalog,
    execution: &CorpusExecution,
    runtime_provenance: Json,
    tasks: &Vec<CorpusTask>,
) -> (r: Option<SealedCommitment>)
    ensures
        match r {
            Some(s) => {
                &&& s.document.tree() == sealed_commitment_tree(
                    release_id@,
                    *catalog,
                    *execution,
                    runtime_provenance.tree(),
                    tasks@,
                )
                &&& spec_canonical_json(s.document.tree()) == Some(s.bytes@)
                &&& canonical_digest(s.document.tree()) == Some(s.canonical_sha256@)
                &&& s.raw_file_sha256@ == digest_text(s.bytes@)
                &&& s.raw_file_sha256@ == s.canonical_sha256@
            },
            None => spec_canonical_json(
                sealed_commitment_tree(release_id@, *catalog, *execution, runtime_provenance.tree(), tasks@),
            ) is None,
        },
{
    let document = sealed_commitment_json(release_id, catalog, execution, runtime_provenance, tasks);
    let bytes = canonical_bytes(&document)?;
    let canonical_sha256 = match canonical_hash(&document) {
        Some(d) => d,
        None => {
            return None;
        },
    };
    let raw_file_sha256 = digest_bytes(bytes.as_slice());
    Some(SealedCommitment { document, canonical_sha256, bytes, raw_file_sha256 })
}

/// The digests of the sealed output's trees.
#[derive(Clone, Debug)]
pub struct SealedOutputTrees {
    pub tasks: String,
    pub baselines: String,
    pub acceptance: String,
    pub leakage_reviews: String,
    pub evaluator: String,
    pub toolchain: String,
    pub source_snapshot: String,
    /// The whole sealed output.
    pub sealed: String,
}

/// What a seal receipt binds.
#[derive(Clone, Debug)]
pub struct SealReceiptInputs {
    pub corpus_kind: CorpusKind,
    pub release_id: String,
    pub catalog_identity_sha256: String,
    pub task_count: u64,
    pub source_commit: String,
    pub source_tree: String,
    pub source_manifest_sha256: String,
    pub commitment_canonical_sha256: String,
    pub commitment_raw_file_sha256: String,
    pub authoring_input_manifest_sha256: String,
    pub harness_manifest_sha256: String,
    pub trees: SealedOutputTrees,
}

/// The seal receipt; its output trees are keyed by name, in name order.
pub open spec fn seal_receipt_tree(r: SealReceiptInputs) -> JsonTree {
    JsonTree::Object(
        seq![
            ("schema_version"@, JsonTree::Text("aiq.corpus-seal-receipt.v1"@)),
            ("corpus_kind"@, JsonTree::Text(kind_text(r.corpus_kind))),
            ("release_id"@, JsonTree::Text(r.release_id@)),
            ("catalog_identity_sha256"@, JsonTree::Text(r.catalog_identity_sha256@)),
            ("task_count"@, JsonTree::Number(r.task_count)),
            ("source_commit"@, JsonTree::Text(r.source_commit@)),
            ("source_tree"@, JsonTree::Text(r.source_tree@)),
            ("source_manifest_sha256"@, JsonTree::Text(r.source_manifest_sha256@)),
            ("commitment_canonical_sha256"@, JsonTree::Text(r.commitment_canonical_sha256@)),
            ("commitment_raw_file_sha256"@, JsonTree::Text(r.commitment_raw_file_sha256@)),
            ("authoring_input_manifest_sha256"@, JsonTree::Text(r.authoring_input_manifest_sha256@)),
            ("harness_manifest_sha256"@, JsonTree::Text(r.harness_manifest_sha256@)),
            ("sealed_tree_sha256"@, JsonTree::Text(r.trees.sealed@)),
            (
                "output_trees"@,
                JsonTree::Object(
                    seq![
                        ("acceptance"@, JsonTree::Text(r.trees.acceptance@)),
                        ("baselines"@, JsonTree::Text(r.trees.baselines@)),
                        ("evaluator"@, JsonTree::Text(r.trees.evaluator@)),
                        ("leakage_reviews"@, JsonTree::Text(r.trees.leakage_reviews@)),
                        ("source_snapshot"@, JsonTree::Text(r.trees.source_snapshot@)),
                        ("tasks"@, JsonTree::Text(r.trees.tasks@)),
                        ("toolchain"@, JsonTree::Text(r.trees.toolchain@)),
                    ],
                ),
            ),
        ],
    )
}

fn kind_json(kind: CorpusKind) -> (j: Json)
    ensures
        j.tree() == JsonTree::Text(kind_text(kind)),
{
    match kind {
        CorpusKind::Core => json_text("core"),
        CorpusKind::Contrast => json_text("contrast"),
    }
}

/// Builds the seal receipt.
pub fn seal_receipt_json(r: &SealReceiptInputs) -> (j: Json)
    ensures
        j.tree() == seal_receipt_tree(*r),
{
    let t = &r.trees;
    let mut o: Vec<(String, Json)> = Vec::new();
    o.push(member("acceptance", json_text(t.acceptance.as_str())));
    o.push(member("baselines", json_text(t.baselines.as_str())));
    o.push(member("evaluator", json_text(t.evaluator.as_str())));
    o.push(member("leakage_reviews", json_text(t.leakage_reviews.as_str())));
    o.push(member("source_snapshot", json_text(t.source_snapshot.as_str())));
    o.push(member("tasks", json_text(t.tasks.as_str())));
    o.push(member("toolchain", json_text(t.toolchain.as_str())));
    let ghost os = o@;
    let trees_json = json_object(o);
    let mut m: Vec<(String, Json)> = Vec::new();
    m.push(member("schema_version", json_text("aiq.corpus-seal-receipt.v1")));
    m.push(member("corpus_kind", kind_json(r.corpus_kind)));
    m.push(member("release_id", json_text(r.release_id.as_str())));
    m.push(member("catalog_identity_sha256", json_text(r.catalog_identity_sha256.as_str())));
    m.push(member("task_count", Json::Number(r.task_count)));
    m.push(member("source_commit", json_text(r.source_commit.as_str())));
    m.push(member("source_tree", json_text(r.source_tree.as_str())));
    m.push(member("source_manifest_sha256", json_text(r.source_manifest_sha256.as_str())));
    m.push(member("commitment_canonical_sha256", json_text(r.commitment_canonical_sha256.as_str())));
    m.push(member("commitment_raw_file_sha256", json_text(r.commitment_raw_file_sha256.as_str())));
    m.push(member("authoring_input_manifest_sha256", json_text(r.authoring_input_manifest_sha256.as_str())));
    m.push(member("harness_manifest_sha256", json_text(r.harness_manifest_sha256.as_str())));
    m.push(member("sealed_tree_sha256", json_text(t.sealed.as_str())));
    m.push(member("output_trees", trees_json));
    let ghost ms = m@;
    let j = json_object(m);
    assert(members_tree(os) =~= seal_receipt_tree(*r)->Object_0[13].1->Object_0);
    assert(members_tree(ms) =~= seal_receipt_tree(*r)->Object_0);
    j
}

/// A sealed commitment is the document that corpus validation reads back:
/// its typed fields, with the sealed schema, controlled and not synthetic,
/// describe exactly the document the seal writes.
pub proof fn law_sealed_commitment_reads_back(c: CorpusCommitment, runtime_provenance: JsonTree)
    requires
        c.schema_version@ == "aiq.corpus-commitment.v2"@,
        c.controlled,
        !c.synthetic,
    ensures
        sealed_commitment_tree(c.release_id@, c.catalog, c.execution, runtime_provenance, c.tasks@)
            == commitment_tree(c, runtime_provenance),
{
    let sealed = sealed_commitment_tree(c.release_id@, c.catalog, c.execution, runtime_provenance, c.tasks@);
    let read = commitment_tree(c, runtime_provenance);
    assert(sealed->Object_0[4].1->Object_0 =~= read->Object_0[4].1->Object_0);
    assert(sealed->Object_0[5].1->Object_0 =~= read->Object_0[5].1->Object_0);
    assert(sealed->Object_0 =~= read->Object_0);
}

} // verus!

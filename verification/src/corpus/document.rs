//! The corpus commitment document and its validation against a catalog
//! contract, the selected tasks and the runner's source manifest.
use vstd::prelude::*;
use vstd::string::*;

use crate::corpus::toolchain::{
    clone_policy, openssl_environment_ok, same_policy,
    validate_controlled_openssl_environment, validate_model_toolchain,
    validate_model_toolchain_static, EvaluatorRuntime, ExecutionToolPolicy, ObservedToolchainRoot,
    ValidatedModelToolchain, toolchain_valid,
};
use crate::corpus::{
    hash_bounded_file, is_valid_release_id, is_valid_runtime_version, is_valid_source_path,
    valid_bounded_file_size, valid_release_id,
    valid_runtime_version, valid_source_path, CorpusCommitmentError, RunClass,
    RunProvenanceCommitment, AIQ_TASK_SET_ID,
    CONTROLLED_CONTRAST_CATALOG_IDENTITY_SHA256, RUN_PROVENANCE_SCHEMA,
};
use crate::digest::{
    bytes_eq, canonical_bytes, json_at, json_copy, path_view, spec_canonical_json, text_at, text_node, tree_at,
    canonical_digest, canonical_hash, digest_text, items_tree, json_array, json_object, json_text, json_texts,
    member, members_tree, texts_tree, Json, JsonTree,
};
use crate::release_gate::{is_valid_digest, valid_digest};
use crate::seal::commitment::{corpus_tasks_json, corpus_tasks_tree};
use crate::seal::{source_manifest_json, source_manifest_tree};
use crate::text::{is_text_less, keys_increasing, sort_by_key, text_eq, text_less};

/// Loads the current public core commitment: the core validator itself.
pub use self::validate_candidate_core_corpus_commitment_v1_1_0 as validate_corpus_commitment;
/// Loads and validates the immutable 72-task core corpus: the core validator
/// itself.
pub use self::validate_candidate_core_corpus_commitment_v1_1_0 as validate_core_corpus_commitment;

verus! {

/// Commitment schema of the core corpus.
pub const CORE_COMMITMENT_SCHEMA: &'static str = "aiq.corpus-commitment.v3";

/// Catalog schema of the core corpus.
pub const CORE_CATALOG_SCHEMA: &'static str = "aiq.catalog.v2";

/// Task-set version of the core corpus.
pub const CORE_TASK_SET_VERSION: &'static str = "1.1.0";

/// Commitment schema of the contrast corpus.
pub const CONTRAST_COMMITMENT_SCHEMA: &'static str = "aiq.corpus-commitment.v2";

/// Catalog schema of the contrast corpus.
pub const CONTRAST_CATALOG_SCHEMA: &'static str = "aiq.contrast-corpus.v1";

/// Task-set identifier of the contrast corpus.
pub const CONTRAST_TASK_SET_ID: &'static str = "aiq-core-contrast";

/// Task-set version of the contrast corpus.
pub const CONTROLLED_CONTRAST_TASK_SET_VERSION: &'static str = "1.0.7";

/// Scope of every catalog identity.
pub const IDENTITY_SCOPE: &'static str = "ordered_full_task_metadata";

/// Number of tasks in the core catalog.
pub const CORE_TASK_COUNT: usize = 72;

/// Source-manifest path of the runner prompt source.
pub const RUNNER_PROMPT_SOURCE_PATH: &'static str = "apps/aiq-runner/src/runner.rs";

/// One task of the frozen public core catalog, as far as validation reads it.
#[derive(Clone, Debug)]
pub struct FrozenCatalogTask {
    /// Task identifier.
    pub task_id: String,
    /// Task version.
    pub task_version: String,
    /// Tools the task allows.
    pub allowed_tools: Vec<String>,
    /// Canonical JSON text of the task's declared budget.
    pub budget: String,
}

/// Where a catalog contract takes its task list from.
#[derive(Clone, Debug)]
pub enum CatalogTaskAuthority {
    /// The frozen public catalog, matched as an unordered set.
    Frozen(Vec<FrozenCatalogTask>),
    /// A fixed ordered list of task identifiers.
    FixedOrderedIds(Vec<String>),
}

/// The catalog that a commitment must name and the tasks it must cover.
#[derive(Clone, Debug)]
pub struct CatalogContract {
    pub commitment_schema_version: String,
    pub catalog_schema_version: String,
    pub task_set_id: String,
    pub task_set_version: String,
    pub identity_sha256: String,
    pub identity_scope: String,
    pub tasks: CatalogTaskAuthority,
}

/// Catalog header of a corpus commitment.
#[derive(Clone, Debug)]
pub struct CorpusCatalog {
    pub schema_version: String,
    pub task_set_id: String,
    pub task_set_version: String,
    pub identity_sha256: String,
    pub identity_scope: String,
}

/// The five execution digests of a corpus commitment.
#[derive(Clone, Debug)]
pub struct CorpusExecution {
    pub harness_sha256: String,
    pub runner_prompt_source_sha256: String,
    pub declared_tool_policy_sha256: String,
    pub declared_network_policy_sha256: String,
    pub environment_sha256: String,
}

/// One committed task.
#[derive(Clone, Debug)]
pub struct CorpusTask {
    pub task_id: String,
    pub task_version: String,
    pub task_definition_sha256: String,
    pub baseline_workspace_tree_sha256: String,
    pub fixture_bundle_sha256: String,
    pub catalog_entry_sha256: String,
    pub evaluator_runtime_kind: String,
    pub evaluator_runtime_executable_sha256: String,
    pub evaluator_executable_sha256: String,
    pub evaluator_configuration_sha256: String,
    pub acceptance_suite_sha256: String,
    pub leakage_review_sha256: String,
}

/// A corpus commitment document.
#[derive(Clone, Debug)]
pub struct CorpusCommitment {
    pub schema_version: String,
    pub release_id: String,
    pub controlled: bool,
    pub synthetic: bool,
    pub catalog: CorpusCatalog,
    pub execution: CorpusExecution,
    pub tasks: Vec<CorpusTask>,
}

/// The external evaluator binding of a selected task.
#[derive(Clone, Debug)]
pub struct SelectedEvaluator {
    /// The evaluator runs on Node.js.
    pub runtime_is_node: bool,
    pub runtime_executable_digest: String,
    pub executable_digest: String,
    pub configuration_digest: String,
}

/// What corpus validation reads of one selected task definition.
#[derive(Clone, Debug)]
pub struct SelectedTask {
    pub task_id: String,
    pub task_version: String,
    /// Content address of the task definition.
    pub content_hash: String,
    /// The task is hidden.
    pub hidden: bool,
    pub catalog_entry_digest: Option<String>,
    pub allowed_tools: Vec<String>,
    /// Canonical JSON text of the task's declared budget.
    pub budget: String,
    pub external_evaluator: Option<SelectedEvaluator>,
}

// ---------------------------------------------------------------------------
// Catalog contracts
// ---------------------------------------------------------------------------
/// The six contrast task identifiers, in committed order.
pub open spec fn contrast_task_ids() -> Seq<Seq<char>> {
    seq![
        "contrast-coupled-challenge-01"@,
        "contrast-coupled-reference-01"@,
        "contrast-evidence-challenge-01"@,
        "contrast-evidence-reference-01"@,
        "contrast-recovery-challenge-01"@,
        "contrast-recovery-reference-01"@,
    ]
}

pub open spec fn frozen_ids_distinct(f: Seq<FrozenCatalogTask>) -> bool {
    forall|i: int, j: int|
        0 <= i < j < f.len() ==> (#[trigger] f[i]).task_id@ != (#[trigger] f[j]).task_id@
}

impl CatalogContract {
    /// The contract's own invariant: a frozen catalog holds 72 distinct tasks.
    pub open spec fn wf(&self) -> bool {
        match self.tasks {
            CatalogTaskAuthority::Frozen(f) => f@.len() == CORE_TASK_COUNT && frozen_ids_distinct(
                f@,
            ),
            CatalogTaskAuthority::FixedOrderedIds(ids) => ids.deep_view() == contrast_task_ids(),
        }
    }

    /// The core contract, over the frozen public catalog and that catalog's
    /// ordered task-metadata identity.
    pub fn core_catalog(frozen: Vec<FrozenCatalogTask>, identity_sha256: &str) -> (r: Result<
        CatalogContract,
        CorpusCommitmentError,
    >)
        ensures
            match r {
                Ok(c) => c.wf() && c.commitment_schema_version@ == CORE_COMMITMENT_SCHEMA@
                    && c.catalog_schema_version@ == CORE_CATALOG_SCHEMA@ && c.task_set_id@
                    == AIQ_TASK_SET_ID@ && c.task_set_version@ == CORE_TASK_SET_VERSION@
                    && c.identity_sha256@ == identity_sha256@ && valid_digest(identity_sha256@)
                    && c.identity_scope@ == IDENTITY_SCOPE@ && c.tasks == CatalogTaskAuthority::Frozen(
                    frozen,
                ),
                Err(_) => !(frozen@.len() == CORE_TASK_COUNT && frozen_ids_distinct(frozen@))
                    || !valid_digest(identity_sha256@),
            },
    {
        if frozen.len() != CORE_TASK_COUNT || !is_valid_digest(identity_sha256) {
            return Err(CorpusCommitmentError::new("embedded catalog is invalid"));
        }
        let mut i: usize = 0;
        while i < frozen.len()
            invariant
                i <= frozen@.len(),
                forall|a: int, b: int|
                    0 <= a < b < i ==> (#[trigger] frozen@[a]).task_id@ != (
                    #[trigger] frozen@[b]).task_id@,
            decreases frozen@.len() - i,
        {
            let mut j: usize = 0;
            while j < i
                invariant
                    j <= i < frozen@.len(),
                    forall|a: int| 0 <= a < j ==> frozen@[a].task_id@ != frozen@[i as int].task_id@,
                decreases i - j,
            {
                if frozen[j].task_id == frozen[i].task_id {
                    return Err(CorpusCommitmentError::new("embedded catalog is invalid"));
                }
                j += 1;
            }
            i += 1;
        }
        Ok(
            CatalogContract {
                commitment_schema_version: CORE_COMMITMENT_SCHEMA.to_owned(),
                catalog_schema_version: CORE_CATALOG_SCHEMA.to_owned(),
                task_set_id: AIQ_TASK_SET_ID.to_owned(),
                task_set_version: CORE_TASK_SET_VERSION.to_owned(),
                identity_sha256: identity_sha256.to_owned(),
                identity_scope: IDENTITY_SCOPE.to_owned(),
                tasks: CatalogTaskAuthority::Frozen(frozen),
            },
        )
    }

    /// The contrast contract: six fixed ordered variants.
    pub fn contrast() -> (c: CatalogContract)
        ensures
            c.wf(),
            c.tasks is FixedOrderedIds,
            c.commitment_schema_version@ == CONTRAST_COMMITMENT_SCHEMA@,
            c.catalog_schema_version@ == CONTRAST_CATALOG_SCHEMA@,
            c.task_set_id@ == CONTRAST_TASK_SET_ID@,
            c.task_set_version@ == CONTROLLED_CONTRAST_TASK_SET_VERSION@,
            c.identity_sha256@ == CONTROLLED_CONTRAST_CATALOG_IDENTITY_SHA256@,
            c.identity_scope@ == IDENTITY_SCOPE@,
    {
        let ids = vec![
            "contrast-coupled-challenge-01".to_owned(),
            "contrast-coupled-reference-01".to_owned(),
            "contrast-evidence-challenge-01".to_owned(),
            "contrast-evidence-reference-01".to_owned(),
            "contrast-recovery-challenge-01".to_owned(),
            "contrast-recovery-reference-01".to_owned(),
        ];
        assert(ids.deep_view() =~= contrast_task_ids());
        CatalogContract {
            commitment_schema_version: CONTRAST_COMMITMENT_SCHEMA.to_owned(),
            catalog_schema_version: CONTRAST_CATALOG_SCHEMA.to_owned(),
            task_set_id: CONTRAST_TASK_SET_ID.to_owned(),
            task_set_version: CONTROLLED_CONTRAST_TASK_SET_VERSION.to_owned(),
            identity_sha256: CONTROLLED_CONTRAST_CATALOG_IDENTITY_SHA256.to_owned(),
            identity_scope: IDENTITY_SCOPE.to_owned(),
            tasks: CatalogTaskAuthority::FixedOrderedIds(ids),
        }
    }
}

/// A commitment's catalog names the supported core catalog, whose ordered
/// task-metadata identity is `core_identity`.
pub open spec fn supported_catalog(catalog: CorpusCatalog, core_identity: Seq<char>) -> bool {
    &&& catalog.task_set_id@ == AIQ_TASK_SET_ID@
    &&& catalog.task_set_version@ == CORE_TASK_SET_VERSION@
    &&& catalog.identity_sha256@ == core_identity
}

/// Selects the supported catalog contract that a commitment names.
pub fn catalog_contract(catalog: &CorpusCatalog, frozen: Vec<FrozenCatalogTask>, core_identity: &str) -> (r:
    Result<CatalogContract, CorpusCommitmentError>)
    ensures
        match r {
            Ok(c) => supported_catalog(*catalog, core_identity@) && c.wf() && c.identity_sha256@
                == core_identity@,
            Err(_) => !supported_catalog(*catalog, core_identity@) || !(frozen@.len() == CORE_TASK_COUNT
                && frozen_ids_distinct(frozen@)) || !valid_digest(core_identity@),
        },
{
    if !(text_eq(catalog.task_set_id.as_str(), AIQ_TASK_SET_ID) && text_eq(
        catalog.task_set_version.as_str(),
        CORE_TASK_SET_VERSION,
    ) && text_eq(catalog.identity_sha256.as_str(), core_identity)) {
        return Err(CorpusCommitmentError::new("corpus catalog identity is unsupported"));
    }
    CatalogContract::core_catalog(frozen, core_identity)
}

// ---------------------------------------------------------------------------
// Header and committed tasks
// ---------------------------------------------------------------------------
pub open spec fn execution_digests(e: CorpusExecution) -> Seq<Seq<char>> {
    seq![
        e.harness_sha256@,
        e.runner_prompt_source_sha256@,
        e.declared_tool_policy_sha256@,
        e.declared_network_policy_sha256@,
        e.environment_sha256@,
    ]
}

/// The header names the contract's catalog, the corpus is controlled and
/// not synthetic, and the five execution digests are valid.
pub open spec fn header_ok(c: CorpusCommitment, k: CatalogContract) -> bool {
    &&& c.schema_version@ == k.commitment_schema_version@
    &&& valid_release_id(c.release_id@)
    &&& c.controlled
    &&& !c.synthetic
    &&& c.catalog.schema_version@ == k.catalog_schema_version@
    &&& c.catalog.task_set_id@ == k.task_set_id@
    &&& c.catalog.task_set_version@ == k.task_set_version@
    &&& c.catalog.identity_sha256@ == k.identity_sha256@
    &&& c.catalog.identity_scope@ == k.identity_scope@
    &&& forall|i: int| 0 <= i < 5 ==> valid_digest(#[trigger] execution_digests(c.execution)[i])
}

/// Validates the commitment header against a catalog contract.
pub fn validate_header(commitment: &CorpusCommitment, contract: &CatalogContract) -> (r: Result<
    (),
    CorpusCommitmentError,
>)
    ensures
        r is Ok <==> header_ok(*commitment, *contract),
{
    let c = &commitment.catalog;
    if !text_eq(commitment.schema_version.as_str(), contract.commitment_schema_version.as_str())
        || !is_valid_release_id(commitment.release_id.as_str()) || !commitment.controlled
        || commitment.synthetic || !text_eq(
        c.schema_version.as_str(),
        contract.catalog_schema_version.as_str(),
    ) || !text_eq(c.task_set_id.as_str(), contract.task_set_id.as_str()) || !text_eq(
        c.task_set_version.as_str(),
        contract.task_set_version.as_str(),
    ) || !text_eq(c.identity_sha256.as_str(), contract.identity_sha256.as_str()) || !text_eq(
        c.identity_scope.as_str(),
        contract.identity_scope.as_str(),
    ) {
        return Err(CorpusCommitmentError::new("corpus commitment header is invalid"));
    }
    let e = &commitment.execution;
    let digests = vec![
        e.harness_sha256.as_str(),
        e.runner_prompt_source_sha256.as_str(),
        e.declared_tool_policy_sha256.as_str(),
        e.declared_network_policy_sha256.as_str(),
        e.environment_sha256.as_str(),
    ];
    let mut i: usize = 0;
    while i < 5
        invariant
            i <= 5,
            digests@.len() == 5,
            forall|k: int| 0 <= k < 5 ==> #[trigger] digests@[k]@ == execution_digests(commitment.execution)[k],
            forall|k: int| 0 <= k < i ==> valid_digest(#[trigger] execution_digests(commitment.execution)[k]),
        decreases 5 - i,
    {
        if !is_valid_digest(digests[i]) {
            assert(!valid_digest(execution_digests(commitment.execution)[i as int]));
            return Err(
                CorpusCommitmentError::new(
                    "corpus execution identity is not a valid SHA-256 commitment",
                ),
            );
        }
        i += 1;
    }
    Ok(())
}

pub open spec fn task_digests(t: CorpusTask) -> Seq<Seq<char>> {
    seq![
        t.task_definition_sha256@,
        t.baseline_workspace_tree_sha256@,
        t.fixture_bundle_sha256@,
        t.catalog_entry_sha256@,
        t.evaluator_runtime_executable_sha256@,
        t.evaluator_executable_sha256@,
        t.evaluator_configuration_sha256@,
        t.acceptance_suite_sha256@,
        t.leakage_review_sha256@,
    ]
}

/// One committed task's digests are valid and its evaluator runs on Node.js.
pub open spec fn committed_task_ok(t: CorpusTask) -> bool {
    &&& forall|i: int| 0 <= i < 9 ==> valid_digest(#[trigger] task_digests(t)[i])
    &&& t.evaluator_runtime_kind@ == "node"@
}

/// The committed tasks cover the contract's catalog: the 72 frozen tasks as
/// a set (each once, with its frozen version), or the fixed identifiers in
/// order at the contract's version.
pub open spec fn covers_catalog(tasks: Seq<CorpusTask>, k: CatalogContract) -> bool {
    match k.tasks {
        CatalogTaskAuthority::Frozen(f) => {
            &&& tasks.len() == CORE_TASK_COUNT
            &&& forall|i: int, j: int|
                0 <= i < j < tasks.len() ==> (#[trigger] tasks[i]).task_id@ != (
                #[trigger] tasks[j]).task_id@
            &&& forall|i: int| 0 <= i < tasks.len() ==> frozen_has(f@, #[trigger] tasks[i])
        },
        CatalogTaskAuthority::FixedOrderedIds(ids) => {
            &&& tasks.len() == ids@.len()
            &&& forall|i: int|
                0 <= i < tasks.len() ==> (#[trigger] tasks[i]).task_id@ == ids@[i]@
                    && tasks[i].task_version@ == k.task_set_version@
        },
    }
}

/// The frozen catalog lists the task's identifier at the task's version.
pub open spec fn frozen_has(f: Seq<FrozenCatalogTask>, t: CorpusTask) -> bool {
    exists|j: int| 0 <= j < f.len() && f[j].task_id@ == t.task_id@ && f[j].task_version@ == t.task_version@
}

pub open spec fn catalog_tasks_ok(tasks: Seq<CorpusTask>, k: CatalogContract) -> bool {
    &&& covers_catalog(tasks, k)
    &&& forall|i: int| 0 <= i < tasks.len() ==> committed_task_ok(#[trigger] tasks[i])
}

fn find_frozen(f: &Vec<FrozenCatalogTask>, id: &str) -> (r: Option<usize>)
    ensures
        match r {
            Some(j) => j < f@.len() && f@[j as int].task_id@ == id@,
            None => forall|j: int| 0 <= j < f@.len() ==> #[trigger] f@[j].task_id@ != id@,
        },
{
    let mut j: usize = 0;
    while j < f.len()
        invariant
            j <= f@.len(),
            forall|k: int| 0 <= k < j ==> #[trigger] f@[k].task_id@ != id@,
        decreases f@.len() - j,
    {
        if text_eq(f[j].task_id.as_str(), id) {
            return Some(j);
        }
        j += 1;
    }
    None
}

fn committed_task_valid(t: &CorpusTask) -> (r: bool)
    ensures
        r == committed_task_ok(*t),
{
    let digests = vec![
        t.task_definition_sha256.as_str(),
        t.baseline_workspace_tree_sha256.as_str(),
        t.fixture_bundle_sha256.as_str(),
        t.catalog_entry_sha256.as_str(),
        t.evaluator_runtime_executable_sha256.as_str(),
        t.evaluator_executable_sha256.as_str(),
        t.evaluator_configuration_sha256.as_str(),
        t.acceptance_suite_sha256.as_str(),
        t.leakage_review_sha256.as_str(),
    ];
    let mut i: usize = 0;
    while i < 9
        invariant
            i <= 9,
            digests@.len() == 9,
            forall|k: int| 0 <= k < 9 ==> #[trigger] digests@[k]@ == task_digests(*t)[k],
            forall|k: int| 0 <= k < i ==> valid_digest(#[trigger] task_digests(*t)[k]),
        decreases 9 - i,
    {
        if !is_valid_digest(digests[i]) {
            assert(!valid_digest(task_digests(*t)[i as int]));
            return false;
        }
        i += 1;
    }
    text_eq(t.evaluator_runtime_kind.as_str(), "node")
}

/// Validates the committed tasks against the catalog contract.
pub fn validate_catalog_tasks(tasks: &Vec<CorpusTask>, contract: &CatalogContract) -> (r: Result<
    (),
    CorpusCommitmentError,
>)
    requires
        contract.wf(),
    ensures
        r is Ok <==> catalog_tasks_ok(tasks@, *contract),
{
    match &contract.tasks {
        CatalogTaskAuthority::Frozen(f) => {
            if tasks.len() != CORE_TASK_COUNT {
                return Err(
                    CorpusCommitmentError::new(
                        "corpus commitment does not cover the exact frozen catalog",
                    ),
                );
            }
            let mut i: usize = 0;
            while i < tasks.len()
                invariant
                    i <= tasks@.len(),
                    tasks@.len() == CORE_TASK_COUNT,
                    contract.wf(),
                    contract.tasks == CatalogTaskAuthority::Frozen(*f),
                    forall|a: int, b: int|
                        0 <= a < b < i ==> (#[trigger] tasks@[a]).task_id@ != (
                        #[trigger] tasks@[b]).task_id@,
                    forall|a: int| 0 <= a < i ==> frozen_has(f@, #[trigger] tasks@[a]),
                decreases tasks@.len() - i,
            {
                let mut j: usize = 0;
                while j < i
                    invariant
                        j <= i < tasks@.len(),
                        tasks@.len() == CORE_TASK_COUNT,
                        contract.tasks == CatalogTaskAuthority::Frozen(*f),
                        forall|a: int| 0 <= a < j ==> tasks@[a].task_id@ != tasks@[i as int].task_id@,
                    decreases i - j,
                {
                    if tasks[j].task_id == tasks[i].task_id {
                        assert(tasks@[j as int].task_id@ == tasks@[i as int].task_id@);
                        return Err(
                            CorpusCommitmentError::new(
                                "corpus commitment does not cover the exact frozen catalog",
                            ),
                        );
                    }
                    j += 1;
                }
                match find_frozen(f, tasks[i].task_id.as_str()) {
                    Some(j) => {
                        if f[j].task_version != tasks[i].task_version {
                            proof {
                                assert forall|k: int|
                                    0 <= k < f@.len() && f@[k].task_id@ == tasks@[i as int].task_id@
                                        implies f@[k].task_version@
                                    != tasks@[i as int].task_version@ by {
                                    if k != j {
                                        assert(frozen_ids_distinct(f@));
                                        if k < j {
                                            assert(f@[k].task_id@ != f@[j as int].task_id@);
                                        } else {
                                            assert(f@[j as int].task_id@ != f@[k].task_id@);
                                        }
                                    }
                                }
                            }
                            return Err(
                                CorpusCommitmentError::new(
                                    "corpus commitment does not cover the exact frozen catalog",
                                ),
                            );
                        }
                        assert(frozen_has(f@, tasks@[i as int]));
                    },
                    None => {
                        return Err(
                            CorpusCommitmentError::new(
                                "corpus commitment does not cover the exact frozen catalog",
                            ),
                        );
                    },
                }
                i += 1;
            }
            assert(covers_catalog(tasks@, *contract));
        },
        CatalogTaskAuthority::FixedOrderedIds(ids) => {
            if tasks.len() != ids.len() {
                return Err(
                    CorpusCommitmentError::new(
                        "contrast commitment does not cover the exact six ordered variants",
                    ),
                );
            }
            let mut i: usize = 0;
            while i < tasks.len()
                invariant
                    i <= tasks@.len(),
                    tasks@.len() == ids@.len(),
                    contract.tasks == CatalogTaskAuthority::FixedOrderedIds(*ids),
                    forall|a: int|
                        0 <= a < i ==> (#[trigger] tasks@[a]).task_id@ == ids@[a]@
                            && tasks@[a].task_version@ == contract.task_set_version@,
                decreases tasks@.len() - i,
            {
                if tasks[i].task_id != ids[i] || tasks[i].task_version != contract.task_set_version {
                    assert(!((tasks@[i as int]).task_id@ == ids@[i as int]@
                        && tasks@[i as int].task_version@ == contract.task_set_version@));
                    return Err(
                        CorpusCommitmentError::new(
                            "contrast commitment does not cover the exact six ordered variants",
                        ),
                    );
                }
                i += 1;
            }
            assert(covers_catalog(tasks@, *contract));
        },
    }
    let mut i: usize = 0;
    while i < tasks.len()
        invariant
            i <= tasks@.len(),
            covers_catalog(tasks@, *contract),
            forall|a: int| 0 <= a < i ==> committed_task_ok(#[trigger] tasks@[a]),
        decreases tasks@.len() - i,
    {
        if !committed_task_valid(&tasks[i]) {
            let t = &tasks[i];
            if text_eq(t.evaluator_runtime_kind.as_str(), "node") {
                return Err(
                    CorpusCommitmentError::new(
                        "corpus task identity is not a valid SHA-256 commitment",
                    ),
                );
            }
            return Err(CorpusCommitmentError::new("corpus task evaluator runtime kind is unsupported"));
        }
        i += 1;
    }
    Ok(())
}


// ---------------------------------------------------------------------------
// Selected tasks and budgets
// ---------------------------------------------------------------------------
/// Index of the last committed task with identifier `id` among the first
/// `n`, or `-1`.
pub open spec fn last_committed(c: Seq<CorpusTask>, id: Seq<char>, n: int) -> int
    decreases n,
{
    if n <= 0 {
        -1
    } else if c[n - 1].task_id@ == id {
        n - 1
    } else {
        last_committed(c, id, n - 1)
    }
}

/// Index of the last frozen task with identifier `id` among the first `n`, or `-1`.
pub open spec fn last_frozen(f: Seq<FrozenCatalogTask>, id: Seq<char>, n: int) -> int
    decreases n,
{
    if n <= 0 {
        -1
    } else if f[n - 1].task_id@ == id {
        n - 1
    } else {
        last_frozen(f, id, n - 1)
    }
}

/// A selected task agrees with its committed entry: a hidden task at the
/// committed version and definition hash, with its catalog entry and a
/// Node.js external evaluator whose digests are the committed ones.
pub open spec fn selected_matches(s: SelectedTask, t: CorpusTask) -> bool {
    &&& s.external_evaluator is Some
    &&& s.hidden
    &&& s.task_version@ == t.task_version@
    &&& s.content_hash@ == t.task_definition_sha256@
    &&& s.catalog_entry_digest is Some
    &&& s.catalog_entry_digest->0@ == t.catalog_entry_sha256@
    &&& s.external_evaluator->0.runtime_is_node
    &&& t.evaluator_runtime_kind@ == "node"@
    &&& s.external_evaluator->0.runtime_executable_digest@ == t.evaluator_runtime_executable_sha256@
    &&& s.external_evaluator->0.executable_digest@ == t.evaluator_executable_sha256@
    &&& s.external_evaluator->0.configuration_digest@ == t.evaluator_configuration_sha256@
}

/// The selection is non-empty, names each task once, and every selected task
/// is committed and agrees with its committed entry.
pub open spec fn selected_ok(c: Seq<CorpusTask>, s: Seq<SelectedTask>) -> bool {
    &&& s.len() > 0
    &&& forall|i: int, j: int|
        0 <= i < j < s.len() ==> (#[trigger] s[i]).task_id@ != (#[trigger] s[j]).task_id@
    &&& forall|i: int|
        0 <= i < s.len() ==> last_committed(c, (#[trigger] s[i]).task_id@, c.len() as int) >= 0
            && selected_matches(s[i], c[last_committed(c, s[i].task_id@, c.len() as int)])
}

/// Some entry of `r` is keyed by `id`.
pub open spec fn keyed(r: Seq<(String, String)>, id: Seq<char>) -> bool {
    exists|j: int| 0 <= j < r.len() && r[j].0@ == id
}

/// Some selected task is `id`.
pub open spec fn selects(s: Seq<SelectedTask>, id: Seq<char>) -> bool {
    exists|i: int| 0 <= i < s.len() && s[i].task_id@ == id
}

/// The baseline workspace digest of each selected task, keyed by task
/// identifier in text order: one entry per selected task, each giving the
/// baseline of the commitment's entry for that task.
pub open spec fn baseline_pairs_of(
    c: Seq<CorpusTask>,
    s: Seq<SelectedTask>,
    r: Seq<(String, String)>,
) -> bool {
    &&& r.len() == s.len()
    &&& keys_increasing(r)
    &&& forall|i: int| 0 <= i < s.len() ==> keyed(r, (#[trigger] s[i]).task_id@)
    &&& forall|j: int|
        0 <= j < r.len() ==> selects(s, (#[trigger] r[j]).0@) && r[j].1@ == c[last_committed(
            c,
            r[j].0@,
            c.len() as int,
        )].baseline_workspace_tree_sha256@
}

fn find_last_committed(c: &Vec<CorpusTask>, id: &str) -> (r: Option<usize>)
    ensures
        match r {
            Some(j) => j == last_committed(c@, id@, c@.len() as int) && j < c@.len(),
            None => last_committed(c@, id@, c@.len() as int) == -1,
        },
{
    let mut n: usize = c.len();
    while n > 0
        invariant
            n <= c@.len(),
            last_committed(c@, id@, c@.len() as int) == last_committed(c@, id@, n as int),
        decreases n,
    {
        if text_eq(c[n - 1].task_id.as_str(), id) {
            return Some(n - 1);
        }
        n -= 1;
    }
    None
}

fn find_last_frozen(f: &Vec<FrozenCatalogTask>, id: &str) -> (r: Option<usize>)
    ensures
        match r {
            Some(j) => j == last_frozen(f@, id@, f@.len() as int) && j < f@.len(),
            None => last_frozen(f@, id@, f@.len() as int) == -1,
        },
{
    let mut n: usize = f.len();
    while n > 0
        invariant
            n <= f@.len(),
            last_frozen(f@, id@, f@.len() as int) == last_frozen(f@, id@, n as int),
        decreases n,
    {
        if text_eq(f[n - 1].task_id.as_str(), id) {
            return Some(n - 1);
        }
        n -= 1;
    }
    None
}

fn selected_task_valid(s: &SelectedTask, t: &CorpusTask) -> (r: bool)
    ensures
        r == selected_matches(*s, *t),
{
    let external = match &s.external_evaluator {
        Some(e) => e,
        None => {
            return false;
        },
    };
    let entry_ok = match &s.catalog_entry_digest {
        Some(d) => text_eq(d.as_str(), t.catalog_entry_sha256.as_str()),
        None => false,
    };
    s.hidden && text_eq(s.task_version.as_str(), t.task_version.as_str()) && text_eq(
        s.content_hash.as_str(),
        t.task_definition_sha256.as_str(),
    ) && entry_ok && external.runtime_is_node && text_eq(t.evaluator_runtime_kind.as_str(), "node")
        && text_eq(
        external.runtime_executable_digest.as_str(),
        t.evaluator_runtime_executable_sha256.as_str(),
    ) && text_eq(external.executable_digest.as_str(), t.evaluator_executable_sha256.as_str())
        && text_eq(
        external.configuration_digest.as_str(),
        t.evaluator_configuration_sha256.as_str(),
    )
}

/// Matches the selected tasks against the commitment and returns each
/// selected task's committed baseline workspace digest.
pub fn validate_selected_tasks(committed: &Vec<CorpusTask>, selected: &[SelectedTask]) -> (r:
    Result<Vec<(String, String)>, CorpusCommitmentError>)
    ensures
        match r {
            Ok(pairs) => selected_ok(committed@, selected@) && baseline_pairs_of(
                committed@,
                selected@,
                pairs@,
            ),
            Err(_) => !selected_ok(committed@, selected@),
        },
{
    if selected.len() == 0 {
        return Err(CorpusCommitmentError::new("selected task set is empty"));
    }
    let mut pairs: Vec<(String, String)> = Vec::new();
    let mut i: usize = 0;
    while i < selected.len()
        invariant
            i <= selected@.len(),
            selected@.len() > 0,
            pairs@.len() == i,
            forall|a: int, b: int|
                0 <= a < b < i ==> (#[trigger] selected@[a]).task_id@ != (
                #[trigger] selected@[b]).task_id@,
            forall|a: int|
                0 <= a < i ==> last_committed(
                    committed@,
                    (#[trigger] selected@[a]).task_id@,
                    committed@.len() as int,
                ) >= 0 && selected_matches(
                    selected@[a],
                    committed@[last_committed(
                        committed@,
                        selected@[a].task_id@,
                        committed@.len() as int,
                    )],
                ),
            forall|a: int|
                0 <= a < i ==> (#[trigger] pairs@[a]).0@ == selected@[a].task_id@ && pairs@[a].1@
                    == committed@[last_committed(
                    committed@,
                    selected@[a].task_id@,
                    committed@.len() as int,
                )].baseline_workspace_tree_sha256@,
        decreases selected@.len() - i,
    {
        let s = &selected[i];
        let j = match find_last_committed(committed, s.task_id.as_str()) {
            Some(j) => j,
            None => {
                return Err(
                    CorpusCommitmentError::new("selected task is absent from the corpus commitment"),
                );
            },
        };
        let mut k: usize = 0;
        while k < i
            invariant
                k <= i < selected@.len(),
                forall|a: int| 0 <= a < k ==> selected@[a].task_id@ != selected@[i as int].task_id@,
            decreases i - k,
        {
            if text_eq(selected[k].task_id.as_str(), selected[i].task_id.as_str()) {
                assert(selected@[k as int].task_id@ == selected@[i as int].task_id@);
                return Err(
                    CorpusCommitmentError::new(
                        "selected task does not match the committed corpus commitment",
                    ),
                );
            }
            k += 1;
        }
        if s.external_evaluator.is_none() {
            return Err(CorpusCommitmentError::new("real runs require committed external evaluators"));
        }
        if !selected_task_valid(s, &committed[j]) {
            return Err(
                CorpusCommitmentError::new(
                    "selected task does not match the committed corpus commitment",
                ),
            );
        }
        pairs.push((s.task_id.clone(), committed[j].baseline_workspace_tree_sha256.clone()));
        i += 1;
    }
    proof {
        assert forall|a: int, b: int| 0 <= a < b < pairs@.len() implies (#[trigger] pairs@[a]).0@
            != (#[trigger] pairs@[b]).0@ by {
            assert(selected@[a].task_id@ != selected@[b].task_id@);
        }
    }
    let sorted = sort_by_key(pairs);
    proof {
        let sel = selected@;
        let cm = committed@;
        assert forall|a: int| 0 <= a < sel.len() implies keyed(sorted@, (#[trigger] sel[a]).task_id@) by {
            assert(sorted@.contains(pairs@[a]));
            let j = choose|j: int| 0 <= j < sorted@.len() && sorted@[j] == pairs@[a];
            assert(sorted@[j].0@ == sel[a].task_id@);
        }
        assert forall|j: int| 0 <= j < sorted@.len() implies selects(sel, (#[trigger] sorted@[j]).0@)
            && sorted@[j].1@ == cm[last_committed(
            cm,
            sorted@[j].0@,
            cm.len() as int,
        )].baseline_workspace_tree_sha256@ by {
            assert(pairs@.contains(sorted@[j]));
            let a = choose|a: int| 0 <= a < pairs@.len() && pairs@[a] == sorted@[j];
            assert(pairs@[a].0@ == sel[a].task_id@);
        }
    }
    Ok(sorted)
}

/// Each selected task declares exactly the budget of its frozen catalog
/// entry; there is nothing to compare for a fixed-identifier catalog.
pub open spec fn budgets_ok(s: Seq<SelectedTask>, k: CatalogContract) -> bool {
    match k.tasks {
        CatalogTaskAuthority::Frozen(f) => forall|i: int|
            0 <= i < s.len() ==> last_frozen(f@, (#[trigger] s[i]).task_id@, f@.len() as int) >= 0
                && f@[last_frozen(f@, s[i].task_id@, f@.len() as int)].budget@ == s[i].budget@,
        CatalogTaskAuthority::FixedOrderedIds(_) => true,
    }
}

/// Refusal of a selected task whose budget is not its frozen catalog budget.
pub const BUDGET_MISMATCH: &'static str = "selected Core task budget does not match the frozen public catalog";

/// Checks the selected tasks' budgets against the frozen public catalog.
pub fn validate_selected_catalog_budgets(selected: &[SelectedTask], contract: &CatalogContract) -> (r:
    Result<(), CorpusCommitmentError>)
    ensures
        match r {
            Ok(_) => budgets_ok(selected@, *contract),
            Err(e) => !budgets_ok(selected@, *contract) && e@ == BUDGET_MISMATCH@,
        },
{
    match &contract.tasks {
        CatalogTaskAuthority::Frozen(f) => {
            let mut i: usize = 0;
            while i < selected.len()
                invariant
                    i <= selected@.len(),
                    contract.tasks == CatalogTaskAuthority::Frozen(*f),
                    forall|a: int|
                        0 <= a < i ==> last_frozen(f@, (#[trigger] selected@[a]).task_id@, f@.len() as int)
                            >= 0 && f@[last_frozen(f@, selected@[a].task_id@, f@.len() as int)].budget@
                            == selected@[a].budget@,
                decreases selected@.len() - i,
            {
                match find_last_frozen(f, selected[i].task_id.as_str()) {
                    Some(j) => {
                        if !text_eq(f[j].budget.as_str(), selected[i].budget.as_str()) {
                            return Err(
                                CorpusCommitmentError::new(BUDGET_MISMATCH),
                            );
                        }
                    },
                    None => {
                        return Err(CorpusCommitmentError::new(BUDGET_MISMATCH));
                    },
                }
                i += 1;
            }
            Ok(())
        },
        CatalogTaskAuthority::FixedOrderedIds(_) => Ok(()),
    }
}


// ---------------------------------------------------------------------------
// Runner provenance and source manifest
// ---------------------------------------------------------------------------
/// What validation reads of the runner's runtime provenance.
#[derive(Debug)]
pub struct RunnerRuntimeProvenance {
    pub identity_kind: String,
    /// The built-binary digest is `null`.
    pub built_binary_is_null: bool,
    pub source_manifest_sha256: String,
    /// The recorded source manifest, as a JSON document.
    pub source_manifest: Json,
}

/// One committed runner source file.
#[derive(Clone, Debug)]
pub struct SourceManifestEntry {
    pub path: String,
    pub sha256: String,
}

/// The runner's build-and-test source manifest.
#[derive(Clone, Debug)]
pub struct SourceManifest {
    pub schema_version: String,
    pub package: String,
    pub scope: String,
    pub path_base: String,
    pub entries: Vec<SourceManifestEntry>,
}

/// The runner identity is source-only and its manifest digest is the
/// manifest's canonical digest.
pub open spec fn runner_provenance_ok(r: RunnerRuntimeProvenance) -> bool {
    &&& r.identity_kind@ == "source_only"@
    &&& r.built_binary_is_null
    &&& valid_digest(r.source_manifest_sha256@)
    &&& canonical_digest(r.source_manifest.tree()) == Some(r.source_manifest_sha256@)
}

/// Validates the runner runtime provenance.
pub fn validate_runner_runtime_provenance(runner: &RunnerRuntimeProvenance) -> (r: Result<
    (),
    CorpusCommitmentError,
>)
    ensures
        r is Ok <==> runner_provenance_ok(*runner),
{
    if !text_eq(runner.identity_kind.as_str(), "source_only") || !runner.built_binary_is_null {
        return Err(
            CorpusCommitmentError::new("runner runtime provenance must use source-only identity"),
        );
    }
    if !is_valid_digest(runner.source_manifest_sha256.as_str()) {
        return Err(
            CorpusCommitmentError::new(
                "corpus commitment has an invalid runner source-manifest digest",
            ),
        );
    }
    match &canonical_hash(&runner.source_manifest) {
        Some(d) => {
            if !text_eq(d.as_str(), runner.source_manifest_sha256.as_str()) {
                return Err(
                    CorpusCommitmentError::new(
                        "runner source manifest does not match its commitment",
                    ),
                );
            }
        },
        None => {
            return Err(CorpusCommitmentError::new("cannot hash runner source manifest"));
        },
    }
    Ok(())
}

/// The manifest header is the runner's, with 1 to 128 entries.
pub open spec fn manifest_header_ok(m: SourceManifest) -> bool {
    &&& m.schema_version@ == "aiq.runner-source-manifest.v1"@
    &&& m.package@ == "aiq-runner"@
    &&& m.scope@ == "cargo_build_and_test_inputs"@
    &&& m.path_base@ == "repository_root"@
    &&& 1 <= m.entries@.len() <= 128
}

/// Largest runner source file a manifest may commit.
pub const MAX_SOURCE_FILE_BYTES: u64 = 16777216;

/// Every entry has a valid path and digest, the paths strictly increase,
/// and each file's current bytes are bounded and address the committed digest.
pub open spec fn manifest_entries_ok(m: SourceManifest, current: Seq<Seq<u8>>) -> bool {
    let e = m.entries@;
    &&& current.len() == e.len()
    &&& forall|i: int|
        0 <= i < e.len() ==> valid_source_path((#[trigger] e[i]).path@) && valid_digest(e[i].sha256@)
            && valid_bounded_file_size(current[i].len() as u64, MAX_SOURCE_FILE_BYTES)
            && digest_text(current[i]) == e[i].sha256@
    &&& forall|i: int| 0 < i < e.len() ==> text_less(e[i - 1].path@, (#[trigger] e[i]).path@)
}

/// Validates the source manifest against the current bytes of the files it
/// lists, in manifest order.
pub fn validate_source_manifest(manifest: &SourceManifest, current_files: &[Vec<u8>]) -> (r: Result<
    (),
    CorpusCommitmentError,
>)
    ensures
        r is Ok <==> manifest_header_ok(*manifest) && manifest_entries_ok(
            *manifest,
            Seq::new(current_files@.len(), |i: int| current_files@[i]@),
        ),
{
    if !text_eq(manifest.schema_version.as_str(), "aiq.runner-source-manifest.v1") || !text_eq(
        manifest.package.as_str(),
        "aiq-runner",
    ) || !text_eq(manifest.scope.as_str(), "cargo_build_and_test_inputs") || !text_eq(
        manifest.path_base.as_str(),
        "repository_root",
    ) || manifest.entries.len() == 0 || manifest.entries.len() > 128 {
        return Err(CorpusCommitmentError::new("runner source manifest contract is invalid"));
    }
    if current_files.len() != manifest.entries.len() {
        return Err(CorpusCommitmentError::new("committed runner source is unavailable"));
    }
    let ghost files = Seq::new(current_files@.len(), |i: int| current_files@[i]@);
    let e = &manifest.entries;
    let mut i: usize = 0;
    while i < e.len()
        invariant
            i <= e@.len(),
            e == &manifest.entries,
            current_files@.len() == e@.len(),
            files == Seq::new(current_files@.len(), |i: int| current_files@[i]@),
            forall|k: int|
                0 <= k < i ==> valid_source_path((#[trigger] e@[k]).path@) && valid_digest(
                    e@[k].sha256@,
                ) && valid_bounded_file_size(files[k].len() as u64, MAX_SOURCE_FILE_BYTES)
                    && digest_text(files[k]) == e@[k].sha256@,
            forall|k: int| 0 < k < i ==> text_less(e@[k - 1].path@, (#[trigger] e@[k]).path@),
        decreases e@.len() - i,
    {
        if !is_valid_source_path(e[i].path.as_str()) || !is_valid_digest(e[i].sha256.as_str()) || (i
            > 0 && !is_text_less(e[i - 1].path.as_str(), e[i].path.as_str())) {
            return Err(
                CorpusCommitmentError::new("runner source manifest entries are invalid or unordered"),
            );
        }
        let observed = hash_bounded_file(current_files[i].as_slice(), MAX_SOURCE_FILE_BYTES, "committed runner source")?;
        if !text_eq(observed.as_str(), e[i].sha256.as_str()) {
            return Err(
                CorpusCommitmentError::new("committed runner source does not match current bytes"),
            );
        }
        assert(files[i as int] == current_files@[i as int]@);
        i += 1;
    }
    Ok(())
}

/// Digest of the first manifest entry at the runner prompt-source path.
pub open spec fn runner_prompt_digest(entries: Seq<SourceManifestEntry>, n: int) -> Option<Seq<char>>
    decreases entries.len() - n,
{
    if n < 0 || n >= entries.len() {
        None
    } else if entries[n].path@ == RUNNER_PROMPT_SOURCE_PATH@ {
        Some(entries[n].sha256@)
    } else {
        runner_prompt_digest(entries, n + 1)
    }
}

fn find_runner_prompt(entries: &Vec<SourceManifestEntry>) -> (r: Option<&str>)
    ensures
        match r {
            Some(d) => runner_prompt_digest(entries@, 0) == Some(d@),
            None => runner_prompt_digest(entries@, 0) is None,
        },
{
    let mut i: usize = 0;
    while i < entries.len()
        invariant
            i <= entries@.len(),
            runner_prompt_digest(entries@, 0) == runner_prompt_digest(entries@, i as int),
        decreases entries@.len() - i,
    {
        if text_eq(entries[i].path.as_str(), RUNNER_PROMPT_SOURCE_PATH) {
            return Some(entries[i].sha256.as_str());
        }
        i += 1;
    }
    None
}


// ---------------------------------------------------------------------------
// Deterministic execution digests
// ---------------------------------------------------------------------------
/// What validation reads of a commitment's runtime provenance.
#[derive(Debug)]
pub struct CorpusRuntimeProvenance {
    pub runner: RunnerRuntimeProvenance,
    pub source_manifest: SourceManifest,
    pub node_executable_sha256: Option<String>,
    pub node_version: Option<String>,
    pub model_toolchain: Option<ExecutionToolPolicy>,
    pub operating_system_platform: Option<String>,
    pub openssl_conf: Option<String>,
    /// The complete runtime provenance record, as a JSON document.
    pub document: Json,
}

/// One `{task_id, allowed_tools}` entry of the declared tool policy.
pub open spec fn tool_task_tree(task_id: Seq<char>, tools: Seq<Seq<char>>) -> JsonTree {
    JsonTree::Object(
        seq![
            ("task_id"@, JsonTree::Text(task_id)),
            ("allowed_tools"@, JsonTree::Array(texts_tree(tools))),
        ],
    )
}

/// The tool-policy task list: the whole frozen catalog, or the selected
/// tasks where they are exactly the fixed identifiers in order.
pub open spec fn tool_policy_tasks(k: CatalogContract, s: Seq<SelectedTask>) -> Option<Seq<JsonTree>> {
    match k.tasks {
        CatalogTaskAuthority::Frozen(f) => Some(
            Seq::new(
                f@.len(),
                |i: int| tool_task_tree(f@[i].task_id@, f@[i].allowed_tools.deep_view()),
            ),
        ),
        CatalogTaskAuthority::FixedOrderedIds(ids) => if s.len() == ids@.len() && forall|i: int|
            0 <= i < s.len() ==> (#[trigger] s[i]).task_id@ == ids@[i]@ {
            Some(
                Seq::new(
                    s.len(),
                    |i: int| tool_task_tree(s[i].task_id@, s[i].allowed_tools.deep_view()),
                ),
            )
        } else {
            None
        },
    }
}

/// The declared tool policy document.
pub open spec fn tool_policy_tree(tasks: Seq<JsonTree>, policy: ExecutionToolPolicy) -> JsonTree {
    JsonTree::Object(
        seq![
            ("protocol"@, JsonTree::Text("aiq.tool-policy.v1"@)),
            ("evidence_class"@, JsonTree::Text("declared_policy_commitment"@)),
            ("catalog"@, JsonTree::Array(tasks)),
            ("model_toolchain"@, policy.tree()),
        ],
    )
}

/// The declared network policy document.
pub open spec fn network_policy_tree() -> JsonTree {
    JsonTree::Object(
        seq![
            ("protocol"@, JsonTree::Text("aiq.network-policy.v1"@)),
            ("evidence_class"@, JsonTree::Text("declared_policy_commitment"@)),
            ("codex_web_search"@, JsonTree::Text("disabled_for_controlled_corpus"@)),
            ("codex_mcp"@, JsonTree::Text("disabled"@)),
            (
                "evaluator_node_scenario"@,
                JsonTree::Text("network_denied_by_node_permission_model"@),
            ),
        ],
    )
}

pub open spec fn opt_view(o: Option<String>) -> Option<Seq<char>> {
    match o {
        Some(s) => Some(s@),
        None => None,
    }
}

/// The committed environment, prompt-source, tool-policy and network-policy
/// digests are the ones derived from their sources, and the OpenSSL
/// environment fits the toolchain platform.
pub open spec fn deterministic_digests_ok(
    e: CorpusExecution,
    p: CorpusRuntimeProvenance,
    policy: ExecutionToolPolicy,
    k: CatalogContract,
    s: Seq<SelectedTask>,
) -> bool {
    &&& openssl_environment_ok(opt_view(p.operating_system_platform), opt_view(p.openssl_conf), policy)
    &&& tool_policy_tasks(k, s) is Some
    &&& canonical_digest(p.document.tree()) == Some(e.environment_sha256@)
    &&& runner_prompt_digest(p.source_manifest.entries@, 0) == Some(e.runner_prompt_source_sha256@)
    &&& canonical_digest(tool_policy_tree(tool_policy_tasks(k, s)->0, policy)) == Some(
        e.declared_tool_policy_sha256@,
    )
    &&& canonical_digest(network_policy_tree()) == Some(e.declared_network_policy_sha256@)
}

fn tool_task_json(task_id: &String, tools: &Vec<String>) -> (j: Json)
    ensures
        j.tree() == tool_task_tree(task_id@, tools.deep_view()),
{
    let mut m: Vec<(String, Json)> = Vec::new();
    m.push(member("task_id", json_text(task_id.as_str())));
    m.push(member("allowed_tools", json_texts(tools)));
    let ghost ms = m@;
    let j = json_object(m);
    assert(members_tree(ms) =~= tool_task_tree(task_id@, tools.deep_view())->Object_0);
    j
}

fn tool_policy_task_list(contract: &CatalogContract, selected: &[SelectedTask]) -> (r: Option<
    Vec<Json>,
>)
    ensures
        match r {
            Some(v) => tool_policy_tasks(*contract, selected@) == Some(items_tree(v@)),
            None => tool_policy_tasks(*contract, selected@) is None,
        },
{
    let mut out: Vec<Json> = Vec::new();
    match &contract.tasks {
        CatalogTaskAuthority::Frozen(f) => {
            let mut i: usize = 0;
            while i < f.len()
                invariant
                    i <= f@.len(),
                    contract.tasks == CatalogTaskAuthority::Frozen(*f),
                    out@.len() == i,
                    forall|k: int|
                        0 <= k < i ==> #[trigger] out@[k].tree() == tool_task_tree(
                            f@[k].task_id@,
                            f@[k].allowed_tools.deep_view(),
                        ),
                decreases f@.len() - i,
            {
                out.push(tool_task_json(&f[i].task_id, &f[i].allowed_tools));
                i += 1;
            }
            assert(items_tree(out@) =~= tool_policy_tasks(*contract, selected@)->0);
            Some(out)
        },
        CatalogTaskAuthority::FixedOrderedIds(ids) => {
            if selected.len() != ids.len() {
                return None;
            }
            let mut i: usize = 0;
            while i < selected.len()
                invariant
                    i <= selected@.len(),
                    selected@.len() == ids@.len(),
                    contract.tasks == CatalogTaskAuthority::FixedOrderedIds(*ids),
                    out@.len() == i,
                    forall|k: int| 0 <= k < i ==> (#[trigger] selected@[k]).task_id@ == ids@[k]@,
                    forall|k: int|
                        0 <= k < i ==> #[trigger] out@[k].tree() == tool_task_tree(
                            selected@[k].task_id@,
                            selected@[k].allowed_tools.deep_view(),
                        ),
                decreases selected@.len() - i,
            {
                if !text_eq(selected[i].task_id.as_str(), ids[i].as_str()) {
                    assert(selected@[i as int].task_id@ != ids@[i as int]@);
                    return None;
                }
                out.push(tool_task_json(&selected[i].task_id, &selected[i].allowed_tools));
                i += 1;
            }
            assert(items_tree(out@) =~= tool_policy_tasks(*contract, selected@)->0);
            Some(out)
        },
    }
}

fn network_policy_json() -> (j: Json)
    ensures
        j.tree() == network_policy_tree(),
{
    let mut m: Vec<(String, Json)> = Vec::new();
    m.push(member("protocol", json_text("aiq.network-policy.v1")));
    m.push(member("evidence_class", json_text("declared_policy_commitment")));
    m.push(member("codex_web_search", json_text("disabled_for_controlled_corpus")));
    m.push(member("codex_mcp", json_text("disabled")));
    m.push(
        member("evaluator_node_scenario", json_text("network_denied_by_node_permission_model")),
    );
    let ghost ms = m@;
    let j = json_object(m);
    assert(members_tree(ms) =~= network_policy_tree()->Object_0);
    j
}

/// Recomputes and compares every deterministic execution digest.
pub fn validate_deterministic_execution_digests(
    execution: &CorpusExecution,
    provenance: &CorpusRuntimeProvenance,
    model_toolchain_policy: &ExecutionToolPolicy,
    contract: &CatalogContract,
    selected: &[SelectedTask],
) -> (r: Result<(), CorpusCommitmentError>)
    ensures
        r is Ok <==> deterministic_digests_ok(
            *execution,
            *provenance,
            *model_toolchain_policy,
            *contract,
            selected@,
        ),
{
    validate_controlled_openssl_environment(
        &provenance.operating_system_platform,
        &provenance.openssl_conf,
        model_toolchain_policy,
    )?;
    let tasks = match tool_policy_task_list(contract, selected) {
        Some(t) => t,
        None => {
            return Err(
                CorpusCommitmentError::new("contrast tasks are missing, duplicated, or reordered"),
            );
        },
    };
    let ghost task_items = items_tree(tasks@);
    let runner_prompt = match find_runner_prompt(&provenance.source_manifest.entries) {
        Some(d) => d,
        None => {
            return Err(CorpusCommitmentError::new("runner source manifest omits runner.rs"));
        },
    };
    let mut m: Vec<(String, Json)> = Vec::new();
    m.push(member("protocol", json_text("aiq.tool-policy.v1")));
    m.push(member("evidence_class", json_text("declared_policy_commitment")));
    m.push(member("catalog", json_array(tasks)));
    m.push(member("model_toolchain", model_toolchain_policy.to_json()));
    let ghost ms = m@;
    let tool_policy = json_object(m);
    assert(members_tree(ms) =~= tool_policy_tree(task_items, *model_toolchain_policy)->Object_0);
    let observed_tool_policy = canonical_hash(&tool_policy);
    let observed_network_policy = canonical_hash(&network_policy_json());
    let tool_ok = match &observed_tool_policy {
        Some(d) => text_eq(d.as_str(), execution.declared_tool_policy_sha256.as_str()),
        None => false,
    };
    let network_ok = match &observed_network_policy {
        Some(d) => text_eq(d.as_str(), execution.declared_network_policy_sha256.as_str()),
        None => false,
    };
    let environment_ok = match &canonical_hash(&provenance.document) {
        Some(d) => text_eq(d.as_str(), execution.environment_sha256.as_str()),
        None => false,
    };
    if !environment_ok
        || !text_eq(execution.runner_prompt_source_sha256.as_str(), runner_prompt) || !tool_ok
        || !network_ok {
        return Err(
            CorpusCommitmentError::new(
                "corpus deterministic execution digests do not match their source values",
            ),
        );
    }
    Ok(())
}


/// The deterministic execution digests a seal commits.
#[derive(Clone, Debug)]
pub struct DerivedExecutionDigests {
    pub environment_sha256: String,
    pub tool_policy_sha256: String,
    pub network_policy_sha256: String,
    pub runner_prompt_sha256: String,
}

/// Tool-policy entries of ordered `(task_id, allowed_tools)` pairs.
pub open spec fn tool_entries_tree(tasks: Seq<(String, Vec<String>)>) -> Seq<JsonTree> {
    Seq::new(tasks.len(), |i: int| tool_task_tree(tasks[i].0@, tasks[i].1.deep_view()))
}

/// Derives the environment, tool-policy, network-policy and runner
/// prompt-source digests of a sealed execution from their sources.
pub fn derive_execution_digests(
    runtime_provenance: &Json,
    tasks: &Vec<(String, Vec<String>)>,
    policy: &ExecutionToolPolicy,
    entries: &Vec<SourceManifestEntry>,
) -> (r: Result<DerivedExecutionDigests, CorpusCommitmentError>)
    ensures
        match r {
            Ok(d) => {
                &&& canonical_digest(runtime_provenance.tree()) == Some(d.environment_sha256@)
                &&& canonical_digest(tool_policy_tree(tool_entries_tree(tasks@), *policy)) == Some(
                    d.tool_policy_sha256@,
                )
                &&& canonical_digest(network_policy_tree()) == Some(d.network_policy_sha256@)
                &&& runner_prompt_digest(entries@, 0) == Some(d.runner_prompt_sha256@)
            },
            Err(_) => canonical_digest(runtime_provenance.tree()) is None || canonical_digest(
                tool_policy_tree(tool_entries_tree(tasks@), *policy),
            ) is None || canonical_digest(network_policy_tree()) is None || runner_prompt_digest(
                entries@,
                0,
            ) is None,
        },
{
    let environment_sha256 = match canonical_hash(runtime_provenance) {
        Some(d) => d,
        None => {
            return Err(CorpusCommitmentError::new("runtime provenance cannot be canonically hashed"));
        },
    };
    let mut items: Vec<Json> = Vec::new();
    let mut i: usize = 0;
    while i < tasks.len()
        invariant
            i <= tasks@.len(),
            items@.len() == i,
            forall|k: int|
                0 <= k < i ==> #[trigger] items@[k].tree() == tool_task_tree(
                    tasks@[k].0@,
                    tasks@[k].1.deep_view(),
                ),
        decreases tasks@.len() - i,
    {
        items.push(tool_task_json(&tasks[i].0, &tasks[i].1));
        i += 1;
    }
    assert(items_tree(items@) =~= tool_entries_tree(tasks@));
    let ghost task_items = items_tree(items@);
    let mut m: Vec<(String, Json)> = Vec::new();
    m.push(member("protocol", json_text("aiq.tool-policy.v1")));
    m.push(member("evidence_class", json_text("declared_policy_commitment")));
    m.push(member("catalog", json_array(items)));
    m.push(member("model_toolchain", policy.to_json()));
    let ghost ms = m@;
    let tool_policy = json_object(m);
    assert(members_tree(ms) =~= tool_policy_tree(task_items, *policy)->Object_0);
    let tool_policy_sha256 = match canonical_hash(&tool_policy) {
        Some(d) => d,
        None => {
            return Err(CorpusCommitmentError::new("tool policy cannot be canonically hashed"));
        },
    };
    let network_policy_sha256 = match canonical_hash(&network_policy_json()) {
        Some(d) => d,
        None => {
            return Err(CorpusCommitmentError::new("network policy cannot be canonically hashed"));
        },
    };
    let runner_prompt_sha256 = match find_runner_prompt(entries) {
        Some(d) => d.to_owned(),
        None => {
            return Err(CorpusCommitmentError::new("source inventory omits runner.rs"));
        },
    };
    Ok(DerivedExecutionDigests {
        environment_sha256,
        tool_policy_sha256,
        network_policy_sha256,
        runner_prompt_sha256,
    })
}

/// A seal's derived digests pass validation: a commitment that records the
/// digests derived from its own runtime provenance, tool-policy tasks and
/// source manifest, on a platform whose OpenSSL environment fits, has
/// deterministic digests that validate.
pub proof fn law_derived_execution_digests_validate(
    e: CorpusExecution,
    p: CorpusRuntimeProvenance,
    policy: ExecutionToolPolicy,
    k: CatalogContract,
    s: Seq<SelectedTask>,
    runtime_provenance: JsonTree,
    tasks: Seq<(String, Vec<String>)>,
    d: DerivedExecutionDigests,
)
    requires
        canonical_digest(runtime_provenance) == Some(d.environment_sha256@),
        canonical_digest(tool_policy_tree(tool_entries_tree(tasks), policy)) == Some(
            d.tool_policy_sha256@,
        ),
        canonical_digest(network_policy_tree()) == Some(d.network_policy_sha256@),
        runner_prompt_digest(p.source_manifest.entries@, 0) == Some(d.runner_prompt_sha256@),
        p.document.tree() == runtime_provenance,
        tool_policy_tasks(k, s) == Some(tool_entries_tree(tasks)),
        openssl_environment_ok(opt_view(p.operating_system_platform), opt_view(p.openssl_conf), policy),
        e.environment_sha256@ == d.environment_sha256@,
        e.declared_tool_policy_sha256@ == d.tool_policy_sha256@,
        e.declared_network_policy_sha256@ == d.network_policy_sha256@,
        e.runner_prompt_source_sha256@ == d.runner_prompt_sha256@,
    ensures
        deterministic_digests_ok(e, p, policy, k, s),
{
}

// ---------------------------------------------------------------------------
// The validated commitment
// ---------------------------------------------------------------------------
/// A corpus commitment after source and catalog validation.
#[derive(Clone, Debug)]
pub struct ValidatedCorpusCommitment {
    release_id: String,
    canonical_sha256: String,
    catalog_digest: String,
    harness_digest: String,
    prompt_digest: String,
    tool_policy_digest: String,
    network_policy_digest: String,
    environment_digest: String,
    source_manifest_digest: String,
    evaluator_runtime_executable_digest: String,
    evaluator_runtime_version: String,
    model_toolchain_policy: ExecutionToolPolicy,
    baseline_workspace_digests: Vec<(String, String)>,
}

/// Every check of a commitment document passes.
pub open spec fn corpus_document_valid(
    c: CorpusCommitment,
    k: CatalogContract,
    s: Seq<SelectedTask>,
    p: CorpusRuntimeProvenance,
    current: Seq<Seq<u8>>,
) -> bool {
    &&& header_ok(c, k)
    &&& catalog_tasks_ok(c.tasks@, k)
    &&& budgets_ok(s, k)
    &&& selected_ok(c.tasks@, s)
    &&& runner_provenance_ok(p.runner)
    &&& p.node_executable_sha256 is Some
    &&& valid_digest(p.node_executable_sha256->0@)
    &&& p.node_version is Some
    &&& valid_runtime_version(p.node_version->0@)
    &&& p.model_toolchain is Some
    &&& deterministic_digests_ok(c.execution, p, p.model_toolchain->0, k, s)
    &&& provenance_describes(p)
    &&& manifest_describes(p)
    &&& manifest_header_ok(p.source_manifest)
    &&& manifest_entries_ok(p.source_manifest, current)
}

/// The typed source manifest is the one the runner provenance records, member
/// order aside: both have the same canonical encoding.
pub open spec fn manifest_describes(p: CorpusRuntimeProvenance) -> bool {
    &&& spec_canonical_json(p.runner.source_manifest.tree()) is Some
    &&& spec_canonical_json(p.runner.source_manifest.tree()) == spec_canonical_json(
        source_manifest_tree(p.source_manifest),
    )
}

fn check_manifest_describes(p: &CorpusRuntimeProvenance) -> (r: Result<(), CorpusCommitmentError>)
    ensures
        r is Ok <==> manifest_describes(*p),
{
    match (canonical_bytes(&p.runner.source_manifest), canonical_bytes(&source_manifest_json(&p.source_manifest))) {
        (Some(a), Some(b)) => {
            if bytes_eq(a.as_slice(), b.as_slice()) {
                Ok(())
            } else {
                Err(CorpusCommitmentError::new("runner source manifest is invalid"))
            }
        },
        _ => Err(CorpusCommitmentError::new("runner source manifest is invalid")),
    }
}

impl ValidatedCorpusCommitment {
    pub closed spec fn release_id_text(&self) -> Seq<char> {
        self.release_id@
    }

    pub closed spec fn canonical_sha256_text(&self) -> Seq<char> {
        self.canonical_sha256@
    }

    pub closed spec fn catalog_digest_text(&self) -> Seq<char> {
        self.catalog_digest@
    }

    pub closed spec fn harness_digest_text(&self) -> Seq<char> {
        self.harness_digest@
    }

    pub closed spec fn prompt_digest_text(&self) -> Seq<char> {
        self.prompt_digest@
    }

    pub closed spec fn tool_policy_digest_text(&self) -> Seq<char> {
        self.tool_policy_digest@
    }

    pub closed spec fn network_policy_digest_text(&self) -> Seq<char> {
        self.network_policy_digest@
    }

    pub closed spec fn environment_digest_text(&self) -> Seq<char> {
        self.environment_digest@
    }

    pub closed spec fn source_manifest_digest_text(&self) -> Seq<char> {
        self.source_manifest_digest@
    }

    pub closed spec fn evaluator_runtime_digest_text(&self) -> Seq<char> {
        self.evaluator_runtime_executable_digest@
    }

    pub closed spec fn evaluator_runtime_version_text(&self) -> Seq<char> {
        self.evaluator_runtime_version@
    }

    pub closed spec fn toolchain_policy(&self) -> ExecutionToolPolicy {
        self.model_toolchain_policy
    }

    pub closed spec fn baselines(&self) -> Seq<(String, String)> {
        self.baseline_workspace_digests@
    }

    /// The validated commitment records exactly what the document, the
    /// contract and the runtime provenance say.
    pub open spec fn records(
        &self,
        c: CorpusCommitment,
        canonical_sha256: Seq<char>,
        k: CatalogContract,
        s: Seq<SelectedTask>,
        p: CorpusRuntimeProvenance,
    ) -> bool {
        &&& self.release_id_text() == c.release_id@
        &&& self.canonical_sha256_text() == canonical_sha256
        &&& self.catalog_digest_text() == k.identity_sha256@
        &&& self.harness_digest_text() == c.execution.harness_sha256@
        &&& self.prompt_digest_text() == c.execution.runner_prompt_source_sha256@
        &&& self.tool_policy_digest_text() == c.execution.declared_tool_policy_sha256@
        &&& self.network_policy_digest_text() == c.execution.declared_network_policy_sha256@
        &&& self.environment_digest_text() == c.execution.environment_sha256@
        &&& self.source_manifest_digest_text() == p.runner.source_manifest_sha256@
        &&& self.evaluator_runtime_digest_text() == p.node_executable_sha256->0@
        &&& self.evaluator_runtime_version_text() == p.node_version->0@
        &&& same_policy(self.toolchain_policy(), p.model_toolchain->0)
        &&& baseline_pairs_of(c.tasks@, s, self.baselines())
    }

    /// Returns the current corpus identifier.
    pub fn release_id(&self) -> (r: &str)
        ensures
            r@ == self.release_id_text(),
    {
        self.release_id.as_str()
    }

    /// Returns the canonical digest of the complete corpus commitment.
    pub fn canonical_sha256(&self) -> (r: &str)
        ensures
            r@ == self.canonical_sha256_text(),
    {
        self.canonical_sha256.as_str()
    }

    /// Returns the exact catalog identity committed by this corpus.
    pub fn catalog_digest(&self) -> (r: &str)
        ensures
            r@ == self.catalog_digest_text(),
    {
        self.catalog_digest.as_str()
    }

    /// Returns the controlled harness commitment.
    pub fn harness_digest(&self) -> (r: &str)
        ensures
            r@ == self.harness_digest_text(),
    {
        self.harness_digest.as_str()
    }

    /// Returns the exact runner prompt-source commitment.
    pub fn prompt_digest(&self) -> (r: &str)
        ensures
            r@ == self.prompt_digest_text(),
    {
        self.prompt_digest.as_str()
    }

    /// Returns the declared tool-policy commitment.
    pub fn tool_policy_digest(&self) -> (r: &str)
        ensures
            r@ == self.tool_policy_digest_text(),
    {
        self.tool_policy_digest.as_str()
    }

    /// Returns the declared network-policy commitment.
    pub fn network_policy_digest(&self) -> (r: &str)
        ensures
            r@ == self.network_policy_digest_text(),
    {
        self.network_policy_digest.as_str()
    }

    /// Returns the controlled execution-environment commitment.
    pub fn environment_digest(&self) -> (r: &str)
        ensures
            r@ == self.environment_digest_text(),
    {
        self.environment_digest.as_str()
    }

    /// Returns the canonical source-manifest digest.
    pub fn source_manifest_digest(&self) -> (r: &str)
        ensures
            r@ == self.source_manifest_digest_text(),
    {
        self.source_manifest_digest.as_str()
    }

    /// Returns the baseline-tree commitment of every selected task, keyed by
    /// task identifier in text order.
    pub fn baseline_workspace_digests(&self) -> (r: &Vec<(String, String)>)
        ensures
            r@ == self.baselines(),
    {
        &self.baseline_workspace_digests
    }

    /// Checks the selected Node.js runtime against the committed execution provenance.
    pub fn validate_evaluator_runtime(&self, runtime: &EvaluatorRuntime) -> (r: Result<
        (),
        CorpusCommitmentError,
    >)
        ensures
            r is Ok <==> runtime.executable_digest@ == self.evaluator_runtime_digest_text()
                && runtime.version@ == self.evaluator_runtime_version_text(),
    {
        if !text_eq(
            runtime.executable_digest.as_str(),
            self.evaluator_runtime_executable_digest.as_str(),
        ) || !text_eq(runtime.version.as_str(), self.evaluator_runtime_version.as_str()) {
            return Err(
                CorpusCommitmentError::new("evaluator runtime does not match the corpus commitment"),
            );
        }
        Ok(())
    }

    /// Validates the configured model toolchain against the committed policy.
    pub fn validate_model_toolchain(
        &self,
        root: &ObservedToolchainRoot,
        runtime: &EvaluatorRuntime,
        os: &str,
        arch: &str,
    ) -> (r: Result<ValidatedModelToolchain, CorpusCommitmentError>)
        ensures
            match r {
                Ok(t) => toolchain_valid(self.toolchain_policy(), *runtime, os@, arch@, *root, true)
                    && t.root_text() == root.canonical_path@ && same_policy(
                    t.policy_value(),
                    self.toolchain_policy(),
                ) && canonical_digest(self.toolchain_policy().tree()) == Some(t.digest_text()),
                Err(_) => !toolchain_valid(self.toolchain_policy(), *runtime, os@, arch@, *root, true)
                    || canonical_digest(self.toolchain_policy().tree()) is None,
            },
    {
        validate_model_toolchain(root, &self.model_toolchain_policy, runtime, os, arch)
    }

    /// Validates committed toolchain files without executing their version commands.
    pub fn validate_model_toolchain_static(
        &self,
        root: &ObservedToolchainRoot,
        runtime: &EvaluatorRuntime,
        os: &str,
        arch: &str,
    ) -> (r: Result<ValidatedModelToolchain, CorpusCommitmentError>)
        ensures
            match r {
                Ok(t) => toolchain_valid(self.toolchain_policy(), *runtime, os@, arch@, *root, false)
                    && t.root_text() == root.canonical_path@ && same_policy(
                    t.policy_value(),
                    self.toolchain_policy(),
                ) && canonical_digest(self.toolchain_policy().tree()) == Some(t.digest_text()),
                Err(_) => !toolchain_valid(self.toolchain_policy(), *runtime, os@, arch@, *root, false)
                    || canonical_digest(self.toolchain_policy().tree()) is None,
            },
    {
        validate_model_toolchain_static(root, &self.model_toolchain_policy, runtime, os, arch)
    }

    /// Builds the complete signed identity set for one selected run.
    pub fn run_provenance(
        &self,
        run_class: RunClass,
        task_set_digest: String,
        evaluator_digest: String,
        runtime_digest: String,
        preflight_digest: String,
        runner_executable_digest: String,
        codex_executable_digest: String,
        codex_code_mode_host_digest: String,
        permission_evidence_digest: String,
    ) -> (p: RunProvenanceCommitment)
        ensures
            p.schema_version@ == RUN_PROVENANCE_SCHEMA@,
            p.run_class == run_class,
            p.corpus_release_id@ == self.release_id_text(),
            p.corpus_commitment_sha256@ == self.canonical_sha256_text(),
            p.catalog_digest@ == self.catalog_digest_text(),
            p.task_set_digest == task_set_digest,
            p.evaluator_digest == evaluator_digest,
            p.runtime_digest == runtime_digest,
            p.preflight_digest == preflight_digest,
            p.harness_digest@ == self.harness_digest_text(),
            p.prompt_digest@ == self.prompt_digest_text(),
            p.tool_policy_digest@ == self.tool_policy_digest_text(),
            p.network_policy_digest@ == self.network_policy_digest_text(),
            p.environment_digest@ == self.environment_digest_text(),
            p.source_manifest_digest@ == self.source_manifest_digest_text(),
            p.runner_executable_digest == runner_executable_digest,
            p.codex_executable_digest == codex_executable_digest,
            p.codex_code_mode_host_digest == codex_code_mode_host_digest,
            p.permission_evidence_digest == permission_evidence_digest,
    {
        RunProvenanceCommitment {
            schema_version: RUN_PROVENANCE_SCHEMA.to_owned(),
            run_class,
            corpus_release_id: self.release_id.clone(),
            corpus_commitment_sha256: self.canonical_sha256.clone(),
            catalog_digest: self.catalog_digest.clone(),
            task_set_digest,
            evaluator_digest,
            runtime_digest,
            preflight_digest,
            harness_digest: self.harness_digest.clone(),
            prompt_digest: self.prompt_digest.clone(),
            tool_policy_digest: self.tool_policy_digest.clone(),
            network_policy_digest: self.network_policy_digest.clone(),
            environment_digest: self.environment_digest.clone(),
            source_manifest_digest: self.source_manifest_digest.clone(),
            runner_executable_digest,
            codex_executable_digest,
            codex_code_mode_host_digest,
            permission_evidence_digest,
        }
    }
}

/// The commitment document that a typed commitment and its runtime
/// provenance record describe.
pub open spec fn commitment_tree(c: CorpusCommitment, runtime_provenance: JsonTree) -> JsonTree {
    JsonTree::Object(
        seq![
            ("schema_version"@, JsonTree::Text(c.schema_version@)),
            ("release_id"@, JsonTree::Text(c.release_id@)),
            ("controlled"@, JsonTree::Bool(c.controlled)),
            ("synthetic"@, JsonTree::Bool(c.synthetic)),
            (
                "catalog"@,
                JsonTree::Object(
                    seq![
                        ("schema_version"@, JsonTree::Text(c.catalog.schema_version@)),
                        ("task_set_id"@, JsonTree::Text(c.catalog.task_set_id@)),
                        ("task_set_version"@, JsonTree::Text(c.catalog.task_set_version@)),
                        ("identity_sha256"@, JsonTree::Text(c.catalog.identity_sha256@)),
                        ("identity_scope"@, JsonTree::Text(c.catalog.identity_scope@)),
                    ],
                ),
            ),
            (
                "execution"@,
                JsonTree::Object(
                    seq![
                        ("harness_sha256"@, JsonTree::Text(c.execution.harness_sha256@)),
                        (
                            "runner_prompt_source_sha256"@,
                            JsonTree::Text(c.execution.runner_prompt_source_sha256@),
                        ),
                        (
                            "declared_tool_policy_sha256"@,
                            JsonTree::Text(c.execution.declared_tool_policy_sha256@),
                        ),
                        (
                            "declared_network_policy_sha256"@,
                            JsonTree::Text(c.execution.declared_network_policy_sha256@),
                        ),
                        ("environment_sha256"@, JsonTree::Text(c.execution.environment_sha256@)),
                        ("runtime_provenance"@, runtime_provenance),
                    ],
                ),
            ),
            ("tasks"@, corpus_tasks_tree(c.tasks@)),
        ],
    )
}

/// Builds the commitment document that a typed commitment and its runtime
/// provenance record describe.
pub fn commitment_json(c: &CorpusCommitment, runtime_provenance: Json) -> (j: Json)
    ensures
        j.tree() == commitment_tree(*c, runtime_provenance.tree()),
{
    let ghost rp = runtime_provenance.tree();
    let mut k: Vec<(String, Json)> = Vec::new();
    k.push(member("schema_version", json_text(c.catalog.schema_version.as_str())));
    k.push(member("task_set_id", json_text(c.catalog.task_set_id.as_str())));
    k.push(member("task_set_version", json_text(c.catalog.task_set_version.as_str())));
    k.push(member("identity_sha256", json_text(c.catalog.identity_sha256.as_str())));
    k.push(member("identity_scope", json_text(c.catalog.identity_scope.as_str())));
    let ghost ks = k@;
    let catalog = json_object(k);
    let e = &c.execution;
    let mut x: Vec<(String, Json)> = Vec::new();
    x.push(member("harness_sha256", json_text(e.harness_sha256.as_str())));
    x.push(member("runner_prompt_source_sha256", json_text(e.runner_prompt_source_sha256.as_str())));
    x.push(member("declared_tool_policy_sha256", json_text(e.declared_tool_policy_sha256.as_str())));
    x.push(member("declared_network_policy_sha256", json_text(e.declared_network_policy_sha256.as_str())));
    x.push(member("environment_sha256", json_text(e.environment_sha256.as_str())));
    x.push(member("runtime_provenance", runtime_provenance));
    let ghost xs = x@;
    let execution = json_object(x);
    let mut m: Vec<(String, Json)> = Vec::new();
    m.push(member("schema_version", json_text(c.schema_version.as_str())));
    m.push(member("release_id", json_text(c.release_id.as_str())));
    m.push(member("controlled", Json::Bool(c.controlled)));
    m.push(member("synthetic", Json::Bool(c.synthetic)));
    m.push(member("catalog", catalog));
    m.push(member("execution", execution));
    m.push(member("tasks", corpus_tasks_json(&c.tasks)));
    let ghost ms = m@;
    let j = json_object(m);
    let ghost want = commitment_tree(*c, rp);
    assert(members_tree(ks) =~= want->Object_0[4].1->Object_0);
    assert(members_tree(xs) =~= want->Object_0[5].1->Object_0);
    assert(members_tree(ms) =~= want->Object_0);
    j
}

/// The parsed document has a canonical encoding, and it is the canonical
/// encoding of the document the typed commitment and its runtime provenance
/// record describe: the typed values are the document's, member order aside.
pub open spec fn document_describes(document: JsonTree, c: CorpusCommitment, runtime_provenance: JsonTree) -> bool {
    &&& spec_canonical_json(document) is Some
    &&& spec_canonical_json(document) == spec_canonical_json(commitment_tree(c, runtime_provenance))
}

proof fn lemma_last_committed_names(c: Seq<CorpusTask>, id: Seq<char>, n: int)
    requires
        0 <= n <= c.len(),
    ensures
        last_committed(c, id, n) >= 0 ==> last_committed(c, id, n) < n && c[last_committed(c, id, n)].task_id@
            == id,
    decreases n,
{
    if n > 0 {
        lemma_last_committed_names(c, id, n - 1);
    }
}

/// `digest` is the baseline workspace digest of the commitment's (last)
/// entry for the task `id`, and that entry exists.
pub open spec fn committed_baseline(c: Seq<CorpusTask>, id: Seq<char>, digest: Seq<char>) -> bool {
    let e = last_committed(c, id, c.len() as int);
    &&& 0 <= e < c.len()
    &&& c[e].task_id@ == id
    &&& digest == c[e].baseline_workspace_tree_sha256@
}

/// The baseline digests a validation records are keyed by the selected
/// tasks in text order, one entry per selected task, and give each the
/// baseline workspace digest of the commitment's entry for that task (its
/// last one).
pub proof fn law_baselines_are_the_committed_ones(
    v: ValidatedCorpusCommitment,
    c: CorpusCommitment,
    canonical_sha256: Seq<char>,
    k: CatalogContract,
    s: Seq<SelectedTask>,
    p: CorpusRuntimeProvenance,
)
    requires
        v.records(c, canonical_sha256, k, s, p),
        selected_ok(c.tasks@, s),
    ensures
        v.baselines().len() == s.len(),
        forall|i: int, j: int|
            0 <= i < j < v.baselines().len() ==> text_less(
                (#[trigger] v.baselines()[i]).0@,
                (#[trigger] v.baselines()[j]).0@,
            ),
        forall|i: int| 0 <= i < s.len() ==> keyed(v.baselines(), (#[trigger] s[i]).task_id@),
        forall|j: int|
            0 <= j < v.baselines().len() ==> selects(s, (#[trigger] v.baselines()[j]).0@)
                && committed_baseline(c.tasks@, v.baselines()[j].0@, v.baselines()[j].1@),
{
    let b = v.baselines();
    let t = c.tasks@;
    assert forall|j: int| 0 <= j < b.len() implies selects(s, (#[trigger] b[j]).0@) && committed_baseline(
        t,
        b[j].0@,
        b[j].1@,
    ) by {
        let i = choose|i: int| 0 <= i < s.len() && s[i].task_id@ == b[j].0@;
        lemma_last_committed_names(t, s[i].task_id@, t.len() as int);
        assert(last_committed(t, s[i].task_id@, t.len() as int) >= 0);
    }
}

/// Where the typed commitment is the parsed document's, the document's
/// address is the address of the document the typed values describe: the
/// digest a validation records does not depend on member order.
pub proof fn law_described_document_has_the_typed_address(
    document: JsonTree,
    c: CorpusCommitment,
    runtime_provenance: JsonTree,
)
    requires
        document_describes(document, c, runtime_provenance),
    ensures
        canonical_digest(document) == canonical_digest(commitment_tree(c, runtime_provenance)),
        canonical_digest(document) is Some,
{
}

/// Checks that the typed commitment and runtime provenance record are the
/// parsed document's.
fn check_document_describes(
    document: &Json,
    commitment: &CorpusCommitment,
    provenance: &CorpusRuntimeProvenance,
) -> (r: Result<(), CorpusCommitmentError>)
    ensures
        r is Ok <==> document_describes(document.tree(), *commitment, provenance.document.tree()),
{
    let described = commitment_json(commitment, json_copy(&provenance.document));
    match (canonical_bytes(document), canonical_bytes(&described)) {
        (Some(a), Some(b)) => {
            if bytes_eq(a.as_slice(), b.as_slice()) {
                Ok(())
            } else {
                Err(CorpusCommitmentError::new("corpus commitment shape is invalid"))
            }
        },
        _ => Err(CorpusCommitmentError::new("corpus commitment shape is invalid")),
    }
}

/// Two nodes have one canonical encoding: they are the same value, member
/// order aside.
pub open spec fn canonical_same_tree(a: JsonTree, b: JsonTree) -> bool {
    &&& spec_canonical_json(a) is Some
    &&& spec_canonical_json(a) == spec_canonical_json(b)
}

fn canonical_same(a: &Json, b: &Json) -> (r: bool)
    ensures
        r == canonical_same_tree(a.tree(), b.tree()),
{
    match (canonical_bytes(a), canonical_bytes(b)) {
        (Some(x), Some(y)) => bytes_eq(x.as_slice(), y.as_slice()),
        _ => false,
    }
}

/// The typed runtime provenance values are the ones its record holds at the
/// paths validation reads: the Node.js runtime's digest and version, the
/// operating-system platform, the OpenSSL setting, the model toolchain
/// policy, and the runner's identity kind, source manifest, manifest digest
/// and built-binary digest.
pub open spec fn provenance_describes(p: CorpusRuntimeProvenance) -> bool {
    let d = p.document.tree();
    &&& opt_view(p.node_executable_sha256) == text_node(
        tree_at(d, seq!["node_runtime"@, "executable_sha256"@]),
    )
    &&& opt_view(p.node_version) == text_node(tree_at(d, seq!["node_runtime"@, "version"@]))
    &&& opt_view(p.operating_system_platform) == text_node(
        tree_at(d, seq!["operating_system"@, "platform"@]),
    )
    &&& opt_view(p.openssl_conf) == text_node(
        tree_at(d, seq!["locale_and_timezone"@, "environment"@, "OPENSSL_CONF"@]),
    )
    &&& match p.model_toolchain {
        Some(policy) => tree_at(d, seq!["model_toolchain"@]) is Some && canonical_same_tree(
            tree_at(d, seq!["model_toolchain"@])->0,
            policy.tree(),
        ),
        None => tree_at(d, seq!["model_toolchain"@]) is None,
    }
    &&& text_node(tree_at(d, seq!["runner"@, "identity_kind"@])) == Some(p.runner.identity_kind@)
    &&& text_node(tree_at(d, seq!["runner"@, "source_manifest_sha256"@])) == Some(
        p.runner.source_manifest_sha256@,
    )
    &&& p.runner.built_binary_is_null == (tree_at(d, seq!["runner"@, "built_binary_sha256"@]) == Some(
        JsonTree::Null,
    ))
    &&& tree_at(d, seq!["runner"@, "source_manifest"@]) is Some
    &&& canonical_same_tree(
        tree_at(d, seq!["runner"@, "source_manifest"@])->0,
        p.runner.source_manifest.tree(),
    )
}

fn same_optional_text(a: &Option<String>, b: &Option<String>) -> (r: bool)
    ensures
        r == (opt_view(*a) == opt_view(*b)),
{
    match (a, b) {
        (Some(x), Some(y)) => text_eq(x.as_str(), y.as_str()),
        (None, None) => true,
        _ => false,
    }
}

/// Checks that the typed runtime provenance values are the record's own.
fn check_provenance_describes(p: &CorpusRuntimeProvenance) -> (r: Result<(), CorpusCommitmentError>)
    ensures
        r is Ok <==> provenance_describes(*p),
{
    let d = &p.document;
    let node_digest_path: Vec<&str> = vec!["node_runtime", "executable_sha256"];
    let node_version_path: Vec<&str> = vec!["node_runtime", "version"];
    let platform_path: Vec<&str> = vec!["operating_system", "platform"];
    let openssl_path: Vec<&str> = vec!["locale_and_timezone", "environment", "OPENSSL_CONF"];
    let toolchain_path: Vec<&str> = vec!["model_toolchain"];
    let kind_path: Vec<&str> = vec!["runner", "identity_kind"];
    let manifest_digest_path: Vec<&str> = vec!["runner", "source_manifest_sha256"];
    let binary_path: Vec<&str> = vec!["runner", "built_binary_sha256"];
    let manifest_path: Vec<&str> = vec!["runner", "source_manifest"];
    assert(path_view(node_digest_path@) =~= seq!["node_runtime"@, "executable_sha256"@]);
    assert(path_view(node_version_path@) =~= seq!["node_runtime"@, "version"@]);
    assert(path_view(platform_path@) =~= seq!["operating_system"@, "platform"@]);
    assert(path_view(openssl_path@) =~= seq!["locale_and_timezone"@, "environment"@, "OPENSSL_CONF"@]);
    assert(path_view(toolchain_path@) =~= seq!["model_toolchain"@]);
    assert(path_view(kind_path@) =~= seq!["runner"@, "identity_kind"@]);
    assert(path_view(manifest_digest_path@) =~= seq!["runner"@, "source_manifest_sha256"@]);
    assert(path_view(binary_path@) =~= seq!["runner"@, "built_binary_sha256"@]);
    assert(path_view(manifest_path@) =~= seq!["runner"@, "source_manifest"@]);
    let texts_ok = same_optional_text(&p.node_executable_sha256, &text_at(d, node_digest_path.as_slice()))
        && same_optional_text(&p.node_version, &text_at(d, node_version_path.as_slice()))
        && same_optional_text(&p.operating_system_platform, &text_at(d, platform_path.as_slice()))
        && same_optional_text(&p.openssl_conf, &text_at(d, openssl_path.as_slice()));
    let toolchain_ok = match (&p.model_toolchain, json_at(d, toolchain_path.as_slice())) {
        (Some(policy), Some(node)) => canonical_same(node, &policy.to_json()),
        (None, None) => true,
        _ => false,
    };
    let runner_ok = match (
        text_at(d, kind_path.as_slice()),
        text_at(d, manifest_digest_path.as_slice()),
        json_at(d, manifest_path.as_slice()),
    ) {
        (Some(kind), Some(digest), Some(manifest)) => text_eq(kind.as_str(), p.runner.identity_kind.as_str())
            && text_eq(digest.as_str(), p.runner.source_manifest_sha256.as_str()) && canonical_same(
            manifest,
            &p.runner.source_manifest,
        ),
        _ => false,
    };
    let binary_null = match json_at(d, binary_path.as_slice()) {
        Some(Json::Null) => true,
        _ => false,
    };
    if !texts_ok || !toolchain_ok || !runner_ok || binary_null != p.runner.built_binary_is_null {
        return Err(CorpusCommitmentError::new("corpus runtime provenance shape is invalid"));
    }
    Ok(())
}

/// Validates a parsed commitment document against a catalog contract, the
/// selected tasks, its runtime provenance and the current bytes of the
/// runner's source files. The typed commitment and provenance record must be
/// the document's own, and the validated commitment records the digest of
/// the document's canonical encoding.
#[verifier::rlimit(40)]
pub fn validate_commitment_document(
    commitment: &CorpusCommitment,
    document: &Json,
    contract: &CatalogContract,
    selected: &[SelectedTask],
    provenance: &CorpusRuntimeProvenance,
    current_source_files: &[Vec<u8>],
) -> (r: Result<ValidatedCorpusCommitment, CorpusCommitmentError>)
    requires
        contract.wf(),
    ensures
        match r {
            Ok(v) => corpus_document_valid(
                *commitment,
                *contract,
                selected@,
                *provenance,
                Seq::new(current_source_files@.len(), |i: int| current_source_files@[i]@),
            ) && canonical_digest(document.tree()) is Some && document_describes(document.tree(), *commitment, provenance.document.tree()) && v.records(*commitment, canonical_digest(document.tree())->0, *contract, selected@, *provenance),
            Err(_) => canonical_digest(document.tree()) is None || !document_describes(document.tree(), *commitment, provenance.document.tree()) || !corpus_document_valid(
                *commitment,
                *contract,
                selected@,
                *provenance,
                Seq::new(current_source_files@.len(), |i: int| current_source_files@[i]@),
            ),
        },
        canonical_digest(document.tree()) is Some && document_describes(document.tree(), *commitment, provenance.document.tree()) && header_ok(*commitment, *contract)
            && catalog_tasks_ok(commitment.tasks@, *contract) && !budgets_ok(selected@, *contract)
            ==> r is Err && r->Err_0@ == BUDGET_MISMATCH@,
{
    let canonical_sha256 = match canonical_hash(document) {
        Some(d) => d,
        None => {
            return Err(CorpusCommitmentError::new("cannot hash corpus commitment"));
        },
    };
    check_document_describes(document, commitment, provenance)?;
    validate_header(commitment, contract)?;
    validate_catalog_tasks(&commitment.tasks, contract)?;
    validate_selected_catalog_budgets(selected, contract)?;
    let baseline_workspace_digests = validate_selected_tasks(&commitment.tasks, selected)?;
    check_provenance_describes(provenance)?;
    validate_runner_runtime_provenance(&provenance.runner)?;
    let node_digest = match &provenance.node_executable_sha256 {
        Some(d) => d,
        None => {
            return Err(
                CorpusCommitmentError::new(
                    "corpus commitment omits evaluator runtime executable digest",
                ),
            );
        },
    };
    if !is_valid_digest(node_digest.as_str()) {
        return Err(
            CorpusCommitmentError::new(
                "corpus commitment has an invalid evaluator runtime executable digest",
            ),
        );
    }
    let node_version = match &provenance.node_version {
        Some(v) => v,
        None => {
            return Err(CorpusCommitmentError::new("corpus commitment omits evaluator runtime version"));
        },
    };
    if !is_valid_runtime_version(node_version.as_str()) {
        return Err(
            CorpusCommitmentError::new("corpus commitment has an invalid evaluator runtime version"),
        );
    }
    let policy = match &provenance.model_toolchain {
        Some(p) => p,
        None => {
            return Err(CorpusCommitmentError::new("corpus commitment omits model toolchain"));
        },
    };
    validate_deterministic_execution_digests(
        &commitment.execution,
        provenance,
        policy,
        contract,
        selected,
    )?;
    check_manifest_describes(provenance)?;
    validate_source_manifest(&provenance.source_manifest, current_source_files)?;
    Ok(
        ValidatedCorpusCommitment {
            release_id: commitment.release_id.clone(),
            canonical_sha256,
            catalog_digest: contract.identity_sha256.clone(),
            harness_digest: commitment.execution.harness_sha256.clone(),
            prompt_digest: commitment.execution.runner_prompt_source_sha256.clone(),
            tool_policy_digest: commitment.execution.declared_tool_policy_sha256.clone(),
            network_policy_digest: commitment.execution.declared_network_policy_sha256.clone(),
            environment_digest: commitment.execution.environment_sha256.clone(),
            source_manifest_digest: provenance.runner.source_manifest_sha256.clone(),
            evaluator_runtime_executable_digest: node_digest.clone(),
            evaluator_runtime_version: node_version.clone(),
            model_toolchain_policy: clone_policy(policy),
            baseline_workspace_digests,
        },
    )
}

/// The contract is a core catalog contract: the core schemas, task set and
/// scope over a frozen catalog, under that catalog's own identity.
pub open spec fn is_core_contract(k: CatalogContract) -> bool {
    &&& k.commitment_schema_version@ == CORE_COMMITMENT_SCHEMA@
    &&& k.catalog_schema_version@ == CORE_CATALOG_SCHEMA@
    &&& k.task_set_id@ == AIQ_TASK_SET_ID@
    &&& k.task_set_version@ == CORE_TASK_SET_VERSION@
    &&& k.identity_scope@ == IDENTITY_SCOPE@
    &&& k.tasks is Frozen
}

fn check_core_contract(k: &CatalogContract) -> (r: bool)
    ensures
        r == is_core_contract(*k),
{
    let frozen = match &k.tasks {
        CatalogTaskAuthority::Frozen(_) => true,
        CatalogTaskAuthority::FixedOrderedIds(_) => false,
    };
    frozen && text_eq(k.commitment_schema_version.as_str(), CORE_COMMITMENT_SCHEMA) && text_eq(
        k.catalog_schema_version.as_str(),
        CORE_CATALOG_SCHEMA,
    ) && text_eq(k.task_set_id.as_str(), AIQ_TASK_SET_ID) && text_eq(
        k.task_set_version.as_str(),
        CORE_TASK_SET_VERSION,
    ) && text_eq(k.identity_scope.as_str(), IDENTITY_SCOPE)
}

/// Loads and validates a core 1.1.0 commitment under the core catalog
/// contract. The same checked authority is the active core corpus: the
/// current-corpus and core-corpus entry points are this function.
pub fn validate_candidate_core_corpus_commitment_v1_1_0(
    commitment: &CorpusCommitment,
    document: &Json,
    contract: &CatalogContract,
    selected: &[SelectedTask],
    provenance: &CorpusRuntimeProvenance,
    current_source_files: &[Vec<u8>],
) -> (r: Result<ValidatedCorpusCommitment, CorpusCommitmentError>)
    requires
        contract.wf(),
    ensures
        match r {
            Ok(v) => is_core_contract(*contract) && corpus_document_valid(
                *commitment,
                *contract,
                selected@,
                *provenance,
                Seq::new(current_source_files@.len(), |i: int| current_source_files@[i]@),
            ) && canonical_digest(document.tree()) is Some && document_describes(document.tree(), *commitment, provenance.document.tree()) && v.records(*commitment, canonical_digest(document.tree())->0, *contract, selected@, *provenance),
            Err(_) => !is_core_contract(*contract) || canonical_digest(document.tree()) is None || !document_describes(document.tree(), *commitment, provenance.document.tree())
                || !corpus_document_valid(
                *commitment,
                *contract,
                selected@,
                *provenance,
                Seq::new(current_source_files@.len(), |i: int| current_source_files@[i]@),
            ),
        },
        is_core_contract(*contract) && canonical_digest(document.tree()) is Some && document_describes(document.tree(), *commitment, provenance.document.tree()) && header_ok(
            *commitment,
            *contract,
        ) && catalog_tasks_ok(commitment.tasks@, *contract) && !budgets_ok(selected@, *contract)
            ==> r is Err && r->Err_0@ == BUDGET_MISMATCH@,
{
    if !check_core_contract(contract) {
        return Err(CorpusCommitmentError::new("corpus catalog identity is unsupported"));
    }
    validate_commitment_document(
        commitment,
        document,
        contract,
        selected,
        provenance,
        current_source_files,
    )
}

/// The contrast catalog contract: the contrast schemas, the `aiq-core-contrast`
/// task set at the controlled version, the contrast identity and scope, over
/// the six fixed ordered variant identifiers.
pub open spec fn is_contrast_contract(k: CatalogContract) -> bool {
    &&& k.wf()
    &&& k.tasks is FixedOrderedIds
    &&& k.commitment_schema_version@ == CONTRAST_COMMITMENT_SCHEMA@
    &&& k.catalog_schema_version@ == CONTRAST_CATALOG_SCHEMA@
    &&& k.task_set_id@ == CONTRAST_TASK_SET_ID@
    &&& k.task_set_version@ == CONTROLLED_CONTRAST_TASK_SET_VERSION@
    &&& k.identity_sha256@ == CONTROLLED_CONTRAST_CATALOG_IDENTITY_SHA256@
    &&& k.identity_scope@ == IDENTITY_SCOPE@
}

/// The committed tasks are the six contrast variants, in their fixed order,
/// each at the controlled contrast task-set version.
pub open spec fn contrast_tasks_pinned(tasks: Seq<CorpusTask>) -> bool {
    &&& tasks.len() == contrast_task_ids().len()
    &&& forall|i: int|
        0 <= i < tasks.len() ==> (#[trigger] tasks[i]).task_id@ == contrast_task_ids()[i]
            && tasks[i].task_version@ == CONTROLLED_CONTRAST_TASK_SET_VERSION@
}

/// Loads the six controlled AIQ Core 1.0.7 contrast variants under the
/// contrast catalog contract; the commitment must have the expected canonical
/// digest.
pub fn validate_contrast_corpus_commitment(
    commitment: &CorpusCommitment,
    document: &Json,
    selected: &[SelectedTask],
    provenance: &CorpusRuntimeProvenance,
    current_source_files: &[Vec<u8>],
    expected_canonical_sha256: &str,
) -> (r: Result<ValidatedCorpusCommitment, CorpusCommitmentError>)
    ensures
        match r {
            Ok(v) => valid_digest(expected_canonical_sha256@) && canonical_digest(document.tree()) == Some(
                expected_canonical_sha256@,
            ) && v.canonical_sha256_text() == expected_canonical_sha256@ && contrast_tasks_pinned(
                commitment.tasks@,
            ) && exists|k: CatalogContract|
                is_contrast_contract(k) && corpus_document_valid(
                    *commitment,
                    k,
                    selected@,
                    *provenance,
                    Seq::new(current_source_files@.len(), |i: int| current_source_files@[i]@),
                ) && canonical_digest(document.tree()) is Some && document_describes(document.tree(), *commitment, provenance.document.tree()) && v.records(*commitment, canonical_digest(document.tree())->0, k, selected@, *provenance),
            Err(_) => !valid_digest(expected_canonical_sha256@) || canonical_digest(document.tree()) != Some(
                expected_canonical_sha256@,
            ) || !document_describes(document.tree(), *commitment, provenance.document.tree()) || exists|k: CatalogContract|
                is_contrast_contract(k) && !corpus_document_valid(
                    *commitment,
                    k,
                    selected@,
                    *provenance,
                    Seq::new(current_source_files@.len(), |i: int| current_source_files@[i]@),
                ),
        },
{
    if !is_valid_digest(expected_canonical_sha256) {
        return Err(CorpusCommitmentError::new("contrast corpus digest is invalid"));
    }
    let contract = CatalogContract::contrast();
    assert(is_contrast_contract(contract));
    let validated = match validate_commitment_document(
        commitment,
        document,
        &contract,
        selected,
        provenance,
        current_source_files,
    ) {
        Ok(v) => v,
        Err(e) => {
            return Err(e);
        },
    };
    proof {
        let t = commitment.tasks@;
        assert forall|i: int| 0 <= i < t.len() implies (#[trigger] t[i]).task_id@
            == contrast_task_ids()[i] && t[i].task_version@
            == CONTROLLED_CONTRAST_TASK_SET_VERSION@ by {
            assert(covers_catalog(t, contract));
        }
    }
    if !text_eq(validated.canonical_sha256(), expected_canonical_sha256) {
        return Err(
            CorpusCommitmentError::new(
                "contrast corpus does not match the expected canonical commitment",
            ),
        );
    }
    Ok(validated)
}

/// A commitment's catalog names the contract's task set and identity.
pub open spec fn catalog_names_contract(c: CorpusCatalog, k: CatalogContract) -> bool {
    &&& c.task_set_id@ == AIQ_TASK_SET_ID@
    &&& c.task_set_version@ == k.task_set_version@
    &&& c.identity_sha256@ == k.identity_sha256@
}

/// The document is the expected commitment, its committed Node.js runtime is
/// the selected evaluator runtime, its execution evidence is consistent with
/// the core catalog, and the observed model toolchain is the committed one.
pub open spec fn evaluator_runtime_commitment_ok(
    c: CorpusCommitment,
    document: JsonTree,
    expected_canonical_sha256: Seq<char>,
    p: CorpusRuntimeProvenance,
    runtime: EvaluatorRuntime,
    k: CatalogContract,
    root: ObservedToolchainRoot,
    os: Seq<char>,
    arch: Seq<char>,
) -> bool {
    &&& canonical_digest(document) == Some(expected_canonical_sha256)
    &&& document_describes(document, c, p.document.tree())
    &&& c.schema_version@ == CORE_COMMITMENT_SCHEMA@
    &&& p.node_executable_sha256 is Some
    &&& p.node_executable_sha256->0@ == runtime.executable_digest@
    &&& p.node_version is Some
    &&& p.node_version->0@ == runtime.version@
    &&& p.model_toolchain is Some
    &&& is_core_contract(k)
    &&& catalog_names_contract(c.catalog, k)
    &&& provenance_describes(p)
    &&& runner_provenance_ok(p.runner)
    &&& deterministic_digests_ok(c.execution, p, p.model_toolchain->0, k, seq![])
    &&& toolchain_valid(p.model_toolchain->0, runtime, os, arch, root, true)
    &&& canonical_digest(p.model_toolchain->0.tree()) is Some
}

/// Verifies the corpus document identity and its committed evaluator runtime:
/// the document hashes to the expected digest, names the runtime's digest
/// and version, and its catalog, runner provenance, deterministic digests and
/// model toolchain all validate.
pub fn validate_evaluator_runtime_commitment(
    commitment: &CorpusCommitment,
    document: &Json,
    expected_canonical_sha256: &str,
    provenance: &CorpusRuntimeProvenance,
    runtime: &EvaluatorRuntime,
    contract: &CatalogContract,
    toolchain_root: &ObservedToolchainRoot,
    os: &str,
    arch: &str,
) -> (r: Result<(), CorpusCommitmentError>)
    ensures
        r is Ok <==> evaluator_runtime_commitment_ok(
            *commitment,
            document.tree(),
            expected_canonical_sha256@,
            *provenance,
            *runtime,
            *contract,
            *toolchain_root,
            os@,
            arch@,
        ),
{
    let observed = match canonical_hash(document) {
        Some(d) => d,
        None => {
            return Err(CorpusCommitmentError::new("cannot hash corpus commitment"));
        },
    };
    let node_ok = match (&provenance.node_executable_sha256, &provenance.node_version) {
        (Some(d), Some(v)) => text_eq(d.as_str(), runtime.executable_digest.as_str()) && text_eq(
            v.as_str(),
            runtime.version.as_str(),
        ),
        _ => false,
    };
    if !text_eq(observed.as_str(), expected_canonical_sha256) || !text_eq(
        commitment.schema_version.as_str(),
        CORE_COMMITMENT_SCHEMA,
    ) || !node_ok {
        return Err(
            CorpusCommitmentError::new(
                "evaluator runtime or corpus identity does not match the signed provenance",
            ),
        );
    }
    let policy = match &provenance.model_toolchain {
        Some(p) => p,
        None => {
            return Err(CorpusCommitmentError::new("corpus commitment omits model toolchain"));
        },
    };
    check_document_describes(document, commitment, provenance)?;
    if !check_core_contract(contract) || !(text_eq(
        commitment.catalog.task_set_id.as_str(),
        AIQ_TASK_SET_ID,
    ) && text_eq(commitment.catalog.task_set_version.as_str(), contract.task_set_version.as_str())
        && text_eq(commitment.catalog.identity_sha256.as_str(), contract.identity_sha256.as_str())) {
        return Err(CorpusCommitmentError::new("corpus catalog identity is unsupported"));
    }
    check_provenance_describes(provenance)?;
    validate_runner_runtime_provenance(&provenance.runner)?;
    let no_selection: Vec<SelectedTask> = Vec::new();
    assert(no_selection@ =~= seq![]);
    validate_deterministic_execution_digests(
        &commitment.execution,
        provenance,
        policy,
        contract,
        no_selection.as_slice(),
    )?;
    validate_model_toolchain(toolchain_root, policy, runtime, os, arch)?;
    Ok(())
}

// ---------------------------------------------------------------------------
// Selected evaluator identities and the committed tool policy
// ---------------------------------------------------------------------------
/// The ordered `[task_id, scorer_version, evaluator]` triples of the
/// selected tasks.
pub open spec fn evaluator_identities_tree(tasks: Seq<(String, String, Json)>) -> JsonTree {
    JsonTree::Array(
        Seq::new(
            tasks.len(),
            |i: int|
                JsonTree::Array(
                    seq![
                        JsonTree::Text(tasks[i].0@),
                        JsonTree::Text(tasks[i].1@),
                        tasks[i].2.tree(),
                    ],
                ),
        ),
    )
}

/// Computes the ordered selected evaluator identity commitment: the address
/// of the ordered `[task_id, scorer_version, evaluator]` triples.
pub fn evaluator_digest(tasks: &Vec<(String, String, Json)>) -> (r: Result<String, CorpusCommitmentError>)
    ensures
        match r {
            Ok(d) => canonical_digest(evaluator_identities_tree(tasks@)) == Some(d@),
            Err(e) => canonical_digest(evaluator_identities_tree(tasks@)) is None && e@
                == "cannot hash evaluator identities"@,
        },
{
    let mut out: Vec<Json> = Vec::new();
    let mut i: usize = 0;
    while i < tasks.len()
        invariant
            i <= tasks@.len(),
            out@.len() == i,
            forall|k: int|
                0 <= k < i ==> #[trigger] out@[k].tree() == evaluator_identities_tree(tasks@)->Array_0[k],
        decreases tasks@.len() - i,
    {
        let (task_id, scorer_version, evaluator) = &tasks[i];
        let mut triple: Vec<Json> = Vec::new();
        triple.push(json_text(task_id.as_str()));
        triple.push(json_text(scorer_version.as_str()));
        triple.push(json_copy(evaluator));
        let ghost ts = triple@;
        let j = json_array(triple);
        assert(items_tree(ts) =~= evaluator_identities_tree(tasks@)->Array_0[i as int]->Array_0);
        out.push(j);
        i += 1;
    }
    let ghost outs = out@;
    let all = json_array(out);
    assert(items_tree(outs) =~= evaluator_identities_tree(tasks@)->Array_0);
    match canonical_hash(&all) {
        Some(d) => Ok(d),
        None => Err(CorpusCommitmentError::new("cannot hash evaluator identities")),
    }
}

/// Where a commitment keeps its model toolchain policy.
pub open spec fn model_toolchain_path() -> Seq<Seq<char>> {
    seq!["execution"@, "runtime_provenance"@, "model_toolchain"@]
}

/// Reads the execution tool policy node from a v3 commitment document; its
/// strict parse into `ExecutionToolPolicy` follows.
pub fn read_execution_tool_policy(document: &Json) -> (r: Result<Json, CorpusCommitmentError>)
    ensures
        match r {
            Ok(p) => text_node(tree_at(document.tree(), seq!["schema_version"@])) == Some(
                CORE_COMMITMENT_SCHEMA@,
            ) && tree_at(document.tree(), model_toolchain_path()) == Some(p.tree()),
            Err(e) => if text_node(tree_at(document.tree(), seq!["schema_version"@])) != Some(
                CORE_COMMITMENT_SCHEMA@,
            ) {
                e@ == "corpus commitment schema is not v3"@
            } else {
                tree_at(document.tree(), model_toolchain_path()) is None && e@
                    == "corpus commitment omits model toolchain"@
            },
        },
{
    let schema_path: Vec<&str> = vec!["schema_version"];
    let policy_path: Vec<&str> = vec!["execution", "runtime_provenance", "model_toolchain"];
    assert(path_view(schema_path@) =~= seq!["schema_version"@]);
    assert(path_view(policy_path@) =~= model_toolchain_path());
    let schema_ok = match text_at(document, schema_path.as_slice()) {
        Some(v) => text_eq(v.as_str(), CORE_COMMITMENT_SCHEMA),
        None => false,
    };
    if !schema_ok {
        return Err(CorpusCommitmentError::new("corpus commitment schema is not v3"));
    }
    match json_at(document, policy_path.as_slice()) {
        Some(p) => Ok(json_copy(p)),
        None => Err(CorpusCommitmentError::new("corpus commitment omits model toolchain")),
    }
}

} // verus!

//! The private candidate execution plan: its controlled inputs, its
//! twenty-one derived execution units and its create-once output paths.
use vstd::prelude::*;
use vstd::string::*;

use crate::capacity::MAX_RUN_JOBS;
use crate::release_gate::paths::{
    is_same_path, is_valid_absolute_path, join, join_path, keys_equal,
    keys_overlap, path_key, path_key_of, paths_overlap, same_path, valid_absolute_path, PathKey,
};
use crate::release_gate::admission::{ReleaseGateAdmissionV1, ReleaseGateRepeat};
use crate::digest::canonical_digest;
use crate::release_gate::{
    CANDIDATE_CATALOG_RELEASE_IDENTITY_SHA256, CANDIDATE_EXECUTION_PLAN_SCHEMA,
    CANDIDATE_MODEL_ID_MAPPING_SHA256, CANDIDATE_PLAN_PURPOSE, CANDIDATE_TASK_IDENTITY_SHA256,
    CANDIDATE_TOTAL_OBSERVATION_COUNT, RELEASE_IDENTITY,
};
use crate::release_gate::{model_identity, canonical_model_id, execution_model_id};
use crate::release_gate::{
    arm_name, arm_str, contrast_id, contrast_id_str, contrast_task_id, contrast_task_id_string,
    expected_resolved_models, is_valid_digest, is_valid_identifier, is_valid_node_id,
    resolved_model_is, scheduled_arm, scheduled_arm_of, valid_digest, valid_identifier,
    valid_node_id, CandidateCatalog, CandidateContrastArm, CandidateExecutionUnitKind,
    CandidateGateError, CandidateResolvedModel, CANDIDATE_CODEX_EGRESS_PROXY_ENDPOINT,
};
use crate::text::{clone_strings, strings_eq, text_eq};

verus! {

/// Permanent non-release classification for all candidate output.
#[derive(Clone, Debug)]
pub struct CandidateClassification {
    /// Trust tier assigned to candidate output.
    pub trust_tier: String,
    /// Whether candidate output is official.
    pub official: bool,
    /// Whether candidate output can enter rankings.
    pub ranking_eligible: bool,
    /// Permanent disposition assigned to candidate output.
    pub disposition: String,
}

/// The only classification candidate output can carry: untrusted,
/// nonofficial, nonranking, release-gate only.
pub open spec fn is_candidate_classification(c: CandidateClassification) -> bool {
    &&& c.trust_tier@ == "untrusted"@
    &&& !c.official
    &&& !c.ranking_eligible
    &&& c.disposition@ == "candidate_release_gate_only"@
}

impl Default for CandidateClassification {
    fn default() -> (c: Self)
        ensures
            is_candidate_classification(c),
    {
        CandidateClassification {
            trust_tier: "untrusted".to_owned(),
            official: false,
            ranking_eligible: false,
            disposition: "candidate_release_gate_only".to_owned(),
        }
    }
}

impl CandidateClassification {
    /// Accepts only the permanent non-release classification.
    pub fn validate(&self) -> (r: Result<(), CandidateGateError>)
        ensures
            r is Ok <==> is_candidate_classification(*self),
    {
        if !text_eq(self.trust_tier.as_str(), "untrusted") || self.official || self.ranking_eligible
            || !text_eq(self.disposition.as_str(), "candidate_release_gate_only") {
            return Err(
                CandidateGateError::new(
                    "candidate classification must remain nonofficial, nonranking, and untrusted",
                ),
            );
        }
        Ok(())
    }
}

/// Digests for the exact runner and evaluator runtime selected before execution.
#[derive(Clone, Debug)]
pub struct CandidateRuntimeBindings {
    /// SHA-256 digest of the runner executable.
    pub runner_executable_sha256: String,
    /// SHA-256 digest of the independent verifier executable.
    pub verifier_executable_sha256: String,
    /// SHA-256 digest of the evaluator runtime.
    pub evaluator_runtime_sha256: String,
    /// SHA-256 digest of the core harness.
    pub core_harness_sha256: String,
    /// SHA-256 digest of the core tool policy.
    pub core_tool_policy_sha256: String,
    /// SHA-256 digest of the core network policy.
    pub core_network_policy_sha256: String,
    /// SHA-256 digest of the contrast harness.
    pub contrast_harness_sha256: String,
    /// SHA-256 digest of the contrast tool policy.
    pub contrast_tool_policy_sha256: String,
    /// SHA-256 digest of the contrast network policy.
    pub contrast_network_policy_sha256: String,
}

impl CandidateRuntimeBindings {
    /// The nine digests, in field order.
    pub open spec fn digests(&self) -> Seq<Seq<char>> {
        seq![
            self.runner_executable_sha256@,
            self.verifier_executable_sha256@,
            self.evaluator_runtime_sha256@,
            self.core_harness_sha256@,
            self.core_tool_policy_sha256@,
            self.core_network_policy_sha256@,
            self.contrast_harness_sha256@,
            self.contrast_tool_policy_sha256@,
            self.contrast_network_policy_sha256@,
        ]
    }

    /// Every digest is valid and the two tool policies are distinct.
    pub open spec fn valid(&self) -> bool {
        &&& forall|i: int| 0 <= i < 9 ==> valid_digest(#[trigger] self.digests()[i])
        &&& self.core_tool_policy_sha256@ != self.contrast_tool_policy_sha256@
    }

    /// Validates every digest and the separation of the two tool policies.
    pub fn validate(&self) -> (r: Result<(), CandidateGateError>)
        ensures
            r is Ok <==> self.valid(),
    {
        let digests = vec![
            self.runner_executable_sha256.as_str(),
            self.verifier_executable_sha256.as_str(),
            self.evaluator_runtime_sha256.as_str(),
            self.core_harness_sha256.as_str(),
            self.core_tool_policy_sha256.as_str(),
            self.core_network_policy_sha256.as_str(),
            self.contrast_harness_sha256.as_str(),
            self.contrast_tool_policy_sha256.as_str(),
            self.contrast_network_policy_sha256.as_str(),
        ];
        let mut i: usize = 0;
        while i < 9
            invariant
                i <= 9,
                digests@.len() == 9,
                forall|k: int| 0 <= k < 9 ==> #[trigger] digests@[k]@ == self.digests()[k],
                forall|k: int| 0 <= k < i ==> valid_digest(#[trigger] self.digests()[k]),
            decreases 9 - i,
        {
            if !is_valid_digest(digests[i]) {
                assert(!valid_digest(self.digests()[i as int]));
                return Err(
                    CandidateGateError::new("candidate runtime binding contains an invalid digest"),
                );
            }
            i += 1;
        }
        if text_eq(self.core_tool_policy_sha256.as_str(), self.contrast_tool_policy_sha256.as_str()) {
            return Err(
                CandidateGateError::new(
                    "core and contrast tool-policy commitments must remain distinct",
                ),
            );
        }
        Ok(())
    }

    /// Compares semantic identities from the validated core commitment.
    pub fn validate_core_commitment_bindings(
        &self,
        harness_sha256: &str,
        tool_policy_sha256: &str,
        network_policy_sha256: &str,
    ) -> (r: Result<(), CandidateGateError>)
        ensures
            r is Ok <==> self.valid() && self.core_harness_sha256@ == harness_sha256@
                && self.core_tool_policy_sha256@ == tool_policy_sha256@
                && self.core_network_policy_sha256@ == network_policy_sha256@,
    {
        self.validate()?;
        if !text_eq(self.core_harness_sha256.as_str(), harness_sha256) || !text_eq(
            self.core_tool_policy_sha256.as_str(),
            tool_policy_sha256,
        ) || !text_eq(self.core_network_policy_sha256.as_str(), network_policy_sha256) {
            return Err(
                CandidateGateError::new(
                    "candidate core runtime does not match the validated core commitment",
                ),
            );
        }
        Ok(())
    }

    /// Compares semantic identities from the validated contrast commitment.
    pub fn validate_contrast_commitment_bindings(
        &self,
        harness_sha256: &str,
        tool_policy_sha256: &str,
        network_policy_sha256: &str,
    ) -> (r: Result<(), CandidateGateError>)
        ensures
            r is Ok <==> self.valid() && self.contrast_harness_sha256@ == harness_sha256@
                && self.contrast_tool_policy_sha256@ == tool_policy_sha256@
                && self.contrast_network_policy_sha256@ == network_policy_sha256@,
    {
        self.validate()?;
        if !text_eq(self.contrast_harness_sha256.as_str(), harness_sha256) || !text_eq(
            self.contrast_tool_policy_sha256.as_str(),
            tool_policy_sha256,
        ) || !text_eq(self.contrast_network_policy_sha256.as_str(), network_policy_sha256) {
            return Err(
                CandidateGateError::new(
                    "candidate contrast runtime does not match the validated contrast commitment",
                ),
            );
        }
        Ok(())
    }
}

/// Closed set of model-capable controlled inputs signed by the private plan.
#[derive(Clone, Debug)]
pub struct CandidateControlledInputs {
    /// Root directory for controlled core tasks.
    pub core_tasks_root: String,
    /// Root directory for controlled contrast tasks.
    pub contrast_tasks_root: String,
    /// Root directory for controlled source files.
    pub source_root: String,
    /// Root directory for core task workspaces.
    pub core_workspace_root: String,
    /// Root directory for contrast task workspaces.
    pub contrast_workspace_root: String,
    /// Root directory for task execution.
    pub execution_root: String,
    /// Root directory for evaluator inputs.
    pub evaluator_root: String,
    /// Path to the evaluator runtime executable.
    pub evaluator_runtime: String,
    /// Root directory for the controlled Codex toolchain.
    pub codex_toolchain_root: String,
    /// Path to the runtime capability document.
    pub capabilities: String,
    /// Path to the controlled execution schedule.
    pub schedule: String,
    /// Path to the controlled Codex executable.
    pub codex_binary: String,
    /// Controlled Codex home directory.
    pub codex_home: String,
    /// Exact Codex egress proxy endpoint for the fixed candidate runner topology.
    pub codex_egress_proxy: String,
    /// Root directory for execution artifacts.
    pub artifact_root: String,
    /// Root directory for transient execution work.
    pub work_root: String,
    /// Isolated root directory for verifier replay.
    pub verifier_replay_root: String,
    /// Maximum number of concurrent runner jobs.
    pub jobs: usize,
    /// Node identifier for the runner signer.
    pub runner_signer_node_id: String,
    /// Distinct node identifier for the verifier signer.
    pub verifier_signer_node_id: String,
}

/// Views of a list of string slices.
pub open spec fn str_views(v: Seq<&str>) -> Seq<Seq<char>> {
    Seq::new(v.len(), |i: int| v[i]@)
}

/// Second components of pairs.
pub open spec fn seconds(s: Seq<(Seq<char>, Seq<char>)>) -> Seq<Seq<char>> {
    Seq::new(s.len(), |i: int| s[i].1)
}

/// All paths of a list are valid absolute paths and pairwise distinct.
pub open spec fn distinct_valid_paths(p: Seq<Seq<char>>) -> bool {
    &&& forall|i: int| 0 <= i < p.len() ==> valid_absolute_path(#[trigger] p[i])
    &&& forall|i: int, j: int| 0 <= i < j < p.len() ==> !same_path(#[trigger] p[i], #[trigger] p[j])
}

/// No path of the list other than `root` itself overlaps `root`.
pub open spec fn isolated_from(p: Seq<Seq<char>>, root: Seq<char>) -> bool {
    forall|i: int| 0 <= i < p.len() ==> !same_path(#[trigger] p[i], root) ==> !paths_overlap(p[i], root)
}

impl CandidateControlledInputs {
    /// The sixteen controlled paths, in declaration order.
    pub open spec fn path_list(&self) -> Seq<Seq<char>> {
        seq![
            self.core_tasks_root@,
            self.contrast_tasks_root@,
            self.source_root@,
            self.core_workspace_root@,
            self.contrast_workspace_root@,
            self.execution_root@,
            self.evaluator_root@,
            self.evaluator_runtime@,
            self.codex_toolchain_root@,
            self.capabilities@,
            self.schedule@,
            self.codex_binary@,
            self.codex_home@,
            self.artifact_root@,
            self.work_root@,
            self.verifier_replay_root@,
        ]
    }

    /// Normalized distinct absolute paths, a replay root that overlaps no other
    /// input, an accepted job count, two distinct valid signer identities, and
    /// the fixed egress proxy.
    pub open spec fn valid(&self) -> bool {
        &&& distinct_valid_paths(self.path_list())
        &&& isolated_from(self.path_list(), self.verifier_replay_root@)
        &&& 1 <= self.jobs <= MAX_RUN_JOBS
        &&& valid_node_id(self.runner_signer_node_id@)
        &&& valid_node_id(self.verifier_signer_node_id@)
        &&& self.runner_signer_node_id@ != self.verifier_signer_node_id@
        &&& self.codex_egress_proxy@ == CANDIDATE_CODEX_EGRESS_PROXY_ENDPOINT@
    }

    /// The sixteen controlled paths, in declaration order.
    pub fn paths(&self) -> (r: Vec<&str>)
        ensures
            r@.len() == 16,
            forall|i: int| 0 <= i < 16 ==> #[trigger] r@[i]@ == self.path_list()[i],
    {
        vec![
            self.core_tasks_root.as_str(),
            self.contrast_tasks_root.as_str(),
            self.source_root.as_str(),
            self.core_workspace_root.as_str(),
            self.contrast_workspace_root.as_str(),
            self.execution_root.as_str(),
            self.evaluator_root.as_str(),
            self.evaluator_runtime.as_str(),
            self.codex_toolchain_root.as_str(),
            self.capabilities.as_str(),
            self.schedule.as_str(),
            self.codex_binary.as_str(),
            self.codex_home.as_str(),
            self.artifact_root.as_str(),
            self.work_root.as_str(),
            self.verifier_replay_root.as_str(),
        ]
    }

    /// Validates normalized paths, concurrency, fixed egress, and signer separation.
    pub fn validate(&self) -> (r: Result<(), CandidateGateError>)
        ensures
            r is Ok <==> self.valid(),
    {
        let paths = self.paths();
        assert(str_views(paths@) =~= self.path_list());
        check_distinct_valid_paths(&paths)?;
        let replay = path_key_of(self.verifier_replay_root.as_str());
        let mut i: usize = 0;
        while i < paths.len()
            invariant
                i <= paths@.len(),
                paths@.len() == 16,
                forall|k: int| 0 <= k < 16 ==> #[trigger] paths@[k]@ == self.path_list()[k],
                replay.view_key() == path_key(self.verifier_replay_root@),
                distinct_valid_paths(self.path_list()),
                forall|k: int|
                    0 <= k < i ==> !same_path(#[trigger] self.path_list()[k], self.verifier_replay_root@)
                        ==> !paths_overlap(self.path_list()[k], self.verifier_replay_root@),
            decreases paths@.len() - i,
        {
            let key = path_key_of(paths[i]);
            if !keys_equal(&key, &replay) && keys_overlap(&key, &replay) {
                return Err(
                    CandidateGateError::new(
                        "candidate verifier replay root must not overlap runner-controlled inputs",
                    ),
                );
            }
            i += 1;
        }
        if self.jobs < 1 || self.jobs > MAX_RUN_JOBS {
            return Err(CandidateGateError::new("candidate jobs are outside the runner concurrency bound"));
        }
        if !is_valid_node_id(self.runner_signer_node_id.as_str()) || !is_valid_node_id(
            self.verifier_signer_node_id.as_str(),
        ) || text_eq(self.runner_signer_node_id.as_str(), self.verifier_signer_node_id.as_str()) {
            return Err(
                CandidateGateError::new(
                    "candidate runner and verifier signer identities are invalid or not distinct",
                ),
            );
        }
        if !text_eq(self.codex_egress_proxy.as_str(), CANDIDATE_CODEX_EGRESS_PROXY_ENDPOINT) {
            return Err(
                CandidateGateError::new(
                    "candidate Codex egress proxy does not match the fixed runner topology",
                ),
            );
        }
        Ok(())
    }
}

/// Checks that a list of paths are valid absolute paths and pairwise distinct.
fn check_distinct_valid_paths(paths: &Vec<&str>) -> (r: Result<(), CandidateGateError>)
    ensures
        r is Ok <==> distinct_valid_paths(str_views(paths@)),
{
    let ghost pv = str_views(paths@);
    let mut keys: Vec<PathKey> = Vec::new();
    let mut i: usize = 0;
    while i < paths.len()
        invariant
            i <= paths@.len(),
            pv == str_views(paths@),
            keys@.len() == i,
            forall|k: int| 0 <= k < i ==> #[trigger] keys@[k].view_key() == path_key(pv[k]),
            forall|k: int| 0 <= k < i ==> valid_absolute_path(#[trigger] pv[k]),
            forall|a: int, b: int| 0 <= a < b < i ==> !same_path(#[trigger] pv[a], #[trigger] pv[b]),
        decreases paths@.len() - i,
    {
        assert(pv[i as int] == paths@[i as int]@);
        if !is_valid_absolute_path(paths[i]) {
            return Err(
                CandidateGateError::new("candidate plan paths must be normalized absolute paths"),
            );
        }
        let key = path_key_of(paths[i]);
        let mut j: usize = 0;
        while j < i
            invariant
                j <= i < paths@.len(),
                keys@.len() == i,
                pv == str_views(paths@),
                key.view_key() == path_key(pv[i as int]),
                forall|k: int| 0 <= k < i ==> #[trigger] keys@[k].view_key() == path_key(pv[k]),
                forall|a: int| 0 <= a < j ==> !same_path(#[trigger] pv[a], pv[i as int]),
            decreases i - j,
        {
            if keys_equal(&keys[j], &key) {
                assert(same_path(pv[j as int], pv[i as int]));
                return Err(
                    CandidateGateError::new("candidate plan paths must be exact and distinct"),
                );
            }
            j += 1;
        }
        keys.push(key);
        i += 1;
    }
    Ok(())
}


// ---------------------------------------------------------------------------
// Execution units
// ---------------------------------------------------------------------------
/// Private binding from each contrast identity to exactly one controlled task per arm.
#[derive(Clone, Debug)]
pub struct CandidateContrastTaskBinding {
    /// Stable identifier for the paired contrast.
    pub contrast_id: String,
    /// Controlled task identifier for the reference arm.
    pub reference_task_id: String,
    /// Controlled task identifier for the challenge arm.
    pub challenge_task_id: String,
}

/// Four distinct create-once output paths for one execution unit.
#[derive(Clone, Debug)]
pub struct CandidateUnitOutputs {
    /// Canonical bundle of per-observation signed result packages.
    pub result_package_bundle: String,
    /// Canonical bundle of per-observation evaluator results.
    pub evaluator_result_bundle: String,
    /// Canonical bundle of per-observation independent replay proofs.
    pub verifier_replay_bundle: String,
    /// Canonical bundle of per-observation attempt records.
    pub attempt_log_bundle: String,
}

/// One of exactly twenty-one plan-bound execution units.
#[derive(Clone, Debug)]
pub struct CandidateExecutionUnit {
    /// Deterministic identifier for the execution unit.
    pub unit_id: String,
    /// Identifier for the repeat that owns the unit.
    pub repeat_id: String,
    /// Identifier for the scheduled slot within the repeat.
    pub slot_id: String,
    /// Kind of tasks executed by the unit.
    pub kind: CandidateExecutionUnitKind,
    /// Contrast identifier for a contrast unit.
    pub contrast_id: Option<String>,
    /// Scheduled arm for a contrast unit.
    pub contrast_arm: Option<CandidateContrastArm>,
    /// Bound task-variant digest for a contrast unit.
    pub variant_sha256: Option<String>,
    /// Ordered task identifiers executed by the unit.
    pub ordered_task_ids: Vec<String>,
    /// Ordered model configurations executed by the unit.
    pub models: Vec<CandidateResolvedModel>,
    /// Path to the corpus commitment used by the unit.
    pub corpus_commitment_path: String,
    /// SHA-256 digest of the unit corpus commitment.
    pub corpus_commitment_sha256: String,
    /// Path to the unit checkpoint.
    pub checkpoint_path: String,
    /// Path to the unit preflight record.
    pub preflight_path: String,
    /// Path to the unit attempt journal.
    pub attempt_journal_path: String,
    /// Create-once output paths for the unit.
    pub outputs: CandidateUnitOutputs,
}

/// What unit derivation reads of the plan or of its inputs.
#[derive(Clone, Debug)]
pub struct CandidateUnitDerivation {
    pub models: Vec<CandidateResolvedModel>,
    pub work_root: String,
    pub output_root: String,
    pub core_corpus_commitment_path: String,
    pub core_corpus_commitment_sha256: String,
    pub contrast_corpus_commitment_path: String,
    pub contrast_corpus_commitment_sha256: String,
}

/// The roots and corpus references that units are derived from.
pub ghost struct UnitRoots {
    pub work_root: Seq<char>,
    pub output_root: Seq<char>,
    pub core_path: Seq<char>,
    pub core_sha256: Seq<char>,
    pub contrast_path: Seq<char>,
    pub contrast_sha256: Seq<char>,
}

impl CandidateUnitDerivation {
    pub open spec fn roots(&self) -> UnitRoots {
        UnitRoots {
            work_root: self.work_root@,
            output_root: self.output_root@,
            core_path: self.core_corpus_commitment_path@,
            core_sha256: self.core_corpus_commitment_sha256@,
            contrast_path: self.contrast_corpus_commitment_path@,
            contrast_sha256: self.contrast_corpus_commitment_sha256@,
        }
    }
}

/// The seventeen resolved models, in matrix order.
pub open spec fn expected_models(m: Seq<CandidateResolvedModel>) -> bool {
    &&& m.len() == 17
    &&& forall|i: int| 0 <= i < 17 ==> resolved_model_is(#[trigger] m[i], i)
}

/// `n` as two decimal digits (`n < 100`).
pub open spec fn two_digits(n: int) -> Seq<char> {
    seq![(48 + n / 10) as char, (48 + n % 10) as char]
}

/// Identifier of the core unit of repeat `r`.
pub open spec fn core_unit_id(r: int) -> Seq<char> {
    "repeat-"@ + two_digits(r + 1) + "-core"@
}

/// Identifier of the unit for contrast `c` on `arm` in repeat `r`.
pub open spec fn contrast_unit_id(r: int, c: int, arm: CandidateContrastArm) -> Seq<char> {
    "repeat-"@ + two_digits(r + 1) + "-contrast-"@ + two_digits(c + 1) + "-"@ + arm_name(arm)
}

/// Identifier of unit `u`: each repeat runs its core unit, then its six
/// contrast arms in the signed counterbalanced order.
pub open spec fn unit_id_at(u: int) -> Seq<char> {
    let r = u / 7;
    let k = u % 7;
    if k == 0 {
        core_unit_id(r)
    } else {
        contrast_unit_id(r, (k - 1) / 2, scheduled_arm(r, k - 1))
    }
}

/// Work file of a unit under the work root.
pub open spec fn work_path(work_root: Seq<char>, unit_id: Seq<char>, kind: Seq<char>) -> Seq<char> {
    join_path(work_root, unit_id + "."@ + kind + ".json"@)
}

/// The four output files of a unit under the output root.
pub open spec fn outputs_match(o: CandidateUnitOutputs, root: Seq<char>, unit_id: Seq<char>) -> bool {
    &&& same_path(o.result_package_bundle@, join_path(root, unit_id + ".result-packages.json"@))
    &&& same_path(o.evaluator_result_bundle@, join_path(root, unit_id + ".evaluator-results.json"@))
    &&& same_path(o.verifier_replay_bundle@, join_path(root, unit_id + ".verifier-replays.json"@))
    &&& same_path(o.attempt_log_bundle@, join_path(root, unit_id + ".attempt-log.json"@))
}

/// The fields every unit `u` shares: identifiers, repeat and slot, the
/// seventeen models, work files and outputs.
pub open spec fn unit_common_matches(
    unit: CandidateExecutionUnit,
    u: int,
    a: ReleaseGateAdmissionV1,
    d: UnitRoots,
) -> bool {
    let rep = a.repeat_schedule@[u / 7];
    let uid = unit_id_at(u);
    &&& unit.unit_id@ == uid
    &&& unit.repeat_id@ == rep.repeat_id@
    &&& unit.slot_id@ == rep.scheduled_at@
    &&& expected_models(unit.models@)
    &&& same_path(unit.checkpoint_path@, work_path(d.work_root, uid, "checkpoint"@))
    &&& same_path(unit.preflight_path@, work_path(d.work_root, uid, "preflight"@))
    &&& same_path(unit.attempt_journal_path@, work_path(d.work_root, uid, "attempt-journal"@))
    &&& outputs_match(unit.outputs, d.output_root, uid)
}

/// The kind-specific fields of unit `u`: the core unit runs every core task
/// on the core corpus; a contrast unit runs one contrast arm's task on the
/// contrast corpus, bound to its signed variant digest.
pub open spec fn unit_kind_matches(
    unit: CandidateExecutionUnit,
    u: int,
    a: ReleaseGateAdmissionV1,
    d: UnitRoots,
    core_task_ids: Seq<Seq<char>>,
) -> bool {
    let r = u / 7;
    let k = u % 7;
    if k == 0 {
        &&& unit.kind == CandidateExecutionUnitKind::Core
        &&& unit.contrast_id is None
        &&& unit.contrast_arm is None
        &&& unit.variant_sha256 is None
        &&& unit.ordered_task_ids.deep_view() == core_task_ids
        &&& same_path(unit.corpus_commitment_path@, d.core_path)
        &&& unit.corpus_commitment_sha256@ == d.core_sha256
    } else {
        let c = (k - 1) / 2;
        let arm = scheduled_arm(r, k - 1);
        let binding = a.contrast_bindings@[c];
        &&& unit.kind == CandidateExecutionUnitKind::Contrast
        &&& unit.contrast_id is Some
        &&& unit.contrast_id->0@ == contrast_id(c)
        &&& unit.contrast_arm == Some(arm)
        &&& unit.variant_sha256 is Some
        &&& unit.variant_sha256->0@ == match arm {
            CandidateContrastArm::Reference => binding.reference_variant_digest@,
            CandidateContrastArm::Challenge => binding.challenge_variant_digest@,
        }
        &&& unit.ordered_task_ids.deep_view() == seq![contrast_task_id(c, arm)]
        &&& same_path(unit.corpus_commitment_path@, d.contrast_path)
        &&& unit.corpus_commitment_sha256@ == d.contrast_sha256
    }
}

/// Unit `u` of the plan derived from a valid admission: repeat `u / 7`, its
/// core unit first and then one unit per scheduled contrast arm.
pub open spec fn unit_matches(
    unit: CandidateExecutionUnit,
    u: int,
    a: ReleaseGateAdmissionV1,
    d: UnitRoots,
    core_task_ids: Seq<Seq<char>>,
) -> bool {
    unit_common_matches(unit, u, a, d) && unit_kind_matches(unit, u, a, d, core_task_ids)
}

/// The units are exactly the twenty-one derived units.
pub open spec fn units_match(
    units: Seq<CandidateExecutionUnit>,
    a: ReleaseGateAdmissionV1,
    d: UnitRoots,
    core_task_ids: Seq<Seq<char>>,
) -> bool {
    &&& units.len() == 21
    &&& forall|u: int| 0 <= u < 21 ==> unit_matches(#[trigger] units[u], u, a, d, core_task_ids)
}

fn digit_char(d: usize) -> (c: char)
    requires
        d < 10,
    ensures
        c == (48 + d) as char,
{
    if d == 0 {
        '0'
    } else if d == 1 {
        '1'
    } else if d == 2 {
        '2'
    } else if d == 3 {
        '3'
    } else if d == 4 {
        '4'
    } else if d == 5 {
        '5'
    } else if d == 6 {
        '6'
    } else if d == 7 {
        '7'
    } else if d == 8 {
        '8'
    } else {
        '9'
    }
}

fn push_two_digits(s: &mut String, n: usize)
    requires
        n < 100,
    ensures
        final(s)@ == old(s)@ + two_digits(n as int),
{
    crate::text::push_char(s, digit_char(n / 10));
    crate::text::push_char(s, digit_char(n % 10));
    assert(final(s)@ =~= old(s)@ + two_digits(n as int));
}

/// Identifier of the unit at repeat `r`, position `k` within the repeat.
fn unit_id_string(r: usize, k: usize) -> (s: String)
    requires
        r < 3,
        k < 7,
    ensures
        s@ == unit_id_at(r * 7 + k),
{
    assert((r * 7 + k) / 7 == r && (r * 7 + k) % 7 == k) by (nonlinear_arith)
        requires
            k < 7,
    ;
    let mut s = String::from_str("repeat-");
    push_two_digits(&mut s, r + 1);
    if k == 0 {
        s.append("-core");
    } else {
        s.append("-contrast-");
        push_two_digits(&mut s, (k - 1) / 2 + 1);
        s.append("-");
        s.append(arm_str(scheduled_arm_of(r, k - 1)));
    }
    s
}

fn work_path_string(work_root: &str, unit_id: &str, kind: &str) -> (p: String)
    ensures
        p@ == work_path(work_root@, unit_id@, kind@),
{
    let mut name = unit_id.to_owned();
    name.append(".");
    name.append(kind);
    name.append(".json");
    join(work_root, name.as_str())
}

fn output_file(root: &str, unit_id: &str, suffix: &str) -> (p: String)
    ensures
        p@ == join_path(root@, unit_id@ + suffix@),
{
    let mut name = unit_id.to_owned();
    name.append(suffix);
    join(root, name.as_str())
}

/// The four derived output files of a unit.
pub fn derived_unit_outputs(output_root: &str, unit_id: &str) -> (o: CandidateUnitOutputs)
    ensures
        o.result_package_bundle@ == join_path(output_root@, unit_id@ + ".result-packages.json"@),
        o.evaluator_result_bundle@ == join_path(output_root@, unit_id@ + ".evaluator-results.json"@),
        o.verifier_replay_bundle@ == join_path(output_root@, unit_id@ + ".verifier-replays.json"@),
        o.attempt_log_bundle@ == join_path(output_root@, unit_id@ + ".attempt-log.json"@),
{
    CandidateUnitOutputs {
        result_package_bundle: output_file(output_root, unit_id, ".result-packages.json"),
        evaluator_result_bundle: output_file(output_root, unit_id, ".evaluator-results.json"),
        verifier_replay_bundle: output_file(output_root, unit_id, ".verifier-replays.json"),
        attempt_log_bundle: output_file(output_root, unit_id, ".attempt-log.json"),
    }
}

fn clone_models(m: &Vec<CandidateResolvedModel>) -> (r: Vec<CandidateResolvedModel>)
    requires
        expected_models(m@),
    ensures
        expected_models(r@),
{
    let mut r: Vec<CandidateResolvedModel> = Vec::new();
    let mut i: usize = 0;
    while i < m.len()
        invariant
            i <= m@.len(),
            m@.len() == 17,
            expected_models(m@),
            r@.len() == i,
            forall|k: int| 0 <= k < i ==> resolved_model_is(#[trigger] r@[k], k),
        decreases m@.len() - i,
    {
        let x = &m[i];
        assert(resolved_model_is(m@[i as int], i as int));
        r.push(
            CandidateResolvedModel {
                canonical_model_id: x.canonical_model_id.clone(),
                execution_model_id: x.execution_model_id.clone(),
                model_name: x.model_name.clone(),
                reasoning_effort: x.reasoning_effort.clone(),
            },
        );
        i += 1;
    }
    r
}

proof fn lemma_same_path_refl(p: Seq<char>)
    ensures
        same_path(p, p),
{
}

/// Builds unit `r * 7 + k` of the plan.
fn derive_unit(
    admission: &ReleaseGateAdmissionV1,
    d: &CandidateUnitDerivation,
    core_tasks: &Vec<String>,
    r: usize,
    k: usize,
) -> (unit: CandidateExecutionUnit)
    requires
        r < 3,
        k < 7,
        admission.repeat_schedule@.len() == 3,
        admission.contrast_bindings@.len() == 3,
        expected_models(d.models@),
    ensures
        unit_matches(unit, r * 7 + k, *admission, d.roots(), core_tasks.deep_view()),
{
    assert((r * 7 + k) / 7 == r && (r * 7 + k) % 7 == k) by (nonlinear_arith)
        requires
            k < 7,
    ;
    let repeat = &admission.repeat_schedule[r];
    let unit_id = unit_id_string(r, k);
    let checkpoint_path = work_path_string(d.work_root.as_str(), unit_id.as_str(), "checkpoint");
    let preflight_path = work_path_string(d.work_root.as_str(), unit_id.as_str(), "preflight");
    let attempt_journal_path = work_path_string(
        d.work_root.as_str(),
        unit_id.as_str(),
        "attempt-journal",
    );
    let outputs = derived_unit_outputs(d.output_root.as_str(), unit_id.as_str());
    proof {
        lemma_same_path_refl(checkpoint_path@);
        lemma_same_path_refl(preflight_path@);
        lemma_same_path_refl(attempt_journal_path@);
        lemma_same_path_refl(outputs.result_package_bundle@);
        lemma_same_path_refl(outputs.evaluator_result_bundle@);
        lemma_same_path_refl(outputs.verifier_replay_bundle@);
        lemma_same_path_refl(outputs.attempt_log_bundle@);
        lemma_same_path_refl(d.core_corpus_commitment_path@);
        lemma_same_path_refl(d.contrast_corpus_commitment_path@);
    }
    if k == 0 {
        CandidateExecutionUnit {
            unit_id,
            repeat_id: repeat.repeat_id.clone(),
            slot_id: repeat.scheduled_at.clone(),
            kind: CandidateExecutionUnitKind::Core,
            contrast_id: None,
            contrast_arm: None,
            variant_sha256: None,
            ordered_task_ids: clone_strings(core_tasks),
            models: clone_models(&d.models),
            corpus_commitment_path: d.core_corpus_commitment_path.clone(),
            corpus_commitment_sha256: d.core_corpus_commitment_sha256.clone(),
            checkpoint_path,
            preflight_path,
            attempt_journal_path,
            outputs,
        }
    } else {
        let c = (k - 1) / 2;
        let arm = scheduled_arm_of(r, k - 1);
        let binding = &admission.contrast_bindings[c];
        let variant = match arm {
            CandidateContrastArm::Reference => binding.reference_variant_digest.clone(),
            CandidateContrastArm::Challenge => binding.challenge_variant_digest.clone(),
        };
        let task = contrast_task_id_string(c, arm);
        let ghost tv = task@;
        let tasks = vec![task];
        assert(tasks.deep_view() =~= seq![tv]);
        CandidateExecutionUnit {
            unit_id,
            repeat_id: repeat.repeat_id.clone(),
            slot_id: repeat.scheduled_at.clone(),
            kind: CandidateExecutionUnitKind::Contrast,
            contrast_id: Some(contrast_id_str(c).to_owned()),
            contrast_arm: Some(arm),
            variant_sha256: Some(variant),
            ordered_task_ids: tasks,
            models: clone_models(&d.models),
            corpus_commitment_path: d.contrast_corpus_commitment_path.clone(),
            corpus_commitment_sha256: d.contrast_corpus_commitment_sha256.clone(),
            checkpoint_path,
            preflight_path,
            attempt_journal_path,
            outputs,
        }
    }
}

/// Builds the twenty-one units derived from an admission with three signed
/// repeats and three contrast bindings, under the seventeen resolved models;
/// any other admission or model list is refused.
pub fn build_candidate_execution_units(
    admission: &ReleaseGateAdmissionV1,
    d: &CandidateUnitDerivation,
    core_tasks: &Vec<String>,
) -> (r: Result<Vec<CandidateExecutionUnit>, CandidateGateError>)
    ensures
        match r {
            Ok(units) => admission.repeat_schedule@.len() == 3 && admission.contrast_bindings@.len() == 3
                && expected_models(d.models@) && units_match(
                units@,
                *admission,
                d.roots(),
                core_tasks.deep_view(),
            ),
            Err(_) => admission.repeat_schedule@.len() != 3 || admission.contrast_bindings@.len() != 3
                || !expected_models(d.models@),
        },
{
    if admission.repeat_schedule.len() != 3 {
        return Err(CandidateGateError::new("release-gate admission must contain exactly three repeats"));
    }
    if admission.contrast_bindings.len() != 3 {
        return Err(CandidateGateError::new("candidate signed contrast digest binding is missing"));
    }
    if !models_are_expected(&d.models) {
        return Err(CandidateGateError::new("candidate model matrix is not the resolved model matrix"));
    }
    let mut units: Vec<CandidateExecutionUnit> = Vec::new();
    let mut r: usize = 0;
    while r < 3
        invariant
            r <= 3,
            admission.repeat_schedule@.len() == 3,
            admission.contrast_bindings@.len() == 3,
            expected_models(d.models@),
            units@.len() == r * 7,
            forall|u: int|
                0 <= u < r * 7 ==> unit_matches(#[trigger] units@[u], u, *admission, d.roots(), core_tasks.deep_view()),
        decreases 3 - r,
    {
        let mut k: usize = 0;
        while k < 7
            invariant
                r < 3,
                k <= 7,
                admission.repeat_schedule@.len() == 3,
                admission.contrast_bindings@.len() == 3,
                expected_models(d.models@),
                units@.len() == r * 7 + k,
                forall|u: int|
                    0 <= u < r * 7 + k ==> unit_matches(
                        #[trigger] units@[u],
                        u,
                        *admission,
                        d.roots(),
                        core_tasks.deep_view(),
                    ),
            decreases 7 - k,
        {
            let unit = derive_unit(admission, d, core_tasks, r, k);
            units.push(unit);
            k += 1;
        }
        r += 1;
    }
    Ok(units)
}


// ---------------------------------------------------------------------------
// The plan
// ---------------------------------------------------------------------------
/// Separate final aggregate outputs. They cannot alias any unit output.
#[derive(Clone, Debug)]
pub struct CandidateAggregateOutputs {
    /// Path to the aggregate source observations.
    pub source_observations: String,
    /// Path to the aggregate release-gate evidence.
    pub release_gate_evidence: String,
}

/// Pinned inputs for deterministic private-plan construction. There are no
/// task or model selectors: everything else is derived from the admission.
#[derive(Clone, Debug)]
pub struct CandidatePlanInputs {
    /// Path to the canonical signed admission.
    pub signed_admission_path: String,
    /// SHA-256 digest of the complete signed admission.
    pub signed_admission_sha256: String,
    /// Pinned key identifier for the admission signer.
    pub signed_admission_key_id: String,
    /// Canonical public release trust-policy path.
    pub release_trust_policy_path: String,
    /// Protected digest of the canonical release trust policy.
    pub release_trust_policy_sha256: String,
    /// Path to the public-safe corpus manifest.
    pub corpus_manifest_path: String,
    /// SHA-256 digest of the corpus manifest.
    pub corpus_manifest_sha256: String,
    /// Path to the private core corpus commitment.
    pub core_corpus_commitment_path: String,
    /// SHA-256 digest of the core corpus commitment.
    pub core_corpus_commitment_sha256: String,
    /// Path to the private contrast corpus commitment.
    pub contrast_corpus_commitment_path: String,
    /// SHA-256 digest of the contrast corpus commitment.
    pub contrast_corpus_commitment_sha256: String,
    /// Create-once path for the private authorization.
    pub authorization_path: String,
    /// Digests for the selected runner and evaluator runtime.
    pub runtime: CandidateRuntimeBindings,
    /// Controlled model-capable input paths and settings.
    pub controlled_inputs: CandidateControlledInputs,
    /// Root directory for all create-once outputs.
    pub output_root: String,
}

/// Exact private plan signed by a distinct execution authorization.
#[derive(Clone, Debug)]
pub struct CandidateExecutionPlan {
    /// Schema identifier for the private execution plan.
    pub schema_version: String,
    /// Fixed purpose of the private execution plan.
    pub purpose: String,
    /// Candidate release identity bound by the plan.
    pub release_identity: String,
    /// Digest of the exact candidate catalog release identity.
    pub catalog_release_identity_digest: String,
    /// Digest of the ordered public task metadata identity.
    pub task_metadata_identity_digest: String,
    /// Digest that identifies the execution plan in the admission.
    pub execution_plan_digest: String,
    /// Digest of the canonical-to-execution model mapping.
    pub model_id_mapping_digest: String,
    /// Path to the canonical signed admission.
    pub signed_admission_path: String,
    /// SHA-256 digest of the complete signed admission.
    pub signed_admission_sha256: String,
    /// Pinned key identifier for the admission signer.
    pub signed_admission_key_id: String,
    /// Canonical public release trust-policy path.
    pub release_trust_policy_path: String,
    /// Protected digest of the canonical release trust policy.
    pub release_trust_policy_sha256: String,
    /// Path to the public-safe corpus manifest.
    pub corpus_manifest_path: String,
    /// SHA-256 digest of the corpus manifest.
    pub corpus_manifest_sha256: String,
    /// Path to the private core corpus commitment.
    pub core_corpus_commitment_path: String,
    /// SHA-256 digest of the core corpus commitment.
    pub core_corpus_commitment_sha256: String,
    /// Path to the private contrast corpus commitment.
    pub contrast_corpus_commitment_path: String,
    /// SHA-256 digest of the contrast corpus commitment.
    pub contrast_corpus_commitment_sha256: String,
    /// Create-once path for the private authorization.
    pub authorization_path: String,
    /// Digests for the selected runner and evaluator runtime.
    pub runtime: CandidateRuntimeBindings,
    /// Controlled model-capable input paths and settings.
    pub controlled_inputs: CandidateControlledInputs,
    /// Root directory for all create-once outputs.
    pub output_root: String,
    /// Private task bindings for all paired contrasts.
    pub contrast_task_bindings: Vec<CandidateContrastTaskBinding>,
    /// Complete ordered set of plan-bound execution units.
    pub execution_units: Vec<CandidateExecutionUnit>,
    /// Separate final aggregate output paths.
    pub aggregate_outputs: CandidateAggregateOutputs,
    /// Permanent non-release classification for all output.
    pub classification: CandidateClassification,
}

/// The four keyed outputs of a unit.
pub open spec fn unit_keyed_outputs(unit: CandidateExecutionUnit) -> Seq<(Seq<char>, Seq<char>)> {
    let id = unit.unit_id@;
    let o = unit.outputs;
    seq![
        (id + "/result_package_bundle"@, o.result_package_bundle@),
        (id + "/evaluator_result_bundle"@, o.evaluator_result_bundle@),
        (id + "/verifier_replay_bundle"@, o.verifier_replay_bundle@),
        (id + "/attempt_log_bundle"@, o.attempt_log_bundle@),
    ]
}

/// Keyed outputs of the first `n` units.
pub open spec fn units_keyed_outputs(units: Seq<CandidateExecutionUnit>, n: int) -> Seq<
    (Seq<char>, Seq<char>),
>
    decreases n,
{
    if n <= 0 {
        Seq::empty()
    } else {
        units_keyed_outputs(units, n - 1) + unit_keyed_outputs(units[n - 1])
    }
}

/// Work files of the first `n` units: checkpoint, preflight and attempt journal of each.
pub open spec fn units_work_paths(units: Seq<CandidateExecutionUnit>, n: int) -> Seq<Seq<char>>
    decreases n,
{
    if n <= 0 {
        Seq::empty()
    } else {
        units_work_paths(units, n - 1) + seq![
            units[n - 1].checkpoint_path@,
            units[n - 1].preflight_path@,
            units[n - 1].attempt_journal_path@,
        ]
    }
}

/// Observations of the first `n` units: tasks times models of each.
pub open spec fn observation_sum(units: Seq<CandidateExecutionUnit>, n: int) -> int
    decreases n,
{
    if n <= 0 {
        0
    } else {
        observation_sum(units, n - 1) + units[n - 1].ordered_task_ids@.len()
            * units[n - 1].models@.len()
    }
}

impl CandidateExecutionPlan {
    /// The ordered unit outputs, then the two aggregates.
    pub open spec fn output_list(&self) -> Seq<(Seq<char>, Seq<char>)> {
        units_keyed_outputs(self.execution_units@, self.execution_units@.len() as int) + seq![
            ("aggregate/source_observations"@, self.aggregate_outputs.source_observations@),
            ("aggregate/release_gate_evidence"@, self.aggregate_outputs.release_gate_evidence@),
        ]
    }

    /// Every path the plan names: signed inputs, controlled inputs, output
    /// root, authorization, outputs and unit work files.
    pub open spec fn all_paths(&self) -> Seq<Seq<char>> {
        seq![
            self.signed_admission_path@,
            self.corpus_manifest_path@,
            self.core_corpus_commitment_path@,
            self.contrast_corpus_commitment_path@,
        ] + self.controlled_inputs.path_list() + seq![self.output_root@, self.authorization_path@]
            + seconds(self.output_list()) + units_work_paths(
            self.execution_units@,
            self.execution_units@.len() as int,
        )
    }

    /// The roots and corpus references units are derived from.
    pub open spec fn roots(&self) -> UnitRoots {
        UnitRoots {
            work_root: self.controlled_inputs.work_root@,
            output_root: self.output_root@,
            core_path: self.core_corpus_commitment_path@,
            core_sha256: self.core_corpus_commitment_sha256@,
            contrast_path: self.contrast_corpus_commitment_path@,
            contrast_sha256: self.contrast_corpus_commitment_sha256@,
        }
    }

    /// The six digests of the plan, in field order.
    pub open spec fn digests(&self) -> Seq<Seq<char>> {
        seq![
            self.execution_plan_digest@,
            self.signed_admission_sha256@,
            self.release_trust_policy_sha256@,
            self.corpus_manifest_sha256@,
            self.core_corpus_commitment_sha256@,
            self.contrast_corpus_commitment_sha256@,
        ]
    }

    /// The plan names the admission: fixed identities, the admission's plan
    /// and corpus digests, and the admission's canonical digest.
    pub open spec fn header_ok(&self, a: ReleaseGateAdmissionV1) -> bool {
        &&& self.schema_version@ == CANDIDATE_EXECUTION_PLAN_SCHEMA@
        &&& self.purpose@ == CANDIDATE_PLAN_PURPOSE@
        &&& self.release_identity@ == RELEASE_IDENTITY@
        &&& self.catalog_release_identity_digest@ == CANDIDATE_CATALOG_RELEASE_IDENTITY_SHA256@
        &&& self.task_metadata_identity_digest@ == CANDIDATE_TASK_IDENTITY_SHA256@
        &&& self.execution_plan_digest@ == a.execution_plan_digest@
        &&& self.model_id_mapping_digest@ == CANDIDATE_MODEL_ID_MAPPING_SHA256@
        &&& canonical_digest(a.tree()) == Some(self.signed_admission_sha256@)
        &&& self.corpus_manifest_sha256@ == a.corpus_commitment_digest@
    }

    /// The three fixed contrast task bindings, none naming a core task.
    pub open spec fn contrast_bindings_ok(&self, core_task_ids: Seq<Seq<char>>) -> bool {
        let b = self.contrast_task_bindings@;
        &&& b.len() == 3
        &&& forall|c: int|
            0 <= c < 3 ==> {
                &&& (#[trigger] b[c]).contrast_id@ == contrast_id(c)
                &&& b[c].reference_task_id@ == contrast_task_id(c, CandidateContrastArm::Reference)
                &&& b[c].challenge_task_id@ == contrast_task_id(c, CandidateContrastArm::Challenge)
                &&& valid_identifier(b[c].reference_task_id@)
                &&& valid_identifier(b[c].challenge_task_id@)
                &&& !core_task_ids.contains(b[c].reference_task_id@)
                &&& !core_task_ids.contains(b[c].challenge_task_id@)
            }
        &&& forall|k: int, l: int|
            0 <= k < l < 6 ==> #[trigger] binding_task(b, k) != #[trigger] binding_task(b, l)
    }

    /// Plan paths are normalized, pairwise distinct and isolated from the
    /// verifier replay root, and output keys are distinct.
    pub open spec fn paths_ok(&self) -> bool {
        let outputs = self.output_list();
        &&& distinct_valid_paths(self.all_paths())
        &&& isolated_from(self.all_paths(), self.controlled_inputs.verifier_replay_root@)
        &&& forall|i: int, j: int|
            0 <= i < j < outputs.len() ==> (#[trigger] outputs[i]).0 != (#[trigger] outputs[j]).0
    }

    /// The complete plan is exactly the one derived from the admission.
    pub open spec fn valid(&self, a: ReleaseGateAdmissionV1, core_task_ids: Seq<Seq<char>>) -> bool {
        let units = self.execution_units@;
        &&& a.valid(self.signed_admission_key_id@, core_task_ids)
        &&& self.header_ok(a)
        &&& forall|i: int| 0 <= i < 6 ==> valid_digest(#[trigger] self.digests()[i])
        &&& self.core_corpus_commitment_sha256@ != self.contrast_corpus_commitment_sha256@
        &&& self.runtime.valid()
        &&& valid_absolute_path(self.release_trust_policy_path@)
        &&& self.controlled_inputs.valid()
        &&& valid_absolute_path(self.output_root@)
        &&& is_candidate_classification(self.classification)
        &&& self.contrast_bindings_ok(core_task_ids)
        &&& units_match(units, a, self.roots(), core_task_ids)
        &&& forall|u: int| 0 <= u < 21 ==> valid_identifier(#[trigger] units[u].unit_id@)
        &&& forall|u: int, v: int|
            0 <= u < v < 21 ==> (#[trigger] units[u]).unit_id@ != (#[trigger] units[v]).unit_id@
        &&& observation_sum(units, 21) == CANDIDATE_TOTAL_OBSERVATION_COUNT
        &&& same_path(
            self.aggregate_outputs.source_observations@,
            join_path(self.output_root@, "aggregate-source-observations.json"@),
        )
        &&& same_path(
            self.aggregate_outputs.release_gate_evidence@,
            join_path(self.output_root@, "aggregate-release-gate-evidence.json"@),
        )
        &&& self.paths_ok()
    }
}

/// Task of binding slot `k`: reference then challenge, per contrast.
pub open spec fn binding_task(b: Seq<CandidateContrastTaskBinding>, k: int) -> Seq<char> {
    if k % 2 == 0 {
        b[k / 2].reference_task_id@
    } else {
        b[k / 2].challenge_task_id@
    }
}


// ---------------------------------------------------------------------------
// Plan checks
// ---------------------------------------------------------------------------
/// Whether the models are the seventeen resolved models in matrix order.
fn models_are_expected(m: &Vec<CandidateResolvedModel>) -> (r: bool)
    ensures
        r == expected_models(m@),
{
    if m.len() != 17 {
        return false;
    }
    let mut i: usize = 0;
    while i < 17
        invariant
            i <= 17,
            m@.len() == 17,
            forall|k: int| 0 <= k < i ==> resolved_model_is(#[trigger] m@[k], k),
        decreases 17 - i,
    {
        let id = model_identity(i);
        let x = &m[i];
        if !text_eq(x.canonical_model_id.as_str(), id.canonical_model_id.as_str()) || !text_eq(
            x.execution_model_id.as_str(),
            id.execution_model_id.as_str(),
        ) || !text_eq(x.model_name.as_str(), id.model_name.as_str()) || !text_eq(
            x.reasoning_effort.as_str(),
            id.reasoning_effort.as_str(),
        ) {
            assert(!resolved_model_is(m@[i as int], i as int));
            return false;
        }
        i += 1;
    }
    true
}

/// The fixed private contrast task bindings.
pub fn fixed_contrast_task_bindings() -> (b: Vec<CandidateContrastTaskBinding>)
    ensures
        b@.len() == 3,
        forall|c: int|
            0 <= c < 3 ==> (#[trigger] b@[c]).contrast_id@ == contrast_id(c)
                && b@[c].reference_task_id@ == contrast_task_id(c, CandidateContrastArm::Reference)
                && b@[c].challenge_task_id@ == contrast_task_id(c, CandidateContrastArm::Challenge),
{
    let mut b: Vec<CandidateContrastTaskBinding> = Vec::new();
    let mut c: usize = 0;
    while c < 3
        invariant
            c <= 3,
            b@.len() == c,
            forall|k: int|
                0 <= k < c ==> (#[trigger] b@[k]).contrast_id@ == contrast_id(k)
                    && b@[k].reference_task_id@ == contrast_task_id(
                    k,
                    CandidateContrastArm::Reference,
                ) && b@[k].challenge_task_id@ == contrast_task_id(k, CandidateContrastArm::Challenge),
        decreases 3 - c,
    {
        b.push(
            CandidateContrastTaskBinding {
                contrast_id: contrast_id_str(c).to_owned(),
                reference_task_id: contrast_task_id_string(c, CandidateContrastArm::Reference),
                challenge_task_id: contrast_task_id_string(c, CandidateContrastArm::Challenge),
            },
        );
        c += 1;
    }
    b
}

fn binding_task_str(b: &Vec<CandidateContrastTaskBinding>, k: usize) -> (r: &str)
    requires
        k < 2 * b@.len(),
    ensures
        r@ == binding_task(b@, k as int),
{
    if k % 2 == 0 {
        b[k / 2].reference_task_id.as_str()
    } else {
        b[k / 2].challenge_task_id.as_str()
    }
}

fn catalog_contains(ids: &Vec<String>, id: &str) -> (r: bool)
    ensures
        r == ids.deep_view().contains(id@),
{
    let mut i: usize = 0;
    while i < ids.len()
        invariant
            i <= ids@.len(),
            forall|k: int| 0 <= k < i ==> ids.deep_view()[k] != id@,
        decreases ids@.len() - i,
    {
        assert(ids.deep_view()[i as int] == ids@[i as int]@);
        if text_eq(ids[i].as_str(), id) {
            assert(ids.deep_view()[i as int] == id@);
            return true;
        }
        i += 1;
    }
    false
}

fn unit_common_ok(
    unit: &CandidateExecutionUnit,
    r: usize,
    k: usize,
    admission: &ReleaseGateAdmissionV1,
    d: &CandidateUnitDerivation,
) -> (ok: bool)
    requires
        r < 3,
        k < 7,
        admission.repeat_schedule@.len() == 3,
    ensures
        ok == unit_common_matches(*unit, r * 7 + k, *admission, d.roots()),
{
    assert((r * 7 + k) / 7 == r && (r * 7 + k) % 7 == k) by (nonlinear_arith)
        requires
            k < 7,
    ;
    let repeat = &admission.repeat_schedule[r];
    let uid = unit_id_string(r, k);
    let checkpoint = work_path_string(d.work_root.as_str(), uid.as_str(), "checkpoint");
    let preflight = work_path_string(d.work_root.as_str(), uid.as_str(), "preflight");
    let journal = work_path_string(d.work_root.as_str(), uid.as_str(), "attempt-journal");
    let outputs = derived_unit_outputs(d.output_root.as_str(), uid.as_str());
    let ids = text_eq(unit.unit_id.as_str(), uid.as_str()) && text_eq(
        unit.repeat_id.as_str(),
        repeat.repeat_id.as_str(),
    ) && text_eq(unit.slot_id.as_str(), repeat.scheduled_at.as_str());
    let models = models_are_expected(&unit.models);
    let work = is_same_path(unit.checkpoint_path.as_str(), checkpoint.as_str()) && is_same_path(
        unit.preflight_path.as_str(),
        preflight.as_str(),
    ) && is_same_path(unit.attempt_journal_path.as_str(), journal.as_str());
    let outs = is_same_path(
        unit.outputs.result_package_bundle.as_str(),
        outputs.result_package_bundle.as_str(),
    ) && is_same_path(
        unit.outputs.evaluator_result_bundle.as_str(),
        outputs.evaluator_result_bundle.as_str(),
    ) && is_same_path(
        unit.outputs.verifier_replay_bundle.as_str(),
        outputs.verifier_replay_bundle.as_str(),
    ) && is_same_path(unit.outputs.attempt_log_bundle.as_str(), outputs.attempt_log_bundle.as_str());
    ids && models && work && outs
}

#[verifier::rlimit(40)]
fn unit_kind_ok(
    unit: &CandidateExecutionUnit,
    r: usize,
    k: usize,
    admission: &ReleaseGateAdmissionV1,
    d: &CandidateUnitDerivation,
    core_tasks: &Vec<String>,
) -> (ok: bool)
    requires
        r < 3,
        k < 7,
        admission.contrast_bindings@.len() == 3,
    ensures
        ok == unit_kind_matches(*unit, r * 7 + k, *admission, d.roots(), core_tasks.deep_view()),
{
    assert((r * 7 + k) / 7 == r && (r * 7 + k) % 7 == k) by (nonlinear_arith)
        requires
            k < 7,
    ;
    if k == 0 {
        let kind_ok = unit.kind == CandidateExecutionUnitKind::Core;
        let none_ok = unit.contrast_id.is_none() && unit.contrast_arm.is_none()
            && unit.variant_sha256.is_none();
        let tasks_ok = strings_eq(&unit.ordered_task_ids, core_tasks);
        let corpus_ok = is_same_path(
            unit.corpus_commitment_path.as_str(),
            d.core_corpus_commitment_path.as_str(),
        ) && text_eq(
            unit.corpus_commitment_sha256.as_str(),
            d.core_corpus_commitment_sha256.as_str(),
        );
        assert(kind_ok == (unit.kind == CandidateExecutionUnitKind::Core));
        assert(none_ok == (unit.contrast_id is None && unit.contrast_arm is None && unit.variant_sha256 is None));
        kind_ok && none_ok && tasks_ok && corpus_ok
    } else {
        let c = (k - 1) / 2;
        let arm = scheduled_arm_of(r, k - 1);
        let binding = &admission.contrast_bindings[c];
        let variant = match arm {
            CandidateContrastArm::Reference => binding.reference_variant_digest.as_str(),
            CandidateContrastArm::Challenge => binding.challenge_variant_digest.as_str(),
        };
        let id_ok = match &unit.contrast_id {
            Some(id) => text_eq(id.as_str(), contrast_id_str(c)),
            None => false,
        };
        let arm_ok = match unit.contrast_arm {
            Some(a) => a == arm,
            None => false,
        };
        let variant_ok = match &unit.variant_sha256 {
            Some(v) => text_eq(v.as_str(), variant),
            None => false,
        };
        let task = contrast_task_id_string(c, arm);
        let tasks_ok = unit.ordered_task_ids.len() == 1 && text_eq(
            unit.ordered_task_ids[0].as_str(),
            task.as_str(),
        );
        proof {
            if tasks_ok {
                assert(unit.ordered_task_ids.deep_view() =~= seq![task@]);
            } else if unit.ordered_task_ids@.len() == 1 {
                assert(unit.ordered_task_ids.deep_view()[0] != task@);
            }
        }
        let corpus_ok = is_same_path(
            unit.corpus_commitment_path.as_str(),
            d.contrast_corpus_commitment_path.as_str(),
        ) && text_eq(
            unit.corpus_commitment_sha256.as_str(),
            d.contrast_corpus_commitment_sha256.as_str(),
        );
        unit.kind == CandidateExecutionUnitKind::Contrast && id_ok && arm_ok && variant_ok
            && tasks_ok && corpus_ok
    }
}

/// Whether unit `r * 7 + k` is the derived one.
fn unit_is_derived(
    unit: &CandidateExecutionUnit,
    r: usize,
    k: usize,
    admission: &ReleaseGateAdmissionV1,
    d: &CandidateUnitDerivation,
    core_tasks: &Vec<String>,
) -> (ok: bool)
    requires
        r < 3,
        k < 7,
        admission.repeat_schedule@.len() == 3,
        admission.contrast_bindings@.len() == 3,
    ensures
        ok == unit_matches(*unit, r * 7 + k, *admission, d.roots(), core_tasks.deep_view()),
{
    unit_common_ok(unit, r, k, admission, d) && unit_kind_ok(unit, r, k, admission, d, core_tasks)
}

impl CandidateUnitDerivation {
    /// Derivation context from the plan inputs.
    pub fn from_inputs(inputs: &CandidatePlanInputs, models: Vec<CandidateResolvedModel>) -> (d: Self)
        ensures
            d.models == models,
            d.roots() == (UnitRoots {
                work_root: inputs.controlled_inputs.work_root@,
                output_root: inputs.output_root@,
                core_path: inputs.core_corpus_commitment_path@,
                core_sha256: inputs.core_corpus_commitment_sha256@,
                contrast_path: inputs.contrast_corpus_commitment_path@,
                contrast_sha256: inputs.contrast_corpus_commitment_sha256@,
            }),
    {
        CandidateUnitDerivation {
            models,
            work_root: inputs.controlled_inputs.work_root.clone(),
            output_root: inputs.output_root.clone(),
            core_corpus_commitment_path: inputs.core_corpus_commitment_path.clone(),
            core_corpus_commitment_sha256: inputs.core_corpus_commitment_sha256.clone(),
            contrast_corpus_commitment_path: inputs.contrast_corpus_commitment_path.clone(),
            contrast_corpus_commitment_sha256: inputs.contrast_corpus_commitment_sha256.clone(),
        }
    }

    /// Derivation context from a plan.
    pub fn from_plan(plan: &CandidateExecutionPlan, models: Vec<CandidateResolvedModel>) -> (d: Self)
        ensures
            d.models == models,
            d.roots() == plan.roots(),
    {
        CandidateUnitDerivation {
            models,
            work_root: plan.controlled_inputs.work_root.clone(),
            output_root: plan.output_root.clone(),
            core_corpus_commitment_path: plan.core_corpus_commitment_path.clone(),
            core_corpus_commitment_sha256: plan.core_corpus_commitment_sha256.clone(),
            contrast_corpus_commitment_path: plan.contrast_corpus_commitment_path.clone(),
            contrast_corpus_commitment_sha256: plan.contrast_corpus_commitment_sha256.clone(),
        }
    }
}


impl CandidateUnitOutputs {
    /// The four keyed outputs of a unit.
    pub fn keyed_paths(&self, unit_id: &str) -> (r: Vec<(String, String)>)
        ensures
            r@.len() == 4,
            r@[0].0@ == unit_id@ + "/result_package_bundle"@,
            r@[0].1@ == self.result_package_bundle@,
            r@[1].0@ == unit_id@ + "/evaluator_result_bundle"@,
            r@[1].1@ == self.evaluator_result_bundle@,
            r@[2].0@ == unit_id@ + "/verifier_replay_bundle"@,
            r@[2].1@ == self.verifier_replay_bundle@,
            r@[3].0@ == unit_id@ + "/attempt_log_bundle"@,
            r@[3].1@ == self.attempt_log_bundle@,
    {
        let mut a = unit_id.to_owned();
        a.append("/result_package_bundle");
        let mut b = unit_id.to_owned();
        b.append("/evaluator_result_bundle");
        let mut c = unit_id.to_owned();
        c.append("/verifier_replay_bundle");
        let mut d = unit_id.to_owned();
        d.append("/attempt_log_bundle");
        vec![
            (a, self.result_package_bundle.clone()),
            (b, self.evaluator_result_bundle.clone()),
            (c, self.verifier_replay_bundle.clone()),
            (d, self.attempt_log_bundle.clone()),
        ]
    }
}

pub open spec fn pair_view(o: (String, String)) -> (Seq<char>, Seq<char>) {
    (o.0@, o.1@)
}

pub open spec fn pair_views(s: Seq<(String, String)>) -> Seq<(Seq<char>, Seq<char>)> {
    Seq::new(s.len(), |i: int| pair_view(s[i]))
}

impl CandidateExecutionPlan {
    /// Ordered unit and aggregate output keys and paths.
    pub fn output_paths(&self) -> (r: Vec<(String, String)>)
        ensures
            pair_views(r@) == self.output_list(),
    {
        let units = &self.execution_units;
        let mut out: Vec<(String, String)> = Vec::new();
        let mut i: usize = 0;
        while i < units.len()
            invariant
                i <= units@.len(),
                units == &self.execution_units,
                pair_views(out@) == units_keyed_outputs(units@, i as int),
            decreases units@.len() - i,
        {
            let keyed = units[i].outputs.keyed_paths(units[i].unit_id.as_str());
            let ghost before = out@;
            let mut j: usize = 0;
            while j < 4
                invariant
                    j <= 4,
                    keyed@.len() == 4,
                    out@.len() == before.len() + j,
                    forall|m: int| 0 <= m < before.len() ==> #[trigger] out@[m] == before[m],
                    forall|m: int|
                        0 <= m < j ==> #[trigger] pair_view(out@[before.len() + m]) == pair_view(
                            keyed@[m],
                        ),
                decreases 4 - j,
            {
                out.push((keyed[j].0.clone(), keyed[j].1.clone()));
                j += 1;
            }
            assert(pair_views(keyed@) =~= unit_keyed_outputs(units@[i as int]));
            assert(pair_views(out@) =~= pair_views(before) + unit_keyed_outputs(units@[i as int])) by {
                assert forall|m: int| 0 <= m < out@.len() implies #[trigger] pair_views(out@)[m] == (
                pair_views(before) + unit_keyed_outputs(units@[i as int]))[m] by {
                    if m >= before.len() {
                        assert(pair_view(out@[before.len() + (m - before.len())]) == pair_view(
                            keyed@[m - before.len()],
                        ));
                        assert(pair_views(keyed@)[m - before.len()] == pair_view(
                            keyed@[m - before.len()],
                        ));
                    } else {
                        assert(out@[m] == before[m]);
                    }
                }
            }
            i += 1;
        }
        let ghost before = out@;
        let a = String::from_str("aggregate/source_observations");
        let b = String::from_str("aggregate/release_gate_evidence");
        out.push((a, self.aggregate_outputs.source_observations.clone()));
        out.push((b, self.aggregate_outputs.release_gate_evidence.clone()));
        assert(pair_views(out@) =~= self.output_list()) by {
            assert(pair_views(before) == units_keyed_outputs(units@, units@.len() as int));
            assert forall|m: int| 0 <= m < before.len() implies #[trigger] pair_views(out@)[m]
                == pair_views(before)[m] by {
                assert(out@[m] == before[m]);
            }
        }
        out
    }

    /// Checks the three fixed private contrast task bindings.
    pub fn validate_contrast_task_bindings(&self, catalog: &CandidateCatalog) -> (r: Result<
        (),
        CandidateGateError,
    >)
        ensures
            r is Ok <==> self.contrast_bindings_ok(catalog@),
    {
        let b = &self.contrast_task_bindings;
        if b.len() != 3 {
            return Err(
                CandidateGateError::new(
                    "candidate plan must contain three private contrast task bindings",
                ),
            );
        }
        let core = catalog.task_ids();
        let mut c: usize = 0;
        while c < 3
            invariant
                c <= 3,
                b == &self.contrast_task_bindings,
                b@.len() == 3,
                core.deep_view() == catalog@,
                forall|x: int|
                    0 <= x < c ==> {
                        &&& (#[trigger] b@[x]).contrast_id@ == contrast_id(x)
                        &&& b@[x].reference_task_id@ == contrast_task_id(
                            x,
                            CandidateContrastArm::Reference,
                        )
                        &&& b@[x].challenge_task_id@ == contrast_task_id(
                            x,
                            CandidateContrastArm::Challenge,
                        )
                        &&& valid_identifier(b@[x].reference_task_id@)
                        &&& valid_identifier(b@[x].challenge_task_id@)
                        &&& !catalog@.contains(b@[x].reference_task_id@)
                        &&& !catalog@.contains(b@[x].challenge_task_id@)
                    },
            decreases 3 - c,
        {
            let x = &b[c];
            let reference = contrast_task_id_string(c, CandidateContrastArm::Reference);
            let challenge = contrast_task_id_string(c, CandidateContrastArm::Challenge);
            if !text_eq(x.contrast_id.as_str(), contrast_id_str(c)) || !text_eq(
                x.reference_task_id.as_str(),
                reference.as_str(),
            ) || !text_eq(x.challenge_task_id.as_str(), challenge.as_str()) || !is_valid_identifier(
                x.reference_task_id.as_str(),
            ) || !is_valid_identifier(x.challenge_task_id.as_str()) || catalog_contains(
                core,
                x.reference_task_id.as_str(),
            ) || catalog_contains(core, x.challenge_task_id.as_str()) {
                return Err(
                    CandidateGateError::new(
                        "candidate private contrast task binding is invalid or aliases a core task",
                    ),
                );
            }
            c += 1;
        }
        let mut k: usize = 0;
        while k < 6
            invariant
                k <= 6,
                b == &self.contrast_task_bindings,
                b@.len() == 3,
                forall|x: int, y: int|
                    0 <= x < y < k ==> #[trigger] binding_task(b@, x) != #[trigger] binding_task(b@, y),
            decreases 6 - k,
        {
            let mut l: usize = 0;
            while l < k
                invariant
                    l <= k < 6,
                    b == &self.contrast_task_bindings,
                    b@.len() == 3,
                    forall|x: int| 0 <= x < l ==> binding_task(b@, x) != binding_task(b@, k as int),
                decreases k - l,
            {
                if text_eq(binding_task_str(b, l), binding_task_str(b, k)) {
                    assert(binding_task(b@, l as int) == binding_task(b@, k as int));
                    return Err(
                        CandidateGateError::new(
                            "candidate private contrast task binding is invalid or aliases a core task",
                        ),
                    );
                }
                l += 1;
            }
            k += 1;
        }
        Ok(())
    }
}


proof fn lemma_observation_sum_monotone(units: Seq<CandidateExecutionUnit>, n: int, m: int)
    requires
        0 <= n <= m <= units.len(),
    ensures
        observation_sum(units, n) <= observation_sum(units, m),
        observation_sum(units, n) >= 0,
    decreases m - n,
{
    if n < m {
        lemma_observation_sum_monotone(units, n, m - 1);
        let t = units[m - 1].ordered_task_ids@.len() as int;
        let q = units[m - 1].models@.len() as int;
        assert(t * q >= 0) by (nonlinear_arith)
            requires
                t >= 0,
                q >= 0,
        ;
    } else {
        lemma_observation_sum_nonneg(units, n);
    }
}

proof fn lemma_observation_sum_nonneg(units: Seq<CandidateExecutionUnit>, n: int)
    requires
        0 <= n <= units.len(),
    ensures
        observation_sum(units, n) >= 0,
    decreases n,
{
    if n > 0 {
        lemma_observation_sum_nonneg(units, n - 1);
        let t = units[n - 1].ordered_task_ids@.len() as int;
        let q = units[n - 1].models@.len() as int;
        assert(t * q >= 0) by (nonlinear_arith)
            requires
                t >= 0,
                q >= 0,
        ;
    }
}

impl CandidateExecutionPlan {
    /// Every path of the plan, in `all_paths` order.
    fn path_list_of(&self) -> (all: Vec<&str>)
        ensures
            str_views(all@) == self.all_paths(),
    {
        let mut all: Vec<&str> = Vec::new();
        all.push(self.signed_admission_path.as_str());
        all.push(self.corpus_manifest_path.as_str());
        all.push(self.core_corpus_commitment_path.as_str());
        all.push(self.contrast_corpus_commitment_path.as_str());
        let mut controlled = self.controlled_inputs.paths();
        let ghost c = controlled@;
        all.append(&mut controlled);
        all.push(self.output_root.as_str());
        all.push(self.authorization_path.as_str());
        let ghost head = all@;
        assert(str_views(head) =~= seq![
            self.signed_admission_path@,
            self.corpus_manifest_path@,
            self.core_corpus_commitment_path@,
            self.contrast_corpus_commitment_path@,
        ] + self.controlled_inputs.path_list() + seq![self.output_root@, self.authorization_path@]);
        let units = &self.execution_units;
        let mut outs: Vec<&str> = Vec::new();
        let mut i: usize = 0;
        while i < units.len()
            invariant
                i <= units@.len(),
                units == &self.execution_units,
                str_views(outs@) == seconds(units_keyed_outputs(units@, i as int)),
            decreases units@.len() - i,
        {
            let ghost before = outs@;
            let o = &units[i].outputs;
            outs.push(o.result_package_bundle.as_str());
            outs.push(o.evaluator_result_bundle.as_str());
            outs.push(o.verifier_replay_bundle.as_str());
            outs.push(o.attempt_log_bundle.as_str());
            assert(seconds(units_keyed_outputs(units@, i + 1)) =~= seconds(
                units_keyed_outputs(units@, i as int),
            ) + seconds(unit_keyed_outputs(units@[i as int])));
            assert(str_views(outs@) =~= str_views(before) + seconds(unit_keyed_outputs(units@[i as int])));
            i += 1;
        }
        let ghost before_agg = outs@;
        outs.push(self.aggregate_outputs.source_observations.as_str());
        outs.push(self.aggregate_outputs.release_gate_evidence.as_str());
        assert(str_views(outs@) =~= seconds(self.output_list())) by {
            assert(seconds(self.output_list()) =~= seconds(
                units_keyed_outputs(units@, units@.len() as int),
            ) + seq![
                self.aggregate_outputs.source_observations@,
                self.aggregate_outputs.release_gate_evidence@,
            ]);
            assert(str_views(outs@) =~= str_views(before_agg) + seq![
                self.aggregate_outputs.source_observations@,
                self.aggregate_outputs.release_gate_evidence@,
            ]);
        }
        let mut work: Vec<&str> = Vec::new();
        let mut u: usize = 0;
        while u < units.len()
            invariant
                u <= units@.len(),
                units == &self.execution_units,
                str_views(work@) == units_work_paths(units@, u as int),
            decreases units@.len() - u,
        {
            let ghost before = work@;
            work.push(units[u].checkpoint_path.as_str());
            work.push(units[u].preflight_path.as_str());
            work.push(units[u].attempt_journal_path.as_str());
            assert(str_views(work@) =~= str_views(before) + seq![
                units@[u as int].checkpoint_path@,
                units@[u as int].preflight_path@,
                units@[u as int].attempt_journal_path@,
            ]);
            u += 1;
        }
        let ghost o = outs@;
        let ghost w = work@;
        all.append(&mut outs);
        all.append(&mut work);
        assert(str_views(all@) =~= str_views(head) + str_views(o) + str_views(w));
        all
    }

    /// Checks that plan paths are normalized, pairwise distinct and isolated
    /// from the verifier replay root, and that output keys are distinct.
    pub fn validate_paths(&self) -> (r: Result<(), CandidateGateError>)
        ensures
            r is Ok <==> self.paths_ok(),
    {
        let all = self.path_list_of();
        check_distinct_valid_paths(&all)?;
        let replay = path_key_of(self.controlled_inputs.verifier_replay_root.as_str());
        let ghost pv = self.all_paths();
        let mut i: usize = 0;
        while i < all.len()
            invariant
                i <= all@.len(),
                str_views(all@) == pv,
                pv == self.all_paths(),
                distinct_valid_paths(pv),
                replay.view_key() == path_key(self.controlled_inputs.verifier_replay_root@),
                forall|k: int|
                    0 <= k < i ==> !same_path(#[trigger] pv[k], self.controlled_inputs.verifier_replay_root@)
                        ==> !paths_overlap(pv[k], self.controlled_inputs.verifier_replay_root@),
            decreases all@.len() - i,
        {
            assert(pv[i as int] == all@[i as int]@);
            let key = path_key_of(all[i]);
            if !keys_equal(&key, &replay) && keys_overlap(&key, &replay) {
                return Err(
                    CandidateGateError::new(
                        "candidate verifier replay root must not overlap plan inputs, work, or outputs",
                    ),
                );
            }
            i += 1;
        }
        let outputs = self.output_paths();
        let ghost ol = self.output_list();
        let mut a: usize = 0;
        while a < outputs.len()
            invariant
                a <= outputs@.len(),
                pair_views(outputs@) == ol,
                ol == self.output_list(),
                distinct_valid_paths(self.all_paths()),
                isolated_from(self.all_paths(), self.controlled_inputs.verifier_replay_root@),
                forall|x: int, y: int| 0 <= x < y < a ==> (#[trigger] ol[x]).0 != (#[trigger] ol[y]).0,
            decreases outputs@.len() - a,
        {
            let mut b: usize = 0;
            while b < a
                invariant
                    b <= a < outputs@.len(),
                    pair_views(outputs@) == ol,
                    ol == self.output_list(),
                    forall|x: int| 0 <= x < b ==> ol[x].0 != ol[a as int].0,
                decreases a - b,
            {
                assert(ol[b as int] == pair_view(outputs@[b as int]));
                assert(ol[a as int] == pair_view(outputs@[a as int]));
                if text_eq(outputs[b].0.as_str(), outputs[a].0.as_str()) {
                    assert(ol[b as int].0 == ol[a as int].0);
                    return Err(CandidateGateError::new("candidate output key is duplicated"));
                }
                b += 1;
            }
            a += 1;
        }
        Ok(())
    }

    /// Validates all twenty-one units against the complete canonical admission.
    #[verifier::rlimit(80)]
    pub fn validate_against_admission(
        &self,
        admission: &ReleaseGateAdmissionV1,
        catalog: &CandidateCatalog,
    ) -> (r: Result<(), CandidateGateError>)
        ensures
            r is Ok <==> self.valid(*admission, catalog@),
    {
        admission.validate(self.signed_admission_key_id.as_str(), catalog)?;
        let observed = admission.canonical_sha256()?;
        if !(text_eq(self.schema_version.as_str(), CANDIDATE_EXECUTION_PLAN_SCHEMA) && text_eq(
            self.purpose.as_str(),
            CANDIDATE_PLAN_PURPOSE,
        ) && text_eq(self.release_identity.as_str(), RELEASE_IDENTITY) && text_eq(
            self.catalog_release_identity_digest.as_str(),
            CANDIDATE_CATALOG_RELEASE_IDENTITY_SHA256,
        ) && text_eq(self.task_metadata_identity_digest.as_str(), CANDIDATE_TASK_IDENTITY_SHA256)
            && text_eq(self.execution_plan_digest.as_str(), admission.execution_plan_digest.as_str())
            && text_eq(self.model_id_mapping_digest.as_str(), CANDIDATE_MODEL_ID_MAPPING_SHA256)
            && text_eq(self.signed_admission_sha256.as_str(), observed.as_str()) && text_eq(
            self.corpus_manifest_sha256.as_str(),
            admission.corpus_commitment_digest.as_str(),
        )) {
            return Err(
                CandidateGateError::new("candidate private plan does not match the canonical admission"),
            );
        }
        let digests = vec![
            self.execution_plan_digest.as_str(),
            self.signed_admission_sha256.as_str(),
            self.release_trust_policy_sha256.as_str(),
            self.corpus_manifest_sha256.as_str(),
            self.core_corpus_commitment_sha256.as_str(),
            self.contrast_corpus_commitment_sha256.as_str(),
        ];
        let mut i: usize = 0;
        while i < 6
            invariant
                i <= 6,
                digests@.len() == 6,
                forall|k: int| 0 <= k < 6 ==> #[trigger] digests@[k]@ == self.digests()[k],
                forall|k: int| 0 <= k < i ==> valid_digest(#[trigger] self.digests()[k]),
            decreases 6 - i,
        {
            if !is_valid_digest(digests[i]) {
                assert(!valid_digest(self.digests()[i as int]));
                return Err(CandidateGateError::new("candidate private plan contains an invalid digest"));
            }
            i += 1;
        }
        if text_eq(
            self.core_corpus_commitment_sha256.as_str(),
            self.contrast_corpus_commitment_sha256.as_str(),
        ) {
            return Err(
                CandidateGateError::new("core and contrast corpus commitments must remain distinct"),
            );
        }
        self.runtime.validate()?;
        if !is_valid_absolute_path(self.release_trust_policy_path.as_str()) {
            return Err(
                CandidateGateError::new("candidate plan paths must be normalized absolute file paths"),
            );
        }
        self.controlled_inputs.validate()?;
        if !is_valid_absolute_path(self.output_root.as_str()) {
            return Err(
                CandidateGateError::new(
                    "candidate output root must be a normalized absolute directory path",
                ),
            );
        }
        self.classification.validate()?;
        self.validate_contrast_task_bindings(catalog)?;
        self.check_units(admission, catalog)?;
        let source = join(self.output_root.as_str(), "aggregate-source-observations.json");
        let evidence = join(self.output_root.as_str(), "aggregate-release-gate-evidence.json");
        if !is_same_path(self.aggregate_outputs.source_observations.as_str(), source.as_str())
            || !is_same_path(self.aggregate_outputs.release_gate_evidence.as_str(), evidence.as_str()) {
            return Err(
                CandidateGateError::new(
                    "candidate aggregate outputs are not derived from the signed output root",
                ),
            );
        }
        self.validate_paths()?;
        Ok(())
    }

    /// Checks the units: the twenty-one derived ones, with valid distinct
    /// identifiers, covering exactly the admitted observations.
    #[verifier::rlimit(40)]
    fn check_units(&self, admission: &ReleaseGateAdmissionV1, catalog: &CandidateCatalog) -> (r:
        Result<(), CandidateGateError>)
        requires
            admission.repeat_schedule@.len() == 3,
            admission.contrast_bindings@.len() == 3,
        ensures
            r is Ok <==> {
                let units = self.execution_units@;
                &&& units_match(units, *admission, self.roots(), catalog@)
                &&& forall|u: int| 0 <= u < 21 ==> valid_identifier(#[trigger] units[u].unit_id@)
                &&& forall|u: int, v: int|
                    0 <= u < v < 21 ==> (#[trigger] units[u]).unit_id@ != (#[trigger] units[v]).unit_id@
                &&& observation_sum(units, 21) == CANDIDATE_TOTAL_OBSERVATION_COUNT
            },
    {
        let units = &self.execution_units;
        if units.len() != 21 {
            return Err(
                CandidateGateError::new(
                    "candidate private plan must contain exactly twenty-one execution units",
                ),
            );
        }
        let d = CandidateUnitDerivation::from_plan(self, Vec::new());
        let core = catalog.task_ids();
        let mut r: usize = 0;
        while r < 3
            invariant
                r <= 3,
                units == &self.execution_units,
                units@.len() == 21,
                admission.repeat_schedule@.len() == 3,
                admission.contrast_bindings@.len() == 3,
                d.roots() == self.roots(),
                core.deep_view() == catalog@,
                forall|u: int|
                    0 <= u < r * 7 ==> unit_matches(#[trigger] units@[u], u, *admission, self.roots(), catalog@),
            decreases 3 - r,
        {
            let mut k: usize = 0;
            while k < 7
                invariant
                    r < 3,
                    k <= 7,
                    units == &self.execution_units,
                    units@.len() == 21,
                    admission.repeat_schedule@.len() == 3,
                    admission.contrast_bindings@.len() == 3,
                    d.roots() == self.roots(),
                    core.deep_view() == catalog@,
                    forall|u: int|
                        0 <= u < r * 7 + k ==> unit_matches(
                            #[trigger] units@[u],
                            u,
                            *admission,
                            self.roots(),
                            catalog@,
                        ),
                decreases 7 - k,
            {
                if !unit_is_derived(&units[r * 7 + k], r, k, admission, &d, core) {
                    return Err(
                        CandidateGateError::new(
                            "candidate execution units do not match the signed deterministic plan",
                        ),
                    );
                }
                k += 1;
            }
            r += 1;
        }
        assert(units_match(units@, *admission, self.roots(), catalog@));
        let mut u: usize = 0;
        while u < 21
            invariant
                u <= 21,
                units == &self.execution_units,
                units@.len() == 21,
                units_match(units@, *admission, self.roots(), catalog@),
                forall|x: int| 0 <= x < u ==> valid_identifier(#[trigger] units@[x].unit_id@),
                forall|x: int, y: int|
                    0 <= x < y < u ==> (#[trigger] units@[x]).unit_id@ != (#[trigger] units@[y]).unit_id@,
            decreases 21 - u,
        {
            if !is_valid_identifier(units[u].unit_id.as_str()) {
                return Err(
                    CandidateGateError::new("candidate execution unit identifier is invalid or duplicated"),
                );
            }
            let mut v: usize = 0;
            while v < u
                invariant
                    v <= u < 21,
                    units == &self.execution_units,
                    units@.len() == 21,
                    forall|x: int| 0 <= x < v ==> units@[x].unit_id@ != units@[u as int].unit_id@,
                decreases u - v,
            {
                if text_eq(units[v].unit_id.as_str(), units[u].unit_id.as_str()) {
                    assert(units@[v as int].unit_id@ == units@[u as int].unit_id@);
                    return Err(
                        CandidateGateError::new(
                            "candidate execution unit identifier is invalid or duplicated",
                        ),
                    );
                }
                v += 1;
            }
            u += 1;
        }
        let mut total: u64 = 0;
        let mut w: usize = 0;
        while w < 21
            invariant
                w <= 21,
                units == &self.execution_units,
                units@.len() == 21,
                total == observation_sum(units@, w as int),
            decreases 21 - w,
        {
            let term = match units[w].ordered_task_ids.len().checked_mul(units[w].models.len()) {
                Some(t) => t,
                None => {
                    proof {
                        lemma_observation_sum_monotone(units@, w as int + 1, 21);
                        lemma_observation_sum_monotone(units@, w as int, w as int);
                    }
                    return Err(CandidateGateError::new("candidate observation count overflows"));
                },
            };
            match total.checked_add(term as u64) {
                Some(t) => {
                    total = t;
                },
                None => {
                    proof {
                        lemma_observation_sum_monotone(units@, w as int + 1, 21);
                    }
                    return Err(CandidateGateError::new("candidate observation count overflows"));
                },
            }
            w += 1;
        }
        if total != CANDIDATE_TOTAL_OBSERVATION_COUNT {
            return Err(
                CandidateGateError::new(
                    "candidate execution plan does not prove exactly the admitted observations",
                ),
            );
        }
        Ok(())
    }
}


impl CandidateExecutionPlan {
    /// The seven ordered units of one signed repeat; the plan is validated
    /// first, and there is no task or model selector.
    pub fn units_for_repeat<'a>(
        &'a self,
        admission: &ReleaseGateAdmissionV1,
        catalog: &CandidateCatalog,
        repeat_id: &str,
    ) -> (r: Result<&'a [CandidateExecutionUnit], CandidateGateError>)
        ensures
            match r {
                Ok(units) => self.valid(*admission, catalog@) && admission.repeat_position(repeat_id@)
                    is Some && units@ == self.execution_units@.subrange(
                    7 * admission.repeat_position(repeat_id@)->0,
                    7 * admission.repeat_position(repeat_id@)->0 + 7,
                ),
                Err(_) => !self.valid(*admission, catalog@) || admission.repeat_position(repeat_id@)
                    is None,
            },
    {
        self.validate_against_admission(admission, catalog)?;
        let index = match admission.find_repeat(repeat_id) {
            Some(i) => i,
            None => {
                return Err(CandidateGateError::new("candidate repeat is not in the signed schedule"));
            },
        };
        let start = index * 7;
        Ok(&self.execution_units.as_slice()[start..start + 7])
    }
}

/// A plan assembled from the inputs: their fields, the admission's plan
/// digest, the fixed identities, bindings and classification, and the
/// twenty-one derived units.
pub open spec fn assembled_from(
    p: CandidateExecutionPlan,
    inputs: CandidatePlanInputs,
    a: ReleaseGateAdmissionV1,
    core_task_ids: Seq<Seq<char>>,
) -> bool {
    &&& p.schema_version@ == CANDIDATE_EXECUTION_PLAN_SCHEMA@
    &&& p.purpose@ == CANDIDATE_PLAN_PURPOSE@
    &&& p.release_identity@ == RELEASE_IDENTITY@
    &&& p.catalog_release_identity_digest@ == CANDIDATE_CATALOG_RELEASE_IDENTITY_SHA256@
    &&& p.task_metadata_identity_digest@ == CANDIDATE_TASK_IDENTITY_SHA256@
    &&& p.execution_plan_digest@ == a.execution_plan_digest@
    &&& p.model_id_mapping_digest@ == CANDIDATE_MODEL_ID_MAPPING_SHA256@
    &&& p.signed_admission_path == inputs.signed_admission_path
    &&& p.signed_admission_sha256 == inputs.signed_admission_sha256
    &&& p.signed_admission_key_id == inputs.signed_admission_key_id
    &&& p.release_trust_policy_path == inputs.release_trust_policy_path
    &&& p.release_trust_policy_sha256 == inputs.release_trust_policy_sha256
    &&& p.corpus_manifest_path == inputs.corpus_manifest_path
    &&& p.corpus_manifest_sha256 == inputs.corpus_manifest_sha256
    &&& p.core_corpus_commitment_path == inputs.core_corpus_commitment_path
    &&& p.core_corpus_commitment_sha256 == inputs.core_corpus_commitment_sha256
    &&& p.contrast_corpus_commitment_path == inputs.contrast_corpus_commitment_path
    &&& p.contrast_corpus_commitment_sha256 == inputs.contrast_corpus_commitment_sha256
    &&& p.authorization_path == inputs.authorization_path
    &&& p.runtime == inputs.runtime
    &&& p.controlled_inputs == inputs.controlled_inputs
    &&& p.output_root == inputs.output_root
    &&& p.contrast_task_bindings@.len() == 3
    &&& forall|c: int|
        0 <= c < 3 ==> (#[trigger] p.contrast_task_bindings@[c]).contrast_id@ == contrast_id(c)
            && p.contrast_task_bindings@[c].reference_task_id@ == contrast_task_id(
            c,
            CandidateContrastArm::Reference,
        ) && p.contrast_task_bindings@[c].challenge_task_id@ == contrast_task_id(
            c,
            CandidateContrastArm::Challenge,
        )
    &&& units_match(p.execution_units@, a, p.roots(), core_task_ids)
    &&& p.aggregate_outputs.source_observations@ == join_path(
        inputs.output_root@,
        "aggregate-source-observations.json"@,
    )
    &&& p.aggregate_outputs.release_gate_evidence@ == join_path(
        inputs.output_root@,
        "aggregate-release-gate-evidence.json"@,
    )
    &&& is_candidate_classification(p.classification)
}

/// Builds the only supported twenty-one-unit private execution plan and
/// validates it against the admission.
pub fn build_candidate_execution_plan(
    admission: &ReleaseGateAdmissionV1,
    inputs: CandidatePlanInputs,
    catalog: &CandidateCatalog,
) -> (r: Result<CandidateExecutionPlan, CandidateGateError>)
    ensures
        match r {
            Ok(p) => p.valid(*admission, catalog@) && assembled_from(p, inputs, *admission, catalog@),
            Err(_) => !admission.valid(inputs.signed_admission_key_id@, catalog@)
                || !valid_absolute_path(inputs.output_root@) || exists|p: CandidateExecutionPlan|
                assembled_from(p, inputs, *admission, catalog@) && !p.valid(*admission, catalog@),
        },
{
    let ghost original = inputs;
    admission.validate(inputs.signed_admission_key_id.as_str(), catalog)?;
    if !is_valid_absolute_path(inputs.output_root.as_str()) {
        return Err(
            CandidateGateError::new("candidate output root must be a normalized absolute directory path"),
        );
    }
    let core_tasks = clone_strings(catalog.task_ids());
    let d = CandidateUnitDerivation::from_inputs(&inputs, expected_resolved_models());
    let execution_units = build_candidate_execution_units(admission, &d, &core_tasks)?;
    let source_observations = join(inputs.output_root.as_str(), "aggregate-source-observations.json");
    let release_gate_evidence = join(
        inputs.output_root.as_str(),
        "aggregate-release-gate-evidence.json",
    );
    let plan = CandidateExecutionPlan {
        schema_version: CANDIDATE_EXECUTION_PLAN_SCHEMA.to_owned(),
        purpose: CANDIDATE_PLAN_PURPOSE.to_owned(),
        release_identity: RELEASE_IDENTITY.to_owned(),
        catalog_release_identity_digest: CANDIDATE_CATALOG_RELEASE_IDENTITY_SHA256.to_owned(),
        task_metadata_identity_digest: CANDIDATE_TASK_IDENTITY_SHA256.to_owned(),
        execution_plan_digest: admission.execution_plan_digest.clone(),
        model_id_mapping_digest: CANDIDATE_MODEL_ID_MAPPING_SHA256.to_owned(),
        signed_admission_path: inputs.signed_admission_path,
        signed_admission_sha256: inputs.signed_admission_sha256,
        signed_admission_key_id: inputs.signed_admission_key_id,
        release_trust_policy_path: inputs.release_trust_policy_path,
        release_trust_policy_sha256: inputs.release_trust_policy_sha256,
        corpus_manifest_path: inputs.corpus_manifest_path,
        corpus_manifest_sha256: inputs.corpus_manifest_sha256,
        core_corpus_commitment_path: inputs.core_corpus_commitment_path,
        core_corpus_commitment_sha256: inputs.core_corpus_commitment_sha256,
        contrast_corpus_commitment_path: inputs.contrast_corpus_commitment_path,
        contrast_corpus_commitment_sha256: inputs.contrast_corpus_commitment_sha256,
        authorization_path: inputs.authorization_path,
        runtime: inputs.runtime,
        controlled_inputs: inputs.controlled_inputs,
        output_root: inputs.output_root,
        contrast_task_bindings: fixed_contrast_task_bindings(),
        execution_units,
        aggregate_outputs: CandidateAggregateOutputs { source_observations, release_gate_evidence },
        classification: CandidateClassification::default(),
    };
    assert(assembled_from(plan, original, *admission, catalog@));
    match plan.validate_against_admission(admission, catalog) {
        Ok(()) => Ok(plan),
        Err(e) => Err(e),
    }
}

/// Out-of-band pins required before the authorized callback can run.
#[derive(Clone, Debug)]
pub struct CandidateExecutionExpectations {
    /// Pinned path to the private authorization.
    pub authorization_path: String,
    /// Pinned SHA-256 digest of the private authorization.
    pub authorization_sha256: String,
    /// Pinned node identifier for the authorization signer.
    pub authorization_signer_node_id: String,
    /// Pinned public key for the authorization signer.
    pub authorization_signer_public_key: String,
    /// Pinned path to the canonical signed admission.
    pub signed_admission_path: String,
    /// Pinned SHA-256 digest of the complete signed admission.
    pub signed_admission_sha256: String,
    /// Pinned key identifier for the admission signer.
    pub signed_admission_key_id: String,
    /// Pinned canonical public release trust-policy path.
    pub release_trust_policy_path: String,
    /// Independently protected release trust-policy digest.
    pub release_trust_policy_sha256: String,
    /// Pinned digest that identifies the execution plan.
    pub execution_plan_sha256: String,
    /// Pinned path to the public-safe corpus manifest.
    pub corpus_manifest_path: String,
    /// Pinned SHA-256 digest of the corpus manifest.
    pub corpus_manifest_sha256: String,
    /// Pinned path to the private core corpus commitment.
    pub core_corpus_commitment_path: String,
    /// Pinned SHA-256 digest of the core corpus commitment.
    pub core_corpus_commitment_sha256: String,
    /// Pinned path to the private contrast corpus commitment.
    pub contrast_corpus_commitment_path: String,
    /// Pinned SHA-256 digest of the contrast corpus commitment.
    pub contrast_corpus_commitment_sha256: String,
    /// Pinned isolated root directory for verifier replay.
    pub verifier_replay_root: String,
    /// Trusted observation time used for collection-window checks.
    pub observed_at: String,
}

impl CandidateExecutionExpectations {
    /// The plan carries exactly the pinned references: paths equal as paths,
    /// digests and key identifier equal as text.
    pub open spec fn plan_references_match(&self, plan: CandidateExecutionPlan) -> bool {
        &&& same_path(plan.authorization_path@, self.authorization_path@)
        &&& same_path(plan.signed_admission_path@, self.signed_admission_path@)
        &&& plan.signed_admission_sha256@ == self.signed_admission_sha256@
        &&& plan.signed_admission_key_id@ == self.signed_admission_key_id@
        &&& same_path(plan.release_trust_policy_path@, self.release_trust_policy_path@)
        &&& plan.release_trust_policy_sha256@ == self.release_trust_policy_sha256@
        &&& plan.execution_plan_digest@ == self.execution_plan_sha256@
        &&& same_path(plan.corpus_manifest_path@, self.corpus_manifest_path@)
        &&& plan.corpus_manifest_sha256@ == self.corpus_manifest_sha256@
        &&& same_path(plan.core_corpus_commitment_path@, self.core_corpus_commitment_path@)
        &&& plan.core_corpus_commitment_sha256@ == self.core_corpus_commitment_sha256@
        &&& same_path(plan.contrast_corpus_commitment_path@, self.contrast_corpus_commitment_path@)
        &&& plan.contrast_corpus_commitment_sha256@ == self.contrast_corpus_commitment_sha256@
        &&& same_path(plan.controlled_inputs.verifier_replay_root@, self.verifier_replay_root@)
    }

    /// Checks the plan against the out-of-band execution pins.
    pub fn validate_plan_references(&self, plan: &CandidateExecutionPlan) -> (r: Result<
        (),
        CandidateGateError,
    >)
        ensures
            r is Ok <==> self.plan_references_match(*plan),
    {
        if !is_same_path(plan.authorization_path.as_str(), self.authorization_path.as_str())
            || !is_same_path(plan.signed_admission_path.as_str(), self.signed_admission_path.as_str())
            || !text_eq(plan.signed_admission_sha256.as_str(), self.signed_admission_sha256.as_str())
            || !text_eq(plan.signed_admission_key_id.as_str(), self.signed_admission_key_id.as_str())
            || !is_same_path(
            plan.release_trust_policy_path.as_str(),
            self.release_trust_policy_path.as_str(),
        ) || !text_eq(
            plan.release_trust_policy_sha256.as_str(),
            self.release_trust_policy_sha256.as_str(),
        ) || !text_eq(plan.execution_plan_digest.as_str(), self.execution_plan_sha256.as_str())
            || !is_same_path(plan.corpus_manifest_path.as_str(), self.corpus_manifest_path.as_str())
            || !text_eq(plan.corpus_manifest_sha256.as_str(), self.corpus_manifest_sha256.as_str())
            || !is_same_path(
            plan.core_corpus_commitment_path.as_str(),
            self.core_corpus_commitment_path.as_str(),
        ) || !text_eq(
            plan.core_corpus_commitment_sha256.as_str(),
            self.core_corpus_commitment_sha256.as_str(),
        ) || !is_same_path(
            plan.contrast_corpus_commitment_path.as_str(),
            self.contrast_corpus_commitment_path.as_str(),
        ) || !text_eq(
            plan.contrast_corpus_commitment_sha256.as_str(),
            self.contrast_corpus_commitment_sha256.as_str(),
        ) || !is_same_path(
            plan.controlled_inputs.verifier_replay_root.as_str(),
            self.verifier_replay_root.as_str(),
        ) {
            return Err(
                CandidateGateError::new(
                    "candidate private plan does not match the out-of-band execution pins",
                ),
            );
        }
        Ok(())
    }
}

/// Closed model-free inputs for the final candidate aggregate lifecycle.
#[derive(Clone, Debug)]
pub struct CandidateAggregateExpectations {
    /// Exact authorization, admission, corpus, and observation-time pins.
    pub execution: CandidateExecutionExpectations,
    /// Canonical signed release authority document.
    pub release_authority_path: String,
    /// Canonical digest of the complete signed release authority.
    pub release_authority_sha256: String,
    /// Public trust-policy material independently pinned by the protected runtime environment.
    pub release_trust_policy_path: String,
    /// Public-safe collection time emitted into the aggregate observations.
    pub collected_at: String,
}

impl CandidateAggregateExpectations {
    /// A valid authority digest, the collection time equal to the observation
    /// time, the execution's trust policy, and two distinct normalized files.
    pub open spec fn valid(&self) -> bool {
        &&& valid_digest(self.release_authority_sha256@)
        &&& self.collected_at@ == self.execution.observed_at@
        &&& same_path(self.release_trust_policy_path@, self.execution.release_trust_policy_path@)
        &&& valid_absolute_path(self.release_authority_path@)
        &&& valid_absolute_path(self.release_trust_policy_path@)
        &&& !same_path(self.release_authority_path@, self.release_trust_policy_path@)
    }

    /// Validates pins that are independent of the signed private plan.
    pub fn validate(&self) -> (r: Result<(), CandidateGateError>)
        ensures
            r is Ok <==> self.valid(),
    {
        if !is_valid_digest(self.release_authority_sha256.as_str()) || !text_eq(
            self.collected_at.as_str(),
            self.execution.observed_at.as_str(),
        ) || !is_same_path(
            self.release_trust_policy_path.as_str(),
            self.execution.release_trust_policy_path.as_str(),
        ) {
            return Err(
                CandidateGateError::new(
                    "candidate aggregate authority or collection-time pin is invalid",
                ),
            );
        }
        if !is_valid_absolute_path(self.release_authority_path.as_str()) || !is_valid_absolute_path(
            self.release_trust_policy_path.as_str(),
        ) {
            return Err(
                CandidateGateError::new("candidate plan paths must be normalized absolute file paths"),
            );
        }
        if is_same_path(self.release_authority_path.as_str(), self.release_trust_policy_path.as_str()) {
            return Err(
                CandidateGateError::new(
                    "candidate aggregate authority and trust policy must be distinct",
                ),
            );
        }
        Ok(())
    }
}


/// Exact signed repeat checkpoint supplied to a model-capable callback.
pub struct CandidateRepeatExecution<'a> {
    /// Signed schedule entry for the selected repeat.
    pub repeat: &'a ReleaseGateRepeat,
    /// Seven plan-bound units in the selected repeat.
    pub units: &'a [CandidateExecutionUnit],
}


// ---------------------------------------------------------------------------
// Laws
// ---------------------------------------------------------------------------
/// In a valid plan, the seven units that `units_for_repeat` hands out for a
/// signed repeat are exactly the units bound to that repeat: one core unit
/// first, then the six contrast units.
pub proof fn law_repeat_slice_holds_exactly_its_units(
    p: CandidateExecutionPlan,
    a: ReleaseGateAdmissionV1,
    core_task_ids: Seq<Seq<char>>,
    repeat_id: Seq<char>,
)
    requires
        p.valid(a, core_task_ids),
        a.repeat_position(repeat_id) is Some,
    ensures
        forall|u: int|
            0 <= u < 21 ==> ((#[trigger] p.execution_units@[u]).repeat_id@ == repeat_id <==> 7
                * a.repeat_position(repeat_id)->0 <= u < 7 * a.repeat_position(repeat_id)->0 + 7),
        p.execution_units@[7 * a.repeat_position(repeat_id)->0].kind == CandidateExecutionUnitKind::Core,
        forall|k: int|
            1 <= k < 7 ==> (#[trigger] p.execution_units@[7 * a.repeat_position(repeat_id)->0 + k]).kind
                == CandidateExecutionUnitKind::Contrast,
{
    let s = a.repeat_schedule@;
    let i = a.repeat_position(repeat_id)->0;
    let w = choose|w: int| 0 <= w < s.len() && s[w].repeat_id@ == repeat_id;
    assert(exists|w: int| 0 <= w < s.len() && s[w].repeat_id@ == repeat_id);
    assert(0 <= i < 3 && s[i].repeat_id@ == repeat_id);
    let units = p.execution_units@;
    assert forall|u: int| 0 <= u < 21 implies ((#[trigger] units[u]).repeat_id@ == repeat_id <==> 7 * i
        <= u < 7 * i + 7) by {
        assert(unit_matches(units[u], u, a, p.roots(), core_task_ids));
        assert(units[u].repeat_id@ == s[u / 7].repeat_id@);
        assert(0 <= u / 7 < 3);
        if u / 7 != i {
            assert(s[u / 7].repeat_id@ != s[i].repeat_id@);
        }
    }
    assert(unit_matches(units[7 * i], 7 * i, a, p.roots(), core_task_ids));
    assert((7 * i) % 7 == 0);
    assert forall|k: int| 1 <= k < 7 implies (#[trigger] units[7 * i + k]).kind
        == CandidateExecutionUnitKind::Contrast by {
        assert(unit_matches(units[7 * i + k], 7 * i + k, a, p.roots(), core_task_ids));
        assert((7 * i + k) % 7 == k);
    }
}

/// Every unit of a valid plan has its own identifier, and the units' signed
/// observation counts add up to the candidate total.
pub proof fn law_valid_plan_units_are_distinct_and_complete(
    p: CandidateExecutionPlan,
    a: ReleaseGateAdmissionV1,
    core_task_ids: Seq<Seq<char>>,
)
    requires
        p.valid(a, core_task_ids),
    ensures
        p.execution_units@.len() == 21,
        forall|u: int, v: int|
            0 <= u < v < 21 ==> (#[trigger] p.execution_units@[u]).unit_id@
                != (#[trigger] p.execution_units@[v]).unit_id@,
        observation_sum(p.execution_units@, 21) == CANDIDATE_TOTAL_OBSERVATION_COUNT,
{
}


proof fn lemma_contrast_ids_differ(c: int, i: int)
    requires
        0 <= c < 3,
        0 <= i < 3,
        contrast_id(c) == contrast_id(i),
    ensures
        c == i,
{
    reveal_strlit("coupled_constraints");
    reveal_strlit("ambiguous_recovery_state");
    reveal_strlit("plausible_incomplete_evidence");
    assert("coupled_constraints"@.len() == 19);
    assert("ambiguous_recovery_state"@.len() == 24);
    assert("plausible_incomplete_evidence"@.len() == 29);
    assert(contrast_id(c).len() == contrast_id(i).len());
}

/// In a valid plan every contrast unit runs the variant that the admission
/// signed for its own contrast and its own arm: a reference unit carries the
/// reference variant digest of the binding naming its contrast, a challenge
/// unit the challenge variant digest, and the unit's single task is that
/// contrast's controlled task for the same arm.
pub proof fn law_contrast_units_run_their_own_arms_variant(
    p: CandidateExecutionPlan,
    a: ReleaseGateAdmissionV1,
    core_task_ids: Seq<Seq<char>>,
    u: int,
    i: int,
)
    requires
        p.valid(a, core_task_ids),
        0 <= u < 21,
        0 <= i < a.contrast_bindings@.len(),
        p.execution_units@[u].contrast_id is Some,
        p.execution_units@[u].contrast_id->0@ == a.contrast_bindings@[i].contrast_id@,
    ensures
        p.execution_units@[u].contrast_arm == Some(CandidateContrastArm::Reference) ==> (
        p.execution_units@[u].variant_sha256 is Some && p.execution_units@[u].variant_sha256->0@
            == a.contrast_bindings@[i].reference_variant_digest@),
        p.execution_units@[u].contrast_arm == Some(CandidateContrastArm::Challenge) ==> (
        p.execution_units@[u].variant_sha256 is Some && p.execution_units@[u].variant_sha256->0@
            == a.contrast_bindings@[i].challenge_variant_digest@),
        p.execution_units@[u].contrast_arm is Some,
        p.execution_units@[u].ordered_task_ids.deep_view() == seq![
            contrast_task_id(i, p.execution_units@[u].contrast_arm->0),
        ],
{
    let units = p.execution_units@;
    assert(unit_matches(units[u], u, a, p.roots(), core_task_ids));
    let k = u % 7;
    assert(k != 0);
    let c = (k - 1) / 2;
    assert(0 <= c < 3);
    assert(a.contrast_bindings_ok());
    assert(a.contrast_bindings@[i].contrast_id@ == contrast_id(i));
    lemma_contrast_ids_differ(c, i);
}

proof fn lemma_units_keyed_outputs_len(units: Seq<CandidateExecutionUnit>, n: int)
    requires
        0 <= n,
    ensures
        units_keyed_outputs(units, n).len() == 4 * n,
    decreases n,
{
    if n > 0 {
        lemma_units_keyed_outputs_len(units, n - 1);
    }
}

/// In a valid plan the eighty-four unit outputs and the two aggregate
/// outputs are eighty-six distinct paths, none of which is or overlaps the
/// verifier replay root.
pub proof fn law_valid_plan_outputs_never_alias(
    p: CandidateExecutionPlan,
    a: ReleaseGateAdmissionV1,
    core_task_ids: Seq<Seq<char>>,
)
    requires
        p.valid(a, core_task_ids),
    ensures
        p.output_list().len() == 86,
        forall|i: int, j: int|
            0 <= i < j < 86 ==> !same_path(
                (#[trigger] p.output_list()[i]).1,
                (#[trigger] p.output_list()[j]).1,
            ),
        forall|i: int|
            0 <= i < 86 ==> !paths_overlap(
                (#[trigger] p.output_list()[i]).1,
                p.controlled_inputs.verifier_replay_root@,
            ),
{
    lemma_units_keyed_outputs_len(p.execution_units@, 21);
    let outputs = p.output_list();
    let all = p.all_paths();
    let head = seq![
        p.signed_admission_path@,
        p.corpus_manifest_path@,
        p.core_corpus_commitment_path@,
        p.contrast_corpus_commitment_path@,
    ] + p.controlled_inputs.path_list() + seq![p.output_root@, p.authorization_path@];
    assert(head.len() == 22);
    assert forall|i: int| 0 <= i < 86 implies all[22 + i] == (#[trigger] outputs[i]).1 by {
        assert(seconds(outputs)[i] == outputs[i].1);
    }
    assert(all[19] == p.controlled_inputs.verifier_replay_root@);
    assert forall|i: int, j: int| 0 <= i < j < 86 implies !same_path(
        (#[trigger] outputs[i]).1,
        (#[trigger] outputs[j]).1,
    ) by {
        assert(all[22 + i] == outputs[i].1);
        assert(all[22 + j] == outputs[j].1);
    }
    assert forall|i: int| 0 <= i < 86 implies !paths_overlap(
        (#[trigger] outputs[i]).1,
        p.controlled_inputs.verifier_replay_root@,
    ) by {
        assert(all[22 + i] == outputs[i].1);
        assert(!same_path(all[19], all[22 + i]));
        assert(!same_path(all[22 + i], all[19]));
    }
}

} // verus!

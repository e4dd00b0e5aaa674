//! The canonical public release-gate admission and its corpus manifest.
use vstd::prelude::*;
use vstd::string::*;

use crate::digest::{
    canonical_digest, canonical_hash, items_tree, json_array, json_numbers, json_object,
    json_text, json_texts, member, members_tree, numbers_tree, texts_tree, Json, JsonTree,
};
use crate::release_gate::{
    canonical_model_id, canonical_model_id_list, canonical_model_ids, contrast_id, contrast_id_str,
    effort_name, execution_model_id, expected_contrast_arm_order,
    expected_contrast_arm_order_list, family_name, is_valid_base64_ed25519_signature,
    is_valid_digest, is_valid_identifier, model_identity, parse_canonical_timestamp,
    timestamp_instant, valid_base64_ed25519_signature, valid_digest, valid_identifier,
    CandidateAttemptFailure, CandidateCatalog, CandidateGateError,
    CANDIDATE_CATALOG_RELEASE_IDENTITY_SHA256, CANDIDATE_CONTRAST_OBSERVATION_COUNT,
    CANDIDATE_CONTRAST_PAIR_COUNT, CANDIDATE_CORE_OBSERVATION_COUNT,
    CANDIDATE_MODEL_ID_MAPPING_SHA256, CANDIDATE_MODEL_MATRIX_SHA256,
    CANDIDATE_TASK_IDENTITY_SHA256, RELEASE_GATE_ADMISSION_SCHEMA,
    RELEASE_GATE_CORPUS_MANIFEST_SCHEMA, RELEASE_IDENTITY, SORTED_KEY_JSON,
};
use crate::text::{strings_eq, text_eq};

verus! {

/// Signer reference carried by the canonical public admission.
#[derive(Clone, Debug)]
pub struct ReleaseGateAdmissionSigner {
    /// Stable identifier for the admission signing key.
    pub key_id: String,
    /// Signature algorithm used by the admission signer.
    pub algorithm: String,
}

/// One signed repeat slot and its counterbalanced contrast-arm order.
#[derive(Clone, Debug)]
pub struct ReleaseGateRepeat {
    /// Stable identifier for the repeat.
    pub repeat_id: String,
    /// Scheduled start time for the repeat.
    pub scheduled_at: String,
    /// Ordered contrast arms for the repeat.
    pub contrast_arm_order: Vec<String>,
}

/// Exact public observation universe.
#[derive(Clone, Debug)]
pub struct ReleaseGateObservationUniverse {
    /// Ordered identifiers for all core tasks.
    pub task_ids: Vec<String>,
    /// Ordered identifiers for all model configurations.
    pub model_ids: Vec<String>,
    /// Number of core task and model cells.
    pub raw_cell_count: u64,
    /// Number of paired contrast comparisons.
    pub contrast_pair_count: u64,
    /// Number of individual contrast-arm observations.
    pub contrast_observation_count: u64,
}

/// Signed infrastructure-only retry policy.
#[derive(Clone, Debug)]
pub struct ReleaseGateRetryPolicy {
    /// Maximum number of attempts for one observation.
    pub max_attempts: u8,
    /// Backoff intervals in seconds between retry attempts.
    pub backoff_seconds: Vec<u64>,
    /// Failure classifications that permit a retry.
    pub retryable_classifications: Vec<String>,
    /// Whether model or evaluator failures permit a retry.
    pub model_or_evaluator_failures_retryable: bool,
}

/// One public model-matrix entry.
#[derive(Clone, Debug)]
pub struct ReleaseGateModelConfiguration {
    /// Canonical public model identifier.
    pub model_id: String,
    /// Model family identifier.
    pub family: String,
    /// Configured reasoning-effort level.
    pub reasoning_effort: String,
    /// Synthetic identifier used to select the execution model.
    pub execution_model_id: String,
}

/// Signed fixed model matrix.
#[derive(Clone, Debug)]
pub struct ReleaseGateModelMatrix {
    /// Digest of the complete fixed model matrix.
    pub digest: String,
    /// Ordered configurations in the fixed model matrix.
    pub configurations: Vec<ReleaseGateModelConfiguration>,
}

/// Signed digest binding for one paired contrast.
#[derive(Clone, Debug)]
pub struct ReleaseGateContrastBinding {
    /// Stable identifier for the paired contrast.
    pub contrast_id: String,
    /// Digest of the reference task variant.
    pub reference_variant_digest: String,
    /// Digest of the challenge task variant.
    pub challenge_variant_digest: String,
}

/// Canonical public admission generated and signed by the release protocol.
#[derive(Clone, Debug)]
pub struct ReleaseGateAdmissionV1 {
    /// Schema identifier for the admission document.
    pub schema_version: String,
    /// Domain separator for the admission signature.
    pub signature_domain: String,
    /// Canonical encoding used for the signature preimage.
    pub signature_encoding: String,
    /// Candidate release identity authorized by the admission.
    pub release_identity: String,
    /// Digest of the exact candidate catalog release identity.
    pub catalog_release_identity_digest: String,
    /// Digest of the ordered public task metadata identity.
    pub task_metadata_identity_digest: String,
    /// Digest of the outer corpus commitment manifest.
    pub corpus_commitment_digest: String,
    /// Stable identifier for the private execution plan.
    pub plan_id: String,
    /// Digest of the private execution plan identity.
    pub execution_plan_digest: String,
    /// Digest of the canonical-to-execution model mapping.
    pub model_id_mapping_digest: String,
    /// Time when the authority issued the admission.
    pub issued_at: String,
    /// Earliest permitted collection time.
    pub collection_not_before: String,
    /// Latest permitted collection time.
    pub collection_not_after: String,
    /// Signed schedule for all repeats.
    pub repeat_schedule: Vec<ReleaseGateRepeat>,
    /// Exact public observation universe.
    pub observation_universe: ReleaseGateObservationUniverse,
    /// Signed infrastructure-only retry policy.
    pub infrastructure_retry_policy: ReleaseGateRetryPolicy,
    /// Signed fixed model matrix.
    pub model_matrix: ReleaseGateModelMatrix,
    /// Signed digest bindings for all paired contrasts.
    pub contrast_bindings: Vec<ReleaseGateContrastBinding>,
    /// Public identity of the admission signer.
    pub signer: ReleaseGateAdmissionSigner,
    /// Signature over the canonical admission preimage.
    pub signature: String,
}

/// A canonical admission after its bounded file identity has been checked.
#[derive(Clone, Debug)]
pub struct VerifiedReleaseGateAdmission {
    /// Validated canonical admission document.
    pub admission: ReleaseGateAdmissionV1,
    /// SHA-256 digest of the canonical admission bytes.
    pub canonical_sha256: String,
}

/// Position, in matrix order, of the configuration that comes `k`-th when the
/// fixed matrix is ordered by canonical model identifier.
pub open spec fn model_id_order(k: int) -> int {
    if k == 0 {
        14
    } else if k == 1 {
        12
    } else if k == 2 {
        16
    } else if k == 3 {
        13
    } else if k == 4 {
        15
    } else if k == 5 {
        2
    } else if k == 6 {
        0
    } else if k == 7 {
        4
    } else if k == 8 {
        1
    } else if k == 9 {
        5
    } else if k == 10 {
        3
    } else if k == 11 {
        8
    } else if k == 12 {
        6
    } else if k == 13 {
        10
    } else if k == 14 {
        7
    } else if k == 15 {
        11
    } else {
        9
    }
}

fn model_id_order_of(k: usize) -> (i: usize)
    requires
        k < 17,
    ensures
        i == model_id_order(k as int),
        i < 17,
{
    let order: [usize; 17] = [14, 12, 16, 13, 15, 2, 0, 4, 1, 5, 3, 8, 6, 10, 7, 11, 9];
    order[k]
}

impl ReleaseGateModelConfiguration {
    /// JSON form of the entry.
    pub open spec fn tree(&self) -> JsonTree {
        JsonTree::Object(
            seq![
                ("model_id"@, JsonTree::Text(self.model_id@)),
                ("family"@, JsonTree::Text(self.family@)),
                ("reasoning_effort"@, JsonTree::Text(self.reasoning_effort@)),
                ("execution_model_id"@, JsonTree::Text(self.execution_model_id@)),
            ],
        )
    }

    pub fn to_json(&self) -> (j: Json)
        ensures
            j.tree() == self.tree(),
    {
        let mut m: Vec<(String, Json)> = Vec::new();
        m.push(member("model_id", json_text(self.model_id.as_str())));
        m.push(member("family", json_text(self.family.as_str())));
        m.push(member("reasoning_effort", json_text(self.reasoning_effort.as_str())));
        m.push(member("execution_model_id", json_text(self.execution_model_id.as_str())));
        let ghost ms = m@;
        let j = json_object(m);
        assert(members_tree(ms) =~= self.tree()->Object_0);
        j
    }

    /// Entry `i` of the fixed matrix.
    pub open spec fn is_fixed_entry(&self, i: int) -> bool {
        &&& self.model_id@ == canonical_model_id(i)
        &&& self.execution_model_id@ == execution_model_id(i)
        &&& self.family@ == family_name(i / 6)
        &&& self.reasoning_effort@ == effort_name(i % 6)
    }
}

impl ReleaseGateRepeat {
    pub open spec fn tree(&self) -> JsonTree {
        JsonTree::Object(
            seq![
                ("repeat_id"@, JsonTree::Text(self.repeat_id@)),
                ("scheduled_at"@, JsonTree::Text(self.scheduled_at@)),
                (
                    "contrast_arm_order"@,
                    JsonTree::Array(texts_tree(self.contrast_arm_order.deep_view())),
                ),
            ],
        )
    }

    pub fn to_json(&self) -> (j: Json)
        ensures
            j.tree() == self.tree(),
    {
        let mut m: Vec<(String, Json)> = Vec::new();
        m.push(member("repeat_id", json_text(self.repeat_id.as_str())));
        m.push(member("scheduled_at", json_text(self.scheduled_at.as_str())));
        m.push(member("contrast_arm_order", json_texts(&self.contrast_arm_order)));
        let ghost ms = m@;
        let j = json_object(m);
        assert(members_tree(ms) =~= self.tree()->Object_0);
        j
    }
}

impl ReleaseGateContrastBinding {
    pub open spec fn tree(&self) -> JsonTree {
        JsonTree::Object(
            seq![
                ("contrast_id"@, JsonTree::Text(self.contrast_id@)),
                ("reference_variant_digest"@, JsonTree::Text(self.reference_variant_digest@)),
                ("challenge_variant_digest"@, JsonTree::Text(self.challenge_variant_digest@)),
            ],
        )
    }

    pub fn to_json(&self) -> (j: Json)
        ensures
            j.tree() == self.tree(),
    {
        let mut m: Vec<(String, Json)> = Vec::new();
        m.push(member("contrast_id", json_text(self.contrast_id.as_str())));
        m.push(
            member("reference_variant_digest", json_text(self.reference_variant_digest.as_str())),
        );
        m.push(
            member("challenge_variant_digest", json_text(self.challenge_variant_digest.as_str())),
        );
        let ghost ms = m@;
        let j = json_object(m);
        assert(members_tree(ms) =~= self.tree()->Object_0);
        j
    }
}

/// JSON forms of a sequence of model configurations.
pub open spec fn configurations_tree(c: Seq<ReleaseGateModelConfiguration>) -> Seq<JsonTree> {
    Seq::new(c.len(), |i: int| c[i].tree())
}

/// JSON forms of a sequence of repeats.
pub open spec fn repeats_tree(r: Seq<ReleaseGateRepeat>) -> Seq<JsonTree> {
    Seq::new(r.len(), |i: int| r[i].tree())
}

/// JSON forms of a sequence of contrast bindings.
pub open spec fn bindings_tree(b: Seq<ReleaseGateContrastBinding>) -> Seq<JsonTree> {
    Seq::new(b.len(), |i: int| b[i].tree())
}

fn configurations_json(c: &Vec<ReleaseGateModelConfiguration>) -> (j: Json)
    ensures
        j.tree() == JsonTree::Array(configurations_tree(c@)),
{
    let mut out: Vec<Json> = Vec::new();
    let mut i: usize = 0;
    while i < c.len()
        invariant
            i <= c@.len(),
            out@.len() == i,
            forall|k: int| 0 <= k < i ==> #[trigger] out@[k].tree() == c@[k].tree(),
        decreases c@.len() - i,
    {
        out.push(c[i].to_json());
        i += 1;
    }
    let ghost outs = out@;
    let j = json_array(out);
    assert(items_tree(outs) =~= configurations_tree(c@));
    j
}

fn repeats_json(r: &Vec<ReleaseGateRepeat>) -> (j: Json)
    ensures
        j.tree() == JsonTree::Array(repeats_tree(r@)),
{
    let mut out: Vec<Json> = Vec::new();
    let mut i: usize = 0;
    while i < r.len()
        invariant
            i <= r@.len(),
            out@.len() == i,
            forall|k: int| 0 <= k < i ==> #[trigger] out@[k].tree() == r@[k].tree(),
        decreases r@.len() - i,
    {
        out.push(r[i].to_json());
        i += 1;
    }
    let ghost outs = out@;
    let j = json_array(out);
    assert(items_tree(outs) =~= repeats_tree(r@));
    j
}

fn bindings_json(b: &Vec<ReleaseGateContrastBinding>) -> (j: Json)
    ensures
        j.tree() == JsonTree::Array(bindings_tree(b@)),
{
    let mut out: Vec<Json> = Vec::new();
    let mut i: usize = 0;
    while i < b.len()
        invariant
            i <= b@.len(),
            out@.len() == i,
            forall|k: int| 0 <= k < i ==> #[trigger] out@[k].tree() == b@[k].tree(),
        decreases b@.len() - i,
    {
        out.push(b[i].to_json());
        i += 1;
    }
    let ghost outs = out@;
    let j = json_array(out);
    assert(items_tree(outs) =~= bindings_tree(b@));
    j
}

/// The fixed matrix configurations ordered by canonical model identifier.
pub open spec fn model_id_ordered_tree(c: Seq<ReleaseGateModelConfiguration>) -> JsonTree {
    JsonTree::Array(Seq::new(17, |k: int| c[model_id_order(k)].tree()))
}

impl ReleaseGateAdmissionV1 {
    /// JSON form of the complete admission, including its signature.
    pub open spec fn tree(&self) -> JsonTree {
        let u = self.observation_universe;
        let p = self.infrastructure_retry_policy;
        JsonTree::Object(
            seq![
                ("schema_version"@, JsonTree::Text(self.schema_version@)),
                ("signature_domain"@, JsonTree::Text(self.signature_domain@)),
                ("signature_encoding"@, JsonTree::Text(self.signature_encoding@)),
                ("release_identity"@, JsonTree::Text(self.release_identity@)),
                (
                    "catalog_release_identity_digest"@,
                    JsonTree::Text(self.catalog_release_identity_digest@),
                ),
                (
                    "task_metadata_identity_digest"@,
                    JsonTree::Text(self.task_metadata_identity_digest@),
                ),
                ("corpus_commitment_digest"@, JsonTree::Text(self.corpus_commitment_digest@)),
                ("plan_id"@, JsonTree::Text(self.plan_id@)),
                ("execution_plan_digest"@, JsonTree::Text(self.execution_plan_digest@)),
                ("model_id_mapping_digest"@, JsonTree::Text(self.model_id_mapping_digest@)),
                ("issued_at"@, JsonTree::Text(self.issued_at@)),
                ("collection_not_before"@, JsonTree::Text(self.collection_not_before@)),
                ("collection_not_after"@, JsonTree::Text(self.collection_not_after@)),
                ("repeat_schedule"@, JsonTree::Array(repeats_tree(self.repeat_schedule@))),
                (
                    "observation_universe"@,
                    JsonTree::Object(
                        seq![
                            ("task_ids"@, JsonTree::Array(texts_tree(u.task_ids.deep_view()))),
                            ("model_ids"@, JsonTree::Array(texts_tree(u.model_ids.deep_view()))),
                            ("raw_cell_count"@, JsonTree::Number(u.raw_cell_count)),
                            ("contrast_pair_count"@, JsonTree::Number(u.contrast_pair_count)),
                            (
                                "contrast_observation_count"@,
                                JsonTree::Number(u.contrast_observation_count),
                            ),
                        ],
                    ),
                ),
                (
                    "infrastructure_retry_policy"@,
                    JsonTree::Object(
                        seq![
                            ("max_attempts"@, JsonTree::Number(p.max_attempts as u64)),
                            (
                                "backoff_seconds"@,
                                JsonTree::Array(numbers_tree(p.backoff_seconds@)),
                            ),
                            (
                                "retryable_classifications"@,
                                JsonTree::Array(texts_tree(p.retryable_classifications.deep_view())),
                            ),
                            (
                                "model_or_evaluator_failures_retryable"@,
                                JsonTree::Bool(p.model_or_evaluator_failures_retryable),
                            ),
                        ],
                    ),
                ),
                (
                    "model_matrix"@,
                    JsonTree::Object(
                        seq![
                            ("digest"@, JsonTree::Text(self.model_matrix.digest@)),
                            (
                                "configurations"@,
                                JsonTree::Array(
                                    configurations_tree(self.model_matrix.configurations@),
                                ),
                            ),
                        ],
                    ),
                ),
                ("contrast_bindings"@, JsonTree::Array(bindings_tree(self.contrast_bindings@))),
                (
                    "signer"@,
                    JsonTree::Object(
                        seq![
                            ("key_id"@, JsonTree::Text(self.signer.key_id@)),
                            ("algorithm"@, JsonTree::Text(self.signer.algorithm@)),
                        ],
                    ),
                ),
                ("signature"@, JsonTree::Text(self.signature@)),
            ],
        )
    }

    /// Builds the JSON form of the complete admission.
    pub fn to_json(&self) -> (j: Json)
        ensures
            j.tree() == self.tree(),
    {
        let u = &self.observation_universe;
        let mut um: Vec<(String, Json)> = Vec::new();
        um.push(member("task_ids", json_texts(&u.task_ids)));
        um.push(member("model_ids", json_texts(&u.model_ids)));
        um.push(member("raw_cell_count", Json::Number(u.raw_cell_count)));
        um.push(member("contrast_pair_count", Json::Number(u.contrast_pair_count)));
        um.push(member("contrast_observation_count", Json::Number(u.contrast_observation_count)));
        let ghost ums = um@;
        let universe = json_object(um);
        assert(members_tree(ums) =~= self.tree()->Object_0[14].1->Object_0);
        let p = &self.infrastructure_retry_policy;
        let mut pm: Vec<(String, Json)> = Vec::new();
        pm.push(member("max_attempts", Json::Number(p.max_attempts as u64)));
        pm.push(member("backoff_seconds", json_numbers(&p.backoff_seconds)));
        pm.push(member("retryable_classifications", json_texts(&p.retryable_classifications)));
        pm.push(
            member(
                "model_or_evaluator_failures_retryable",
                Json::Bool(p.model_or_evaluator_failures_retryable),
            ),
        );
        let ghost pms = pm@;
        let policy = json_object(pm);
        assert(members_tree(pms) =~= self.tree()->Object_0[15].1->Object_0);
        let mut mm: Vec<(String, Json)> = Vec::new();
        mm.push(member("digest", json_text(self.model_matrix.digest.as_str())));
        mm.push(member("configurations", configurations_json(&self.model_matrix.configurations)));
        let ghost mms = mm@;
        let matrix = json_object(mm);
        assert(members_tree(mms) =~= self.tree()->Object_0[16].1->Object_0);
        let mut sm: Vec<(String, Json)> = Vec::new();
        sm.push(member("key_id", json_text(self.signer.key_id.as_str())));
        sm.push(member("algorithm", json_text(self.signer.algorithm.as_str())));
        let ghost sms = sm@;
        let signer = json_object(sm);
        assert(members_tree(sms) =~= self.tree()->Object_0[18].1->Object_0);
        let mut m: Vec<(String, Json)> = Vec::new();
        m.push(member("schema_version", json_text(self.schema_version.as_str())));
        m.push(member("signature_domain", json_text(self.signature_domain.as_str())));
        m.push(member("signature_encoding", json_text(self.signature_encoding.as_str())));
        m.push(member("release_identity", json_text(self.release_identity.as_str())));
        m.push(
            member(
                "catalog_release_identity_digest",
                json_text(self.catalog_release_identity_digest.as_str()),
            ),
        );
        m.push(
            member(
                "task_metadata_identity_digest",
                json_text(self.task_metadata_identity_digest.as_str()),
            ),
        );
        m.push(
            member("corpus_commitment_digest", json_text(self.corpus_commitment_digest.as_str())),
        );
        m.push(member("plan_id", json_text(self.plan_id.as_str())));
        m.push(member("execution_plan_digest", json_text(self.execution_plan_digest.as_str())));
        m.push(
            member("model_id_mapping_digest", json_text(self.model_id_mapping_digest.as_str())),
        );
        m.push(member("issued_at", json_text(self.issued_at.as_str())));
        m.push(member("collection_not_before", json_text(self.collection_not_before.as_str())));
        m.push(member("collection_not_after", json_text(self.collection_not_after.as_str())));
        m.push(member("repeat_schedule", repeats_json(&self.repeat_schedule)));
        m.push(member("observation_universe", universe));
        m.push(member("infrastructure_retry_policy", policy));
        m.push(member("model_matrix", matrix));
        m.push(member("contrast_bindings", bindings_json(&self.contrast_bindings)));
        m.push(member("signer", signer));
        m.push(member("signature", json_text(self.signature.as_str())));
        let ghost ms = m@;
        let j = json_object(m);
        assert(members_tree(ms) =~= self.tree()->Object_0);
        j
    }

    /// The canonical content address of the complete admission.
    pub fn canonical_sha256(&self) -> (r: Result<String, CandidateGateError>)
        ensures
            match r {
                Ok(d) => canonical_digest(self.tree()) == Some(d@),
                Err(_) => canonical_digest(self.tree()) is None,
            },
    {
        match canonical_hash(&self.to_json()) {
            Some(d) => Ok(d),
            None => Err(CandidateGateError::new("candidate value cannot be canonically hashed")),
        }
    }

    // -----------------------------------------------------------------------
    // The validity of a public admission
    // -----------------------------------------------------------------------
    /// The admission names the immutable candidate release.
    pub open spec fn identity_ok(&self) -> bool {
        &&& self.schema_version@ == RELEASE_GATE_ADMISSION_SCHEMA@
        &&& self.signature_domain@ == RELEASE_GATE_ADMISSION_SCHEMA@
        &&& self.signature_encoding@ == SORTED_KEY_JSON@
        &&& self.release_identity@ == RELEASE_IDENTITY@
        &&& self.catalog_release_identity_digest@ == CANDIDATE_CATALOG_RELEASE_IDENTITY_SHA256@
        &&& self.task_metadata_identity_digest@ == CANDIDATE_TASK_IDENTITY_SHA256@
    }

    /// The plan and commitment references are well formed.
    pub open spec fn plan_binding_ok(&self) -> bool {
        &&& valid_digest(self.corpus_commitment_digest@)
        &&& valid_digest(self.execution_plan_digest@)
        &&& self.model_id_mapping_digest@ == CANDIDATE_MODEL_ID_MAPPING_SHA256@
        &&& valid_identifier(self.plan_id@)
    }

    /// The signer is the expected Ed25519 key.
    pub open spec fn signer_ok(&self, expected_key_id: Seq<char>) -> bool {
        &&& self.signer.key_id@ == expected_key_id
        &&& valid_identifier(self.signer.key_id@)
        &&& self.signer.algorithm@ == "ed25519"@
        &&& valid_base64_ed25519_signature(self.signature@)
    }

    /// Issue time, window start and window end are canonical and strictly ordered.
    pub open spec fn window_ok(&self) -> bool {
        let issued = timestamp_instant(self.issued_at@);
        let not_before = timestamp_instant(self.collection_not_before@);
        let not_after = timestamp_instant(self.collection_not_after@);
        &&& issued is Some && not_before is Some && not_after is Some
        &&& issued->0 < not_before->0 < not_after->0
    }

    /// Instant of repeat `i`.
    pub open spec fn repeat_instant(&self, i: int) -> i128 {
        timestamp_instant(self.repeat_schedule@[i].scheduled_at@)->0
    }

    /// Exactly three distinct repeats, in strictly increasing time inside the
    /// window, each with its counterbalanced arm order.
    pub open spec fn schedule_ok(&self) -> bool {
        let s = self.repeat_schedule@;
        let not_before = timestamp_instant(self.collection_not_before@)->0;
        let not_after = timestamp_instant(self.collection_not_after@)->0;
        &&& s.len() == 3
        &&& forall|i: int|
            0 <= i < 3 ==> {
                &&& timestamp_instant(#[trigger] s[i].scheduled_at@) is Some
                &&& valid_identifier(s[i].repeat_id@)
                &&& not_before <= self.repeat_instant(i) <= not_after
                &&& s[i].contrast_arm_order.deep_view() == expected_contrast_arm_order(i)
            }
        &&& forall|i: int, j: int| 0 <= i < j < 3 ==> s[i].repeat_id@ != s[j].repeat_id@
        &&& forall|i: int| 0 <= i < 2 ==> #[trigger] self.repeat_instant(i) < self.repeat_instant(i + 1)
    }

    /// The observation universe is the full catalog by the fixed matrix.
    pub open spec fn universe_ok(&self, task_ids: Seq<Seq<char>>) -> bool {
        let u = self.observation_universe;
        &&& u.task_ids.deep_view() == task_ids
        &&& u.model_ids.deep_view() == canonical_model_ids()
        &&& u.raw_cell_count == CANDIDATE_CORE_OBSERVATION_COUNT
        &&& u.contrast_pair_count == CANDIDATE_CONTRAST_PAIR_COUNT
        &&& u.contrast_observation_count == CANDIDATE_CONTRAST_OBSERVATION_COUNT
    }

    /// The retry policy is the immutable infrastructure-only policy.
    pub open spec fn retry_policy_ok(&self) -> bool {
        let p = self.infrastructure_retry_policy;
        &&& p.max_attempts == 3
        &&& p.backoff_seconds@ == seq![0u64, 30u64, 90u64]
        &&& p.retryable_classifications.deep_view() == seq!["pre_model_admission"@]
        &&& !p.model_or_evaluator_failures_retryable
    }

    /// The matrix is the fixed seventeen-entry matrix and its digest matches
    /// the entries ordered by canonical model identifier.
    pub open spec fn model_matrix_ok(&self) -> bool {
        let c = self.model_matrix.configurations@;
        &&& c.len() == 17
        &&& self.model_matrix.digest@ == CANDIDATE_MODEL_MATRIX_SHA256@
        &&& forall|i: int| 0 <= i < 17 ==> (#[trigger] c[i]).is_fixed_entry(i)
        &&& canonical_digest(model_id_ordered_tree(c)) == Some(self.model_matrix.digest@)
    }

    /// The three contrasts in order, with six distinct valid variant digests.
    pub open spec fn contrast_bindings_ok(&self) -> bool {
        let b = self.contrast_bindings@;
        &&& b.len() == 3
        &&& forall|i: int|
            0 <= i < 3 ==> {
                &&& (#[trigger] b[i]).contrast_id@ == contrast_id(i)
                &&& valid_digest(b[i].reference_variant_digest@)
                &&& valid_digest(b[i].challenge_variant_digest@)
            }
        &&& forall|k: int, l: int|
            0 <= k < l < 6 ==> #[trigger] variant_digest(b, k) != #[trigger] variant_digest(b, l)
    }

    /// The complete public universe is the immutable candidate universe.
    pub open spec fn valid(&self, expected_key_id: Seq<char>, task_ids: Seq<Seq<char>>) -> bool {
        &&& self.identity_ok()
        &&& self.plan_binding_ok()
        &&& self.signer_ok(expected_key_id)
        &&& self.window_ok()
        &&& self.schedule_ok()
        &&& self.universe_ok(task_ids)
        &&& self.retry_policy_ok()
        &&& self.model_matrix_ok()
        &&& self.contrast_bindings_ok()
    }

    /// Validates the complete immutable public universe and the expected authority key ID.
    pub fn validate(&self, expected_key_id: &str, catalog: &CandidateCatalog) -> (r: Result<
        (),
        CandidateGateError,
    >)
        ensures
            r is Ok <==> self.valid(expected_key_id@, catalog@),
    {
        if !(text_eq(self.schema_version.as_str(), RELEASE_GATE_ADMISSION_SCHEMA) && text_eq(
            self.signature_domain.as_str(),
            RELEASE_GATE_ADMISSION_SCHEMA,
        ) && text_eq(self.signature_encoding.as_str(), SORTED_KEY_JSON) && text_eq(
            self.release_identity.as_str(),
            RELEASE_IDENTITY,
        ) && text_eq(
            self.catalog_release_identity_digest.as_str(),
            CANDIDATE_CATALOG_RELEASE_IDENTITY_SHA256,
        ) && text_eq(
            self.task_metadata_identity_digest.as_str(),
            CANDIDATE_TASK_IDENTITY_SHA256,
        )) {
            return Err(
                CandidateGateError::new(
                    "release-gate admission identity is not the immutable candidate identity",
                ),
            );
        }
        if !(is_valid_digest(self.corpus_commitment_digest.as_str()) && is_valid_digest(
            self.execution_plan_digest.as_str(),
        ) && text_eq(self.model_id_mapping_digest.as_str(), CANDIDATE_MODEL_ID_MAPPING_SHA256)
            && is_valid_identifier(self.plan_id.as_str())) {
            return Err(
                CandidateGateError::new(
                    "release-gate admission plan or commitment identity is invalid",
                ),
            );
        }
        if !(text_eq(self.signer.key_id.as_str(), expected_key_id) && is_valid_identifier(
            self.signer.key_id.as_str(),
        ) && text_eq(self.signer.algorithm.as_str(), "ed25519")
            && is_valid_base64_ed25519_signature(self.signature.as_str())) {
            return Err(CandidateGateError::new("release-gate admission signer binding is invalid"));
        }
        let issued_at = parse_canonical_timestamp(self.issued_at.as_str())?;
        let not_before = parse_canonical_timestamp(self.collection_not_before.as_str())?;
        let not_after = parse_canonical_timestamp(self.collection_not_after.as_str())?;
        if issued_at >= not_before || not_before >= not_after {
            return Err(
                CandidateGateError::new("release-gate admission collection window is invalid"),
            );
        }
        self.validate_schedule(not_before, not_after)?;
        self.validate_universe(catalog)?;
        self.validate_retry_policy()?;
        self.validate_model_matrix()?;
        self.validate_contrast_bindings()?;
        Ok(())
    }

    #[verifier::rlimit(80)]
    #[verifier::spinoff_prover]
    fn validate_schedule(&self, not_before: i128, not_after: i128) -> (r: Result<
        (),
        CandidateGateError,
    >)
        requires
            timestamp_instant(self.collection_not_before@) == Some(not_before),
            timestamp_instant(self.collection_not_after@) == Some(not_after),
        ensures
            r is Ok <==> self.schedule_ok(),
    {
        let s = &self.repeat_schedule;
        if s.len() != 3 {
            return Err(
                CandidateGateError::new(
                    "release-gate admission must contain exactly three repeats",
                ),
            );
        }
        let mut previous: i128 = 0;
        let mut index: usize = 0;
        while index < 3
            invariant
                s@.len() == 3,
                s == &self.repeat_schedule,
                index <= 3,
                timestamp_instant(self.collection_not_before@) == Some(not_before),
                timestamp_instant(self.collection_not_after@) == Some(not_after),
                forall|i: int|
                    0 <= i < index ==> {
                        &&& timestamp_instant(#[trigger] s@[i].scheduled_at@) is Some
                        &&& valid_identifier(s@[i].repeat_id@)
                        &&& not_before <= self.repeat_instant(i) <= not_after
                        &&& s@[i].contrast_arm_order.deep_view() == expected_contrast_arm_order(i)
                    },
                forall|i: int, j: int| 0 <= i < j < index ==> s@[i].repeat_id@ != s@[j].repeat_id@,
                forall|i: int| 0 <= i < index - 1 ==> #[trigger] self.repeat_instant(i) < self.repeat_instant(i + 1),
                index > 0 ==> previous == self.repeat_instant(index - 1),
            decreases 3 - index,
        {
            let repeat = &s[index];
            let scheduled_at = match parse_canonical_timestamp(repeat.scheduled_at.as_str()) {
                Ok(t) => t,
                Err(e) => {
                    return Err(e);
                },
            };
            let fresh = repeat_id_is_fresh(s, index);
            let expected = expected_contrast_arm_order_list(index);
            if !is_valid_identifier(repeat.repeat_id.as_str()) || !fresh || scheduled_at
                < not_before || scheduled_at > not_after || (index > 0 && scheduled_at
                <= previous) || !strings_eq(&repeat.contrast_arm_order, &expected) {
                return Err(CandidateGateError::new("release-gate repeat schedule is invalid"));
            }
            previous = scheduled_at;
            index += 1;
        }
        Ok(())
    }

    fn validate_universe(&self, catalog: &CandidateCatalog) -> (r: Result<(), CandidateGateError>)
        ensures
            r is Ok <==> self.universe_ok(catalog@),
    {
        let u = &self.observation_universe;
        let models = canonical_model_id_list();
        if !strings_eq(&u.task_ids, catalog.task_ids()) || !strings_eq(&u.model_ids, &models)
            || u.raw_cell_count != CANDIDATE_CORE_OBSERVATION_COUNT || u.contrast_pair_count
            != CANDIDATE_CONTRAST_PAIR_COUNT || u.contrast_observation_count
            != CANDIDATE_CONTRAST_OBSERVATION_COUNT {
            return Err(CandidateGateError::new("release-gate observation universe is invalid"));
        }
        Ok(())
    }

    fn validate_retry_policy(&self) -> (r: Result<(), CandidateGateError>)
        ensures
            r is Ok <==> self.retry_policy_ok(),
    {
        let p = &self.infrastructure_retry_policy;
        let mut ok = p.max_attempts == 3 && p.backoff_seconds.len() == 3
            && p.retryable_classifications.len() == 1 && !p.model_or_evaluator_failures_retryable;
        if ok {
            ok = p.backoff_seconds[0] == 0 && p.backoff_seconds[1] == 30 && p.backoff_seconds[2]
                == 90 && text_eq(p.retryable_classifications[0].as_str(), "pre_model_admission");
        }
        proof {
            if p.backoff_seconds@.len() == 3 && p.retryable_classifications@.len() == 1 {
                if p.backoff_seconds@[0] == 0 && p.backoff_seconds@[1] == 30
                    && p.backoff_seconds@[2] == 90 {
                    assert(p.backoff_seconds@ =~= seq![0u64, 30u64, 90u64]);
                }
                assert(p.retryable_classifications.deep_view()[0]
                    == p.retryable_classifications@[0]@);
                if p.retryable_classifications@[0]@ == "pre_model_admission"@ {
                    assert(p.retryable_classifications.deep_view() =~= seq![
                        "pre_model_admission"@,
                    ]);
                }
            }
            if p.backoff_seconds@ == seq![0u64, 30u64, 90u64] {
                assert(p.backoff_seconds@.len() == 3);
            }
            if p.retryable_classifications.deep_view() == seq!["pre_model_admission"@] {
                assert(p.retryable_classifications.deep_view().len() == 1);
            }
        }
        if !ok {
            return Err(
                CandidateGateError::new(
                    "release-gate retry policy is not the immutable infrastructure-only policy",
                ),
            );
        }
        Ok(())
    }

    fn validate_model_matrix(&self) -> (r: Result<(), CandidateGateError>)
        ensures
            r is Ok <==> self.model_matrix_ok(),
    {
        let c = &self.model_matrix.configurations;
        if c.len() != 17 || !text_eq(self.model_matrix.digest.as_str(), CANDIDATE_MODEL_MATRIX_SHA256) {
            return Err(CandidateGateError::new("release-gate model matrix is invalid"));
        }
        let mut i: usize = 0;
        while i < 17
            invariant
                c == &self.model_matrix.configurations,
                c@.len() == 17,
                i <= 17,
                forall|k: int| 0 <= k < i ==> (#[trigger] c@[k]).is_fixed_entry(k),
            decreases 17 - i,
        {
            let expected = model_identity(i);
            let entry = &c[i];
            if !(text_eq(entry.model_id.as_str(), expected.canonical_model_id.as_str()) && text_eq(
                entry.execution_model_id.as_str(),
                expected.execution_model_id.as_str(),
            ) && text_eq(entry.family.as_str(), expected.family.as_str()) && text_eq(
                entry.reasoning_effort.as_str(),
                expected.reasoning_effort.as_str(),
            )) {
                return Err(CandidateGateError::new("release-gate model matrix entry is invalid"));
            }
            i += 1;
        }
        let mut ordered: Vec<Json> = Vec::new();
        let mut k: usize = 0;
        while k < 17
            invariant
                c@.len() == 17,
                k <= 17,
                ordered@.len() == k,
                forall|l: int| 0 <= l < k ==> #[trigger] ordered@[l].tree() == c@[model_id_order(l)].tree(),
            decreases 17 - k,
        {
            ordered.push(c[model_id_order_of(k)].to_json());
            k += 1;
        }
        let ghost os = ordered@;
        let ordered_json = json_array(ordered);
        assert(ordered_json.tree() == model_id_ordered_tree(c@)) by {
            assert(items_tree(os) =~= Seq::new(17, |l: int| c@[model_id_order(l)].tree()));
        }
        match canonical_hash(&ordered_json) {
            Some(digest) => {
                if digest != self.model_matrix.digest {
                    return Err(
                        CandidateGateError::new(
                            "release-gate model matrix digest does not match its configurations",
                        ),
                    );
                }
                Ok(())
            },
            None => Err(CandidateGateError::new("candidate value cannot be canonically hashed")),
        }
    }

    fn validate_contrast_bindings(&self) -> (r: Result<(), CandidateGateError>)
        ensures
            r is Ok <==> self.contrast_bindings_ok(),
    {
        let b = &self.contrast_bindings;
        if b.len() != 3 {
            return Err(
                CandidateGateError::new("release-gate admission must bind exactly three contrasts"),
            );
        }
        let mut seen: Vec<String> = Vec::new();
        let mut i: usize = 0;
        while i < 3
            invariant
                b == &self.contrast_bindings,
                b@.len() == 3,
                i <= 3,
                seen@.len() == 2 * i,
                forall|k: int| 0 <= k < 2 * i ==> #[trigger] seen@[k]@ == variant_digest(b@, k),
                forall|k: int|
                    0 <= k < i ==> {
                        &&& (#[trigger] b@[k]).contrast_id@ == contrast_id(k)
                        &&& valid_digest(b@[k].reference_variant_digest@)
                        &&& valid_digest(b@[k].challenge_variant_digest@)
                    },
                forall|k: int, l: int|
                    0 <= k < l < 2 * i ==> #[trigger] variant_digest(b@, k) != #[trigger] variant_digest(b@, l),
            decreases 3 - i,
        {
            let binding = &b[i];
            let ok = text_eq(binding.contrast_id.as_str(), contrast_id_str(i)) && is_valid_digest(
                binding.reference_variant_digest.as_str(),
            ) && is_valid_digest(binding.challenge_variant_digest.as_str());
            if !ok {
                return Err(
                    CandidateGateError::new("release-gate contrast binding is invalid or reused"),
                );
            }
            let mut k: usize = 0;
            while k < seen.len()
                invariant
                    seen@.len() == 2 * i,
                    i < 3,
                    b@.len() == 3,
                    *binding == b@[i as int],
                    b == &self.contrast_bindings,
                    k <= seen@.len(),
                    forall|l: int| 0 <= l < 2 * i ==> #[trigger] seen@[l]@ == variant_digest(b@, l),
                    forall|l: int|
                        0 <= l < k ==> #[trigger] variant_digest(b@, l) != variant_digest(b@, 2 * i)
                            && variant_digest(b@, l) != variant_digest(b@, 2 * i + 1),
                decreases seen@.len() - k,
            {
                if seen[k] == binding.reference_variant_digest || seen[k]
                    == binding.challenge_variant_digest {
                    proof {
                        lemma_variant_digest_pair(b@, i as int);
                        if seen@[k as int]@ == binding.reference_variant_digest@ {
                            assert(variant_digest(b@, k as int) == variant_digest(b@, 2 * i));
                        } else {
                            assert(variant_digest(b@, k as int) == variant_digest(b@, 2 * i + 1));
                        }
                    }
                    return Err(
                        CandidateGateError::new(
                            "release-gate contrast binding is invalid or reused",
                        ),
                    );
                }
                k += 1;
            }
            proof {
                lemma_variant_digest_pair(b@, i as int);
            }
            if binding.reference_variant_digest == binding.challenge_variant_digest {
                assert(variant_digest(b@, 2 * i) == variant_digest(b@, 2 * i + 1));
                return Err(
                    CandidateGateError::new("release-gate contrast binding is invalid or reused"),
                );
            }
            seen.push(binding.reference_variant_digest.clone());
            seen.push(binding.challenge_variant_digest.clone());
            i += 1;
        }
        Ok(())
    }

    /// Ensures execution occurs in the signed collection window.
    pub fn validate_execution_time(&self, observed_at: &str) -> (r: Result<(), CandidateGateError>)
        ensures
            r is Ok <==> self.in_collection_window(observed_at@),
    {
        let observed = parse_canonical_timestamp(observed_at)?;
        let not_before = parse_canonical_timestamp(self.collection_not_before.as_str())?;
        let not_after = parse_canonical_timestamp(self.collection_not_after.as_str())?;
        if observed < not_before || observed > not_after {
            return Err(
                CandidateGateError::new(
                    "candidate execution is outside the signed collection window",
                ),
            );
        }
        Ok(())
    }

    /// `observed_at` is a canonical instant inside the signed collection window.
    pub open spec fn in_collection_window(&self, observed_at: Seq<char>) -> bool {
        let observed = timestamp_instant(observed_at);
        let not_before = timestamp_instant(self.collection_not_before@);
        let not_after = timestamp_instant(self.collection_not_after@);
        &&& observed is Some && not_before is Some && not_after is Some
        &&& not_before->0 <= observed->0 <= not_after->0
    }

    /// Index of the first repeat with the given identifier.
    pub open spec fn repeat_position(&self, repeat_id: Seq<char>) -> Option<int> {
        let s = self.repeat_schedule@;
        if exists|i: int| 0 <= i < s.len() && s[i].repeat_id@ == repeat_id {
            let i = choose|i: int|
                0 <= i < s.len() && s[i].repeat_id@ == repeat_id && forall|j: int|
                    0 <= j < i ==> s[j].repeat_id@ != repeat_id;
            Some(i)
        } else {
            None
        }
    }

    /// `observed_at` lies in the time partition of the selected repeat: from
    /// its own start up to, not including, the start of the next repeat.
    pub open spec fn in_repeat_partition(&self, repeat_id: Seq<char>, observed_at: Seq<char>) -> bool {
        let s = self.repeat_schedule@;
        let observed = timestamp_instant(observed_at)->0;
        &&& self.in_collection_window(observed_at)
        &&& self.repeat_position(repeat_id) is Some
        &&& {
            let i = self.repeat_position(repeat_id)->0;
            &&& timestamp_instant(s[i].scheduled_at@) is Some
            &&& timestamp_instant(s[i].scheduled_at@)->0 <= observed
            &&& i + 1 < s.len() ==> {
                &&& timestamp_instant(s[i + 1].scheduled_at@) is Some
                &&& observed < timestamp_instant(s[i + 1].scheduled_at@)->0
            }
        }
    }

    /// Finds the first repeat with the given identifier.
    pub fn find_repeat(&self, repeat_id: &str) -> (r: Option<usize>)
        ensures
            match r {
                Some(i) => self.repeat_position(repeat_id@) == Some(i as int) && i
                    < self.repeat_schedule@.len(),
                None => self.repeat_position(repeat_id@) is None,
            },
    {
        let s = &self.repeat_schedule;
        let mut i: usize = 0;
        while i < s.len()
            invariant
                s == &self.repeat_schedule,
                i <= s@.len(),
                forall|j: int| 0 <= j < i ==> s@[j].repeat_id@ != repeat_id@,
            decreases s@.len() - i,
        {
            if text_eq(s[i].repeat_id.as_str(), repeat_id) {
                proof {
                    let w = choose|w: int|
                        0 <= w < s@.len() && s@[w].repeat_id@ == repeat_id@ && forall|j: int|
                            0 <= j < w ==> s@[j].repeat_id@ != repeat_id@;
                    assert(w == i as int) by {
                        if w < i {
                        } else if w > i {
                            assert(s@[i as int].repeat_id@ == repeat_id@);
                        }
                    }
                }
                return Some(i);
            }
            i += 1;
        }
        None
    }

    /// Validates one selected repeat's nonoverlapping signed time partition.
    pub fn validate_repeat_execution_time(&self, repeat_id: &str, observed_at: &str) -> (r: Result<
        (),
        CandidateGateError,
    >)
        ensures
            r is Ok <==> self.in_repeat_partition(repeat_id@, observed_at@),
    {
        self.validate_execution_time(observed_at)?;
        let observed = parse_canonical_timestamp(observed_at)?;
        let index = match self.find_repeat(repeat_id) {
            Some(i) => i,
            None => {
                return Err(
                    CandidateGateError::new("candidate repeat is not in the signed schedule"),
                );
            },
        };
        let scheduled = parse_canonical_timestamp(
            self.repeat_schedule[index].scheduled_at.as_str(),
        )?;
        let mut before_next = true;
        if index < self.repeat_schedule.len() - 1 {
            let next = parse_canonical_timestamp(
                self.repeat_schedule[index + 1].scheduled_at.as_str(),
            )?;
            before_next = observed < next;
        }
        if observed < scheduled || !before_next {
            return Err(
                CandidateGateError::new(
                    "candidate execution is outside the selected repeat time partition",
                ),
            );
        }
        Ok(())
    }

    /// The delay owed before attempt `attempt_number` under the signed policy.
    pub open spec fn attempt_delay(&self, attempt_number: u8) -> Option<u64> {
        let p = self.infrastructure_retry_policy;
        if 1 <= attempt_number <= p.max_attempts {
            Some(p.backoff_seconds@[attempt_number - 1])
        } else {
            None
        }
    }

    /// Returns the scheduled delay for an exact one-based attempt number.
    pub fn scheduled_attempt_delay(&self, attempt_number: u8) -> (r: Result<u64, CandidateGateError>)
        requires
            1 <= attempt_number <= self.infrastructure_retry_policy.max_attempts
                ==> attempt_number <= self.infrastructure_retry_policy.backoff_seconds@.len(),
        ensures
            match r {
                Ok(d) => self.attempt_delay(attempt_number) == Some(d),
                Err(_) => self.attempt_delay(attempt_number) is None,
            },
    {
        if !(1 <= attempt_number && attempt_number <= self.infrastructure_retry_policy.max_attempts) {
            return Err(
                CandidateGateError::new(
                    "candidate attempt number is outside the signed retry policy",
                ),
            );
        }
        Ok(self.infrastructure_retry_policy.backoff_seconds[(attempt_number - 1) as usize])
    }

    /// The delay before the next attempt after attempt `attempt_number`
    /// failed: `None` after a model start, a failure that is not pre-model
    /// admission, or the last admitted attempt.
    pub open spec fn retry_delay(
        &self,
        attempt_number: u8,
        model_started: bool,
        classification: CandidateAttemptFailure,
    ) -> Option<u64> {
        if model_started || classification != CandidateAttemptFailure::PreModelAdmission
            || next_attempt_number(attempt_number) > self.infrastructure_retry_policy.max_attempts {
            None
        } else {
            self.attempt_delay(next_attempt_number(attempt_number))
        }
    }

    /// Returns the next delay only for a pre-model retryable infrastructure failure.
    pub fn retry_after_failure(
        &self,
        attempt_number: u8,
        model_started: bool,
        classification: CandidateAttemptFailure,
    ) -> (r: Result<Option<u64>, CandidateGateError>)
        requires
            1 <= attempt_number <= self.infrastructure_retry_policy.max_attempts
                ==> attempt_number <= self.infrastructure_retry_policy.backoff_seconds@.len(),
            1 <= attempt_number <= self.infrastructure_retry_policy.max_attempts && !model_started
                && classification == CandidateAttemptFailure::PreModelAdmission && next_attempt_number(
                attempt_number,
            ) <= self.infrastructure_retry_policy.max_attempts ==> next_attempt_number(attempt_number)
                <= self.infrastructure_retry_policy.backoff_seconds@.len(),
        ensures
            match r {
                Err(_) => self.attempt_delay(attempt_number) is None,
                Ok(next) => {
                    &&& self.attempt_delay(attempt_number) is Some
                    &&& next == self.retry_delay(attempt_number, model_started, classification)
                },
            },
    {
        self.scheduled_attempt_delay(attempt_number)?;
        if model_started || !classification.is_retryable_infrastructure() {
            return Ok(None);
        }
        let next_attempt = attempt_number.saturating_add(1);
        if next_attempt > self.infrastructure_retry_policy.max_attempts {
            return Ok(None);
        }
        Ok(Some(self.scheduled_attempt_delay(next_attempt)?))
    }
}

proof fn lemma_variant_digest_pair(b: Seq<ReleaseGateContrastBinding>, i: int)
    requires
        0 <= i,
    ensures
        variant_digest(b, 2 * i) == b[i].reference_variant_digest@,
        variant_digest(b, 2 * i + 1) == b[i].challenge_variant_digest@,
{
    assert((2 * i) / 2 == i && (2 * i) % 2 == 0) by (nonlinear_arith)
        requires
            0 <= i,
    ;
    assert((2 * i + 1) / 2 == i && (2 * i + 1) % 2 == 1) by (nonlinear_arith)
        requires
            0 <= i,
    ;
}

/// No repeat before `index` has the identifier of repeat `index`.
fn repeat_id_is_fresh(s: &Vec<ReleaseGateRepeat>, index: usize) -> (fresh: bool)
    requires
        index < s@.len(),
    ensures
        fresh <==> forall|l: int| 0 <= l < index ==> s@[l].repeat_id@ != s@[index as int].repeat_id@,
{
    let mut k: usize = 0;
    while k < index
        invariant
            k <= index < s@.len(),
            forall|l: int| 0 <= l < k ==> s@[l].repeat_id@ != s@[index as int].repeat_id@,
        decreases index - k,
    {
        if s[k].repeat_id == s[index].repeat_id {
            return false;
        }
        k += 1;
    }
    true
}

/// The attempt after `n`, saturating at the largest attempt number.
pub open spec fn next_attempt_number(n: u8) -> u8 {
    if n == 255 {
        255
    } else {
        (n + 1) as u8
    }
}

/// Variant digest `k` of the bindings: reference then challenge, per contrast.
pub open spec fn variant_digest(b: Seq<ReleaseGateContrastBinding>, k: int) -> Seq<char> {
    if k % 2 == 0 {
        b[k / 2].reference_variant_digest@
    } else {
        b[k / 2].challenge_variant_digest@
    }
}

/// Public-safe outer manifest that separates the 72-task core commitment from
/// the private six-task contrast commitment.
pub struct ReleaseGateCorpusManifestV1 {
    /// Schema identifier for the corpus manifest.
    pub schema_version: String,
    /// Candidate release identity bound by the manifest.
    pub release_identity: String,
    /// Digest of the exact candidate catalog release identity.
    pub catalog_release_identity_digest: String,
    /// Digest of the ordered public task metadata identity.
    pub task_metadata_identity_digest: String,
    /// Canonical JSON encoding used for the manifest.
    pub canonicalization: String,
    /// Number of tasks in the core corpus.
    pub core_task_count: u64,
    /// Number of tasks in the contrast corpus.
    pub contrast_task_count: u64,
    /// SHA-256 digest of the private core corpus commitment.
    pub core_corpus_commitment_sha256: String,
    /// SHA-256 digest of the private contrast corpus commitment.
    pub contrast_corpus_commitment_sha256: String,
}

impl ReleaseGateCorpusManifestV1 {
    /// JSON form of the manifest.
    pub open spec fn tree(&self) -> JsonTree {
        JsonTree::Object(
            seq![
                ("schema_version"@, JsonTree::Text(self.schema_version@)),
                ("release_identity"@, JsonTree::Text(self.release_identity@)),
                (
                    "catalog_release_identity_digest"@,
                    JsonTree::Text(self.catalog_release_identity_digest@),
                ),
                ("task_metadata_identity_digest"@, JsonTree::Text(self.task_metadata_identity_digest@)),
                ("canonicalization"@, JsonTree::Text(self.canonicalization@)),
                ("core_task_count"@, JsonTree::Number(self.core_task_count)),
                ("contrast_task_count"@, JsonTree::Number(self.contrast_task_count)),
                ("core_corpus_commitment_sha256"@, JsonTree::Text(self.core_corpus_commitment_sha256@)),
                (
                    "contrast_corpus_commitment_sha256"@,
                    JsonTree::Text(self.contrast_corpus_commitment_sha256@),
                ),
            ],
        )
    }

    /// Builds the JSON form of the manifest.
    pub fn to_json(&self) -> (j: Json)
        ensures
            j.tree() == self.tree(),
    {
        let mut m: Vec<(String, Json)> = Vec::new();
        m.push(member("schema_version", json_text(self.schema_version.as_str())));
        m.push(member("release_identity", json_text(self.release_identity.as_str())));
        m.push(
            member("catalog_release_identity_digest", json_text(self.catalog_release_identity_digest.as_str())),
        );
        m.push(member("task_metadata_identity_digest", json_text(self.task_metadata_identity_digest.as_str())));
        m.push(member("canonicalization", json_text(self.canonicalization.as_str())));
        m.push(member("core_task_count", Json::Number(self.core_task_count)));
        m.push(member("contrast_task_count", Json::Number(self.contrast_task_count)));
        m.push(member("core_corpus_commitment_sha256", json_text(self.core_corpus_commitment_sha256.as_str())));
        m.push(
            member(
                "contrast_corpus_commitment_sha256",
                json_text(self.contrast_corpus_commitment_sha256.as_str()),
            ),
        );
        let ghost ms = m@;
        let j = json_object(m);
        assert(members_tree(ms) =~= self.tree()->Object_0);
        j
    }

    /// The manifest names the candidate release and two distinct commitments.
    pub open spec fn valid(&self) -> bool {
        &&& self.schema_version@ == RELEASE_GATE_CORPUS_MANIFEST_SCHEMA@
        &&& self.release_identity@ == RELEASE_IDENTITY@
        &&& self.catalog_release_identity_digest@ == CANDIDATE_CATALOG_RELEASE_IDENTITY_SHA256@
        &&& self.task_metadata_identity_digest@ == CANDIDATE_TASK_IDENTITY_SHA256@
        &&& self.canonicalization@ == SORTED_KEY_JSON@
        &&& self.core_task_count == 72
        &&& self.contrast_task_count == 6
        &&& valid_digest(self.core_corpus_commitment_sha256@)
        &&& valid_digest(self.contrast_corpus_commitment_sha256@)
        &&& self.core_corpus_commitment_sha256@ != self.contrast_corpus_commitment_sha256@
    }

    /// Validates the manifest's fixed identity and its two distinct commitments.
    pub fn validate(&self) -> (r: Result<(), CandidateGateError>)
        ensures
            r is Ok <==> self.valid(),
    {
        if !(text_eq(self.schema_version.as_str(), RELEASE_GATE_CORPUS_MANIFEST_SCHEMA) && text_eq(
            self.release_identity.as_str(),
            RELEASE_IDENTITY,
        ) && text_eq(
            self.catalog_release_identity_digest.as_str(),
            CANDIDATE_CATALOG_RELEASE_IDENTITY_SHA256,
        ) && text_eq(
            self.task_metadata_identity_digest.as_str(),
            CANDIDATE_TASK_IDENTITY_SHA256,
        ) && text_eq(self.canonicalization.as_str(), SORTED_KEY_JSON) && self.core_task_count
            == 72 && self.contrast_task_count == 6 && is_valid_digest(
            self.core_corpus_commitment_sha256.as_str(),
        ) && is_valid_digest(self.contrast_corpus_commitment_sha256.as_str())
            && self.core_corpus_commitment_sha256 != self.contrast_corpus_commitment_sha256) {
            return Err(CandidateGateError::new("release-gate corpus manifest is invalid"));
        }
        Ok(())
    }
}

/// Verified outer manifest and its two distinct inner commitments.
pub struct VerifiedReleaseGateCorpus {
    /// Validated public-safe outer corpus manifest.
    pub manifest: ReleaseGateCorpusManifestV1,
    /// SHA-256 digest of the canonical manifest bytes.
    pub manifest_sha256: String,
}



/// The admission's signature preimage: every member but the signature.
pub open spec fn unsigned_admission_tree(a: ReleaseGateAdmissionV1) -> JsonTree {
    JsonTree::Object(a.tree()->Object_0.drop_last())
}

impl ReleaseGateAdmissionV1 {
    /// The signature preimage as a JSON document.
    pub fn unsigned_json(&self) -> (j: Json)
        ensures
            j.tree() == unsigned_admission_tree(*self),
    {
        let j = self.to_json();
        let ghost t = j.tree();
        match j {
            Json::Object(mut members) => {
                let ghost all = members@;
                assert(t->Object_0 =~= members_tree(all));
                assert(all.len() == self.tree()->Object_0.len());
                members.pop();
                let ghost kept = members@;
                assert(kept =~= all.drop_last());
                let r = json_object(members);
                assert(members_tree(kept) =~= members_tree(all).drop_last());
                assert(unsigned_admission_tree(*self)->Object_0 =~= members_tree(kept));
                r
            },
            _ => {
                assert(false);
                Json::Null
            },
        }
    }
}

// ---------------------------------------------------------------------------
// Laws
// ---------------------------------------------------------------------------
/// Under a valid schedule an observation instant falls in the time
/// partition of at most one repeat.
pub proof fn law_repeat_partitions_are_disjoint(
    a: ReleaseGateAdmissionV1,
    first: Seq<char>,
    second: Seq<char>,
    observed_at: Seq<char>,
)
    requires
        a.schedule_ok(),
        a.in_repeat_partition(first, observed_at),
        a.in_repeat_partition(second, observed_at),
    ensures
        a.repeat_position(first) == a.repeat_position(second),
        first == second,
{
    let s = a.repeat_schedule@;
    let i = a.repeat_position(first)->0;
    let j = a.repeat_position(second)->0;
    lemma_repeat_position(a, first);
    lemma_repeat_position(a, second);
    let t = timestamp_instant(observed_at)->0;
    if i < j {
        assert(a.repeat_instant(i) < a.repeat_instant(i + 1));
        if i + 1 < j {
            assert(a.repeat_instant(i + 1) < a.repeat_instant(j));
        }
        assert(false);
    } else if j < i {
        assert(a.repeat_instant(j) < a.repeat_instant(j + 1));
        if j + 1 < i {
            assert(a.repeat_instant(j + 1) < a.repeat_instant(i));
        }
        assert(false);
    }
}

/// Every instant of the collection window from the first repeat on falls in
/// the partition of some repeat.
pub proof fn law_repeat_partitions_cover_the_window(a: ReleaseGateAdmissionV1, observed_at: Seq<char>)
    requires
        a.schedule_ok(),
        a.in_collection_window(observed_at),
        a.repeat_instant(0) <= timestamp_instant(observed_at)->0,
    ensures
        exists|k: int| 0 <= k < 3 && a.in_repeat_partition(
            #[trigger] a.repeat_schedule@[k].repeat_id@,
            observed_at,
        ),
{
    let s = a.repeat_schedule@;
    let t = timestamp_instant(observed_at)->0;
    let k: int = if t < a.repeat_instant(1) {
        0
    } else if t < a.repeat_instant(2) {
        1
    } else {
        2
    };
    lemma_position_of_distinct(a, k);
    assert(a.in_repeat_partition(s[k].repeat_id@, observed_at));
}

proof fn lemma_repeat_position(a: ReleaseGateAdmissionV1, repeat_id: Seq<char>)
    requires
        a.repeat_position(repeat_id) is Some,
    ensures
        0 <= a.repeat_position(repeat_id)->0 < a.repeat_schedule@.len(),
        a.repeat_schedule@[a.repeat_position(repeat_id)->0].repeat_id@ == repeat_id,
{
    let s = a.repeat_schedule@;
    let w = choose|i: int| 0 <= i < s.len() && s[i].repeat_id@ == repeat_id;
    lemma_first_match(s, repeat_id, w);
}

proof fn lemma_first_match(s: Seq<ReleaseGateRepeat>, repeat_id: Seq<char>, w: int)
    requires
        0 <= w < s.len(),
        s[w].repeat_id@ == repeat_id,
    ensures
        exists|i: int|
            0 <= i < s.len() && s[i].repeat_id@ == repeat_id && forall|j: int|
                0 <= j < i ==> s[j].repeat_id@ != repeat_id,
    decreases w,
{
    if exists|j: int| 0 <= j < w && s[j].repeat_id@ == repeat_id {
        let j = choose|j: int| 0 <= j < w && s[j].repeat_id@ == repeat_id;
        lemma_first_match(s, repeat_id, j);
    } else {
        assert(forall|j: int| 0 <= j < w ==> s[j].repeat_id@ != repeat_id);
    }
}

proof fn lemma_position_of_distinct(a: ReleaseGateAdmissionV1, k: int)
    requires
        a.schedule_ok(),
        0 <= k < 3,
    ensures
        a.repeat_position(a.repeat_schedule@[k].repeat_id@) == Some(k),
{
    let s = a.repeat_schedule@;
    let rid = s[k].repeat_id@;
    assert(exists|i: int| 0 <= i < s.len() && s[i].repeat_id@ == rid);
    let i = choose|i: int|
        0 <= i < s.len() && s[i].repeat_id@ == rid && forall|j: int| 0 <= j < i ==> s[j].repeat_id@ != rid;
    assert(0 <= k < s.len() && s[k].repeat_id@ == rid && forall|j: int| 0 <= j < k ==> s[j].repeat_id@ != rid);
    if i != k {
        assert(s[i].repeat_id@ != s[k].repeat_id@);
    }
}


/// Only a pre-model admission failure is ever retried, only before the model
/// starts, and only while the signed policy admits another attempt, whose
/// delay is the signed backoff.
pub proof fn law_only_pre_model_admission_failures_retry(
    a: ReleaseGateAdmissionV1,
    attempt_number: u8,
    model_started: bool,
    classification: CandidateAttemptFailure,
)
    requires
        a.retry_delay(attempt_number, model_started, classification) is Some,
    ensures
        !model_started,
        classification == CandidateAttemptFailure::PreModelAdmission,
        next_attempt_number(attempt_number) <= a.infrastructure_retry_policy.max_attempts,
        a.retry_delay(attempt_number, model_started, classification) == a.attempt_delay(
            next_attempt_number(attempt_number),
        ),
{
}

} // verus!

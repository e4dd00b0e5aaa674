//! JSON form of the private plan and the execution authorization over it.
use vstd::prelude::*;

use crate::digest::{
    canonical_digest, canonical_hash, items_tree, json_array, json_object, json_text, json_texts,
    member, members_tree, texts_tree, Json, JsonTree,
};
use crate::release_gate::plan::{
    CandidateAggregateOutputs, CandidateClassification, CandidateContrastTaskBinding,
    CandidateControlledInputs, CandidateExecutionPlan, CandidateExecutionUnit,
    CandidateRuntimeBindings, CandidateUnitOutputs,
};
use crate::release_gate::{
    arm_name, arm_str, CandidateContrastArm, CandidateExecutionUnitKind, CandidateGateError,
    CandidateResolvedModel,
};

verus! {

/// Public identity of the private execution-authorization signer.
#[derive(Clone, Debug)]
pub struct CandidateAuthorizationSigner {
    /// Stable node identifier derived from the public key.
    pub node_id: String,
    /// Hex-encoded public verification key.
    pub public_key: String,
    /// Signature algorithm used by the authorization signer.
    pub algorithm: String,
}

/// Distinct private authorization over the complete private execution plan.
#[derive(Clone, Debug)]
pub struct CandidateExecutionAuthorization {
    /// Schema identifier for the private authorization.
    pub schema_version: String,
    /// Domain separator for the authorization signature.
    pub signature_domain: String,
    /// Canonical encoding used for the signature preimage.
    pub signature_encoding: String,
    /// Fixed purpose of the private authorization.
    pub purpose: String,
    /// Candidate release identity authorized for execution.
    pub release_identity: String,
    /// Digest that identifies the execution plan in the admission.
    pub execution_plan_digest: String,
    /// SHA-256 digest of the complete signed admission.
    pub signed_admission_sha256: String,
    /// SHA-256 digest of the complete private plan.
    pub private_plan_sha256: String,
    /// Complete private execution plan covered by the signature.
    pub plan: CandidateExecutionPlan,
    /// Public identity of the authorization signer.
    pub signer: CandidateAuthorizationSigner,
    /// Signature over the canonical authorization preimage.
    pub signature: String,
}

pub open spec fn text(s: String) -> JsonTree {
    JsonTree::Text(s@)
}

pub open spec fn optional_text(s: Option<String>) -> JsonTree {
    match s {
        Some(v) => JsonTree::Text(v@),
        None => JsonTree::Null,
    }
}

pub open spec fn kind_text(k: CandidateExecutionUnitKind) -> Seq<char> {
    match k {
        CandidateExecutionUnitKind::Core => "core"@,
        CandidateExecutionUnitKind::Contrast => "contrast"@,
    }
}

pub open spec fn optional_arm(a: Option<CandidateContrastArm>) -> JsonTree {
    match a {
        Some(v) => JsonTree::Text(arm_name(v)),
        None => JsonTree::Null,
    }
}

pub open spec fn model_tree(m: CandidateResolvedModel) -> JsonTree {
    JsonTree::Object(
        seq![
            ("canonical_model_id"@, text(m.canonical_model_id)),
            ("execution_model_id"@, text(m.execution_model_id)),
            ("model_name"@, text(m.model_name)),
            ("reasoning_effort"@, text(m.reasoning_effort)),
        ],
    )
}

pub open spec fn outputs_tree(o: CandidateUnitOutputs) -> JsonTree {
    JsonTree::Object(
        seq![
            ("result_package_bundle"@, text(o.result_package_bundle)),
            ("evaluator_result_bundle"@, text(o.evaluator_result_bundle)),
            ("verifier_replay_bundle"@, text(o.verifier_replay_bundle)),
            ("attempt_log_bundle"@, text(o.attempt_log_bundle)),
        ],
    )
}

pub open spec fn unit_tree(u: CandidateExecutionUnit) -> JsonTree {
    JsonTree::Object(
        seq![
            ("unit_id"@, text(u.unit_id)),
            ("repeat_id"@, text(u.repeat_id)),
            ("slot_id"@, text(u.slot_id)),
            ("kind"@, JsonTree::Text(kind_text(u.kind))),
            ("contrast_id"@, optional_text(u.contrast_id)),
            ("contrast_arm"@, optional_arm(u.contrast_arm)),
            ("variant_sha256"@, optional_text(u.variant_sha256)),
            ("ordered_task_ids"@, JsonTree::Array(texts_tree(u.ordered_task_ids.deep_view()))),
            ("models"@, JsonTree::Array(Seq::new(u.models@.len(), |i: int| model_tree(u.models@[i])))),
            ("corpus_commitment_path"@, text(u.corpus_commitment_path)),
            ("corpus_commitment_sha256"@, text(u.corpus_commitment_sha256)),
            ("checkpoint_path"@, text(u.checkpoint_path)),
            ("preflight_path"@, text(u.preflight_path)),
            ("attempt_journal_path"@, text(u.attempt_journal_path)),
            ("outputs"@, outputs_tree(u.outputs)),
        ],
    )
}

pub open spec fn runtime_tree(r: CandidateRuntimeBindings) -> JsonTree {
    JsonTree::Object(
        seq![
            ("runner_executable_sha256"@, text(r.runner_executable_sha256)),
            ("verifier_executable_sha256"@, text(r.verifier_executable_sha256)),
            ("evaluator_runtime_sha256"@, text(r.evaluator_runtime_sha256)),
            ("core_harness_sha256"@, text(r.core_harness_sha256)),
            ("core_tool_policy_sha256"@, text(r.core_tool_policy_sha256)),
            ("core_network_policy_sha256"@, text(r.core_network_policy_sha256)),
            ("contrast_harness_sha256"@, text(r.contrast_harness_sha256)),
            ("contrast_tool_policy_sha256"@, text(r.contrast_tool_policy_sha256)),
            ("contrast_network_policy_sha256"@, text(r.contrast_network_policy_sha256)),
        ],
    )
}

pub open spec fn controlled_tree(c: CandidateControlledInputs) -> JsonTree {
    JsonTree::Object(
        seq![
            ("core_tasks_root"@, text(c.core_tasks_root)),
            ("contrast_tasks_root"@, text(c.contrast_tasks_root)),
            ("source_root"@, text(c.source_root)),
            ("core_workspace_root"@, text(c.core_workspace_root)),
            ("contrast_workspace_root"@, text(c.contrast_workspace_root)),
            ("execution_root"@, text(c.execution_root)),
            ("evaluator_root"@, text(c.evaluator_root)),
            ("evaluator_runtime"@, text(c.evaluator_runtime)),
            ("codex_toolchain_root"@, text(c.codex_toolchain_root)),
            ("capabilities"@, text(c.capabilities)),
            ("schedule"@, text(c.schedule)),
            ("codex_binary"@, text(c.codex_binary)),
            ("codex_home"@, text(c.codex_home)),
            ("codex_egress_proxy"@, text(c.codex_egress_proxy)),
            ("artifact_root"@, text(c.artifact_root)),
            ("work_root"@, text(c.work_root)),
            ("verifier_replay_root"@, text(c.verifier_replay_root)),
            ("jobs"@, JsonTree::Number(c.jobs as u64)),
            ("runner_signer_node_id"@, text(c.runner_signer_node_id)),
            ("verifier_signer_node_id"@, text(c.verifier_signer_node_id)),
        ],
    )
}

pub open spec fn binding_tree(b: CandidateContrastTaskBinding) -> JsonTree {
    JsonTree::Object(
        seq![
            ("contrast_id"@, text(b.contrast_id)),
            ("reference_task_id"@, text(b.reference_task_id)),
            ("challenge_task_id"@, text(b.challenge_task_id)),
        ],
    )
}

pub open spec fn aggregates_tree(a: CandidateAggregateOutputs) -> JsonTree {
    JsonTree::Object(
        seq![
            ("source_observations"@, text(a.source_observations)),
            ("release_gate_evidence"@, text(a.release_gate_evidence)),
        ],
    )
}

pub open spec fn classification_tree(c: CandidateClassification) -> JsonTree {
    JsonTree::Object(
        seq![
            ("trust_tier"@, text(c.trust_tier)),
            ("official"@, JsonTree::Bool(c.official)),
            ("ranking_eligible"@, JsonTree::Bool(c.ranking_eligible)),
            ("disposition"@, text(c.disposition)),
        ],
    )
}

/// JSON form of the private plan.
pub open spec fn plan_tree(p: CandidateExecutionPlan) -> JsonTree {
    JsonTree::Object(
        seq![
            ("schema_version"@, text(p.schema_version)),
            ("purpose"@, text(p.purpose)),
            ("release_identity"@, text(p.release_identity)),
            ("catalog_release_identity_digest"@, text(p.catalog_release_identity_digest)),
            ("task_metadata_identity_digest"@, text(p.task_metadata_identity_digest)),
            ("execution_plan_digest"@, text(p.execution_plan_digest)),
            ("model_id_mapping_digest"@, text(p.model_id_mapping_digest)),
            ("signed_admission_path"@, text(p.signed_admission_path)),
            ("signed_admission_sha256"@, text(p.signed_admission_sha256)),
            ("signed_admission_key_id"@, text(p.signed_admission_key_id)),
            ("release_trust_policy_path"@, text(p.release_trust_policy_path)),
            ("release_trust_policy_sha256"@, text(p.release_trust_policy_sha256)),
            ("corpus_manifest_path"@, text(p.corpus_manifest_path)),
            ("corpus_manifest_sha256"@, text(p.corpus_manifest_sha256)),
            ("core_corpus_commitment_path"@, text(p.core_corpus_commitment_path)),
            ("core_corpus_commitment_sha256"@, text(p.core_corpus_commitment_sha256)),
            ("contrast_corpus_commitment_path"@, text(p.contrast_corpus_commitment_path)),
            ("contrast_corpus_commitment_sha256"@, text(p.contrast_corpus_commitment_sha256)),
            ("authorization_path"@, text(p.authorization_path)),
            ("runtime"@, runtime_tree(p.runtime)),
            ("controlled_inputs"@, controlled_tree(p.controlled_inputs)),
            ("output_root"@, text(p.output_root)),
            (
                "contrast_task_bindings"@,
                JsonTree::Array(
                    Seq::new(
                        p.contrast_task_bindings@.len(),
                        |i: int| binding_tree(p.contrast_task_bindings@[i]),
                    ),
                ),
            ),
            (
                "execution_units"@,
                JsonTree::Array(
                    Seq::new(p.execution_units@.len(), |i: int| unit_tree(p.execution_units@[i])),
                ),
            ),
            ("aggregate_outputs"@, aggregates_tree(p.aggregate_outputs)),
            ("classification"@, classification_tree(p.classification)),
        ],
    )
}

/// JSON form of the authorization.
pub open spec fn authorization_tree(a: CandidateExecutionAuthorization) -> JsonTree {
    JsonTree::Object(
        seq![
            ("schema_version"@, text(a.schema_version)),
            ("signature_domain"@, text(a.signature_domain)),
            ("signature_encoding"@, text(a.signature_encoding)),
            ("purpose"@, text(a.purpose)),
            ("release_identity"@, text(a.release_identity)),
            ("execution_plan_digest"@, text(a.execution_plan_digest)),
            ("signed_admission_sha256"@, text(a.signed_admission_sha256)),
            ("private_plan_sha256"@, text(a.private_plan_sha256)),
            ("plan"@, plan_tree(a.plan)),
            (
                "signer"@,
                JsonTree::Object(
                    seq![
                        ("node_id"@, text(a.signer.node_id)),
                        ("public_key"@, text(a.signer.public_key)),
                        ("algorithm"@, text(a.signer.algorithm)),
                    ],
                ),
            ),
            ("signature"@, text(a.signature)),
        ],
    )
}

fn t(s: &String) -> (j: Json)
    ensures
        j.tree() == text(*s),
{
    json_text(s.as_str())
}

fn opt_t(s: &Option<String>) -> (j: Json)
    ensures
        j.tree() == optional_text(*s),
{
    match s {
        Some(v) => json_text(v.as_str()),
        None => Json::Null,
    }
}

fn model_json(m: &CandidateResolvedModel) -> (j: Json)
    ensures
        j.tree() == model_tree(*m),
{
    let mut v: Vec<(String, Json)> = Vec::new();
    v.push(member("canonical_model_id", t(&m.canonical_model_id)));
    v.push(member("execution_model_id", t(&m.execution_model_id)));
    v.push(member("model_name", t(&m.model_name)));
    v.push(member("reasoning_effort", t(&m.reasoning_effort)));
    let ghost vs = v@;
    let j = json_object(v);
    assert(members_tree(vs) =~= model_tree(*m)->Object_0);
    j
}

fn outputs_json(o: &CandidateUnitOutputs) -> (j: Json)
    ensures
        j.tree() == outputs_tree(*o),
{
    let mut v: Vec<(String, Json)> = Vec::new();
    v.push(member("result_package_bundle", t(&o.result_package_bundle)));
    v.push(member("evaluator_result_bundle", t(&o.evaluator_result_bundle)));
    v.push(member("verifier_replay_bundle", t(&o.verifier_replay_bundle)));
    v.push(member("attempt_log_bundle", t(&o.attempt_log_bundle)));
    let ghost vs = v@;
    let j = json_object(v);
    assert(members_tree(vs) =~= outputs_tree(*o)->Object_0);
    j
}

fn unit_json(u: &CandidateExecutionUnit) -> (j: Json)
    ensures
        j.tree() == unit_tree(*u),
{
    let mut models: Vec<Json> = Vec::new();
    let mut i: usize = 0;
    while i < u.models.len()
        invariant
            i <= u.models@.len(),
            models@.len() == i,
            forall|k: int| 0 <= k < i ==> #[trigger] models@[k].tree() == model_tree(u.models@[k]),
        decreases u.models@.len() - i,
    {
        models.push(model_json(&u.models[i]));
        i += 1;
    }
    let ghost ms = models@;
    let models_j = json_array(models);
    assert(items_tree(ms) =~= Seq::new(u.models@.len(), |i: int| model_tree(u.models@[i])));
    let kind = match u.kind {
        CandidateExecutionUnitKind::Core => json_text("core"),
        CandidateExecutionUnitKind::Contrast => json_text("contrast"),
    };
    let arm = match u.contrast_arm {
        Some(a) => json_text(arm_str(a)),
        None => Json::Null,
    };
    let mut v: Vec<(String, Json)> = Vec::new();
    v.push(member("unit_id", t(&u.unit_id)));
    v.push(member("repeat_id", t(&u.repeat_id)));
    v.push(member("slot_id", t(&u.slot_id)));
    v.push(member("kind", kind));
    v.push(member("contrast_id", opt_t(&u.contrast_id)));
    v.push(member("contrast_arm", arm));
    v.push(member("variant_sha256", opt_t(&u.variant_sha256)));
    v.push(member("ordered_task_ids", json_texts(&u.ordered_task_ids)));
    v.push(member("models", models_j));
    v.push(member("corpus_commitment_path", t(&u.corpus_commitment_path)));
    v.push(member("corpus_commitment_sha256", t(&u.corpus_commitment_sha256)));
    v.push(member("checkpoint_path", t(&u.checkpoint_path)));
    v.push(member("preflight_path", t(&u.preflight_path)));
    v.push(member("attempt_journal_path", t(&u.attempt_journal_path)));
    v.push(member("outputs", outputs_json(&u.outputs)));
    let ghost vs = v@;
    let j = json_object(v);
    assert(members_tree(vs) =~= unit_tree(*u)->Object_0);
    j
}

fn runtime_json(r: &CandidateRuntimeBindings) -> (j: Json)
    ensures
        j.tree() == runtime_tree(*r),
{
    let mut v: Vec<(String, Json)> = Vec::new();
    v.push(member("runner_executable_sha256", t(&r.runner_executable_sha256)));
    v.push(member("verifier_executable_sha256", t(&r.verifier_executable_sha256)));
    v.push(member("evaluator_runtime_sha256", t(&r.evaluator_runtime_sha256)));
    v.push(member("core_harness_sha256", t(&r.core_harness_sha256)));
    v.push(member("core_tool_policy_sha256", t(&r.core_tool_policy_sha256)));
    v.push(member("core_network_policy_sha256", t(&r.core_network_policy_sha256)));
    v.push(member("contrast_harness_sha256", t(&r.contrast_harness_sha256)));
    v.push(member("contrast_tool_policy_sha256", t(&r.contrast_tool_policy_sha256)));
    v.push(member("contrast_network_policy_sha256", t(&r.contrast_network_policy_sha256)));
    let ghost vs = v@;
    let j = json_object(v);
    assert(members_tree(vs) =~= runtime_tree(*r)->Object_0);
    j
}

fn controlled_json(c: &CandidateControlledInputs) -> (j: Json)
    ensures
        j.tree() == controlled_tree(*c),
{
    let mut v: Vec<(String, Json)> = Vec::new();
    v.push(member("core_tasks_root", t(&c.core_tasks_root)));
    v.push(member("contrast_tasks_root", t(&c.contrast_tasks_root)));
    v.push(member("source_root", t(&c.source_root)));
    v.push(member("core_workspace_root", t(&c.core_workspace_root)));
    v.push(member("contrast_workspace_root", t(&c.contrast_workspace_root)));
    v.push(member("execution_root", t(&c.execution_root)));
    v.push(member("evaluator_root", t(&c.evaluator_root)));
    v.push(member("evaluator_runtime", t(&c.evaluator_runtime)));
    v.push(member("codex_toolchain_root", t(&c.codex_toolchain_root)));
    v.push(member("capabilities", t(&c.capabilities)));
    v.push(member("schedule", t(&c.schedule)));
    v.push(member("codex_binary", t(&c.codex_binary)));
    v.push(member("codex_home", t(&c.codex_home)));
    v.push(member("codex_egress_proxy", t(&c.codex_egress_proxy)));
    v.push(member("artifact_root", t(&c.artifact_root)));
    v.push(member("work_root", t(&c.work_root)));
    v.push(member("verifier_replay_root", t(&c.verifier_replay_root)));
    v.push(member("jobs", Json::Number(c.jobs as u64)));
    v.push(member("runner_signer_node_id", t(&c.runner_signer_node_id)));
    v.push(member("verifier_signer_node_id", t(&c.verifier_signer_node_id)));
    let ghost vs = v@;
    let j = json_object(v);
    assert(members_tree(vs) =~= controlled_tree(*c)->Object_0);
    j
}

fn plan_json(p: &CandidateExecutionPlan) -> (j: Json)
    ensures
        j.tree() == plan_tree(*p),
{
    let mut bindings: Vec<Json> = Vec::new();
    let mut i: usize = 0;
    while i < p.contrast_task_bindings.len()
        invariant
            i <= p.contrast_task_bindings@.len(),
            bindings@.len() == i,
            forall|k: int|
                0 <= k < i ==> #[trigger] bindings@[k].tree() == binding_tree(p.contrast_task_bindings@[k]),
        decreases p.contrast_task_bindings@.len() - i,
    {
        let b = &p.contrast_task_bindings[i];
        let mut v: Vec<(String, Json)> = Vec::new();
        v.push(member("contrast_id", t(&b.contrast_id)));
        v.push(member("reference_task_id", t(&b.reference_task_id)));
        v.push(member("challenge_task_id", t(&b.challenge_task_id)));
        let ghost vs = v@;
        let j = json_object(v);
        assert(members_tree(vs) =~= binding_tree(*b)->Object_0);
        bindings.push(j);
        i += 1;
    }
    let ghost bs = bindings@;
    let bindings_j = json_array(bindings);
    assert(items_tree(bs) =~= Seq::new(
        p.contrast_task_bindings@.len(),
        |i: int| binding_tree(p.contrast_task_bindings@[i]),
    ));
    let mut units: Vec<Json> = Vec::new();
    let mut i: usize = 0;
    while i < p.execution_units.len()
        invariant
            i <= p.execution_units@.len(),
            units@.len() == i,
            forall|k: int| 0 <= k < i ==> #[trigger] units@[k].tree() == unit_tree(p.execution_units@[k]),
        decreases p.execution_units@.len() - i,
    {
        units.push(unit_json(&p.execution_units[i]));
        i += 1;
    }
    let ghost us = units@;
    let units_j = json_array(units);
    assert(items_tree(us) =~= Seq::new(
        p.execution_units@.len(),
        |i: int| unit_tree(p.execution_units@[i]),
    ));
    let mut agg: Vec<(String, Json)> = Vec::new();
    agg.push(member("source_observations", t(&p.aggregate_outputs.source_observations)));
    agg.push(member("release_gate_evidence", t(&p.aggregate_outputs.release_gate_evidence)));
    let ghost aggs = agg@;
    let agg_j = json_object(agg);
    assert(members_tree(aggs) =~= aggregates_tree(p.aggregate_outputs)->Object_0);
    let mut cls: Vec<(String, Json)> = Vec::new();
    cls.push(member("trust_tier", t(&p.classification.trust_tier)));
    cls.push(member("official", Json::Bool(p.classification.official)));
    cls.push(member("ranking_eligible", Json::Bool(p.classification.ranking_eligible)));
    cls.push(member("disposition", t(&p.classification.disposition)));
    let ghost clss = cls@;
    let cls_j = json_object(cls);
    assert(members_tree(clss) =~= classification_tree(p.classification)->Object_0);
    let mut v: Vec<(String, Json)> = Vec::new();
    v.push(member("schema_version", t(&p.schema_version)));
    v.push(member("purpose", t(&p.purpose)));
    v.push(member("release_identity", t(&p.release_identity)));
    v.push(member("catalog_release_identity_digest", t(&p.catalog_release_identity_digest)));
    v.push(member("task_metadata_identity_digest", t(&p.task_metadata_identity_digest)));
    v.push(member("execution_plan_digest", t(&p.execution_plan_digest)));
    v.push(member("model_id_mapping_digest", t(&p.model_id_mapping_digest)));
    v.push(member("signed_admission_path", t(&p.signed_admission_path)));
    v.push(member("signed_admission_sha256", t(&p.signed_admission_sha256)));
    v.push(member("signed_admission_key_id", t(&p.signed_admission_key_id)));
    v.push(member("release_trust_policy_path", t(&p.release_trust_policy_path)));
    v.push(member("release_trust_policy_sha256", t(&p.release_trust_policy_sha256)));
    v.push(member("corpus_manifest_path", t(&p.corpus_manifest_path)));
    v.push(member("corpus_manifest_sha256", t(&p.corpus_manifest_sha256)));
    v.push(member("core_corpus_commitment_path", t(&p.core_corpus_commitment_path)));
    v.push(member("core_corpus_commitment_sha256", t(&p.core_corpus_commitment_sha256)));
    v.push(member("contrast_corpus_commitment_path", t(&p.contrast_corpus_commitment_path)));
    v.push(member("contrast_corpus_commitment_sha256", t(&p.contrast_corpus_commitment_sha256)));
    v.push(member("authorization_path", t(&p.authorization_path)));
    v.push(member("runtime", runtime_json(&p.runtime)));
    v.push(member("controlled_inputs", controlled_json(&p.controlled_inputs)));
    v.push(member("output_root", t(&p.output_root)));
    v.push(member("contrast_task_bindings", bindings_j));
    v.push(member("execution_units", units_j));
    v.push(member("aggregate_outputs", agg_j));
    v.push(member("classification", cls_j));
    let ghost vs = v@;
    let j = json_object(v);
    assert(members_tree(vs) =~= plan_tree(*p)->Object_0);
    j
}

impl CandidateExecutionPlan {
    /// The canonical content address of the complete private plan.
    pub fn canonical_sha256(&self) -> (r: Result<String, CandidateGateError>)
        ensures
            match r {
                Ok(d) => canonical_digest(plan_tree(*self)) == Some(d@),
                Err(_) => canonical_digest(plan_tree(*self)) is None,
            },
    {
        match canonical_hash(&plan_json(self)) {
            Some(d) => Ok(d),
            None => Err(CandidateGateError::new("candidate value cannot be canonically hashed")),
        }
    }
}

impl CandidateExecutionAuthorization {
    /// Returns the canonical full-document digest, including the signature.
    pub fn digest(&self) -> (r: Result<String, CandidateGateError>)
        ensures
            match r {
                Ok(d) => canonical_digest(authorization_tree(*self)) == Some(d@),
                Err(_) => canonical_digest(authorization_tree(*self)) is None,
            },
    {
        match canonical_hash(&self.to_json()) {
            Some(d) => Ok(d),
            None => Err(CandidateGateError::new("candidate value cannot be canonically hashed")),
        }
    }

    /// Builds the JSON form of the complete authorization.
    pub fn to_json(&self) -> (j: Json)
        ensures
            j.tree() == authorization_tree(*self),
    {
        let mut signer: Vec<(String, Json)> = Vec::new();
        signer.push(member("node_id", t(&self.signer.node_id)));
        signer.push(member("public_key", t(&self.signer.public_key)));
        signer.push(member("algorithm", t(&self.signer.algorithm)));
        let ghost ss = signer@;
        let signer_j = json_object(signer);
        let mut v: Vec<(String, Json)> = Vec::new();
        v.push(member("schema_version", t(&self.schema_version)));
        v.push(member("signature_domain", t(&self.signature_domain)));
        v.push(member("signature_encoding", t(&self.signature_encoding)));
        v.push(member("purpose", t(&self.purpose)));
        v.push(member("release_identity", t(&self.release_identity)));
        v.push(member("execution_plan_digest", t(&self.execution_plan_digest)));
        v.push(member("signed_admission_sha256", t(&self.signed_admission_sha256)));
        v.push(member("private_plan_sha256", t(&self.private_plan_sha256)));
        v.push(member("plan", plan_json(&self.plan)));
        v.push(member("signer", signer_j));
        v.push(member("signature", t(&self.signature)));
        let ghost vs = v@;
        let j = json_object(v);
        assert(members_tree(vs) =~= authorization_tree(*self)->Object_0) by {
            assert(members_tree(ss) =~= seq![
                ("node_id"@, text(self.signer.node_id)),
                ("public_key"@, text(self.signer.public_key)),
                ("algorithm"@, text(self.signer.algorithm)),
            ]);
        }
        j
    }
}


/// The signature preimage of an authorization: every member but the
/// signature itself.
pub open spec fn unsigned_authorization_tree(a: CandidateExecutionAuthorization) -> JsonTree {
    JsonTree::Object(
        seq![
            ("schema_version"@, text(a.schema_version)),
            ("signature_domain"@, text(a.signature_domain)),
            ("signature_encoding"@, text(a.signature_encoding)),
            ("purpose"@, text(a.purpose)),
            ("release_identity"@, text(a.release_identity)),
            ("execution_plan_digest"@, text(a.execution_plan_digest)),
            ("signed_admission_sha256"@, text(a.signed_admission_sha256)),
            ("private_plan_sha256"@, text(a.private_plan_sha256)),
            ("plan"@, plan_tree(a.plan)),
            (
                "signer"@,
                JsonTree::Object(
                    seq![
                        ("node_id"@, text(a.signer.node_id)),
                        ("public_key"@, text(a.signer.public_key)),
                        ("algorithm"@, text(a.signer.algorithm)),
                    ],
                ),
            ),
        ],
    )
}

impl CandidateExecutionAuthorization {
    /// The signature preimage as a JSON document.
    pub fn unsigned_json(&self) -> (j: Json)
        ensures
            j.tree() == unsigned_authorization_tree(*self),
    {
        let mut signer: Vec<(String, Json)> = Vec::new();
        signer.push(member("node_id", t(&self.signer.node_id)));
        signer.push(member("public_key", t(&self.signer.public_key)));
        signer.push(member("algorithm", t(&self.signer.algorithm)));
        let ghost ss = signer@;
        let signer_j = json_object(signer);
        let mut v: Vec<(String, Json)> = Vec::new();
        v.push(member("schema_version", t(&self.schema_version)));
        v.push(member("signature_domain", t(&self.signature_domain)));
        v.push(member("signature_encoding", t(&self.signature_encoding)));
        v.push(member("purpose", t(&self.purpose)));
        v.push(member("release_identity", t(&self.release_identity)));
        v.push(member("execution_plan_digest", t(&self.execution_plan_digest)));
        v.push(member("signed_admission_sha256", t(&self.signed_admission_sha256)));
        v.push(member("private_plan_sha256", t(&self.private_plan_sha256)));
        v.push(member("plan", plan_json(&self.plan)));
        v.push(member("signer", signer_j));
        let ghost vs = v@;
        let j = json_object(v);
        assert(members_tree(vs) =~= unsigned_authorization_tree(*self)->Object_0) by {
            assert(members_tree(ss) =~= seq![
                ("node_id"@, text(self.signer.node_id)),
                ("public_key"@, text(self.signer.public_key)),
                ("algorithm"@, text(self.signer.algorithm)),
            ]);
        }
        j
    }
}

} // verus!

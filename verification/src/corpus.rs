//! Public-safe identities of the controlled benchmark corpus: run provenance,
//! the corpus commitment document and the committed model toolchain.
use vstd::prelude::*;
use vstd::string::*;

use crate::digest::{digest_bytes, digest_text};
use crate::release_gate::{is_valid_digest, valid_digest};
use crate::text::{
    all_chars_in_class, all_in_class, char_in_class, chars_match_at, chars_of, has_control_char,
    has_prefix, in_class, is_control, segments, split_segments, text_eq, utf8_len,
    utf8_len_capped, CharClass,
};

pub mod toolchain;
pub mod document;
pub mod executable;


verus! {

/// Run-provenance contract version.
pub const RUN_PROVENANCE_SCHEMA: &'static str = "aiq.run-provenance.v3";

/// Task-set identifier of the core corpus.
pub const AIQ_TASK_SET_ID: &'static str = "aiq-core";

/// Ordered full-task-metadata identity for the six controlled contrast variants.
pub const CONTROLLED_CONTRAST_CATALOG_IDENTITY_SHA256: &'static str =
    "sha256:09d3b4532f3dcd7a6b07c31bc4c59e25d432889ee8cce0b75d15285a42d3e077";

/// Explicit execution class selected before any benchmark work starts.
#[derive(PartialEq, Eq, Structural, Clone, Copy, Debug)]
pub enum RunClass {
    /// Local best-effort calibration that can never become Official.
    Calibration,
    /// Complete non-synthetic 72-task by 17-model execution.
    Official,
}

/// Signed public-safe benchmark identities required to replay a real run.
#[derive(Clone, Debug)]
pub struct RunProvenanceCommitment {
    /// Provenance contract version.
    pub schema_version: String,
    /// Explicit execution class.
    pub run_class: RunClass,
    /// Current controlled-corpus identifier.
    pub corpus_release_id: String,
    /// Canonical SHA-256 commitment to the complete corpus commitment document.
    pub corpus_commitment_sha256: String,
    /// Frozen ordered full-catalog metadata commitment.
    pub catalog_digest: String,
    /// Content address of the selected task definitions.
    pub task_set_digest: String,
    /// Content address of the selected evaluator identities.
    pub evaluator_digest: String,
    /// Runner and result protocol commitment.
    pub runtime_digest: String,
    /// Exact capability-validation report commitment.
    pub preflight_digest: String,
    /// Controlled benchmark harness commitment.
    pub harness_digest: String,
    /// Exact runner prompt-source commitment.
    pub prompt_digest: String,
    /// Declared tool-policy commitment.
    pub tool_policy_digest: String,
    /// Declared network-policy commitment.
    pub network_policy_digest: String,
    /// Controlled execution-environment commitment.
    pub environment_digest: String,
    /// Runner build-and-test source-manifest commitment.
    pub source_manifest_digest: String,
    /// SHA-256 of the actual runner executable.
    pub runner_executable_digest: String,
    /// SHA-256 of the actual Codex executable.
    pub codex_executable_digest: String,
    /// SHA-256 of the sibling code-mode host executable used by Codex.
    pub codex_code_mode_host_digest: String,
    /// Deterministic digest of permission policy, requirements, profile, and canary evidence.
    pub permission_evidence_digest: String,
}

/// Corpus commitment validation failure.
#[derive(Clone, Debug)]
pub struct CorpusCommitmentError {
    message: String,
}

impl View for CorpusCommitmentError {
    type V = Seq<char>;

    closed spec fn view(&self) -> Seq<char> {
        self.message@
    }
}

impl CorpusCommitmentError {
    /// A failure with the given text.
    pub fn new(message: &str) -> (e: Self)
        ensures
            e@ == message@,
    {
        CorpusCommitmentError { message: message.to_owned() }
    }

    /// The failure text.
    pub fn message(&self) -> (m: String)
        ensures
            m@ == self@,
    {
        self.message.clone()
    }
}

// ---------------------------------------------------------------------------
// Grammars
// ---------------------------------------------------------------------------
/// A corpus release identifier: `corpus_` and 1 to 64 characters of
/// `[a-z0-9._-]` that begin and end with `[a-z0-9]`.
pub open spec fn valid_release_id(s: Seq<char>) -> bool {
    &&& has_prefix(s, "corpus_"@)
    &&& 8 <= s.len() <= 71
    &&& in_class(CharClass::LowerAlnum, s[7])
    &&& in_class(CharClass::LowerAlnum, s[s.len() - 1])
    &&& all_in_class(s, 7, s.len() as int, CharClass::Identifier)
}

pub fn is_valid_release_id(s: &str) -> (r: bool)
    ensures
        r == valid_release_id(s@),
{
    let v = chars_of(s);
    let prefix = chars_of("corpus_");
    proof {
        reveal_strlit("corpus_");
    }
    if !chars_match_at(&v, 0, &prefix) || v.len() < 8 || v.len() > 71 {
        return false;
    }
    char_in_class(CharClass::LowerAlnum, v[7]) && char_in_class(
        CharClass::LowerAlnum,
        v[v.len() - 1],
    ) && all_chars_in_class(&v, 7, v.len(), CharClass::Identifier)
}

/// One component of a committed source path: non-empty, not `.` or `..`,
/// and made of `[A-Za-z0-9._-]`.
pub open spec fn valid_source_component(c: Seq<char>) -> bool {
    &&& c.len() > 0
    &&& c != "."@
    &&& c != ".."@
    &&& all_in_class(c, 0, c.len() as int, CharClass::PathSegment)
}

/// A repository-relative source path of 1 to 240 characters whose
/// `/`-separated components are all valid.
pub open spec fn valid_source_path(s: Seq<char>) -> bool {
    &&& 1 <= s.len() <= 240
    &&& forall|i: int|
        0 <= i < segments(s, '/').len() ==> valid_source_component(#[trigger] segments(s, '/')[i])
}

fn is_valid_source_component(c: &Vec<char>) -> (r: bool)
    ensures
        r == valid_source_component(c@),
{
    proof {
        reveal_strlit(".");
        reveal_strlit("..");
    }
    if c.len() == 0 {
        return false;
    }
    if c.len() == 1 && c[0] == '.' {
        assert(c@ =~= "."@);
        return false;
    }
    if c.len() == 2 && c[0] == '.' && c[1] == '.' {
        assert(c@ =~= ".."@);
        return false;
    }
    assert(c@ != "."@ && c@ != ".."@) by {
        if c@ == "."@ {
            assert(c@[0] == '.');
        }
        if c@ == ".."@ {
            assert(c@[0] == '.' && c@[1] == '.');
        }
    }
    all_chars_in_class(c, 0, c.len(), CharClass::PathSegment)
}

/// Whether a committed source path is valid.
pub fn is_valid_source_path(s: &str) -> (r: bool)
    ensures
        r == valid_source_path(s@),
{
    let v = chars_of(s);
    if v.len() < 1 || v.len() > 240 {
        return false;
    }
    let parts = split_segments(&v, '/');
    let mut i: usize = 0;
    while i < parts.len()
        invariant
            i <= parts@.len(),
            parts.deep_view() == segments(v@, '/'),
            v@ == s@,
            1 <= v@.len() <= 240,
            forall|k: int| 0 <= k < i ==> valid_source_component(#[trigger] segments(v@, '/')[k]),
        decreases parts@.len() - i,
    {
        assert(parts.deep_view()[i as int] == parts@[i as int]@);
        if !is_valid_source_component(&parts[i]) {
            assert(!valid_source_component(segments(v@, '/')[i as int]));
            return false;
        }
        i += 1;
    }
    true
}

/// An executable must hold at least one byte; there is no maximum.
pub open spec fn valid_executable_file_size(length: u64) -> bool {
    length > 0
}

pub fn is_valid_executable_file_size(length: u64) -> (r: bool)
    ensures
        r == valid_executable_file_size(length),
{
    length > 0
}

/// A bounded file holds between one and `max_bytes` bytes.
pub open spec fn valid_bounded_file_size(length: u64, max_bytes: u64) -> bool {
    1 <= length <= max_bytes
}

pub fn is_valid_bounded_file_size(length: u64, max_bytes: u64) -> (r: bool)
    ensures
        r == valid_bounded_file_size(length, max_bytes),
{
    1 <= length && length <= max_bytes
}

/// Addresses the bytes read from a bounded file, or refuses a file of an
/// invalid size with a message that names it.
pub fn hash_bounded_file(bytes: &[u8], max_bytes: u64, label: &str) -> (r: Result<String, CorpusCommitmentError>)
    ensures
        match r {
            Ok(d) => valid_bounded_file_size(bytes@.len() as u64, max_bytes) && d@ == digest_text(bytes@),
            Err(e) => !valid_bounded_file_size(bytes@.len() as u64, max_bytes) && e@ == label@
                + " has an invalid size"@,
        },
{
    if !is_valid_bounded_file_size(bytes.len() as u64, max_bytes) {
        let mut message = label.to_owned();
        message.append(" has an invalid size");
        return Err(CorpusCommitmentError::new(message.as_str()));
    }
    Ok(digest_bytes(bytes))
}

/// A committed runtime version: 1 to 128 UTF-8 bytes and no control character.
pub open spec fn valid_runtime_version(s: Seq<char>) -> bool {
    &&& s.len() > 0
    &&& utf8_len(s) <= 128
    &&& forall|i: int| 0 <= i < s.len() ==> !is_control(#[trigger] s[i])
}

pub fn is_valid_runtime_version(s: &str) -> (r: bool)
    ensures
        r == valid_runtime_version(s@),
{
    let v = chars_of(s);
    v.len() > 0 && utf8_len_capped(&v, 128) <= 128 && !has_control_char(&v)
}

// ---------------------------------------------------------------------------
// Run provenance
// ---------------------------------------------------------------------------
/// The sixteen digests of a provenance record, in field order.
pub open spec fn provenance_digests(p: RunProvenanceCommitment) -> Seq<Seq<char>> {
    seq![
        p.corpus_commitment_sha256@,
        p.catalog_digest@,
        p.task_set_digest@,
        p.evaluator_digest@,
        p.runtime_digest@,
        p.preflight_digest@,
        p.harness_digest@,
        p.prompt_digest@,
        p.tool_policy_digest@,
        p.network_policy_digest@,
        p.environment_digest@,
        p.source_manifest_digest@,
        p.runner_executable_digest@,
        p.codex_executable_digest@,
        p.codex_code_mode_host_digest@,
        p.permission_evidence_digest@,
    ]
}

/// Which catalog a record may name: Official runs only the core catalog,
/// whose ordered task-metadata identity is `core_identity`; Calibration the
/// core or the contrast catalog, or, where historical catalogs are allowed,
/// any valid digest.
pub open spec fn catalog_allowed(p: RunProvenanceCommitment, allow_historical: bool, core_identity: Seq<char>) -> bool {
    if allow_historical && p.run_class == RunClass::Calibration {
        valid_digest(p.catalog_digest@)
    } else {
        match p.run_class {
            RunClass::Official => p.catalog_digest@ == core_identity,
            RunClass::Calibration => p.catalog_digest@ == core_identity
                || p.catalog_digest@ == CONTROLLED_CONTRAST_CATALOG_IDENTITY_SHA256@,
        }
    }
}

/// A signed record is well formed and bound to the run's task set and preflight.
pub open spec fn run_provenance_ok(
    p: RunProvenanceCommitment,
    task_set_hash: Seq<char>,
    preflight_digest: Seq<char>,
    allow_historical: bool,
    core_identity: Seq<char>,
) -> bool {
    &&& p.schema_version@ == RUN_PROVENANCE_SCHEMA@
    &&& catalog_allowed(p, allow_historical, core_identity)
    &&& p.task_set_digest@ == task_set_hash
    &&& p.preflight_digest@ == preflight_digest
    &&& valid_release_id(p.corpus_release_id@)
    &&& forall|i: int| 0 <= i < 16 ==> valid_digest(#[trigger] provenance_digests(p)[i])
}

fn provenance_digest_list(p: &RunProvenanceCommitment) -> (r: Vec<&str>)
    ensures
        r@.len() == 16,
        forall|i: int| 0 <= i < 16 ==> #[trigger] r@[i]@ == provenance_digests(*p)[i],
{
    let r = vec![
        p.corpus_commitment_sha256.as_str(),
        p.catalog_digest.as_str(),
        p.task_set_digest.as_str(),
        p.evaluator_digest.as_str(),
        p.runtime_digest.as_str(),
        p.preflight_digest.as_str(),
        p.harness_digest.as_str(),
        p.prompt_digest.as_str(),
        p.tool_policy_digest.as_str(),
        p.network_policy_digest.as_str(),
        p.environment_digest.as_str(),
        p.source_manifest_digest.as_str(),
        p.runner_executable_digest.as_str(),
        p.codex_executable_digest.as_str(),
        p.codex_code_mode_host_digest.as_str(),
        p.permission_evidence_digest.as_str(),
    ];
    r
}

fn validate_run_provenance_inner(
    provenance: &RunProvenanceCommitment,
    task_set_hash: &str,
    preflight_digest: &str,
    allow_historical_calibration_catalog: bool,
    core_catalog_identity: &str,
) -> (r: Result<(), CorpusCommitmentError>)
    ensures
        r is Ok <==> run_provenance_ok(
            *provenance,
            task_set_hash@,
            preflight_digest@,
            allow_historical_calibration_catalog,
            core_catalog_identity@,
        ),
{
    let catalog = provenance.catalog_digest.as_str();
    let catalog_ok = if allow_historical_calibration_catalog && provenance.run_class
        == RunClass::Calibration {
        is_valid_digest(catalog)
    } else {
        match provenance.run_class {
            RunClass::Official => text_eq(catalog, core_catalog_identity),
            RunClass::Calibration => text_eq(catalog, core_catalog_identity) || text_eq(
                catalog,
                CONTROLLED_CONTRAST_CATALOG_IDENTITY_SHA256,
            ),
        }
    };
    if !text_eq(provenance.schema_version.as_str(), RUN_PROVENANCE_SCHEMA) || !catalog_ok
        || !text_eq(provenance.task_set_digest.as_str(), task_set_hash) || !text_eq(
        provenance.preflight_digest.as_str(),
        preflight_digest,
    ) || !is_valid_release_id(provenance.corpus_release_id.as_str()) {
        return Err(CorpusCommitmentError::new("signed run provenance bindings are invalid"));
    }
    let digests = provenance_digest_list(provenance);
    let mut i: usize = 0;
    while i < 16
        invariant
            i <= 16,
            digests@.len() == 16,
            forall|k: int| 0 <= k < 16 ==> #[trigger] digests@[k]@ == provenance_digests(*provenance)[k],
            forall|k: int| 0 <= k < i ==> valid_digest(#[trigger] provenance_digests(*provenance)[k]),
        decreases 16 - i,
    {
        if !is_valid_digest(digests[i]) {
            assert(!valid_digest(provenance_digests(*provenance)[i as int]));
            return Err(CorpusCommitmentError::new("signed run provenance contains an invalid digest"));
        }
        i += 1;
    }
    Ok(())
}

/// Validates a signed production provenance object and its run-local
/// bindings, against the active core catalog's task-metadata identity.
pub fn validate_run_provenance(
    provenance: &RunProvenanceCommitment,
    task_set_hash: &str,
    preflight_digest: &str,
    core_catalog_identity: &str,
) -> (r: Result<(), CorpusCommitmentError>)
    ensures
        r is Ok <==> run_provenance_ok(*provenance, task_set_hash@, preflight_digest@, false, core_catalog_identity@),
{
    validate_run_provenance_inner(provenance, task_set_hash, preflight_digest, false, core_catalog_identity)
}

/// Validates retained calibration provenance for an offline diagnostic: a
/// Calibration record may then name any valid historical catalog.
pub fn validate_historical_calibration_provenance(
    provenance: &RunProvenanceCommitment,
    task_set_hash: &str,
    preflight_digest: &str,
    core_catalog_identity: &str,
) -> (r: Result<(), CorpusCommitmentError>)
    ensures
        r is Ok <==> run_provenance_ok(*provenance, task_set_hash@, preflight_digest@, true, core_catalog_identity@),
{
    validate_run_provenance_inner(provenance, task_set_hash, preflight_digest, true, core_catalog_identity)
}

/// Candidate qualification: Calibration evidence that names the candidate
/// catalog and is otherwise well formed and bound to the run.
pub open spec fn qualification_ok(
    p: RunProvenanceCommitment,
    task_set_hash: Seq<char>,
    preflight_digest: Seq<char>,
    candidate_identity: Seq<char>,
) -> bool {
    &&& p.run_class == RunClass::Calibration
    &&& p.catalog_digest@ == candidate_identity
    &&& run_provenance_ok(p, task_set_hash, preflight_digest, true, candidate_identity)
}

/// Validates candidate qualification provenance: only Calibration evidence
/// naming the candidate catalog, whose ordered task-metadata identity is
/// `candidate_catalog_identity`.
pub fn validate_candidate_qualification_provenance_v1_1_0(
    provenance: &RunProvenanceCommitment,
    task_set_hash: &str,
    preflight_digest: &str,
    candidate_catalog_identity: &str,
) -> (r: Result<(), CorpusCommitmentError>)
    ensures
        r is Ok <==> qualification_ok(*provenance, task_set_hash@, preflight_digest@, candidate_catalog_identity@),
{
    if provenance.run_class != RunClass::Calibration || !text_eq(
        provenance.catalog_digest.as_str(),
        candidate_catalog_identity,
    ) {
        return Err(
            CorpusCommitmentError::new(
                "candidate qualification provenance does not match the exact embedded candidate",
            ),
        );
    }
    validate_run_provenance_inner(provenance, task_set_hash, preflight_digest, true, candidate_catalog_identity)
}


// ---------------------------------------------------------------------------
// Laws
// ---------------------------------------------------------------------------
/// An Official record always names the core catalog, also where historical
/// calibration catalogs are allowed: contrast or retained calibration
/// evidence never becomes Official.
pub proof fn law_official_provenance_names_the_core_catalog(
    p: RunProvenanceCommitment,
    task_set_hash: Seq<char>,
    preflight_digest: Seq<char>,
    allow_historical: bool,
    core_identity: Seq<char>,
)
    requires
        run_provenance_ok(p, task_set_hash, preflight_digest, allow_historical, core_identity),
        p.run_class == RunClass::Official,
    ensures
        p.catalog_digest@ == core_identity,
{
}

/// Candidate qualification accepts exactly the Calibration records that name
/// the candidate catalog and that historical calibration validation accepts,
/// whichever core identity that validation is given; it accepts no Official
/// record.
pub proof fn law_qualification_is_candidate_historical_calibration(
    p: RunProvenanceCommitment,
    task_set_hash: Seq<char>,
    preflight_digest: Seq<char>,
    candidate_identity: Seq<char>,
    core_identity: Seq<char>,
)
    ensures
        qualification_ok(p, task_set_hash, preflight_digest, candidate_identity) <==> {
            &&& p.run_class == RunClass::Calibration
            &&& p.catalog_digest@ == candidate_identity
            &&& run_provenance_ok(p, task_set_hash, preflight_digest, true, core_identity)
        },
        p.run_class == RunClass::Official ==> !qualification_ok(
            p,
            task_set_hash,
            preflight_digest,
            candidate_identity,
        ),
{
}

/// The historical calibration validator only widens the strict one: every
/// record the strict validator accepts, it accepts too, and it accepts
/// nothing more of an Official record.
pub proof fn law_historical_validation_only_widens_calibration(
    p: RunProvenanceCommitment,
    task_set_hash: Seq<char>,
    preflight_digest: Seq<char>,
    core_identity: Seq<char>,
)
    ensures
        run_provenance_ok(p, task_set_hash, preflight_digest, false, core_identity) ==> run_provenance_ok(
            p,
            task_set_hash,
            preflight_digest,
            true,
            core_identity,
        ),
        p.run_class == RunClass::Official ==> (run_provenance_ok(p, task_set_hash, preflight_digest, true, core_identity)
            == run_provenance_ok(p, task_set_hash, preflight_digest, false, core_identity)),
{
    if run_provenance_ok(p, task_set_hash, preflight_digest, false, core_identity) {
        assert(valid_digest(provenance_digests(p)[1]));
    }
}

} // verus!

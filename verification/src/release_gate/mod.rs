//! Private candidate release-gate admission, planning and scoring rules.
//!
//! The public `aiq.release-gate-admission.v1` document is the only release
//! admission contract. These rules consume it, derive the exact private
//! execution plan from it, and score candidate evaluator results.
use vstd::prelude::*;
use vstd::string::*;

use crate::text::{
    all_chars_in_class, all_in_class, char_in_class, chars_match_at, chars_of, has_prefix, in_class,
    is_digit, is_lower_hex_text, text_eq, CharClass,
};

pub mod admission;
pub mod evaluator;
pub mod paths;
pub mod plan;
pub mod authorization;
pub mod signing;
pub mod trust;
pub mod control;
pub mod outputs;

verus! {

/// Candidate task-set version.
pub const CANDIDATE_TASK_SET_VERSION: &'static str = "1.0.2";

/// Candidate evaluator version.
pub const CANDIDATE_SCORER_VERSION: &'static str = "1.0.2";

/// Exact ordered public candidate task metadata identity.
pub const CANDIDATE_TASK_IDENTITY_SHA256: &'static str =
    "sha256:2c5efe162b49e710e6e52b0f3a4e33d1127d0dd54d4f15694f88911bcb7fc937";

/// Exact candidate catalog release identity.
pub const CANDIDATE_CATALOG_RELEASE_IDENTITY_SHA256: &'static str =
    "sha256:45bf2e9d5287fd4f83e46bc3cb5c3ccb8778756465e81bfd567d111480eefc4b";

/// Exact canonical-to-execution model mapping commitment.
pub const CANDIDATE_MODEL_ID_MAPPING_SHA256: &'static str =
    "sha256:f8912fa9d2360077736993daf01dd023c1d7a0d97f208380a761f65e8401e592";

/// Exact fixed ordered four-field model-matrix commitment.
pub const CANDIDATE_MODEL_MATRIX_SHA256: &'static str =
    "sha256:c385d79e02d233b4594800a66199c2da59e8f6fd623fb808812a669ccba29757";

/// Protected runtime pin for the public candidate release trust policy.
pub const CANDIDATE_TRUST_POLICY_DIGEST_ENV: &'static str =
    "AIQ_CORE_1_0_2_RELEASE_TRUST_POLICY_SHA256";

/// Public release admission schema owned by the TypeScript release protocol.
pub const RELEASE_GATE_ADMISSION_SCHEMA: &'static str = "aiq.release-gate-admission.v1";

/// Small public-safe outer corpus manifest schema.
pub const RELEASE_GATE_CORPUS_MANIFEST_SCHEMA: &'static str =
    "aiq.release-gate-corpus-manifest.v1";

/// Private execution plan schema.
pub const CANDIDATE_EXECUTION_PLAN_SCHEMA: &'static str = "aiq.candidate-execution-plan.v1";

/// Private authorization schema. It is intentionally not an admission schema.
pub const CANDIDATE_EXECUTION_AUTHORIZATION_SCHEMA: &'static str =
    "aiq.candidate-execution-authorization.v1";

/// Four-component candidate evaluator result schema.
pub const CANDIDATE_EVALUATOR_RESULT_SCHEMA: &'static str = "aiq.candidate-evaluator-result.v1";

/// Immutable candidate release identity shared by private artifact protocols.
pub const RELEASE_IDENTITY: &'static str = "aiq-core/1.0.2";

/// Exact runner-side proxy endpoint for the fixed candidate container topology.
pub const CANDIDATE_CODEX_EGRESS_PROXY_ENDPOINT: &'static str = "http://10.248.34.2:3128";

/// Maximum canonical public authority or trust-policy document size.
pub const MAX_CANDIDATE_PUBLIC_AUTHORITY_BYTES: u64 = 4194304;

/// Number of public core tasks.
pub const CANDIDATE_CORE_TASK_COUNT: usize = 72;

/// Number of canonical model configurations.
pub const CANDIDATE_MODEL_COUNT: usize = 17;

/// Number of preregistered repeats.
pub const CANDIDATE_REPEAT_COUNT: usize = 3;

/// Number of paired contrasts.
pub const CANDIDATE_CONTRAST_COUNT: usize = 3;

/// Execution units in one repeat: the core unit and one unit per contrast arm.
pub const CANDIDATE_UNITS_PER_REPEAT: usize = 7;

/// Number of exact execution units across all repeats.
pub const CANDIDATE_EXECUTION_UNIT_COUNT: usize = 21;

/// Number of create-once unit bundle paths.
pub const CANDIDATE_UNIT_OUTPUT_COUNT: usize = 84;

/// Number of create-once unit and aggregate paths.
pub const CANDIDATE_TOTAL_OUTPUT_COUNT: usize = 86;

/// Number of public core observations.
pub const CANDIDATE_CORE_OBSERVATION_COUNT: u64 = 3672;

/// Number of paired contrast comparisons.
pub const CANDIDATE_CONTRAST_PAIR_COUNT: u64 = 153;

/// Number of contrast-arm observations.
pub const CANDIDATE_CONTRAST_OBSERVATION_COUNT: u64 = 306;

/// Total core and contrast observations.
pub const CANDIDATE_TOTAL_OBSERVATION_COUNT: u64 = 3978;

/// Canonical encoding named by signed documents.
pub const SORTED_KEY_JSON: &'static str = "aiq.sorted-key-json.v1";

/// Fixed purpose of the private execution authorization.
pub const CANDIDATE_AUTHORIZATION_PURPOSE: &'static str = "authorize_private_candidate_execution";

/// Fixed purpose of the private execution plan.
pub const CANDIDATE_PLAN_PURPOSE: &'static str = "private_candidate_release_gate_execution";

/// Stable candidate gate failure that does not include controlled data.
#[derive(Clone, Debug)]
pub struct CandidateGateError {
    message: String,
}

impl View for CandidateGateError {
    type V = Seq<char>;

    closed spec fn view(&self) -> Seq<char> {
        self.message@
    }
}

impl CandidateGateError {
    /// Creates a redaction-safe candidate gate failure.
    pub fn new(message: &str) -> (e: Self)
        ensures
            e@ == message@,
    {
        CandidateGateError { message: message.to_owned() }
    }

    /// The failure text.
    pub fn message(&self) -> (m: String)
        ensures
            m@ == self@,
    {
        self.message.clone()
    }
}

// ---------------------------------------------------------------------------
// Identifier grammars
// ---------------------------------------------------------------------------
/// A lowercase identifier: `[a-z0-9][a-z0-9._-]*`.
pub open spec fn valid_identifier(s: Seq<char>) -> bool {
    &&& s.len() >= 1
    &&& in_class(CharClass::LowerAlnum, s[0])
    &&& all_in_class(s, 1, s.len() as int, CharClass::Identifier)
}

/// A nonzero lowercase SHA-256 address: `sha256:` and 64 hex digits, not all `0`.
pub open spec fn valid_digest(s: Seq<char>) -> bool {
    &&& has_prefix(s, "sha256:"@)
    &&& is_lower_hex_text(s.subrange(7, s.len() as int), 64)
    &&& exists|i: int| 7 <= i < s.len() && s[i] != '0'
}

/// A node identity: `node_` and 64 lowercase hex digits.
pub open spec fn valid_node_id(s: Seq<char>) -> bool {
    &&& has_prefix(s, "node_"@)
    &&& is_lower_hex_text(s.subrange(5, s.len() as int), 64)
}

/// A base64 Ed25519 signature: 86 base64 characters followed by `==`.
pub open spec fn valid_base64_ed25519_signature(s: Seq<char>) -> bool {
    &&& s.len() == 88
    &&& all_in_class(s, 0, 86, CharClass::Base64)
    &&& s[86] == '=' && s[87] == '='
}

pub fn is_valid_identifier(s: &str) -> (r: bool)
    ensures
        r == valid_identifier(s@),
{
    let v = chars_of(s);
    if v.len() == 0 {
        return false;
    }
    char_in_class(CharClass::LowerAlnum, v[0]) && all_chars_in_class(
        &v,
        1,
        v.len(),
        CharClass::Identifier,
    )
}

pub fn is_valid_digest(s: &str) -> (r: bool)
    ensures
        r == valid_digest(s@),
{
    let v = chars_of(s);
    let prefix = chars_of("sha256:");
    proof {
        reveal_strlit("sha256:");
    }
    if !chars_match_at(&v, 0, &prefix) {
        return false;
    }
    if v.len() != 71 || !all_chars_in_class(&v, 7, 71, CharClass::LowerHex) {
        proof {
            if v@.len() == 71 {
                let k = choose|k: int| 7 <= k < 71 && !in_class(CharClass::LowerHex, v@[k]);
                assert(v@.subrange(7, 71)[k - 7] == v@[k]);
            }
        }
        return false;
    }
    assert(is_lower_hex_text(v@.subrange(7, v@.len() as int), 64)) by {
        assert forall|i: int| 0 <= i < 64 implies #[trigger] in_class(
            CharClass::LowerHex,
            v@.subrange(7, 71)[i],
        ) by {
            assert(v@.subrange(7, 71)[i] == v@[i + 7]);
        }
    }
    let mut i: usize = 7;
    while i < 71
        invariant
            7 <= i <= 71,
            v@.len() == 71,
            v@ == s@,
            has_prefix(v@, "sha256:"@),
            is_lower_hex_text(v@.subrange(7, v@.len() as int), 64),
            forall|j: int| 7 <= j < i ==> v@[j] == '0',
        decreases 71 - i,
    {
        if v[i] != '0' {
            assert(v@[i as int] != '0');
            return true;
        }
        i += 1;
    }
    false
}

pub fn is_valid_node_id(s: &str) -> (r: bool)
    ensures
        r == valid_node_id(s@),
{
    let v = chars_of(s);
    let prefix = chars_of("node_");
    proof {
        reveal_strlit("node_");
    }
    if !chars_match_at(&v, 0, &prefix) {
        return false;
    }
    let ok = v.len() == 69 && all_chars_in_class(&v, 5, 69, CharClass::LowerHex);
    proof {
        if v@.len() == 69 {
            assert(all_in_class(v@, 5, 69, CharClass::LowerHex) == all_in_class(
                v@.subrange(5, 69),
                0,
                64,
                CharClass::LowerHex,
            )) by {
                assert forall|k: int| 0 <= k < 64 implies v@.subrange(5, 69)[k] == v@[k + 5] by {}
                if all_in_class(v@.subrange(5, 69), 0, 64, CharClass::LowerHex) {
                    assert forall|k: int| 5 <= k < 69 implies #[trigger] in_class(
                        CharClass::LowerHex,
                        v@[k],
                    ) by {
                        assert(v@.subrange(5, 69)[k - 5] == v@[k]);
                    }
                }
            }
        }
    }
    ok
}

/// `s` is exactly `count` lowercase hexadecimal digits.
pub fn is_lower_hex(s: &str, count: usize) -> (r: bool)
    ensures
        r == is_lower_hex_text(s@, count as nat),
{
    let v = chars_of(s);
    v.len() == count && all_chars_in_class(&v, 0, v.len(), CharClass::LowerHex)
}

pub fn is_valid_base64_ed25519_signature(s: &str) -> (r: bool)
    ensures
        r == valid_base64_ed25519_signature(s@),
{
    let v = chars_of(s);
    v.len() == 88 && all_chars_in_class(&v, 0, 86, CharClass::Base64) && v[86] == '=' && v[87]
        == '='
}

// ---------------------------------------------------------------------------
// Canonical timestamps
// ---------------------------------------------------------------------------
/// What `jiff::Timestamp::from_str(..).as_nanosecond()` gives for the text, or
/// `None` where jiff rejects it.
pub uninterp spec fn spec_jiff_nanoseconds(text: Seq<char>) -> Option<i128>;

/// Canonical ISO millisecond UTC text: `YYYY-MM-DDTHH:MM:SS.mmmZ`.
pub open spec fn canonical_timestamp_shape(s: Seq<char>) -> bool {
    &&& s.len() == 24
    &&& s[4] == '-' && s[7] == '-' && s[10] == 'T' && s[13] == ':' && s[16] == ':'
    &&& s[19] == '.' && s[23] == 'Z'
    &&& forall|i: int|
        0 <= i < 24 && i != 4 && i != 7 && i != 10 && i != 13 && i != 16 && i != 19 && i != 23
            ==> #[trigger] is_digit(s[i])
}

/// The instant of a canonical timestamp, in nanoseconds since the epoch.
pub open spec fn timestamp_instant(s: Seq<char>) -> Option<i128> {
    if canonical_timestamp_shape(s) {
        spec_jiff_nanoseconds(s)
    } else {
        None
    }
}

/// Value of the decimal digit at `i`.
#[verifier::opaque]
pub open spec fn digit_value(s: Seq<char>, i: int) -> int {
    (s[i] as int) - 48
}

/// The calendar fields of canonical timestamp text: year, month, day, hour,
/// minute, second and millisecond.
#[verifier::opaque]
pub open spec fn timestamp_fields(s: Seq<char>) -> (int, int, int, int, int, int, int) {
    (
        digit_value(s, 0) * 1000 + digit_value(s, 1) * 100 + digit_value(s, 2) * 10 + digit_value(s, 3),
        digit_value(s, 5) * 10 + digit_value(s, 6),
        digit_value(s, 8) * 10 + digit_value(s, 9),
        digit_value(s, 11) * 10 + digit_value(s, 12),
        digit_value(s, 14) * 10 + digit_value(s, 15),
        digit_value(s, 17) * 10 + digit_value(s, 18),
        digit_value(s, 20) * 100 + digit_value(s, 21) * 10 + digit_value(s, 22),
    )
}

/// A Gregorian leap year.
#[verifier::opaque]
pub open spec fn is_leap_year(y: int) -> bool {
    (y % 4 == 0 && y % 100 != 0) || y % 400 == 0
}

/// Days in month `m` of year `y`.
#[verifier::opaque]
pub open spec fn days_in_month(y: int, m: int) -> int {
    if m == 2 {
        if is_leap_year(y) {
            29
        } else {
            28
        }
    } else if m == 4 || m == 6 || m == 9 || m == 11 {
        30
    } else {
        31
    }
}

/// Days from 1970-01-01 to the proleptic Gregorian date `y-m-d` (`y >= 1`).
#[verifier::opaque]
pub open spec fn days_from_civil(y: int, m: int, d: int) -> int {
    let y2 = if m <= 2 {
        y - 1
    } else {
        y
    };
    let era = y2 / 400;
    let yoe = y2 - era * 400;
    let mp = if m > 2 {
        m - 3
    } else {
        m + 9
    };
    let doy = (153 * mp + 2) / 5 + d - 1;
    let doe = yoe * 365 + yoe / 4 - yoe / 100 + doy;
    era * 146097 + doe - 719468
}

/// The timestamp names a real UTC instant of years 1 to 9998: every field is
/// in its calendar range, with no leap second.
#[verifier::opaque]
pub open spec fn timestamp_in_calendar(s: Seq<char>) -> bool {
    let (y, mo, d, h, mi, se, _ms) = timestamp_fields(s);
    &&& canonical_timestamp_shape(s)
    &&& 1 <= y <= 9998
    &&& 1 <= mo <= 12
    &&& 1 <= d <= days_in_month(y, mo)
    &&& h <= 23
    &&& mi <= 59
    &&& se <= 59
}

/// Nanoseconds since the Unix epoch of the instant the text names.
#[verifier::opaque]
pub open spec fn calendar_nanoseconds(s: Seq<char>) -> int {
    let (y, mo, d, h, mi, se, ms) = timestamp_fields(s);
    ((days_from_civil(y, mo, d) * 86400 + h * 3600 + mi * 60 + se) * 1000 + ms) * 1000000
}

/// `jiff::Timestamp::from_str` followed by `as_nanosecond`. The contract
/// names the result, and states it for canonical millisecond UTC text of a
/// real calendar instant within jiff's range: RFC 3339 gives that instant,
/// counted in nanoseconds from the Unix epoch.
#[verifier::external_body]
fn jiff_parse_nanoseconds(text: &str) -> (r: Option<i128>)
    ensures
        r == spec_jiff_nanoseconds(text@),
        timestamp_in_calendar(text@) ==> r is Some && r->0 == calendar_nanoseconds(text@),
{
    text.parse::<jiff::Timestamp>().ok().map(|timestamp| timestamp.as_nanosecond())
}

/// Parses canonical ISO millisecond UTC text into an instant; text naming a
/// real calendar instant gives that instant's nanoseconds since the epoch.
pub fn parse_canonical_timestamp(value: &str) -> (r: Result<i128, CandidateGateError>)
    ensures
        match r {
            Ok(t) => timestamp_instant(value@) == Some(t),
            Err(_) => timestamp_instant(value@) is None,
        },
        timestamp_in_calendar(value@) ==> r is Ok && r->Ok_0 == calendar_nanoseconds(value@),
{
    proof {
        reveal(timestamp_in_calendar);
    }
    let v = chars_of(value);
    let mut shaped = v.len() == 24;
    if shaped {
        shaped = v[4] == '-' && v[7] == '-' && v[10] == 'T' && v[13] == ':' && v[16] == ':'
            && v[19] == '.' && v[23] == 'Z';
    }
    if shaped {
        let mut i: usize = 0;
        while i < 24
            invariant
                v@.len() == 24,
                i <= 24,
                shaped ==> forall|k: int|
                    0 <= k < i && k != 4 && k != 7 && k != 10 && k != 13 && k != 16 && k != 19
                        && k != 23 ==> #[trigger] is_digit(v@[k]),
                !shaped ==> !canonical_timestamp_shape(v@),
            decreases 24 - i,
        {
            if i != 4 && i != 7 && i != 10 && i != 13 && i != 16 && i != 19 && i != 23 {
                if !char_in_class(CharClass::Digit, v[i]) {
                    shaped = false;
                }
            }
            i += 1;
        }
    }
    if !shaped {
        return Err(
            CandidateGateError::new(
                "release-gate timestamp must be canonical ISO milliseconds in UTC",
            ),
        );
    }
    match jiff_parse_nanoseconds(value) {
        Some(t) => Ok(t),
        None => Err(
            CandidateGateError::new("release-gate timestamp must be a valid UTC instant"),
        ),
    }
}

// ---------------------------------------------------------------------------
// The fixed model matrix
// ---------------------------------------------------------------------------
/// Family of configuration `i`: `sol`, `terra`, then `luna`, six efforts each
/// (`luna` has no `ultra`).
pub open spec fn family_name(f: int) -> Seq<char> {
    if f == 0 {
        "sol"@
    } else if f == 1 {
        "terra"@
    } else {
        "luna"@
    }
}

pub open spec fn effort_name(e: int) -> Seq<char> {
    if e == 0 {
        "low"@
    } else if e == 1 {
        "medium"@
    } else if e == 2 {
        "high"@
    } else if e == 3 {
        "xhigh"@
    } else if e == 4 {
        "max"@
    } else {
        "ultra"@
    }
}

/// Canonical public model identifier of configuration `i`.
pub open spec fn canonical_model_id(i: int) -> Seq<char> {
    family_name(i / 6) + "-"@ + effort_name(i % 6)
}

/// Synthetic execution identifier of configuration `i`.
pub open spec fn execution_model_id(i: int) -> Seq<char> {
    "gpt-5.6-"@ + canonical_model_id(i)
}

/// Real runtime model name of configuration `i`.
pub open spec fn runtime_model_name(i: int) -> Seq<char> {
    "gpt-5.6-"@ + family_name(i / 6)
}

fn family_str(f: usize) -> (r: &'static str)
    ensures
        r@ == family_name(f as int),
{
    if f == 0 {
        "sol"
    } else if f == 1 {
        "terra"
    } else {
        "luna"
    }
}

fn effort_str(e: usize) -> (r: &'static str)
    ensures
        r@ == effort_name(e as int),
{
    if e == 0 {
        "low"
    } else if e == 1 {
        "medium"
    } else if e == 2 {
        "high"
    } else if e == 3 {
        "xhigh"
    } else if e == 4 {
        "max"
    } else {
        "ultra"
    }
}

/// The four text fields of configuration `i`: canonical id, execution id,
/// family and reasoning effort, and the runtime model name.
pub struct ModelIdentity {
    pub canonical_model_id: String,
    pub execution_model_id: String,
    pub family: String,
    pub reasoning_effort: String,
    pub model_name: String,
}

pub fn model_identity(i: usize) -> (m: ModelIdentity)
    requires
        i < 17,
    ensures
        m.canonical_model_id@ == canonical_model_id(i as int),
        m.execution_model_id@ == execution_model_id(i as int),
        m.family@ == family_name(i as int / 6),
        m.reasoning_effort@ == effort_name(i as int % 6),
        m.model_name@ == runtime_model_name(i as int),
{
    let family = family_str(i / 6);
    let effort = effort_str(i % 6);
    let mut canonical = String::from_str(family);
    canonical.append("-");
    canonical.append(effort);
    let mut execution = String::from_str("gpt-5.6-");
    execution.append(canonical.as_str());
    let mut name = String::from_str("gpt-5.6-");
    name.append(family);
    ModelIdentity {
        canonical_model_id: canonical,
        execution_model_id: execution,
        family: String::from_str(family),
        reasoning_effort: String::from_str(effort),
        model_name: name,
    }
}

/// Real runtime selector for one synthetic public execution ID.
#[derive(Clone, Debug)]
pub struct CandidateResolvedModel {
    /// Canonical public model identifier.
    pub canonical_model_id: String,
    /// Synthetic model identifier used for execution selection.
    pub execution_model_id: String,
    /// Real model name supplied to the runtime.
    pub model_name: String,
    /// Reasoning-effort level supplied to the runtime.
    pub reasoning_effort: String,
}

/// The resolved runtime selector of configuration `i`.
pub open spec fn resolved_model_is(m: CandidateResolvedModel, i: int) -> bool {
    &&& m.canonical_model_id@ == canonical_model_id(i)
    &&& m.execution_model_id@ == execution_model_id(i)
    &&& m.model_name@ == runtime_model_name(i)
    &&& m.reasoning_effort@ == effort_name(i % 6)
}

/// Resolves only one of the seventeen preregistered synthetic execution IDs.
pub fn resolve_candidate_execution_identity(execution_model_id: &str) -> (r: Result<
    CandidateResolvedModel,
    CandidateGateError,
>)
    ensures
        match r {
            Ok(m) => exists|i: int|
                0 <= i < 17 && self::execution_model_id(i) == execution_model_id@
                    && resolved_model_is(m, i),
            Err(_) => forall|i: int|
                0 <= i < 17 ==> self::execution_model_id(i) != execution_model_id@,
        },
{
    let mut i: usize = 0;
    while i < 17
        invariant
            i <= 17,
            forall|k: int| 0 <= k < i ==> self::execution_model_id(k) != execution_model_id@,
        decreases 17 - i,
    {
        let identity = model_identity(i);
        if text_eq(identity.execution_model_id.as_str(), execution_model_id) {
            let m = CandidateResolvedModel {
                canonical_model_id: identity.canonical_model_id,
                execution_model_id: identity.execution_model_id,
                model_name: identity.model_name,
                reasoning_effort: identity.reasoning_effort,
            };
            assert(resolved_model_is(m, i as int));
            return Ok(m);
        }
        i += 1;
    }
    Err(CandidateGateError::new("unknown candidate execution model identity"))
}

/// The seventeen resolved runtime selectors, in matrix order.
pub fn expected_resolved_models() -> (r: Vec<CandidateResolvedModel>)
    ensures
        r@.len() == 17,
        forall|i: int| 0 <= i < 17 ==> resolved_model_is(#[trigger] r@[i], i),
{
    let mut r: Vec<CandidateResolvedModel> = Vec::new();
    let mut i: usize = 0;
    while i < 17
        invariant
            i <= 17,
            r@.len() == i,
            forall|k: int| 0 <= k < i ==> resolved_model_is(#[trigger] r@[k], k),
        decreases 17 - i,
    {
        let identity = model_identity(i);
        r.push(
            CandidateResolvedModel {
                canonical_model_id: identity.canonical_model_id,
                execution_model_id: identity.execution_model_id,
                model_name: identity.model_name,
                reasoning_effort: identity.reasoning_effort,
            },
        );
        i += 1;
    }
    r
}

/// The seventeen canonical model identifiers, in matrix order.
pub open spec fn canonical_model_ids() -> Seq<Seq<char>> {
    Seq::new(17, |i: int| canonical_model_id(i))
}

pub fn canonical_model_id_list() -> (r: Vec<String>)
    ensures
        r.deep_view() == canonical_model_ids(),
{
    let mut r: Vec<String> = Vec::new();
    let mut i: usize = 0;
    while i < 17
        invariant
            i <= 17,
            r@.len() == i,
            forall|k: int| 0 <= k < i ==> #[trigger] r@[k]@ == canonical_model_id(k),
        decreases 17 - i,
    {
        r.push(model_identity(i).canonical_model_id);
        i += 1;
    }
    assert(r.deep_view() =~= canonical_model_ids());
    r
}

// ---------------------------------------------------------------------------
// The fixed contrasts
// ---------------------------------------------------------------------------
/// Identifier of contrast `c`.
pub open spec fn contrast_id(c: int) -> Seq<char> {
    if c == 0 {
        "coupled_constraints"@
    } else if c == 1 {
        "ambiguous_recovery_state"@
    } else {
        "plausible_incomplete_evidence"@
    }
}

/// Controlled task of contrast `c` for an arm.
pub open spec fn contrast_task_id(c: int, arm: CandidateContrastArm) -> Seq<char> {
    let stem = if c == 0 {
        "coupled"@
    } else if c == 1 {
        "recovery"@
    } else {
        "evidence"@
    };
    "contrast-"@ + stem + match arm {
        CandidateContrastArm::Reference => "-reference-01"@,
        CandidateContrastArm::Challenge => "-challenge-01"@,
    }
}

pub fn contrast_id_str(c: usize) -> (r: &'static str)
    ensures
        r@ == contrast_id(c as int),
{
    if c == 0 {
        "coupled_constraints"
    } else if c == 1 {
        "ambiguous_recovery_state"
    } else {
        "plausible_incomplete_evidence"
    }
}

pub fn contrast_task_id_string(c: usize, arm: CandidateContrastArm) -> (r: String)
    ensures
        r@ == contrast_task_id(c as int, arm),
{
    let stem = if c == 0 {
        "coupled"
    } else if c == 1 {
        "recovery"
    } else {
        "evidence"
    };
    let mut r = String::from_str("contrast-");
    r.append(stem);
    match arm {
        CandidateContrastArm::Reference => r.append("-reference-01"),
        CandidateContrastArm::Challenge => r.append("-challenge-01"),
    }
    r
}

/// Arm name as written in signed arm orders and unit identifiers.
pub open spec fn arm_name(arm: CandidateContrastArm) -> Seq<char> {
    match arm {
        CandidateContrastArm::Reference => "reference"@,
        CandidateContrastArm::Challenge => "challenge"@,
    }
}

pub fn arm_str(arm: CandidateContrastArm) -> (r: &'static str)
    ensures
        r@ == arm_name(arm),
{
    match arm {
        CandidateContrastArm::Reference => "reference",
        CandidateContrastArm::Challenge => "challenge",
    }
}

/// The `k`-th arm of repeat `repeat_index`: even repeats run reference first,
/// odd repeats run challenge first.
pub open spec fn scheduled_arm(repeat_index: int, k: int) -> CandidateContrastArm {
    if (repeat_index % 2 == 0) == (k % 2 == 0) {
        CandidateContrastArm::Reference
    } else {
        CandidateContrastArm::Challenge
    }
}

/// The counterbalanced `contrast:arm` order signed for one repeat.
pub open spec fn expected_contrast_arm_order(repeat_index: int) -> Seq<Seq<char>> {
    Seq::new(
        6,
        |k: int| contrast_id(k / 2) + ":"@ + arm_name(scheduled_arm(repeat_index, k)),
    )
}

pub fn scheduled_arm_of(repeat_index: usize, k: usize) -> (arm: CandidateContrastArm)
    ensures
        arm == scheduled_arm(repeat_index as int, k as int),
{
    if (repeat_index % 2 == 0) == (k % 2 == 0) {
        CandidateContrastArm::Reference
    } else {
        CandidateContrastArm::Challenge
    }
}

pub fn expected_contrast_arm_order_list(repeat_index: usize) -> (r: Vec<String>)
    ensures
        r.deep_view() == expected_contrast_arm_order(repeat_index as int),
{
    let mut r: Vec<String> = Vec::new();
    let mut k: usize = 0;
    while k < 6
        invariant
            k <= 6,
            r@.len() == k,
            forall|j: int|
                0 <= j < k ==> #[trigger] r@[j]@ == contrast_id(j / 2) + ":"@ + arm_name(
                    scheduled_arm(repeat_index as int, j),
                ),
        decreases 6 - k,
    {
        let mut item = String::from_str(contrast_id_str(k / 2));
        item.append(":");
        item.append(arm_str(scheduled_arm_of(repeat_index, k)));
        r.push(item);
        k += 1;
    }
    assert(r.deep_view() =~= expected_contrast_arm_order(repeat_index as int));
    r
}

/// The contrast arms are counterbalanced: within a repeat each contrast runs
/// both of its arms, back to back; from one repeat to the next every position
/// switches arm; and the first repeat opens with the reference arm.
pub proof fn law_contrast_arms_are_counterbalanced(repeat_index: int, c: int, k: int)
    requires
        repeat_index >= 0,
        0 <= c < 3,
        0 <= k < 6,
    ensures
        scheduled_arm(repeat_index + 1, k) != scheduled_arm(repeat_index, k),
        scheduled_arm(repeat_index, 2 * c) != scheduled_arm(repeat_index, 2 * c + 1),
        scheduled_arm(0, 0) == CandidateContrastArm::Reference,
{
}

// ---------------------------------------------------------------------------
// Small closed vocabularies
// ---------------------------------------------------------------------------
/// One classified attempt failure. Only admission failure can be retried, and
/// only before the model starts.
#[derive(Clone, Copy, Debug, PartialEq, Eq, Structural)]
pub enum CandidateAttemptFailure {
    /// Admission failed before the model started.
    PreModelAdmission,
    /// The model failed after execution started.
    ModelFailure,
    /// The evaluator failed after model execution.
    EvaluatorFailure,
}

impl CandidateAttemptFailure {
    /// Only a failure of admission before the model starts is retryable.
    pub fn is_retryable_infrastructure(self) -> (r: bool)
        ensures
            r == (self == CandidateAttemptFailure::PreModelAdmission),
    {
        match self {
            CandidateAttemptFailure::PreModelAdmission => true,
            _ => false,
        }
    }
}

/// Kind of one private execution unit.
#[derive(Clone, Copy, Debug, PartialEq, Eq, Structural)]
pub enum CandidateExecutionUnitKind {
    /// Unit that executes all core tasks.
    Core,
    /// Unit that executes one contrast arm.
    Contrast,
}

/// Contrast arm selected by the signed repeat schedule.
#[derive(Clone, Copy, Debug, PartialEq, Eq, Structural)]
pub enum CandidateContrastArm {
    /// Reference arm of a paired contrast.
    Reference,
    /// Challenge arm of a paired contrast.
    Challenge,
}

/// Released surfaces that must never consume candidate calibration output.
#[derive(Clone, Copy, Debug, PartialEq, Eq, Structural)]
pub enum ForbiddenCandidatePath {
    /// Official result-package creation path.
    OfficialPackage,
    /// Official submission path.
    OfficialSubmission,
    /// Public ranking path.
    Ranking,
    /// Released catalog path.
    ReleasedCatalog,
}

/// Whether output files must be fresh or may reopen the complete signed plan.
#[derive(Clone, Copy, Debug, PartialEq, Eq, Structural)]
pub enum CandidateReservationMode {
    /// Require every signed output path to be absent.
    Fresh,
    /// Reopen output paths from the exact signed plan.
    ResumeExactPlan,
}

/// Observable state of one exact signed output path.
#[derive(Clone, Debug)]
pub enum CandidateOutputState {
    /// Output path is held as an empty create-once reservation.
    Reserved,
    /// Output path contains immutable completed output.
    Filled {
        /// SHA-256 digest of the completed output bytes.
        sha256: String,
    },
}

/// The surface named in a rejection.
pub open spec fn released_surface_name(path: ForbiddenCandidatePath) -> Seq<char> {
    match path {
        ForbiddenCandidatePath::OfficialPackage => "Official package"@,
        ForbiddenCandidatePath::OfficialSubmission => "Official submission"@,
        ForbiddenCandidatePath::Ranking => "ranking"@,
        ForbiddenCandidatePath::ReleasedCatalog => "released catalog"@,
    }
}

/// Rejects every attempt to route candidate output into a released surface.
pub fn reject_released_path(path: ForbiddenCandidatePath) -> (r: Result<(), CandidateGateError>)
    ensures
        match r {
            Ok(_) => false,
            Err(e) => e@ == "AIQ Core 1.0.2 candidate output cannot enter the "@
                + released_surface_name(path) + " path"@,
        },
{
    let surface = match path {
        ForbiddenCandidatePath::OfficialPackage => "Official package",
        ForbiddenCandidatePath::OfficialSubmission => "Official submission",
        ForbiddenCandidatePath::Ranking => "ranking",
        ForbiddenCandidatePath::ReleasedCatalog => "released catalog",
    };
    let mut message = String::from_str("AIQ Core 1.0.2 candidate output cannot enter the ");
    message.append(surface);
    message.append(" path");
    Err(CandidateGateError { message })
}

// ---------------------------------------------------------------------------
// The candidate task catalog
// ---------------------------------------------------------------------------
/// The ordered public candidate task identifiers: exactly 72 distinct
/// lowercase identifiers.
pub struct CandidateCatalog {
    task_ids: Vec<String>,
}

/// The catalog grammar: 72 distinct valid identifiers.
pub open spec fn valid_catalog_task_ids(ids: Seq<Seq<char>>) -> bool {
    &&& ids.len() == 72
    &&& forall|i: int| 0 <= i < ids.len() ==> valid_identifier(#[trigger] ids[i])
    &&& forall|i: int, j: int| 0 <= i < j < ids.len() ==> ids[i] != ids[j]
}

impl View for CandidateCatalog {
    type V = Seq<Seq<char>>;

    closed spec fn view(&self) -> Seq<Seq<char>> {
        self.task_ids.deep_view()
    }
}

impl CandidateCatalog {
    /// Accepts the ordered task identifiers of the candidate catalog.
    pub fn from_task_ids(task_ids: Vec<String>) -> (r: Result<CandidateCatalog, CandidateGateError>)
        ensures
            match r {
                Ok(c) => c@ == task_ids.deep_view() && valid_catalog_task_ids(c@),
                Err(_) => !valid_catalog_task_ids(task_ids.deep_view()),
            },
    {
        let ghost ids = task_ids.deep_view();
        if task_ids.len() != 72 {
            return Err(
                CandidateGateError::new(
                    "embedded candidate catalog does not contain 72 unique ordered task IDs",
                ),
            );
        }
        let mut i: usize = 0;
        while i < task_ids.len()
            invariant
                ids == task_ids.deep_view(),
                i <= task_ids@.len(),
                forall|k: int| 0 <= k < i ==> valid_identifier(#[trigger] ids[k]),
                forall|k: int, l: int| 0 <= k < l < i ==> ids[k] != ids[l],
            decreases task_ids@.len() - i,
        {
            if !is_valid_identifier(task_ids[i].as_str()) {
                assert(!valid_identifier(ids[i as int]));
                return Err(
                    CandidateGateError::new(
                        "embedded candidate catalog does not contain 72 unique ordered task IDs",
                    ),
                );
            }
            let mut j: usize = 0;
            while j < i
                invariant
                    ids == task_ids.deep_view(),
                    j <= i < task_ids@.len(),
                    forall|l: int| 0 <= l < j ==> ids[l] != ids[i as int],
                decreases i - j,
            {
                if task_ids[j] == task_ids[i] {
                    assert(ids[j as int] == ids[i as int]);
                    return Err(
                        CandidateGateError::new(
                            "embedded candidate catalog does not contain 72 unique ordered task IDs",
                        ),
                    );
                }
                j += 1;
            }
            i += 1;
        }
        Ok(CandidateCatalog { task_ids })
    }

    /// The ordered task identifiers.
    pub fn task_ids(&self) -> (r: &Vec<String>)
        ensures
            r.deep_view() == self@,
    {
        &self.task_ids
    }
}

} // verus!

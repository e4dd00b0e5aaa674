//! Decisions of the command-line runner that do not depend on I/O: the
//! submission verdict, bounded concurrency arguments, the dispatch window and
//! the permission-evidence digests.
use vstd::prelude::*;
use vstd::string::*;

use crate::capacity::MAX_RUN_JOBS;
use crate::corpus::RunClass;
use crate::digest::{canonical_digest, canonical_hash, Json, JsonTree};
use crate::release_gate::evaluator::{decimal_string, decimal_text};
use crate::model::{
    law_model_keys_identify_their_configuration, matrix_entry, matrix_index, model_key, model_key_of,
    model_matrix_entry, ModelConfig,
};
use crate::text::{chars_of, is_digit, text_eq};

verus! {

/// Largest artifact upload concurrency a submission accepts.
pub const MAX_ARTIFACT_UPLOAD_CONCURRENCY: usize = 32;

/// Artifact upload concurrency used when none is given.
pub const DEFAULT_ARTIFACT_UPLOAD_CONCURRENCY: usize = 8;

// ---------------------------------------------------------------------------
// Submission verdict
// ---------------------------------------------------------------------------
/// How the endpoint answered one package submission.
#[derive(Clone, Copy, Debug, PartialEq, Eq, Structural)]
pub enum SubmissionOutcomeKind {
    Accepted,
    Duplicate,
    Conflict,
    ClientError,
    ServerError,
    Network,
    Timeout,
    Configuration,
}

/// Stable name of an outcome kind.
pub open spec fn outcome_kind_text(kind: SubmissionOutcomeKind) -> Seq<char> {
    match kind {
        SubmissionOutcomeKind::Accepted => "accepted"@,
        SubmissionOutcomeKind::Duplicate => "duplicate"@,
        SubmissionOutcomeKind::Conflict => "conflict"@,
        SubmissionOutcomeKind::ClientError => "client_error"@,
        SubmissionOutcomeKind::ServerError => "server_error"@,
        SubmissionOutcomeKind::Network => "network"@,
        SubmissionOutcomeKind::Timeout => "timeout"@,
        SubmissionOutcomeKind::Configuration => "configuration"@,
    }
}

impl SubmissionOutcomeKind {
    /// The package was queued: accepted now, or an exact duplicate of a
    /// package already accepted.
    pub fn is_success(self) -> (r: bool)
        ensures
            r <==> (self is Accepted || self is Duplicate),
    {
        match self {
            SubmissionOutcomeKind::Accepted | SubmissionOutcomeKind::Duplicate => true,
            _ => false,
        }
    }

    /// Stable name of the kind.
    pub fn as_str(self) -> (r: &'static str)
        ensures
            r@ == outcome_kind_text(self),
    {
        match self {
            SubmissionOutcomeKind::Accepted => "accepted",
            SubmissionOutcomeKind::Duplicate => "duplicate",
            SubmissionOutcomeKind::Conflict => "conflict",
            SubmissionOutcomeKind::ClientError => "client_error",
            SubmissionOutcomeKind::ServerError => "server_error",
            SubmissionOutcomeKind::Network => "network",
            SubmissionOutcomeKind::Timeout => "timeout",
            SubmissionOutcomeKind::Configuration => "configuration",
        }
    }
}

/// Outcome of one submission request.
#[derive(Clone, Debug)]
pub struct SubmissionOutcome {
    pub kind: SubmissionOutcomeKind,
    /// HTTP status, when a response arrived.
    pub status: Option<u16>,
    /// Untrusted server text; never echoed in diagnostics.
    pub server_disposition: String,
}

/// Outcome of a package submission with its artifacts.
#[derive(Clone, Debug)]
pub struct SubmissionBundleOutcome {
    pub schema_version: String,
    pub artifacts_total: usize,
    pub artifacts_stored: usize,
    pub artifacts_duplicate: usize,
    pub package: SubmissionOutcome,
}

/// The diagnostic of a failed package submission: its kind and its HTTP
/// status, and nothing of the server's reply.
pub open spec fn submission_failure_text(kind: SubmissionOutcomeKind, status: Option<u16>) -> Seq<
    char,
> {
    "package submission failed with "@ + outcome_kind_text(kind) + " "@ + match status {
        Some(code) => "with HTTP "@ + decimal_text(code as nat),
        None => "without an HTTP status"@,
    }
}

/// Succeeds exactly when the package was accepted or was an exact duplicate.
pub fn require_successful_package_submission(outcome: &SubmissionBundleOutcome) -> (r: Result<
    (),
    String,
>)
    ensures
        match r {
            Ok(()) => outcome.package.kind is Accepted || outcome.package.kind is Duplicate,
            Err(e) => !(outcome.package.kind is Accepted || outcome.package.kind is Duplicate)
                && e@ == submission_failure_text(outcome.package.kind, outcome.package.status),
        },
{
    if outcome.package.kind.is_success() {
        return Ok(());
    }
    proof {
        reveal_strlit("package submission failed with ");
        reveal_strlit(" ");
        reveal_strlit("with HTTP ");
        reveal_strlit("without an HTTP status");
    }
    let mut e = "package submission failed with ".to_owned();
    e.append(outcome.package.kind.as_str());
    e.append(" ");
    match outcome.package.status {
        Some(code) => {
            e.append("with HTTP ");
            let digits = decimal_string(code as u64);
            e.append(digits.as_str());
        },
        None => {
            e.append("without an HTTP status");
        },
    }
    Err(e)
}

// ---------------------------------------------------------------------------
// Decimal arguments
// ---------------------------------------------------------------------------
/// Value of a run of decimal digits.
pub open spec fn digits_value(s: Seq<char>) -> nat
    decreases s.len(),
{
    if s.len() == 0 {
        0
    } else {
        digits_value(s.drop_last()) * 10 + (s.last() as nat - 48) as nat
    }
}

/// Every character of `s` is an ASCII digit.
pub open spec fn all_digits(s: Seq<char>) -> bool {
    forall|i: int| 0 <= i < s.len() ==> is_digit(#[trigger] s[i])
}

/// What `usize::from_str` accepts: an optional `+`, then one or more ASCII
/// digits whose value fits.
pub open spec fn parsed_usize(s: Seq<char>) -> Option<nat> {
    let d = if s.len() > 0 && s[0] == '+' {
        s.subrange(1, s.len() as int)
    } else {
        s
    };
    if d.len() > 0 && all_digits(d) && digits_value(d) <= usize::MAX {
        Some(digits_value(d))
    } else {
        None
    }
}

proof fn lemma_digits_prefix(s: Seq<char>, j: int)
    requires
        0 <= j <= s.len(),
        all_digits(s),
    ensures
        digits_value(s.subrange(0, j)) <= digits_value(s),
    decreases s.len() - j,
{
    if j < s.len() {
        let t = s.subrange(0, j + 1);
        assert(t.drop_last() =~= s.subrange(0, j));
        assert(is_digit(s[j]));
        if j + 1 < s.len() {
            lemma_digits_prefix(s, j + 1);
        } else {
            assert(t =~= s);
        }
    } else {
        assert(s.subrange(0, j) =~= s);
    }
}

/// Value of the digits `v[from..to]`, or `None` when one is not a digit or
/// the value does not fit in 64 bits.
fn parse_digits(v: &Vec<char>, from: usize, to: usize) -> (r: Option<u64>)
    requires
        from <= to <= v@.len(),
    ensures
        match r {
            Some(n) => all_digits(v@.subrange(from as int, to as int)) && n == digits_value(
                v@.subrange(from as int, to as int),
            ),
            None => !all_digits(v@.subrange(from as int, to as int)) || digits_value(
                v@.subrange(from as int, to as int),
            ) > u64::MAX,
        },
{
    let ghost d = v@.subrange(from as int, to as int);
    let mut value: u64 = 0;
    let mut i: usize = from;
    while i < to
        invariant
            from <= i <= to <= v@.len(),
            d == v@.subrange(from as int, to as int),
            all_digits(v@.subrange(from as int, i as int)),
            value == digits_value(v@.subrange(from as int, i as int)),
        decreases to - i,
    {
        let c = v[i];
        let ghost pre = v@.subrange(from as int, i as int);
        let ghost next = v@.subrange(from as int, i + 1);
        proof {
            assert(next.drop_last() =~= pre);
            assert(next.last() == c);
        }
        if !(c >= '0' && c <= '9') {
            proof {
                assert(d[i - from] == c);
                assert(!is_digit(d[i - from]));
            }
            return None;
        }
        let digit: u64 = (c as u32 - 48) as u64;
        let scaled = value.checked_mul(10);
        let sum = match scaled {
            Some(m) => m.checked_add(digit),
            None => None,
        };
        match sum {
            Some(n) => {
                value = n;
            },
            None => {
                proof {
                    assert(digits_value(next) > u64::MAX);
                    assert forall|k: int| 0 <= k < next.len() implies is_digit(#[trigger] next[k]) by {
                        if k < pre.len() {
                            assert(next[k] == pre[k]);
                        }
                    }
                    if all_digits(d) {
                        assert(d.subrange(0, (i + 1 - from) as int) =~= next);
                        lemma_digits_prefix(d, (i + 1 - from) as int);
                    }
                }
                return None;
            },
        }
        proof {
            assert forall|k: int| 0 <= k < next.len() implies is_digit(#[trigger] next[k]) by {
                if k < pre.len() {
                    assert(next[k] == pre[k]);
                }
            }
        }
        i += 1;
    }
    Some(value)
}

/// The artifact upload concurrency argument: a decimal count from one to
/// the largest allowed.
pub fn parse_artifact_upload_concurrency(value: &str) -> (r: Result<usize, String>)
    ensures
        match r {
            Ok(n) => parsed_usize(value@) == Some(n as nat) && 1 <= n <= MAX_ARTIFACT_UPLOAD_CONCURRENCY,
            Err(e) => match parsed_usize(value@) {
                None => e@ == "artifact upload concurrency must be a positive integer"@,
                Some(n) => !(1 <= n <= MAX_ARTIFACT_UPLOAD_CONCURRENCY) && e@
                    == "artifact upload concurrency must be between 1 and 32"@,
            },
        },
{
    let v = chars_of(value);
    let from: usize = if v.len() > 0 && v[0] == '+' {
        1
    } else {
        0
    };
    let ghost d = v@.subrange(from as int, v@.len() as int);
    proof {
        if from == 0 {
            assert(d =~= v@);
        }
    }
    let parsed = if from < v.len() {
        parse_digits(&v, from, v.len())
    } else {
        None
    };
    let n: usize = match parsed {
        Some(n) => {
            if n > usize::MAX as u64 {
                return Err("artifact upload concurrency must be a positive integer".to_owned());
            }
            n as usize
        },
        None => {
            return Err("artifact upload concurrency must be a positive integer".to_owned());
        },
    };
    if n >= 1 && n <= MAX_ARTIFACT_UPLOAD_CONCURRENCY {
        Ok(n)
    } else {
        Err("artifact upload concurrency must be between 1 and 32".to_owned())
    }
}

/// The canonical observed-at argument: `unix-ms:` and a positive decimal
/// count of milliseconds without leading zeros that fits in 64 bits.
pub open spec fn observed_at_millis(value: Seq<char>) -> Option<nat> {
    let prefix = "unix-ms:"@;
    if value.len() >= prefix.len() && value.subrange(0, prefix.len() as int) == prefix {
        let ms = value.subrange(prefix.len() as int, value.len() as int);
        if ms.len() > 0 && !(ms.len() > 1 && ms[0] == '0') && all_digits(ms) && digits_value(ms)
            <= u64::MAX && digits_value(ms) > 0 {
            Some(digits_value(ms))
        } else {
            None
        }
    } else {
        None
    }
}

/// Parses a `run --observed-at` argument and returns it in canonical form.
pub fn parse_run_observed_at(value: &str) -> (r: Result<String, String>)
    ensures
        match r {
            Ok(s) => observed_at_millis(value@) is Some && s@ == "unix-ms:"@ + decimal_text(
                observed_at_millis(value@)->0,
            ),
            Err(_) => observed_at_millis(value@) is None,
        },
{
    proof {
        reveal_strlit("unix-ms:");
    }
    let v = chars_of(value);
    let prefix = chars_of("unix-ms:");
    if v.len() < 8 || !crate::text::chars_match_at(&v, 0, &prefix) {
        proof {
            if v@.len() >= 8 && v@.subrange(0, 8) == "unix-ms:"@ {
                assert forall|k: int| 0 <= k < 8 implies v@[k] == prefix@[k] by {
                    assert(v@.subrange(0, 8)[k] == v@[k]);
                }
            }
        }
        return Err("run --observed-at must use the canonical unix-ms:<milliseconds> format".to_owned());
    }
    proof {
        assert(v@.subrange(0, 8) =~= prefix@);
    }
    let ghost ms = v@.subrange(8, v@.len() as int);
    if v.len() == 8 || (v.len() > 9 && v[8] == '0') {
        proof {
            if v@.len() > 9 {
                assert(ms[0] == v@[8]);
            }
        }
        return Err("run --observed-at must use the canonical unix-ms:<milliseconds> format".to_owned());
    }
    let parsed = parse_digits(&v, 8, v.len());
    let n = match parsed {
        Some(n) => n,
        None => {
            return Err("run --observed-at milliseconds must fit in an unsigned 64-bit integer".to_owned());
        },
    };
    if n == 0 {
        return Err("run --observed-at milliseconds must be greater than zero".to_owned());
    }
    let mut s = "unix-ms:".to_owned();
    let digits = decimal_string(n);
    s.append(digits.as_str());
    Ok(s)
}

// ---------------------------------------------------------------------------
// Run bindings and windows
// ---------------------------------------------------------------------------
/// Binds the execution concurrency a real run package records: a saved
/// value must match any declared one; an unsaved run needs a declared value
/// from one to the run-job limit.
pub fn bind_execution_concurrency(existing: &mut Option<usize>, declared: Option<usize>) -> (r:
    Result<(), String>)
    ensures
        match *old(existing) {
            Some(recorded) => match declared {
                Some(d) if d != recorded => r is Err && *final(existing) == *old(existing),
                _ => r is Ok && *final(existing) == *old(existing),
            },
            None => match declared {
                Some(d) if 1 <= d <= MAX_RUN_JOBS => r is Ok && *final(existing) == Some(d),
                _ => r is Err && *final(existing) == *old(existing),
            },
        },
{
    match (*existing, declared) {
        (Some(recorded), Some(d)) => {
            if recorded != d {
                Err("declared execution concurrency differs from the saved run".to_owned())
            } else {
                Ok(())
            }
        },
        (Some(_), None) => Ok(()),
        (None, Some(d)) => {
            if d >= 1 && d <= MAX_RUN_JOBS {
                *existing = Some(d);
                Ok(())
            } else {
                Err("real run packaging requires a bound execution concurrency".to_owned())
            }
        },
        (None, None) => Err("real run packaging requires a bound execution concurrency".to_owned()),
    }
}

/// The scheduled slot of a run and the start of the next slot.
#[derive(Clone, Copy, Debug)]
pub struct ExecutionWindow {
    pub scheduled_unix_ms: u64,
    pub next_slot_unix_ms: u64,
}

/// When a run was dispatched and the slot boundary it must finish before.
#[derive(Clone, Copy, Debug, PartialEq, Eq, Structural)]
pub struct DispatchDeadline {
    pub dispatched_unix_ms: u64,
    pub next_slot_unix_ms: u64,
}

/// Admits a dispatch at `now_unix_ms` only while the cached preflight has
/// not expired and inside the scheduled slot window.
pub fn validate_dispatch_window(
    preflight_expires_unix_ms: u64,
    window: &ExecutionWindow,
    now_unix_ms: u64,
) -> (r: Result<DispatchDeadline, String>)
    ensures
        match r {
            Ok(d) => now_unix_ms < preflight_expires_unix_ms && window.scheduled_unix_ms
                <= now_unix_ms < window.next_slot_unix_ms && d == (DispatchDeadline {
                dispatched_unix_ms: now_unix_ms,
                next_slot_unix_ms: window.next_slot_unix_ms,
            }),
            Err(_) => !(now_unix_ms < preflight_expires_unix_ms && window.scheduled_unix_ms
                <= now_unix_ms < window.next_slot_unix_ms),
        },
{
    if preflight_expires_unix_ms <= now_unix_ms {
        return Err(
            "cached preflight expired before run dispatch; no task model or evaluator was invoked".to_owned(),
        );
    }
    if now_unix_ms < window.scheduled_unix_ms || now_unix_ms >= window.next_slot_unix_ms {
        return Err(
            "run dispatch is outside the exact scheduled slot window; no task model or evaluator was invoked".to_owned(),
        );
    }
    Ok(DispatchDeadline { dispatched_unix_ms: now_unix_ms, next_slot_unix_ms: window.next_slot_unix_ms })
}

/// The preflight validity window: observed now, expiring the given number of
/// seconds later, when that instant fits in 64-bit milliseconds.
pub fn preflight_expiry(observed_unix_ms: u64, expires_in_seconds: u64) -> (r: Result<(u64, u64), String>)
    ensures
        match r {
            Ok((o, e)) => o == observed_unix_ms && e == observed_unix_ms + expires_in_seconds * 1000,
            Err(_) => observed_unix_ms + expires_in_seconds * 1000 > u64::MAX,
        },
{
    let interval = match expires_in_seconds.checked_mul(1000) {
        Some(i) => i,
        None => {
            return Err("preflight expiry overflows".to_owned());
        },
    };
    match observed_unix_ms.checked_add(interval) {
        Some(e) => Ok((observed_unix_ms, e)),
        None => Err("preflight expiry overflows".to_owned()),
    }
}

/// Start of the next schedule slot, in milliseconds, when it fits.
pub fn next_slot_unix_ms(scheduled_unix_ms: u64, seconds_until_next_slot: u64) -> (r: Result<u64, String>)
    ensures
        match r {
            Ok(n) => n == scheduled_unix_ms + seconds_until_next_slot * 1000,
            Err(_) => scheduled_unix_ms + seconds_until_next_slot * 1000 > u64::MAX,
        },
{
    let interval = match seconds_until_next_slot.checked_mul(1000) {
        Some(i) => i,
        None => {
            return Err("next schedule slot overflows".to_owned());
        },
    };
    match scheduled_unix_ms.checked_add(interval) {
        Some(n) => Ok(n),
        None => Err("next schedule slot overflows".to_owned()),
    }
}

/// An Official run needs the exact official task and model shape and a
/// durable output path.
pub fn validate_run_mode_options(run_class: RunClass, official_shape: bool, output: &str) -> (r:
    Result<(), String>)
    ensures
        r is Ok <==> !(run_class is Official && (!official_shape || output@ == "-"@)),
{
    let official = match run_class {
        RunClass::Official => true,
        RunClass::Calibration => false,
    };
    if official && !official_shape {
        return Err(
            "Official runs require exactly 72 controlled tasks and the exact 17-model matrix; no model was invoked".to_owned(),
        );
    }
    if official && text_eq(output, "-") {
        return Err("Official runs require a new durable --output path; no model was invoked".to_owned());
    }
    Ok(())
}


// ---------------------------------------------------------------------------
// Permission evidence digests
// ---------------------------------------------------------------------------
/// One canary binding: the protected path's label, its digest and the kind
/// of entry at it.
pub open spec fn canary_binding_tree(b: (String, String, String)) -> JsonTree {
    JsonTree::Array(seq![JsonTree::Text(b.0@), JsonTree::Text(b.1@), JsonTree::Text(b.2@)])
}

/// The canary evidence document: its schema, the ordered bindings and the
/// verdict that the filesystem, network and toolchain canaries passed.
pub open spec fn canary_evidence_tree(bindings: Seq<(String, String, String)>) -> JsonTree {
    JsonTree::Array(
        seq![
            JsonTree::Text("aiq.permission-canary-evidence.v2"@),
            JsonTree::Array(Seq::new(bindings.len(), |i: int| canary_binding_tree(bindings[i]))),
            JsonTree::Text("filesystem_network_and_toolchain_executables_passed"@),
        ],
    )
}

/// Digest of the executable permission-canary evidence.
pub fn permission_canary_evidence_digest(bindings: &Vec<(String, String, String)>) -> (r: Option<
    String,
>)
    ensures
        match r {
            Some(d) => canonical_digest(canary_evidence_tree(bindings@)) == Some(d@),
            None => canonical_digest(canary_evidence_tree(bindings@)) is None,
        },
{
    let mut items: Vec<Json> = Vec::new();
    let mut i: usize = 0;
    while i < bindings.len()
        invariant
            i <= bindings@.len(),
            items@.len() == i,
            forall|k: int| 0 <= k < i ==> #[trigger] items@[k].tree() == canary_binding_tree(bindings@[k]),
        decreases bindings@.len() - i,
    {
        let b = &bindings[i];
        let mut parts: Vec<Json> = Vec::new();
        parts.push(Json::Text(b.0.clone()));
        parts.push(Json::Text(b.1.clone()));
        parts.push(Json::Text(b.2.clone()));
        let ghost ps = parts@;
        let item = Json::Array(parts);
        assert(item.tree()->Array_0 =~= seq![
            JsonTree::Text(b.0@),
            JsonTree::Text(b.1@),
            JsonTree::Text(b.2@),
        ]) by {
            assert(ps[0].tree() == JsonTree::Text(b.0@));
            assert(ps[1].tree() == JsonTree::Text(b.1@));
            assert(ps[2].tree() == JsonTree::Text(b.2@));
        }
        items.push(item);
        i += 1;
    }
    let ghost its = items@;
    let mut top: Vec<Json> = Vec::new();
    top.push(Json::Text("aiq.permission-canary-evidence.v2".to_owned()));
    top.push(Json::Array(items));
    top.push(Json::Text("filesystem_network_and_toolchain_executables_passed".to_owned()));
    let ghost tops = top@;
    let doc = Json::Array(top);
    assert(doc.tree() == canary_evidence_tree(bindings@)) by {
        assert(tops[1].tree()->Array_0 =~= Seq::new(
            bindings@.len(),
            |i: int| canary_binding_tree(bindings@[i]),
        )) by {
            assert forall|k: int| 0 <= k < its.len() implies tops[1].tree()->Array_0[k]
                == canary_binding_tree(bindings@[k]) by {
                assert(its[k].tree() == canary_binding_tree(bindings@[k]));
            }
        }
        assert(tops[0].tree() == JsonTree::Text("aiq.permission-canary-evidence.v2"@));
        assert(tops[2].tree() == JsonTree::Text(
            "filesystem_network_and_toolchain_executables_passed"@,
        ));
        assert(doc.tree()->Array_0 =~= canary_evidence_tree(bindings@)->Array_0);
    }
    canonical_hash(&doc)
}

/// Digest of one canonical canary path.
pub open spec fn canary_path_tree(path: Seq<char>) -> JsonTree {
    JsonTree::Array(seq![JsonTree::Text("aiq.permission-canary-path.v1"@), JsonTree::Text(path)])
}

/// Digest of a canonical permission-canary path.
pub fn canary_path_digest(path: &str) -> (r: Option<String>)
    ensures
        match r {
            Some(d) => canonical_digest(canary_path_tree(path@)) == Some(d@),
            None => canonical_digest(canary_path_tree(path@)) is None,
        },
{
    let mut top: Vec<Json> = Vec::new();
    top.push(Json::Text("aiq.permission-canary-path.v1".to_owned()));
    top.push(Json::Text(path.to_owned()));
    let ghost tops = top@;
    let doc = Json::Array(top);
    assert(tops[0].tree() == JsonTree::Text("aiq.permission-canary-path.v1"@));
    assert(tops[1].tree() == JsonTree::Text(path@));
    assert(doc.tree()->Array_0 =~= canary_path_tree(path@)->Array_0);
    canonical_hash(&doc)
}

/// The four digests that together witness a permission admission.
#[derive(Clone, Debug)]
pub struct PermissionEvidenceDigests {
    pub permission_policy_digest: String,
    pub managed_requirements_digest: String,
    pub profile_selection_digest: String,
    pub canary_digest: String,
}

/// The combined permission evidence document.
pub open spec fn permission_evidence_tree(d: PermissionEvidenceDigests) -> JsonTree {
    JsonTree::Array(
        seq![
            JsonTree::Text("aiq.permission-evidence.v1"@),
            JsonTree::Text(d.permission_policy_digest@),
            JsonTree::Text(d.managed_requirements_digest@),
            JsonTree::Text(d.profile_selection_digest@),
            JsonTree::Text(d.canary_digest@),
        ],
    )
}

impl PermissionEvidenceDigests {
    /// Digest binding the four evidence digests in order.
    pub fn combined_digest(&self) -> (r: Option<String>)
        ensures
            match r {
                Some(d) => canonical_digest(permission_evidence_tree(*self)) == Some(d@),
                None => canonical_digest(permission_evidence_tree(*self)) is None,
            },
    {
        let mut top: Vec<Json> = Vec::new();
        top.push(Json::Text("aiq.permission-evidence.v1".to_owned()));
        top.push(Json::Text(self.permission_policy_digest.clone()));
        top.push(Json::Text(self.managed_requirements_digest.clone()));
        top.push(Json::Text(self.profile_selection_digest.clone()));
        top.push(Json::Text(self.canary_digest.clone()));
        let ghost tops = top@;
        let doc = Json::Array(top);
        assert(tops[0].tree() == JsonTree::Text("aiq.permission-evidence.v1"@));
        assert(tops[1].tree() == JsonTree::Text(self.permission_policy_digest@));
        assert(tops[2].tree() == JsonTree::Text(self.managed_requirements_digest@));
        assert(tops[3].tree() == JsonTree::Text(self.profile_selection_digest@));
        assert(tops[4].tree() == JsonTree::Text(self.canary_digest@));
        assert(doc.tree()->Array_0 =~= permission_evidence_tree(*self)->Array_0);
        canonical_hash(&doc)
    }
}

// ---------------------------------------------------------------------------
// Reports and selections
// ---------------------------------------------------------------------------
/// The public-safe message for a task-load issue code.
pub open spec fn task_issue_message(code: Seq<char>) -> Seq<char> {
    if code == "source_unavailable"@ {
        "task source is unavailable"@
    } else if code == "read_error"@ {
        "task record could not be read"@
    } else if code == "invalid_json"@ {
        "task record is not valid JSON"@
    } else if code == "invalid_task"@ {
        "task record does not match the task schema"@
    } else if code == "missing_field"@ {
        "a required field is missing"@
    } else if code == "unsupported_schema"@ {
        "task schema version is not supported"@
    } else if code == "empty_field"@ {
        "field must not be empty"@
    } else if code == "invalid_version"@ {
        "field must use a valid version"@
    } else if code == "invalid_token"@ {
        "field contains an invalid token"@
    } else if code == "invalid_difficulty"@ {
        "task difficulty is invalid"@
    } else if code == "invalid_budget"@ {
        "task budget is invalid"@
    } else if code == "empty_collection"@ {
        "collection must not be empty"@
    } else if code == "empty_item"@ {
        "collection item must not be empty"@
    } else if code == "duplicate_item"@ {
        "collection items must be unique"@
    } else if code == "unknown_tool"@ {
        "task tool is not supported"@
    } else if code == "mixed_none_tool"@ {
        "the no-tools policy cannot include other tools"@
    } else if code == "invalid_reference"@ {
        "task reference is invalid"@
    } else if code == "missing_provenance"@ {
        "task provenance is missing"@
    } else if code == "missing_catalog_entry_digest"@ {
        "hidden task catalog binding is missing"@
    } else if code == "invalid_digest"@ {
        "task digest is invalid"@
    } else if code == "missing_evaluator"@ {
        "task evaluator is missing"@
    } else if code == "invalid_public_evaluator"@ {
        "public task evaluator is invalid"@
    } else if code == "invalid_hidden_evaluator"@ {
        "hidden task evaluator is invalid"@
    } else if code == "invalid_external_evaluator"@ {
        "controlled external evaluator is invalid"@
    } else if code == "missing_external_evaluator"@ {
        "controlled external evaluator is missing"@
    } else if code == "visibility_mismatch"@ {
        "task visibility does not match its source"@
    } else if code == "duplicate_task"@ {
        "task identifier and version must be unique"@
    } else {
        "task input is invalid"@
    }
}

/// The public-safe message for a task-load issue code; unknown codes get a
/// generic message, so no input text is echoed.
pub fn safe_task_issue_message(code: &str) -> (r: &'static str)
    ensures
        r@ == task_issue_message(code@),
{
    if text_eq(code, "source_unavailable") {
        "task source is unavailable"
    } else if text_eq(code, "read_error") {
        "task record could not be read"
    } else if text_eq(code, "invalid_json") {
        "task record is not valid JSON"
    } else if text_eq(code, "invalid_task") {
        "task record does not match the task schema"
    } else if text_eq(code, "missing_field") {
        "a required field is missing"
    } else if text_eq(code, "unsupported_schema") {
        "task schema version is not supported"
    } else if text_eq(code, "empty_field") {
        "field must not be empty"
    } else if text_eq(code, "invalid_version") {
        "field must use a valid version"
    } else if text_eq(code, "invalid_token") {
        "field contains an invalid token"
    } else if text_eq(code, "invalid_difficulty") {
        "task difficulty is invalid"
    } else if text_eq(code, "invalid_budget") {
        "task budget is invalid"
    } else if text_eq(code, "empty_collection") {
        "collection must not be empty"
    } else if text_eq(code, "empty_item") {
        "collection item must not be empty"
    } else if text_eq(code, "duplicate_item") {
        "collection items must be unique"
    } else if text_eq(code, "unknown_tool") {
        "task tool is not supported"
    } else if text_eq(code, "mixed_none_tool") {
        "the no-tools policy cannot include other tools"
    } else if text_eq(code, "invalid_reference") {
        "task reference is invalid"
    } else if text_eq(code, "missing_provenance") {
        "task provenance is missing"
    } else if text_eq(code, "missing_catalog_entry_digest") {
        "hidden task catalog binding is missing"
    } else if text_eq(code, "invalid_digest") {
        "task digest is invalid"
    } else if text_eq(code, "missing_evaluator") {
        "task evaluator is missing"
    } else if text_eq(code, "invalid_public_evaluator") {
        "public task evaluator is invalid"
    } else if text_eq(code, "invalid_hidden_evaluator") {
        "hidden task evaluator is invalid"
    } else if text_eq(code, "invalid_external_evaluator") {
        "controlled external evaluator is invalid"
    } else if text_eq(code, "missing_external_evaluator") {
        "controlled external evaluator is missing"
    } else if text_eq(code, "visibility_mismatch") {
        "task visibility does not match its source"
    } else if text_eq(code, "duplicate_task") {
        "task identifier and version must be unique"
    } else {
        "task input is invalid"
    }
}

/// Positions `0..n` of the tasks whose identifier was requested, in task
/// order.
pub open spec fn selected_positions(task_ids: Seq<Seq<char>>, requested: Seq<Seq<char>>, n: int) -> Seq<
    int,
>
    decreases n,
{
    if n <= 0 {
        Seq::empty()
    } else if requested.contains(task_ids[n - 1]) {
        selected_positions(task_ids, requested, n - 1).push(n - 1)
    } else {
        selected_positions(task_ids, requested, n - 1)
    }
}

/// No identifier occurs twice.
pub open spec fn distinct_texts(s: Seq<Seq<char>>) -> bool {
    forall|i: int, j: int| 0 <= i < j < s.len() ==> #[trigger] s[i] != #[trigger] s[j]
}

/// Why a selection was refused.
enum SelectorFault {
    Duplicate,
    Unmatched,
}

/// Positions of the named items that the selectors request: all of them
/// when there are no selectors, else every requested one, in order,
/// provided the selectors are distinct and each names some item.
fn select_named(task_ids: &Vec<String>, selectors: &Vec<String>) -> (r: Result<Vec<usize>, SelectorFault>)
    ensures
        match r {
            Ok(positions) => if selectors@.len() == 0 {
                positions@.len() == task_ids@.len() && forall|k: int|
                    0 <= k < positions@.len() ==> #[trigger] positions@[k] == k
            } else {
                &&& distinct_texts(selectors.deep_view())
                &&& forall|k: int|
                    0 <= k < selectors@.len() ==> task_ids.deep_view().contains(
                        #[trigger] selectors.deep_view()[k],
                    )
                &&& positions@.len() == selected_positions(
                    task_ids.deep_view(),
                    selectors.deep_view(),
                    task_ids@.len() as int,
                ).len()
                &&& forall|k: int|
                    0 <= k < positions@.len() ==> #[trigger] positions@[k] as int == selected_positions(
                        task_ids.deep_view(),
                        selectors.deep_view(),
                        task_ids@.len() as int,
                    )[k]
            },
            Err(SelectorFault::Duplicate) => selectors@.len() > 0 && !distinct_texts(selectors.deep_view()),
            Err(SelectorFault::Unmatched) => selectors@.len() > 0 && distinct_texts(selectors.deep_view())
                && exists|k: int|
                0 <= k < selectors@.len() && !task_ids.deep_view().contains(
                    #[trigger] selectors.deep_view()[k],
                ),
        },
{
    let ghost tv = task_ids.deep_view();
    let ghost sv = selectors.deep_view();
    proof {
        assert(tv.len() == task_ids@.len());
        assert(sv.len() == selectors@.len());
    }
    let mut positions: Vec<usize> = Vec::new();
    if selectors.len() == 0 {
        let mut i: usize = 0;
        while i < task_ids.len()
            invariant
                i <= task_ids@.len(),
                positions@.len() == i,
                forall|k: int| 0 <= k < i ==> #[trigger] positions@[k] == k,
            decreases task_ids@.len() - i,
        {
            positions.push(i);
            i += 1;
        }
        return Ok(positions);
    }
    let mut a: usize = 0;
    while a < selectors.len()
        invariant
            a <= selectors@.len(),
            sv == selectors.deep_view(),
            sv.len() == selectors@.len(),
            forall|x: int, y: int| 0 <= x < y < a ==> #[trigger] sv[x] != #[trigger] sv[y],
        decreases selectors@.len() - a,
    {
        let mut b: usize = 0;
        while b < a
            invariant
                b <= a < selectors@.len(),
                sv == selectors.deep_view(),
                forall|x: int| 0 <= x < b ==> sv[x] != sv[a as int],
            decreases a - b,
        {
            if text_eq(selectors[b].as_str(), selectors[a].as_str()) {
                assert(sv[b as int] == selectors@[b as int]@);
                assert(sv[a as int] == selectors@[a as int]@);
                return Err(SelectorFault::Duplicate);
            }
            assert(sv[b as int] == selectors@[b as int]@);
            assert(sv[a as int] == selectors@[a as int]@);
            b += 1;
        }
        a += 1;
    }
    let mut i: usize = 0;
    while i < task_ids.len()
        invariant
            i <= task_ids@.len(),
            tv == task_ids.deep_view(),
            sv == selectors.deep_view(),
            tv.len() == task_ids@.len(),
            sv.len() == selectors@.len(),
            distinct_texts(sv),
            positions@.len() == selected_positions(tv, sv, i as int).len(),
            forall|k: int| 0 <= k < positions@.len() ==> #[trigger] positions@[k] as int == selected_positions(
                tv,
                sv,
                i as int,
            )[k],
        decreases task_ids@.len() - i,
    {
        let mut j: usize = 0;
        let mut hit = false;
        while j < selectors.len()
            invariant
                j <= selectors@.len(),
                i < task_ids@.len(),
                tv == task_ids.deep_view(),
                sv == selectors.deep_view(),
                sv.len() == selectors@.len(),
                hit ==> sv.contains(tv[i as int]),
                !hit ==> forall|x: int| 0 <= x < j ==> sv[x] != tv[i as int],
            decreases selectors@.len() - j,
        {
            assert(sv[j as int] == selectors@[j as int]@);
            assert(tv[i as int] == task_ids@[i as int]@);
            if text_eq(selectors[j].as_str(), task_ids[i].as_str()) {
                hit = true;
            }
            j += 1;
        }
        if hit {
            positions.push(i);
        }
        proof {
            if !hit {
                assert(!sv.contains(tv[i as int]));
            }
        }
        i += 1;
    }
    let mut s: usize = 0;
    while s < selectors.len()
        invariant
            s <= selectors@.len(),
            tv == task_ids.deep_view(),
            sv == selectors.deep_view(),
            tv.len() == task_ids@.len(),
            sv.len() == selectors@.len(),
            distinct_texts(sv),
            forall|k: int| 0 <= k < s ==> tv.contains(#[trigger] sv[k]),
        decreases selectors@.len() - s,
    {
        let mut t: usize = 0;
        let mut hit = false;
        while t < task_ids.len()
            invariant
                t <= task_ids@.len(),
                s < selectors@.len(),
                tv == task_ids.deep_view(),
                sv == selectors.deep_view(),
                tv.len() == task_ids@.len(),
                hit ==> tv.contains(sv[s as int]),
                !hit ==> forall|x: int| 0 <= x < t ==> tv[x] != sv[s as int],
            decreases task_ids@.len() - t,
        {
            assert(sv[s as int] == selectors@[s as int]@);
            assert(tv[t as int] == task_ids@[t as int]@);
            if text_eq(selectors[s].as_str(), task_ids[t].as_str()) {
                hit = true;
            }
            t += 1;
        }
        if !hit {
            proof {
                assert(!tv.contains(sv[s as int]));
            }
            return Err(SelectorFault::Unmatched);
        }
        s += 1;
    }
    Ok(positions)
}

proof fn lemma_selected_positions_bound(task_ids: Seq<Seq<char>>, requested: Seq<Seq<char>>, n: int)
    ensures
        forall|k: int|
            0 <= k < selected_positions(task_ids, requested, n).len() ==> 0 <= #[trigger] selected_positions(
                task_ids,
                requested,
                n,
            )[k] < n,
    decreases n,
{
    if n > 0 {
        lemma_selected_positions_bound(task_ids, requested, n - 1);
        let prev = selected_positions(task_ids, requested, n - 1);
        if requested.contains(task_ids[n - 1]) {
            assert(selected_positions(task_ids, requested, n) == prev.push(n - 1));
        } else {
            assert(selected_positions(task_ids, requested, n) == prev);
        }
    }
}

/// Selects the controlled tasks named by the selectors: all tasks when
/// there are none, else every task whose identifier is requested, in task
/// order, provided the selectors are distinct and each names some task.
pub fn select_tasks(task_ids: &Vec<String>, selectors: &Vec<String>) -> (r: Result<Vec<usize>, String>)
    ensures
        match r {
            Ok(positions) => if selectors@.len() == 0 {
                positions@.len() == task_ids@.len() && forall|k: int|
                    0 <= k < positions@.len() ==> #[trigger] positions@[k] == k
            } else {
                &&& distinct_texts(selectors.deep_view())
                &&& forall|k: int|
                    0 <= k < selectors@.len() ==> task_ids.deep_view().contains(
                        #[trigger] selectors.deep_view()[k],
                    )
                &&& positions@.len() == selected_positions(
                    task_ids.deep_view(),
                    selectors.deep_view(),
                    task_ids@.len() as int,
                ).len()
                &&& forall|k: int|
                    0 <= k < positions@.len() ==> #[trigger] positions@[k] as int == selected_positions(
                        task_ids.deep_view(),
                        selectors.deep_view(),
                        task_ids@.len() as int,
                    )[k]
            },
            Err(e) => selectors@.len() > 0 && if !distinct_texts(selectors.deep_view()) {
                e@ == "task selectors must be unique"@
            } else {
                e@ == "one or more task selectors do not match a controlled task"@ && exists|k: int|
                    0 <= k < selectors@.len() && !task_ids.deep_view().contains(
                        #[trigger] selectors.deep_view()[k],
                    )
            },
        },
{
    match select_named(task_ids, selectors) {
        Ok(positions) => Ok(positions),
        Err(SelectorFault::Duplicate) => Err("task selectors must be unique".to_owned()),
        Err(SelectorFault::Unmatched) => Err(
            "one or more task selectors do not match a controlled task".to_owned(),
        ),
    }
}

/// The selector keys of the matrix configurations, in matrix order.
pub open spec fn matrix_keys() -> Seq<Seq<char>> {
    Seq::new(17, |i: int| model_key(matrix_entry(i)))
}

/// The selector keys of the matrix are distinct: each names exactly one of
/// its seventeen configurations.
pub proof fn law_matrix_keys_are_distinct(i: int, j: int)
    requires
        0 <= i < j < 17,
    ensures
        matrix_keys()[i] != matrix_keys()[j],
{
    law_model_keys_identify_their_configuration(matrix_entry(i), matrix_entry(j));
    assert(matrix_index(matrix_entry(i)) == i);
    assert(matrix_index(matrix_entry(j)) == j);
}

/// Selects the matrix configurations named by their keys: the whole
/// matrix when there are no selectors, else every requested configuration,
/// in matrix order, provided the selectors are distinct and each names a
/// configuration of the matrix.
pub fn select_models(selectors: &Vec<String>) -> (r: Result<Vec<ModelConfig>, String>)
    ensures
        match r {
            Ok(models) => if selectors@.len() == 0 {
                models@ == Seq::new(17, |i: int| matrix_entry(i))
            } else {
                &&& distinct_texts(selectors.deep_view())
                &&& forall|k: int|
                    0 <= k < selectors@.len() ==> matrix_keys().contains(#[trigger] selectors.deep_view()[k])
                &&& models@.len() == selected_positions(matrix_keys(), selectors.deep_view(), 17).len()
                &&& forall|k: int|
                    0 <= k < models@.len() ==> #[trigger] models@[k] == matrix_entry(
                        selected_positions(matrix_keys(), selectors.deep_view(), 17)[k],
                    )
            },
            Err(e) => selectors@.len() > 0 && if !distinct_texts(selectors.deep_view()) {
                e@ == "model selectors must be unique"@
            } else {
                e@ == "one or more model selectors do not match the exact matrix"@ && exists|k: int|
                    0 <= k < selectors@.len() && !matrix_keys().contains(#[trigger] selectors.deep_view()[k])
            },
        },
{
    let mut keys: Vec<String> = Vec::new();
    let mut i: usize = 0;
    while i < 17
        invariant
            i <= 17,
            keys@.len() == i,
            forall|k: int| 0 <= k < i ==> (#[trigger] keys@[k])@ == model_key(matrix_entry(k)),
        decreases 17 - i,
    {
        keys.push(model_key_of(model_matrix_entry(i)));
        i += 1;
    }
    proof {
        assert(keys.deep_view() =~= matrix_keys());
    }
    let positions = match select_named(&keys, selectors) {
        Ok(p) => p,
        Err(SelectorFault::Duplicate) => {
            return Err("model selectors must be unique".to_owned());
        },
        Err(SelectorFault::Unmatched) => {
            return Err("one or more model selectors do not match the exact matrix".to_owned());
        },
    };
    proof {
        lemma_selected_positions_bound(matrix_keys(), selectors.deep_view(), 17);
    }
    let mut models: Vec<ModelConfig> = Vec::new();
    let mut k: usize = 0;
    while k < positions.len()
        invariant
            k <= positions@.len(),
            models@.len() == k,
            forall|q: int| 0 <= q < positions@.len() ==> positions@[q] < 17,
            forall|q: int| 0 <= q < k ==> #[trigger] models@[q] == matrix_entry(positions@[q] as int),
        decreases positions@.len() - k,
    {
        models.push(model_matrix_entry(positions[k]));
        k += 1;
    }
    proof {
        if selectors@.len() == 0 {
            assert(models@ =~= Seq::new(17, |i: int| matrix_entry(i)));
        }
    }
    Ok(models)
}

/// The placeholder written into a reserved Official output.
pub fn official_output_reservation(run_id: &str) -> (r: String)
    ensures
        r@ == "AIQ_OFFICIAL_OUTPUT_RESERVED_V1 "@ + run_id@ + "\n"@,
{
    let mut r = "AIQ_OFFICIAL_OUTPUT_RESERVED_V1 ".to_owned();
    r.append(run_id);
    r.append("\n");
    r
}

/// The placeholder written into a reserved calibration output.
pub fn calibration_output_reservation(run_id: &str) -> (r: String)
    ensures
        r@ == "AIQ_CALIBRATION_OUTPUT_RESERVED_V1 "@ + run_id@ + "\n"@,
{
    let mut r = "AIQ_CALIBRATION_OUTPUT_RESERVED_V1 ".to_owned();
    r.append(run_id);
    r.append("\n");
    r
}


/// Task `i` is the first with its identifier.
pub open spec fn first_occurrence(ids: Seq<Seq<char>>, i: int) -> bool {
    forall|j: int| 0 <= j < i ==> ids[j] != ids[i]
}

/// Positions among the first `n` whose identifier occurs there first.
pub open spec fn first_positions(ids: Seq<Seq<char>>, n: int) -> Seq<int>
    decreases n,
{
    if n <= 0 {
        Seq::empty()
    } else if first_occurrence(ids, n - 1) {
        first_positions(ids, n - 1).push(n - 1)
    } else {
        first_positions(ids, n - 1)
    }
}

/// Merged task sources keep the first task of each identifier, in order,
/// and report whether any later duplicate was dropped.
pub fn ensure_unique_task_ids(task_ids: &Vec<String>) -> (r: (Vec<usize>, bool))
    ensures
        r.0@.len() == first_positions(task_ids.deep_view(), task_ids@.len() as int).len(),
        forall|k: int|
            0 <= k < r.0@.len() ==> #[trigger] r.0@[k] as int == first_positions(
                task_ids.deep_view(),
                task_ids@.len() as int,
            )[k],
        r.1 <==> exists|i: int| 0 <= i < task_ids@.len() && !first_occurrence(task_ids.deep_view(), i),
{
    let ghost ids = task_ids.deep_view();
    let mut kept: Vec<usize> = Vec::new();
    let mut duplicate_found = false;
    let mut i: usize = 0;
    while i < task_ids.len()
        invariant
            i <= task_ids@.len(),
            ids == task_ids.deep_view(),
            ids.len() == task_ids@.len(),
            kept@.len() == first_positions(ids, i as int).len(),
            forall|k: int| 0 <= k < kept@.len() ==> #[trigger] kept@[k] as int == first_positions(ids, i as int)[k],
            duplicate_found <==> exists|x: int| 0 <= x < i && !first_occurrence(ids, x),
        decreases task_ids@.len() - i,
    {
        let mut j: usize = 0;
        let mut seen = false;
        while j < i
            invariant
                j <= i < task_ids@.len(),
                ids == task_ids.deep_view(),
                seen <==> exists|y: int| 0 <= y < j && ids[y] == ids[i as int],
            decreases i - j,
        {
            assert(ids[j as int] == task_ids@[j as int]@);
            assert(ids[i as int] == task_ids@[i as int]@);
            if text_eq(task_ids[j].as_str(), task_ids[i].as_str()) {
                seen = true;
            }
            j += 1;
        }
        proof {
            assert(first_occurrence(ids, i as int) <==> !seen);
        }
        if seen {
            duplicate_found = true;
        } else {
            kept.push(i);
        }
        i += 1;
    }
    (kept, duplicate_found)
}

// ---------------------------------------------------------------------------
// Task validation options
// ---------------------------------------------------------------------------
/// The corpus a validation run checks external tasks against.
#[derive(Clone, Copy, Debug, PartialEq, Eq, Structural)]
pub enum CorpusValidationMode {
    /// The released core corpus.
    Released,
    /// The immutable core corpus.
    Core,
    /// The six controlled contrast variants, at an expected digest.
    Contrast,
}

/// Why the given options cannot validate the loaded tasks: external tasks
/// need every corpus, source, evaluator and toolchain option, and a contrast
/// run exactly six tasks; without external tasks, no such option and no
/// mode but the released one may be given.
pub open spec fn validation_refusal(
    has_external: bool,
    corpus_commitment: bool,
    source_root: bool,
    evaluator_root: bool,
    evaluator_runtime: bool,
    codex_toolchain_root: bool,
    mode: CorpusValidationMode,
    task_count: usize,
) -> Option<Seq<char>> {
    if has_external {
        if !corpus_commitment {
            Some("external task validation requires --corpus-commitment"@)
        } else if !source_root {
            Some("external task validation requires --source-root"@)
        } else if !evaluator_root {
            Some("external task validation requires --evaluator-root"@)
        } else if !evaluator_runtime {
            Some("external task validation requires --evaluator-runtime"@)
        } else if !codex_toolchain_root {
            Some("external task validation requires --codex-toolchain-root"@)
        } else if mode == CorpusValidationMode::Contrast && task_count != 6 {
            Some("contrast validation requires exactly six tasks"@)
        } else {
            None
        }
    } else if evaluator_root || evaluator_runtime || corpus_commitment || source_root
        || codex_toolchain_root || mode != CorpusValidationMode::Released {
        Some("evaluator options require at least one external task"@)
    } else {
        None
    }
}

/// Checks that the options given to a task validation run fit the loaded
/// tasks, before any corpus is read.
pub fn validation_requirements(
    has_external: bool,
    corpus_commitment: bool,
    source_root: bool,
    evaluator_root: bool,
    evaluator_runtime: bool,
    codex_toolchain_root: bool,
    mode: CorpusValidationMode,
    task_count: usize,
) -> (r: Result<(), String>)
    ensures
        match r {
            Ok(_) => validation_refusal(
                has_external,
                corpus_commitment,
                source_root,
                evaluator_root,
                evaluator_runtime,
                codex_toolchain_root,
                mode,
                task_count,
            ) is None,
            Err(e) => validation_refusal(
                has_external,
                corpus_commitment,
                source_root,
                evaluator_root,
                evaluator_runtime,
                codex_toolchain_root,
                mode,
                task_count,
            ) == Some(e@),
        },
{
    if has_external {
        if !corpus_commitment {
            return Err("external task validation requires --corpus-commitment".to_owned());
        }
        if !source_root {
            return Err("external task validation requires --source-root".to_owned());
        }
        if !evaluator_root {
            return Err("external task validation requires --evaluator-root".to_owned());
        }
        if !evaluator_runtime {
            return Err("external task validation requires --evaluator-runtime".to_owned());
        }
        if !codex_toolchain_root {
            return Err("external task validation requires --codex-toolchain-root".to_owned());
        }
        let contrast = match mode {
            CorpusValidationMode::Contrast => true,
            _ => false,
        };
        if contrast && task_count != 6 {
            return Err("contrast validation requires exactly six tasks".to_owned());
        }
        Ok(())
    } else {
        let released = match mode {
            CorpusValidationMode::Released => true,
            _ => false,
        };
        if evaluator_root || evaluator_runtime || corpus_commitment || source_root || codex_toolchain_root
            || !released {
            return Err("evaluator options require at least one external task".to_owned());
        }
        Ok(())
    }
}

// ---------------------------------------------------------------------------
// Live-run admission
// ---------------------------------------------------------------------------
/// Why a live run cannot start with or without an Official admission
/// receipt: an Official run needs one, and a Calibration run must not use one.
pub open spec fn admission_refusal(run_class: RunClass, has_admission: bool) -> Option<Seq<char>> {
    match run_class {
        RunClass::Official => if has_admission {
            None
        } else {
            Some("Official run requires --official-admission before any paid preflight"@)
        },
        RunClass::Calibration => if has_admission {
            Some("calibration runs must not consume an Official admission receipt"@)
        } else {
            None
        },
    }
}

/// Decides whether a live run reads an Official admission receipt: `true`
/// for an Official run given one, `false` for a Calibration run given none.
pub fn live_run_admission(run_class: RunClass, has_admission: bool) -> (r: Result<bool, String>)
    ensures
        match r {
            Ok(read) => admission_refusal(run_class, has_admission) is None && read == has_admission,
            Err(e) => admission_refusal(run_class, has_admission) == Some(e@),
        },
{
    match run_class {
        RunClass::Official => {
            if has_admission {
                Ok(true)
            } else {
                Err("Official run requires --official-admission before any paid preflight".to_owned())
            }
        },
        RunClass::Calibration => {
            if has_admission {
                Err("calibration runs must not consume an Official admission receipt".to_owned())
            } else {
                Ok(false)
            }
        },
    }
}

/// The permission evidence of an admitted run is the evidence its Official
/// admission recorded; a run without admission has nothing to compare.
/// `admitted` is `None` without an admission, else the digest it recorded.
pub fn check_admitted_permission_evidence(admitted: Option<Option<&str>>, observed: &str) -> (r: Result<
    (),
    String,
>)
    ensures
        r is Ok <==> match admitted {
            Some(recorded) => recorded is Some && recorded->0@ == observed@,
            None => true,
        },
        match r {
            Ok(_) => true,
            Err(e) => e@ == "permission evidence changed after Official admission; no task model was invoked"@,
        },
{
    match admitted {
        Some(Some(recorded)) => {
            if text_eq(recorded, observed) {
                Ok(())
            } else {
                Err(
                    "permission evidence changed after Official admission; no task model was invoked".to_owned(),
                )
            }
        },
        Some(None) => Err(
            "permission evidence changed after Official admission; no task model was invoked".to_owned(),
        ),
        None => Ok(()),
    }
}

} // verus!

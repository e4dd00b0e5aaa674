//! Rules of a create-new corpus seal: the corpus kinds, their acceptance
//! class policies and catalog identities, and the input grammars.
use vstd::prelude::*;
use vstd::string::*;

pub mod authoring;
pub mod commitment;


use crate::corpus::document::{SourceManifest, SourceManifestEntry};
use crate::corpus::toolchain::{
    host_toolchain_identity, minimal_path_label, node_architecture, node_platform, ExecutionToolPolicy,
};
use crate::corpus::document::MAX_SOURCE_FILE_BYTES;
use crate::digest::{
    canonical_digest, canonical_hash, digest_bytes, digest_text, items_tree, json_array, json_object,
    json_text, member, members_tree, Json, JsonTree,
};
use crate::corpus::{is_valid_source_path, valid_source_path};
use crate::release_gate::paths::{join, join_path};
use crate::text::{
    all_chars_in_class, all_in_class, chars_match_at, chars_of, has_prefix, has_suffix, in_class,
    is_lower_hex_text, string_from_chars, text_eq, CharClass,
};

verus! {

/// Complete explicit inputs for one create-new seal.
#[derive(Clone, Debug)]
pub struct SealOptions {
    /// Catalog authority for this seal.
    pub corpus_kind: CorpusKind,
    /// New release identity.
    pub release_id: String,
    /// Exact hidden-task directory.
    pub tasks_root: String,
    /// Exact per-task baseline directory.
    pub baselines_root: String,
    /// Exact per-task acceptance directory.
    pub acceptance_root: String,
    /// Exact evaluator registry root.
    pub evaluator_root: String,
    /// Exact Node.js evaluator executable.
    pub evaluator_runtime: String,
    /// Exact Node.js and ripgrep directory.
    pub codex_toolchain_root: String,
    /// Clean repository source root.
    pub source_root: String,
    /// Supplied exact Git commit identity.
    pub source_commit: String,
    /// Supplied exact Git tree identity.
    pub source_tree: String,
    /// Typed runtime-authority input file.
    pub runtime_authority: String,
    /// Create-new atomic sealed output directory.
    pub output: String,
}

/// Corpus authority selected before any private input is read.
#[derive(PartialEq, Eq, Structural, Clone, Copy, Debug)]
pub enum CorpusKind {
    /// The exact 72-task core catalog.
    Core,
    /// The exact six-task calibration-only contrast catalog.
    Contrast,
}

pub open spec fn kind_task_count(kind: CorpusKind) -> usize {
    match kind {
        CorpusKind::Core => 72,
        CorpusKind::Contrast => 6,
    }
}

pub open spec fn kind_catalog_path(kind: CorpusKind) -> Seq<char> {
    match kind {
        CorpusKind::Core => "benchmarks/candidates/aiq-core-1.0.6/catalog.json"@,
        CorpusKind::Contrast => "benchmarks/candidates/aiq-core-1.0.6/contrast-catalog.json"@,
    }
}

pub open spec fn kind_harness_schema(kind: CorpusKind) -> Seq<char> {
    match kind {
        CorpusKind::Core => "aiq.core-authoring-harness.v3"@,
        CorpusKind::Contrast => "aiq.contrast-authoring-harness.v3"@,
    }
}

/// Acceptance classes every task of the kind must have.
pub open spec fn required_classes(kind: CorpusKind) -> Seq<Seq<char>> {
    match kind {
        CorpusKind::Core => seq!["adversarial_format"@, "alternate_correct"@, "gold"@, "partial"@],
        CorpusKind::Contrast => seq![
            "challenge"@,
            "empty"@,
            "format"@,
            "near_miss"@,
            "reference"@,
            "tamper"@,
        ],
    }
}

/// Acceptance classes a task of the kind may have, in sorted order.
pub open spec fn allowed_classes(kind: CorpusKind) -> Seq<Seq<char>> {
    match kind {
        CorpusKind::Core => seq![
            "adversarial_format"@,
            "alternate_correct"@,
            "empty"@,
            "gold"@,
            "partial"@,
            "timeout"@,
        ],
        CorpusKind::Contrast => required_classes(kind),
    }
}

impl CorpusKind {
    /// Repository path of the kind's catalog.
    pub fn catalog_path(self) -> (r: &'static str)
        ensures
            r@ == kind_catalog_path(self),
    {
        match self {
            CorpusKind::Core => "benchmarks/candidates/aiq-core-1.0.6/catalog.json",
            CorpusKind::Contrast => "benchmarks/candidates/aiq-core-1.0.6/contrast-catalog.json",
        }
    }

    /// Number of tasks of the kind.
    pub fn task_count(self) -> (r: usize)
        ensures
            r == kind_task_count(self),
    {
        match self {
            CorpusKind::Core => 72,
            CorpusKind::Contrast => 6,
        }
    }

    /// Schema of the kind's authoring harness.
    pub fn harness_schema(self) -> (r: &'static str)
        ensures
            r@ == kind_harness_schema(self),
    {
        match self {
            CorpusKind::Core => "aiq.core-authoring-harness.v3",
            CorpusKind::Contrast => "aiq.contrast-authoring-harness.v3",
        }
    }

    /// The kind's required and allowed acceptance classes.
    pub fn acceptance_policy(self) -> (r: (Vec<&'static str>, Vec<&'static str>))
        ensures
            r.0@.len() == required_classes(self).len(),
            forall|i: int| 0 <= i < r.0@.len() ==> #[trigger] r.0@[i]@ == required_classes(self)[i],
            r.1@.len() == allowed_classes(self).len(),
            forall|i: int| 0 <= i < r.1@.len() ==> #[trigger] r.1@[i]@ == allowed_classes(self)[i],
    {
        match self {
            CorpusKind::Core => (
                vec!["adversarial_format", "alternate_correct", "gold", "partial"],
                vec![
                    "adversarial_format",
                    "alternate_correct",
                    "empty",
                    "gold",
                    "partial",
                    "timeout",
                ],
            ),
            CorpusKind::Contrast => (
                vec!["challenge", "empty", "format", "near_miss", "reference", "tamper"],
                vec!["challenge", "empty", "format", "near_miss", "reference", "tamper"],
            ),
        }
    }
}

// ---------------------------------------------------------------------------
// Input grammars
// ---------------------------------------------------------------------------
/// A token: 1 to 128 characters of `[A-Za-z0-9._/-]`.
pub open spec fn valid_token(s: Seq<char>) -> bool {
    1 <= s.len() <= 128 && all_in_class(s, 0, s.len() as int, CharClass::Token)
}

/// Validates a token.
pub fn validate_token(value: &str) -> (r: Result<(), String>)
    ensures
        r is Ok <==> valid_token(value@),
{
    let v = chars_of(value);
    if v.len() == 0 || v.len() > 128 || !all_chars_in_class(&v, 0, v.len(), CharClass::Token) {
        return Err("token is invalid".to_owned());
    }
    Ok(())
}

/// An exact lowercase SHA-1 Git identity: 40 lowercase hexadecimal digits.
pub open spec fn valid_git_identity(s: Seq<char>) -> bool {
    is_lower_hex_text(s, 40)
}

/// Validates a Git commit or tree identity.
pub fn validate_git_identity(value: &str) -> (r: Result<(), String>)
    ensures
        r is Ok <==> valid_git_identity(value@),
{
    let v = chars_of(value);
    if v.len() != 40 || !all_chars_in_class(&v, 0, 40, CharClass::LowerHex) {
        return Err("identity must be an exact lowercase SHA-1 identity".to_owned());
    }
    Ok(())
}

/// Validates a repository-relative inventory path.
pub fn validate_relative_path(path: &str) -> (r: Result<(), String>)
    ensures
        r is Ok <==> valid_source_path(path@),
{
    if !is_valid_source_path(path) {
        return Err("inventory contains an unsafe relative path".to_owned());
    }
    Ok(())
}

/// The sealed evaluator runtime: `toolchain/node` under the output, with an
/// `.exe` suffix on Windows.
pub fn sealed_node_path(output: &str, windows: bool) -> (r: String)
    ensures
        r@ == join_path(
            join_path(output@, "toolchain"@),
            if windows {
                "node.exe"@
            } else {
                "node"@
            },
        ),
{
    let toolchain = join(output, "toolchain");
    join(
        toolchain.as_str(),
        if windows {
            "node.exe"
        } else {
            "node"
        },
    )
}

// ---------------------------------------------------------------------------
// Acceptance classes
// ---------------------------------------------------------------------------
/// A file name without every trailing `.json`.
pub open spec fn trim_json(s: Seq<char>) -> Seq<char>
    decreases s.len(),
{
    if s.len() >= 5 && has_suffix(s, ".json"@) {
        trim_json(s.subrange(0, s.len() - 5))
    } else {
        s
    }
}

fn trim_json_suffix(name: &str) -> (r: Vec<char>)
    ensures
        r@ == trim_json(name@),
{
    let mut v = chars_of(name);
    let suffix = chars_of(".json");
    loop
        invariant
            trim_json(v@) == trim_json(name@),
            suffix@ == ".json"@,
        ensures
            v@ == trim_json(name@),
        decreases v@.len(),
    {
        proof {
            reveal_strlit(".json");
        }
        if v.len() >= 5 && chars_match_at(&v, v.len() - 5, &suffix) {
            let ghost before = v@;
            assert(has_suffix(before, ".json"@));
            let mut k: usize = 0;
            while k < 5
                invariant
                    k <= 5,
                    before.len() >= 5,
                    v@ == before.subrange(0, before.len() - k),
                decreases 5 - k,
            {
                v.pop();
                assert(v@ =~= before.subrange(0, before.len() - k - 1));
                k += 1;
            }
        } else {
            assert(!(v@.len() >= 5 && has_suffix(v@, ".json"@)));
            assert(trim_json(v@) == v@);
            break;
        }
    }
    v
}

/// The classes named by acceptance files, in file order.
pub open spec fn class_names(names: Seq<Seq<char>>) -> Seq<Seq<char>> {
    Seq::new(names.len(), |i: int| trim_json(names[i]))
}

/// The acceptance classes named by the files are distinct, include every
/// required class and only allowed ones.
pub open spec fn acceptance_classes_ok(names: Seq<Seq<char>>, kind: CorpusKind) -> bool {
    let classes = class_names(names);
    &&& forall|i: int, j: int|
        0 <= i < j < classes.len() ==> #[trigger] classes[i] != #[trigger] classes[j]
    &&& forall|i: int|
        0 <= i < required_classes(kind).len() ==> classes.contains(#[trigger] required_classes(kind)[i])
    &&& forall|i: int| 0 <= i < classes.len() ==> allowed_classes(kind).contains(#[trigger] classes[i])
}

/// The allowed classes among the first `n` that are present, in allowed order.
pub open spec fn present_classes(allowed: Seq<Seq<char>>, present: Seq<Seq<char>>, n: int) -> Seq<
    Seq<char>,
>
    decreases n,
{
    if n <= 0 {
        Seq::empty()
    } else {
        let k = present_classes(allowed, present, n - 1);
        if present.contains(allowed[n - 1]) {
            k.push(allowed[n - 1])
        } else {
            k
        }
    }
}

proof fn lemma_deep_chars(v: Vec<Vec<char>>, i: int)
    requires
        0 <= i < v@.len(),
    ensures
        v.deep_view()[i] == v@[i]@,
        v.deep_view().len() == v@.len(),
{
    assert(v@[i].deep_view() =~= v@[i]@);
}

fn contains_text(list: &Vec<Vec<char>>, item: &Vec<char>) -> (r: bool)
    ensures
        r == list.deep_view().contains(item@),
{
    let mut i: usize = 0;
    while i < list.len()
        invariant
            i <= list@.len(),
            forall|k: int| 0 <= k < i ==> list.deep_view()[k] != item@,
        decreases list@.len() - i,
    {
        proof {
            lemma_deep_chars(*list, i as int);
        }
        if chars_equal(&list[i], item) {
            assert(list.deep_view()[i as int] == item@);
            return true;
        }
        i += 1;
    }
    proof {
        if list.deep_view().contains(item@) {
            let k = choose|k: int| 0 <= k < list.deep_view().len() && list.deep_view()[k] == item@;
            lemma_deep_chars(*list, k);
        }
    }
    false
}

fn chars_equal(a: &Vec<char>, b: &Vec<char>) -> (r: bool)
    ensures
        r == (a@ == b@),
{
    if a.len() != b.len() {
        return false;
    }
    let m = chars_match_at(a, 0, b);
    assert(a@.subrange(0, b@.len() as int) =~= a@);
    m
}

fn push_chars(list: &mut Vec<Vec<char>>, item: Vec<char>)
    ensures
        final(list).deep_view() == old(list).deep_view().push(item@),
{
    let ghost before = list@;
    let ghost iv = item@;
    list.push(item);
    assert(list.deep_view() =~= Seq::new(before.len(), |k: int| before[k].deep_view()).push(iv)) by {
        assert forall|k: int| 0 <= k < list@.len() implies #[trigger] list.deep_view()[k] == Seq::new(
            before.len(),
            |k: int| before[k].deep_view(),
        ).push(iv)[k] by {
            assert(list@[k].deep_view() =~= list@[k]@);
        }
    }
}

/// Checks the acceptance classes of one task's suite, named by its files,
/// and returns them in sorted order.
#[verifier::rlimit(40)]
pub fn validate_acceptance_classes(file_names: &Vec<String>, kind: CorpusKind) -> (r: Result<
    Vec<String>,
    String,
>)
    ensures
        match r {
            Ok(classes) => acceptance_classes_ok(file_names.deep_view(), kind) && classes.deep_view()
                == present_classes(
                allowed_classes(kind),
                class_names(file_names.deep_view()),
                allowed_classes(kind).len() as int,
            ),
            Err(_) => !acceptance_classes_ok(file_names.deep_view(), kind),
        },
{
    let ghost names = file_names.deep_view();
    let ghost cs = class_names(names);
    let mut classes: Vec<Vec<char>> = Vec::new();
    let mut i: usize = 0;
    while i < file_names.len()
        invariant
            i <= file_names@.len(),
            names == file_names.deep_view(),
            cs == class_names(names),
            classes.deep_view() == cs.subrange(0, i as int),
            forall|a: int, b: int| 0 <= a < b < i ==> #[trigger] cs[a] != #[trigger] cs[b],
        decreases file_names@.len() - i,
    {
        let class = trim_json_suffix(file_names[i].as_str());
        assert(class@ == cs[i as int]);
        if contains_text(&classes, &class) {
            proof {
                let k = choose|k: int| 0 <= k < i && cs.subrange(0, i as int)[k] == class@;
                assert(cs[k] == cs[i as int]);
            }
            return Err("acceptance suite contains a duplicate class".to_owned());
        }
        proof {
            assert forall|a: int| 0 <= a < i implies cs[a] != cs[i as int] by {
                if cs[a] == cs[i as int] {
                    assert(cs.subrange(0, i as int)[a] == class@);
                }
            }
        }
        push_chars(&mut classes, class);
        assert(classes.deep_view() =~= cs.subrange(0, i + 1));
        i += 1;
    }
    assert(cs.subrange(0, names.len() as int) =~= cs);
    let (required, allowed) = kind.acceptance_policy();
    let mut k: usize = 0;
    while k < required.len()
        invariant
            k <= required@.len(),
            required@.len() == required_classes(kind).len(),
            forall|x: int| 0 <= x < required@.len() ==> #[trigger] required@[x]@ == required_classes(kind)[x],
            classes.deep_view() == cs,
            cs == class_names(file_names.deep_view()),
            forall|x: int| 0 <= x < k ==> cs.contains(#[trigger] required_classes(kind)[x]),
        decreases required@.len() - k,
    {
        let wanted = chars_of(required[k]);
        assert(wanted@ == required_classes(kind)[k as int]);
        if !contains_text(&classes, &wanted) {
            return Err("acceptance suite does not satisfy the corpus-kind class policy".to_owned());
        }
        k += 1;
    }
    let mut allowed_chars: Vec<Vec<char>> = Vec::new();
    let mut a: usize = 0;
    while a < allowed.len()
        invariant
            a <= allowed@.len(),
            allowed_chars.deep_view() == allowed_classes(kind).subrange(0, a as int),
            allowed@.len() == allowed_classes(kind).len(),
            forall|x: int| 0 <= x < allowed@.len() ==> #[trigger] allowed@[x]@ == allowed_classes(kind)[x],
        decreases allowed@.len() - a,
    {
        push_chars(&mut allowed_chars, chars_of(allowed[a]));
        assert(allowed_chars.deep_view() =~= allowed_classes(kind).subrange(0, a + 1));
        a += 1;
    }
    assert(allowed_classes(kind).subrange(0, allowed@.len() as int) =~= allowed_classes(kind));
    let mut c: usize = 0;
    while c < classes.len()
        invariant
            c <= classes@.len(),
            classes.deep_view() == cs,
            cs == class_names(file_names.deep_view()),
            allowed_chars.deep_view() == allowed_classes(kind),
            forall|x: int| 0 <= x < c ==> allowed_classes(kind).contains(#[trigger] cs[x]),
        decreases classes@.len() - c,
    {
        proof {
            lemma_deep_chars(classes, c as int);
        }
        if !contains_text(&allowed_chars, &classes[c]) {
            return Err("acceptance suite does not satisfy the corpus-kind class policy".to_owned());
        }
        c += 1;
    }
    let mut out: Vec<String> = Vec::new();
    let mut a: usize = 0;
    while a < allowed.len()
        invariant
            a <= allowed@.len(),
            allowed@.len() == allowed_classes(kind).len(),
            forall|x: int| 0 <= x < allowed@.len() ==> #[trigger] allowed@[x]@ == allowed_classes(kind)[x],
            classes.deep_view() == cs,
            out.deep_view() == present_classes(allowed_classes(kind), cs, a as int),
        decreases allowed@.len() - a,
    {
        let ghost before = out.deep_view();
        let candidate = chars_of(allowed[a]);
        if contains_text(&classes, &candidate) {
            out.push(allowed[a].to_owned());
            assert(out.deep_view() =~= before.push(allowed_classes(kind)[a as int]));
        }
        a += 1;
    }
    Ok(out)
}


// ---------------------------------------------------------------------------
// Catalog identity and task order
// ---------------------------------------------------------------------------
/// The task-metadata identity authority of a core catalog.
#[derive(Clone, Debug)]
pub struct CatalogMetadataIdentity {
    pub algorithm: String,
    pub canonicalization: String,
    pub digest: String,
    pub scope: String,
}

/// What sealing reads of a public catalog.
#[derive(Clone, Debug)]
pub struct SealCatalog {
    pub schema_version: String,
    pub task_set_id: String,
    pub task_set_version: String,
    pub identity_sha256: Option<String>,
    pub identity_scope: Option<String>,
    pub task_metadata_identity: Option<CatalogMetadataIdentity>,
    /// The `task_id` of each catalog task, where it is a string.
    pub task_ids: Vec<Option<String>>,
}

/// A catalog identity digest: `sha256:` and 64 lowercase hexadecimal digits.
pub open spec fn identity_digest_shape(s: Seq<char>) -> bool {
    &&& has_prefix(s, "sha256:"@)
    &&& s.len() == 71
    &&& is_lower_hex_text(s.subrange(7, 71), 64)
}

/// The identity a catalog declares for its kind: the task-metadata identity
/// of a core catalog, the top-level identity of a contrast catalog.
pub open spec fn declared_identity(kind: CorpusKind, c: SealCatalog) -> Option<(Seq<char>, Seq<char>)> {
    match kind {
        CorpusKind::Core => if c.identity_sha256 is None && c.identity_scope is None
            && c.task_metadata_identity is Some && c.task_metadata_identity->0.algorithm@
            == "sha256"@ && c.task_metadata_identity->0.canonicalization@
            == "aiq.sorted-key-json.v1"@ {
            Some((c.task_metadata_identity->0.digest@, c.task_metadata_identity->0.scope@))
        } else {
            None
        },
        CorpusKind::Contrast => if c.task_metadata_identity is None && c.identity_sha256 is Some
            && c.identity_scope is Some {
            Some((c.identity_sha256->0@, c.identity_scope->0@))
        } else {
            None
        },
    }
}

/// The catalog's identity authority is its kind's, well formed, with the
/// full ordered metadata scope.
pub open spec fn catalog_identity_ok(kind: CorpusKind, c: SealCatalog) -> bool {
    match declared_identity(kind, c) {
        Some((digest, scope)) => identity_digest_shape(digest) && scope
            == "ordered_full_task_metadata"@,
        None => false,
    }
}

/// Validates the catalog identity authority and returns its digest and scope.
pub fn validate_catalog_identity(kind: CorpusKind, catalog: &SealCatalog) -> (r: Result<
    (String, String),
    String,
>)
    ensures
        match r {
            Ok((d, s)) => catalog_identity_ok(kind, *catalog) && declared_identity(kind, *catalog)
                == Some((d@, s@)),
            Err(_) => !catalog_identity_ok(kind, *catalog),
        },
{
    let (digest, scope) = match kind {
        CorpusKind::Core => {
            if catalog.identity_sha256.is_some() || catalog.identity_scope.is_some() {
                return Err("Core catalog must use its task-metadata identity authority".to_owned());
            }
            let identity = match &catalog.task_metadata_identity {
                Some(i) => i,
                None => {
                    return Err("Core catalog omits its task-metadata identity authority".to_owned());
                },
            };
            if !text_eq(identity.algorithm.as_str(), "sha256") || !text_eq(
                identity.canonicalization.as_str(),
                "aiq.sorted-key-json.v1",
            ) {
                return Err("Core catalog task-metadata identity algorithm is invalid".to_owned());
            }
            (&identity.digest, &identity.scope)
        },
        CorpusKind::Contrast => {
            if catalog.task_metadata_identity.is_some() {
                return Err("Contrast catalog must use its top-level identity authority".to_owned());
            }
            let d = match &catalog.identity_sha256 {
                Some(d) => d,
                None => {
                    return Err("Contrast catalog omits identity_sha256".to_owned());
                },
            };
            let s = match &catalog.identity_scope {
                Some(s) => s,
                None => {
                    return Err("Contrast catalog omits identity_scope".to_owned());
                },
            };
            (d, s)
        },
    };
    let v = chars_of(digest.as_str());
    let prefix = chars_of("sha256:");
    proof {
        reveal_strlit("sha256:");
    }
    let shape = chars_match_at(&v, 0, &prefix) && v.len() == 71 && all_chars_in_class(
        &v,
        7,
        71,
        CharClass::LowerHex,
    );
    proof {
        if v@.len() == 71 {
            assert(all_in_class(v@, 7, 71, CharClass::LowerHex) == all_in_class(
                v@.subrange(7, 71),
                0,
                64,
                CharClass::LowerHex,
            )) by {
                assert forall|k: int| 0 <= k < 64 implies v@.subrange(7, 71)[k] == v@[k + 7] by {}
                if all_in_class(v@.subrange(7, 71), 0, 64, CharClass::LowerHex) {
                    assert forall|k: int| 7 <= k < 71 implies #[trigger] in_class(
                        CharClass::LowerHex,
                        v@[k],
                    ) by {
                        assert(v@.subrange(7, 71)[k - 7] == v@[k]);
                    }
                }
            }
        }
    }
    if !shape || !text_eq(scope.as_str(), "ordered_full_task_metadata") {
        return Err("catalog identity authority is invalid".to_owned());
    }
    Ok((digest.clone(), scope.clone()))
}

pub open spec fn kind_catalog_schema(kind: CorpusKind) -> Seq<char> {
    match kind {
        CorpusKind::Core => "aiq.catalog.v1"@,
        CorpusKind::Contrast => "aiq.contrast-corpus.v1"@,
    }
}

pub open spec fn kind_task_set_id(kind: CorpusKind) -> Seq<char> {
    match kind {
        CorpusKind::Core => "aiq-core"@,
        CorpusKind::Contrast => "aiq-core-contrast"@,
    }
}

/// The catalog header fits the kind.
pub open spec fn catalog_header_ok(kind: CorpusKind, c: SealCatalog) -> bool {
    &&& c.schema_version@ == kind_catalog_schema(kind)
    &&& c.task_set_id@ == kind_task_set_id(kind)
    &&& c.task_set_version@ == "1.0.6"@
    &&& c.task_ids@.len() == kind_task_count(kind)
}

/// Catalog task identifiers are present, non-empty and distinct, and the
/// selected task identifiers are exactly the same set, each once.
pub open spec fn catalog_tasks_match(c: Seq<Option<String>>, observed: Seq<Seq<char>>) -> bool {
    &&& forall|i: int| 0 <= i < c.len() ==> (#[trigger] c[i]) is Some && c[i]->0@.len() > 0
    &&& forall|i: int, j: int| 0 <= i < j < c.len() ==> (#[trigger] c[i])->0@ != (#[trigger] c[j])->0@
    &&& observed.len() == c.len()
    &&& forall|i: int, j: int| 0 <= i < j < observed.len() ==> #[trigger] observed[i] != #[trigger] observed[j]
    &&& forall|i: int| 0 <= i < c.len() ==> observed_has(observed, (#[trigger] c[i])->0@)
}

/// `id` is one of the observed identifiers.
pub open spec fn observed_has(observed: Seq<Seq<char>>, id: Seq<char>) -> bool {
    exists|j: int| 0 <= j < observed.len() && observed[j] == id
}

/// Validates the catalog against its kind and the selected tasks, and
/// returns the catalog order of the tasks (`order[i]` is the selected task
/// at catalog position `i`) with the catalog identity.
pub fn validate_catalog(kind: CorpusKind, catalog: &SealCatalog, task_ids: &Vec<String>) -> (r:
    Result<(Vec<usize>, String, String), String>)
    ensures
        match r {
            Ok((order, d, s)) => {
                &&& catalog_header_ok(kind, *catalog)
                &&& catalog_tasks_match(catalog.task_ids@, task_ids.deep_view())
                &&& catalog_identity_ok(kind, *catalog)
                &&& declared_identity(kind, *catalog) == Some((d@, s@))
                &&& order@.len() == task_ids@.len()
                &&& forall|i: int|
                    0 <= i < order@.len() ==> #[trigger] order@[i] < task_ids@.len() && task_ids@[order@[i] as int]@
                        == catalog.task_ids@[i]->0@
            },
            Err(_) => !catalog_header_ok(kind, *catalog) || !catalog_tasks_match(
                catalog.task_ids@,
                task_ids.deep_view(),
            ) || !catalog_identity_ok(kind, *catalog),
        },
{
    let (schema, id) = match kind {
        CorpusKind::Core => ("aiq.catalog.v1", "aiq-core"),
        CorpusKind::Contrast => ("aiq.contrast-corpus.v1", "aiq-core-contrast"),
    };
    if !text_eq(catalog.schema_version.as_str(), schema) || !text_eq(
        catalog.task_set_id.as_str(),
        id,
    ) || !text_eq(catalog.task_set_version.as_str(), "1.0.6") || catalog.task_ids.len()
        != kind.task_count() {
        return Err("catalog does not match corpus kind".to_owned());
    }
    let c = &catalog.task_ids;
    let mut ids: Vec<&str> = Vec::new();
    let mut i: usize = 0;
    while i < c.len()
        invariant
            i <= c@.len(),
            c == &catalog.task_ids,
            ids@.len() == i,
            forall|k: int| 0 <= k < i ==> (#[trigger] c@[k]) is Some && c@[k]->0@.len() > 0 && ids@[k]@ == c@[k]->0@,
            forall|a: int, b: int| 0 <= a < b < i ==> (#[trigger] c@[a])->0@ != (#[trigger] c@[b])->0@,
        decreases c@.len() - i,
    {
        let id = match &c[i] {
            Some(s) => s.as_str(),
            None => {
                return Err("catalog task omits task_id".to_owned());
            },
        };
        if id.unicode_len() == 0 {
            return Err("catalog contains an invalid or duplicate task id".to_owned());
        }
        let mut j: usize = 0;
        while j < i
            invariant
                j <= i < c@.len(),
                ids@.len() == i,
                c == &catalog.task_ids,
                id@ == c@[i as int]->0@,
                forall|k: int| 0 <= k < i ==> (#[trigger] c@[k]) is Some && ids@[k]@ == c@[k]->0@,
                forall|k: int| 0 <= k < j ==> c@[k]->0@ != c@[i as int]->0@,
            decreases i - j,
        {
            if text_eq(ids[j], id) {
                assert(c@[j as int]->0@ == c@[i as int]->0@);
                return Err("catalog contains an invalid or duplicate task id".to_owned());
            }
            j += 1;
        }
        ids.push(id);
        i += 1;
    }
    proof {
        assert(task_ids.deep_view().len() == task_ids@.len());
    }
    if task_ids.len() != ids.len() {
        return Err("tasks do not match the exact unique catalog task-id set".to_owned());
    }
    let mut t: usize = 0;
    while t < task_ids.len()
        invariant
            t <= task_ids@.len(),
            ids@.len() == c@.len(),
            task_ids@.len() == c@.len(),
            c == &catalog.task_ids,
            forall|k: int| 0 <= k < c@.len() ==> (#[trigger] c@[k]) is Some && c@[k]->0@.len() > 0 && ids@[k]@ == c@[k]->0@,
            forall|a: int, b: int| 0 <= a < b < c@.len() ==> (#[trigger] c@[a])->0@ != (#[trigger] c@[b])->0@,
            forall|a: int, b: int|
                0 <= a < b < t ==> #[trigger] task_ids.deep_view()[a] != #[trigger] task_ids.deep_view()[b],
        decreases task_ids@.len() - t,
    {
        let mut u: usize = 0;
        while u < t
            invariant
                u <= t < task_ids@.len(),
                forall|a: int| 0 <= a < u ==> task_ids.deep_view()[a] != task_ids.deep_view()[t as int],
            decreases t - u,
        {
            if text_eq(task_ids[u].as_str(), task_ids[t].as_str()) {
                assert(task_ids.deep_view()[u as int] == task_ids.deep_view()[t as int]);
                return Err("tasks do not match the exact unique catalog task-id set".to_owned());
            }
            u += 1;
        }
        t += 1;
    }
    let mut order: Vec<usize> = Vec::new();
    let mut p: usize = 0;
    while p < ids.len()
        invariant
            p <= ids@.len(),
            ids@.len() == c@.len(),
            task_ids@.len() == c@.len(),
            c == &catalog.task_ids,
            forall|k: int| 0 <= k < c@.len() ==> (#[trigger] c@[k]) is Some && c@[k]->0@.len() > 0 && ids@[k]@ == c@[k]->0@,
            forall|a: int, b: int| 0 <= a < b < c@.len() ==> (#[trigger] c@[a])->0@ != (#[trigger] c@[b])->0@,
            forall|a: int, b: int|
                0 <= a < b < task_ids@.len() ==> #[trigger] task_ids.deep_view()[a] != #[trigger] task_ids.deep_view()[b],
            order@.len() == p,
            forall|k: int| 0 <= k < p ==> #[trigger] order@[k] < task_ids@.len() && task_ids@[order@[k] as int]@ == c@[k]->0@,
        decreases ids@.len() - p,
    {
        let mut q: usize = 0;
        let mut at: Option<usize> = None;
        while q < task_ids.len()
            invariant
                q <= task_ids@.len(),
                p < ids@.len(),
                match at {
                    Some(x) => x < task_ids@.len() && task_ids@[x as int]@ == ids@[p as int]@,
                    None => forall|m: int| 0 <= m < q ==> task_ids@[m]@ != ids@[p as int]@,
                },
            decreases task_ids@.len() - q,
        {
            if at.is_none() && text_eq(task_ids[q].as_str(), ids[p]) {
                at = Some(q);
            }
            q += 1;
        }
        match at {
            Some(x) => {
                order.push(x);
            },
            None => {
                proof {
                    assert forall|m: int| 0 <= m < task_ids.deep_view().len() implies task_ids.deep_view()[m]
                        != c@[p as int]->0@ by {
                        assert(task_ids.deep_view()[m] == task_ids@[m]@);
                    }
                    assert(!observed_has(task_ids.deep_view(), c@[p as int]->0@));
                }
                return Err("tasks do not match the exact unique catalog task-id set".to_owned());
            },
        }
        p += 1;
    }
    let (digest, scope) = validate_catalog_identity(kind, catalog)?;
    proof {
        let cc = catalog.task_ids@;
        let ob = task_ids.deep_view();
        assert forall|i: int| 0 <= i < cc.len() implies observed_has(ob, (#[trigger] cc[i])->0@) by {
            let j = order@[i] as int;
            assert(ob[j] == task_ids@[j]@);
        }
        assert(ob.len() == cc.len());
    }
    Ok((order, digest, scope))
}


/// The two controlled references a core task binds: its fixture and its
/// acceptance suite.
pub open spec fn expected_fixture_refs(task_id: Seq<char>) -> (Seq<char>, Seq<char>) {
    (
        "aiq-controlled-fixture://aiq-core/1.0.6/"@ + task_id,
        "aiq-controlled-acceptance://aiq-core/1.0.6/"@ + task_id,
    )
}

/// The task binds exactly its two controlled references, each once.
pub open spec fn fixture_refs_ok(task_id: Seq<char>, refs: Seq<Seq<char>>) -> bool {
    &&& refs.len() == 2
    &&& refs.to_set() == set![expected_fixture_refs(task_id).0, expected_fixture_refs(task_id).1]
}

/// Checks that a task binds exactly its controlled fixture and acceptance
/// references.
pub fn validate_fixture_refs(task_id: &str, fixture_refs: &Vec<String>) -> (r: Result<(), String>)
    ensures
        r is Ok <==> fixture_refs_ok(task_id@, fixture_refs.deep_view()),
{
    let mut fixture = "aiq-controlled-fixture://aiq-core/1.0.6/".to_owned();
    fixture.append(task_id);
    let mut acceptance = "aiq-controlled-acceptance://aiq-core/1.0.6/".to_owned();
    acceptance.append(task_id);
    let ghost refs = fixture_refs.deep_view();
    let ghost e1 = expected_fixture_refs(task_id@).0;
    let ghost e2 = expected_fixture_refs(task_id@).1;
    proof {
        reveal_strlit("aiq-controlled-fixture://aiq-core/1.0.6/");
        reveal_strlit("aiq-controlled-acceptance://aiq-core/1.0.6/");
        assert(e1[15] != e2[15]);
        assert(refs.len() == fixture_refs@.len());
    }
    if fixture_refs.len() != 2 {
        return Err("task does not bind the exact controlled fixture and acceptance references".to_owned());
    }
    let a = fixture_refs[0].as_str();
    let b = fixture_refs[1].as_str();
    proof {
        assert(refs[0] == a@);
        assert(refs[1] == b@);
    }
    let fa = text_eq(a, fixture.as_str());
    let fb = text_eq(b, fixture.as_str());
    let aa = text_eq(a, acceptance.as_str());
    let ab = text_eq(b, acceptance.as_str());
    if (fa && ab) || (aa && fb) {
        proof {
            assert(refs.to_set() =~= set![e1, e2]) by {
                assert(refs.to_set().contains(refs[0]));
                assert(refs.to_set().contains(refs[1]));
            }
        }
        Ok(())
    } else {
        proof {
            if refs.to_set() == set![e1, e2] {
                assert(set![e1, e2].contains(e1));
                assert(set![e1, e2].contains(e2));
                assert(refs.to_set().contains(e1));
                assert(refs.to_set().contains(e2));
                assert(refs.contains(e1));
                assert(refs.contains(e2));
                assert(refs.to_set().contains(refs[0]));
                assert(refs.to_set().contains(refs[1]));
            }
        }
        Err("task does not bind the exact controlled fixture and acceptance references".to_owned())
    }
}

/// One task's declared evaluator runtime: whether it is the Node runtime,
/// and the executable digest it names.
#[derive(Clone, Debug)]
pub struct RuntimeBinding {
    /// The binding names the Node runtime kind.
    pub is_node: bool,
    /// The runtime executable digest the binding names.
    pub executable_digest: String,
}

/// Every task names the Node runtime with the one shared digest, and there is
/// at least one task.
pub open spec fn shared_runtime_ok(bindings: Seq<RuntimeBinding>, expected: Seq<char>) -> bool {
    &&& bindings.len() > 0
    &&& forall|i: int| 0 <= i < bindings.len() ==> (#[trigger] bindings[i]).is_node
        && bindings[i].executable_digest@ == expected
}

/// Checks that all tasks share the one committed evaluator runtime identity.
pub fn validate_shared_runtime_identities(bindings: &Vec<RuntimeBinding>, expected_digest: &str) -> (r:
    Result<(), String>)
    ensures
        r is Ok <==> shared_runtime_ok(bindings@, expected_digest@),
{
    let mut i: usize = 0;
    while i < bindings.len()
        invariant
            i <= bindings@.len(),
            forall|k: int| 0 <= k < i ==> (#[trigger] bindings@[k]).is_node
                && bindings@[k].executable_digest@ == expected_digest@,
        decreases bindings@.len() - i,
    {
        if !bindings[i].is_node || !text_eq(bindings[i].executable_digest.as_str(), expected_digest) {
            return Err("task evaluator runtime identity does not match the shared runtime".to_owned());
        }
        i += 1;
    }
    if bindings.len() == 0 {
        return Err("task set has no evaluator runtime identity".to_owned());
    }
    Ok(())
}

/// The Node.js components every runtime authority must name.
pub open spec fn required_node_components() -> Seq<Seq<char>> {
    seq!["icu"@, "tz"@, "unicode"@, "v8"@, "modules"@, "openssl"@, "zlib"@]
}

/// The runtime authority has its schema, names the `node` release and covers
/// every required component.
pub open spec fn runtime_authority_ok(
    schema_version: Seq<char>,
    release_name: Seq<char>,
    components: Seq<Seq<char>>,
) -> bool {
    &&& schema_version == "aiq.corpus-runtime-authority.v1"@
    &&& release_name == "node"@
    &&& components.len() >= 7
    &&& forall|k: int| 0 <= k < 7 ==> components.contains(#[trigger] required_node_components()[k])
}

/// Checks a runtime authority: its schema, its release name and the names of
/// its Node.js components (the keys of its component map, each once).
pub fn validate_runtime_authority(
    schema_version: &str,
    release_name: &str,
    components: &Vec<String>,
) -> (r: Result<(), String>)
    ensures
        r is Ok <==> runtime_authority_ok(schema_version@, release_name@, components.deep_view()),
{
    proof {
        assert(components.deep_view().len() == components@.len());
    }
    if !text_eq(schema_version, "aiq.corpus-runtime-authority.v1") || !text_eq(release_name, "node")
        || components.len() < 7 {
        return Err("runtime authority contract is invalid".to_owned());
    }
    let required: Vec<&str> = vec!["icu", "tz", "unicode", "v8", "modules", "openssl", "zlib"];
    proof {
        assert(required@.len() == 7);
        assert forall|k: int| 0 <= k < 7 implies required@[k]@ == required_node_components()[k] by {}
    }
    let mut k: usize = 0;
    while k < required.len()
        invariant
            k <= required@.len(),
            required@.len() == 7,
            forall|m: int| 0 <= m < 7 ==> required@[m]@ == required_node_components()[m],
            forall|m: int| 0 <= m < k ==> components.deep_view().contains(#[trigger] required_node_components()[m]),
        decreases required@.len() - k,
    {
        let name = required[k];
        let mut found = false;
        let mut j: usize = 0;
        while j < components.len()
            invariant
                j <= components@.len(),
                k < 7,
                name@ == required_node_components()[k as int],
                found ==> components.deep_view().contains(name@),
                !found ==> forall|m: int| 0 <= m < j ==> components@[m]@ != name@,
            decreases components@.len() - j,
        {
            if text_eq(components[j].as_str(), name) {
                assert(components.deep_view()[j as int] == name@);
                found = true;
            }
            j += 1;
        }
        if !found {
            proof {
                assert forall|m: int| 0 <= m < components.deep_view().len() implies components.deep_view()[m]
                    != name@ by {
                    assert(components.deep_view()[m] == components@[m]@);
                }
                assert(!components.deep_view().contains(required_node_components()[k as int]));
            }
            return Err("runtime authority omits a required Node.js component".to_owned());
        }
        k += 1;
    }
    Ok(())
}

/// The first line of a version probe's output: the text before the first
/// line feed, without the carriage return of a `\r\n` ending; all of the text
/// when it holds no line feed.
pub open spec fn first_line(s: Seq<char>) -> Seq<char> {
    if s.contains('\n') {
        let upto = s.subrange(0, choose_first_newline(s));
        if upto.len() > 0 && upto[upto.len() - 1] == '\r' {
            upto.subrange(0, upto.len() - 1)
        } else {
            upto
        }
    } else {
        s
    }
}

/// Index of the first line feed of `s` (its length when there is none).
pub open spec fn choose_first_newline(s: Seq<char>) -> int
    decreases s.len(),
{
    if s.len() == 0 {
        0
    } else if s[0] == '\n' {
        0
    } else {
        1 + choose_first_newline(s.subrange(1, s.len() as int))
    }
}

/// The canonical version of a controlled executable: the first line of its
/// probe output, which must not be empty.
pub fn probe_version_line(output: &str) -> (r: Result<String, String>)
    ensures
        match r {
            Ok(v) => v@ == first_line(output@) && v@.len() > 0,
            Err(_) => first_line(output@).len() == 0,
        },
{
    let v = chars_of(output);
    let mut end: usize = 0;
    assert(v@.subrange(0, v@.len() as int) =~= v@);
    while end < v.len() && v[end] != '\n'
        invariant
            end <= v@.len(),
            v@ == output@,
            forall|k: int| 0 <= k < end ==> v@[k] != '\n',
            choose_first_newline(v@) == end + choose_first_newline(v@.subrange(end as int, v@.len() as int)),
        decreases v@.len() - end,
    {
        proof {
            let rest = v@.subrange(end as int, v@.len() as int);
            assert(rest.subrange(1, rest.len() as int) =~= v@.subrange(end + 1, v@.len() as int));
        }
        end += 1;
    }
    proof {
        assert(v@.subrange(0, v@.len() as int) =~= v@);
        let rest = v@.subrange(end as int, v@.len() as int);
        if end < v@.len() {
            assert(rest[0] == '\n');
            assert(v@.contains('\n'));
            assert(choose_first_newline(v@) == end);
        } else {
            assert(rest.len() == 0);
            assert(!v@.contains('\n')) by {
                if v@.contains('\n') {
                    let w = choose|w: int| 0 <= w < v@.len() && v@[w] == '\n';
                    assert(v@[w] != '\n');
                }
            }
        }
    }
    if end < v.len() && end > 0 && v[end - 1] == '\r' {
        end -= 1;
    }
    let mut line: Vec<char> = Vec::new();
    let mut i: usize = 0;
    while i < end
        invariant
            i <= end <= v@.len(),
            line@ == v@.subrange(0, i as int),
        decreases end - i,
    {
        line.push(v[i]);
        proof {
            assert(v@.subrange(0, i + 1) =~= v@.subrange(0, i as int).push(v@[i as int]));
        }
        i += 1;
    }
    assert(first_line(output@) =~= line@);
    if line.len() == 0 {
        return Err("controlled executable returned an empty version".to_owned());
    }
    Ok(string_from_chars(&line))
}

/// Host platform, architecture and minimal-path tokens of a sealing host.
pub fn host_platform(os: &str, arch: &str) -> (r: Result<(String, String, String), String>)
    ensures
        match r {
            Ok((p, a, m)) => node_platform(os@) == Some(p@) && node_architecture(arch@) == Some(a@)
                && m@ == minimal_path_label(p@),
            Err(_) => node_platform(os@) is None || node_architecture(arch@) is None,
        },
{
    match host_toolchain_identity(os, arch) {
        Ok(identity) => Ok(identity),
        Err(_) => Err("unsupported sealing platform or architecture".to_owned()),
    }
}


/// The catalog order `validate_catalog` returns is a permutation of the
/// selected tasks: every position is used once, so sorting by it neither
/// drops nor repeats a task.
pub proof fn law_catalog_order_is_a_permutation(
    c: Seq<Option<String>>,
    observed: Seq<Seq<char>>,
    order: Seq<usize>,
)
    requires
        catalog_tasks_match(c, observed),
        order.len() == observed.len(),
        forall|i: int|
            0 <= i < order.len() ==> #[trigger] order[i] < observed.len() && observed[order[i] as int]
                == c[i]->0@,
    ensures
        forall|i: int, j: int| 0 <= i < j < order.len() ==> #[trigger] order[i] != #[trigger] order[j],
        forall|t: int| 0 <= t < observed.len() ==> #[trigger] position_used(order, t),
{
    assert forall|i: int, j: int| 0 <= i < j < order.len() implies #[trigger] order[i] != #[trigger] order[j] by {
        assert(c[i]->0@ != c[j]->0@);
    }
    assert forall|t: int| 0 <= t < observed.len() implies #[trigger] position_used(order, t) by {
        lemma_injective_covers(order, observed.len() as int, t);
    }
}

/// Some entry of `order` is `t`.
pub open spec fn position_used(order: Seq<usize>, t: int) -> bool {
    exists|i: int| 0 <= i < order.len() && order[i] == t
}

proof fn lemma_injective_covers(order: Seq<usize>, n: int, t: int)
    requires
        order.len() == n,
        0 <= t < n,
        forall|i: int| 0 <= i < n ==> #[trigger] order[i] < n,
        forall|i: int, j: int| 0 <= i < j < n ==> #[trigger] order[i] != #[trigger] order[j],
    ensures
        exists|i: int| 0 <= i < n && #[trigger] order[i] == t,
{
    if !(exists|i: int| 0 <= i < n && #[trigger] order[i] == t) {
        let m = order.map_values(|x: usize| x as int);
        let s = m.to_set();
        let full = Set::new(|x: int| 0 <= x < n && x != t);
        assert(s.subset_of(full)) by {
            assert forall|x: int| s.contains(x) implies full.contains(x) by {
                let i = choose|i: int| 0 <= i < m.len() && #[trigger] m[i] == x;
                assert(m[i] == order[i] as int);
                assert(order[i] < n);
            }
        }
        vstd::set_lib::lemma_int_range(0, n);
        assert(full =~= vstd::set_lib::set_int_range(0, n).remove(t));
        vstd::set_lib::lemma_len_subset(s, full);
        assert(m.no_duplicates()) by {
            assert forall|i: int, j: int| 0 <= i < m.len() && 0 <= j < m.len() && i != j implies m[i] != m[j] by {
                if i < j {
                    assert(order[i] != order[j]);
                } else {
                    assert(order[j] != order[i]);
                }
            }
        }
        m.unique_seq_to_set();
        assert(s.len() == n);
        assert(full.len() == n - 1);
    }
}


// ---------------------------------------------------------------------------
// Execution provenance
// ---------------------------------------------------------------------------
/// One source manifest entry as JSON.
pub open spec fn manifest_entry_tree(e: SourceManifestEntry) -> JsonTree {
    path_digest_tree(e.path@, e.sha256@)
}

/// A `{path, sha256}` pair as JSON.
pub open spec fn path_digest_tree(path: Seq<char>, sha256: Seq<char>) -> JsonTree {
    JsonTree::Object(seq![("path"@, JsonTree::Text(path)), ("sha256"@, JsonTree::Text(sha256))])
}

/// A source manifest as JSON.
pub open spec fn source_manifest_tree(m: SourceManifest) -> JsonTree {
    JsonTree::Object(
        seq![
            ("schema_version"@, JsonTree::Text(m.schema_version@)),
            ("package"@, JsonTree::Text(m.package@)),
            ("scope"@, JsonTree::Text(m.scope@)),
            ("path_base"@, JsonTree::Text(m.path_base@)),
            (
                "entries"@,
                JsonTree::Array(
                    Seq::new(m.entries@.len(), |i: int| manifest_entry_tree(m.entries@[i])),
                ),
            ),
        ],
    )
}

fn texts_json(v: Vec<&str>) -> (j: Json)
    ensures
        j.tree() == JsonTree::Array(Seq::new(v@.len(), |i: int| JsonTree::Text(v@[i]@))),
{
    let ghost items = v@;
    let mut out: Vec<Json> = Vec::new();
    let mut i: usize = 0;
    while i < v.len()
        invariant
            i <= v@.len(),
            out@.len() == i,
            forall|k: int| 0 <= k < i ==> #[trigger] out@[k].tree() == JsonTree::Text(v@[k]@),
        decreases v@.len() - i,
    {
        out.push(json_text(v[i]));
        i += 1;
    }
    let ghost outs = out@;
    let j = json_array(out);
    assert(items_tree(outs) =~= Seq::new(items.len(), |i: int| JsonTree::Text(items[i]@)));
    j
}

/// The Node.js scenario launch arguments every evaluator run uses.
pub open spec fn scenario_arguments() -> Seq<&'static str> {
    seq![
        "--no-warnings",
        "--abort-on-uncaught-exception",
        "--unhandled-rejections=strict",
        "--disable-sigusr1",
        "--experimental-vm-modules",
        "--max-old-space-size=128",
        "--permission",
        "--allow-fs-read=<candidate-workspace>",
        "<scenario-launcher-in-disposable-workspace>",
    ]
}

/// The committed evaluator invocation contract.
pub open spec fn evaluator_provenance_tree(evaluator_sha256: Seq<char>) -> JsonTree {
    JsonTree::Object(
        seq![
            ("executable_sha256"@, JsonTree::Text(evaluator_sha256)),
            ("dependency_model"@, JsonTree::Text("node_builtin_modules_only"@)),
            (
                "acceptance_invocation"@,
                JsonTree::Object(
                    seq![
                        ("executable"@, JsonTree::Text("committed_node_runtime"@)),
                        (
                            "arguments"@,
                            JsonTree::Array(
                                Seq::new(1, |i: int| JsonTree::Text(seq!["<committed-evaluator-script>"][i]@)),
                            ),
                        ),
                        ("cwd"@, JsonTree::Text("repository_root"@)),
                        ("environment"@, JsonTree::Text("empty"@)),
                    ],
                ),
            ),
            (
                "scenario_invocation"@,
                JsonTree::Object(
                    seq![
                        ("executable"@, JsonTree::Text("committed_node_runtime"@)),
                        (
                            "arguments"@,
                            JsonTree::Array(
                                Seq::new(9, |i: int| JsonTree::Text(scenario_arguments()[i]@)),
                            ),
                        ),
                        (
                            "hidden_source_transport"@,
                            JsonTree::Text(
                                "inherited descriptor 3 consumed by the launcher before candidate import"@,
                            ),
                        ),
                        (
                            "authentication_transport"@,
                            JsonTree::Text(
                                "random HMAC key and nonce on inherited descriptor 4 consumed before candidate import"@,
                            ),
                        ),
                        (
                            "trusted_completion_transport"@,
                            JsonTree::Text("HMAC-SHA-256 completion record on inherited descriptor 5"@),
                        ),
                        (
                            "optional_write_argument"@,
                            JsonTree::Text("--allow-fs-write=<candidate-workspace>"@),
                        ),
                        ("environment"@, JsonTree::Text("empty"@)),
                    ],
                ),
            ),
        ],
    )
}

/// The execution provenance a seal commits: the authority's operating
/// system, locale and Node.js release facts, the committed runtime, model
/// toolchain and evaluator, the source-only runner, and no Codex.
pub open spec fn runtime_provenance_tree(
    operating_system: JsonTree,
    locale_and_timezone: JsonTree,
    node_executable_sha256: Seq<char>,
    node_version: Seq<char>,
    node_release: JsonTree,
    node_components: JsonTree,
    policy: ExecutionToolPolicy,
    evaluator_sha256: Seq<char>,
    manifest: SourceManifest,
    manifest_sha256: Seq<char>,
) -> JsonTree {
    JsonTree::Object(
        seq![
            ("schema_version"@, JsonTree::Text("aiq.execution-provenance.v1"@)),
            ("operating_system"@, operating_system),
            ("locale_and_timezone"@, locale_and_timezone),
            (
                "node_runtime"@,
                JsonTree::Object(
                    seq![
                        ("executable_sha256"@, JsonTree::Text(node_executable_sha256)),
                        ("version"@, JsonTree::Text(node_version)),
                        ("release"@, node_release),
                        ("components"@, node_components),
                    ],
                ),
            ),
            ("model_toolchain"@, policy.tree()),
            ("evaluator"@, evaluator_provenance_tree(evaluator_sha256)),
            (
                "runner"@,
                JsonTree::Object(
                    seq![
                        ("identity_kind"@, JsonTree::Text("source_only"@)),
                        ("source_manifest"@, source_manifest_tree(manifest)),
                        ("source_manifest_sha256"@, JsonTree::Text(manifest_sha256)),
                        ("built_binary_sha256"@, JsonTree::Null),
                    ],
                ),
            ),
            (
                "codex"@,
                JsonTree::Object(
                    seq![
                        ("invoked"@, JsonTree::Bool(false)),
                        ("binary_sha256"@, JsonTree::Null),
                        ("version"@, JsonTree::Null),
                    ],
                ),
            ),
        ],
    )
}

/// A source manifest as JSON.
pub fn source_manifest_json(m: &SourceManifest) -> (j: Json)
    ensures
        j.tree() == source_manifest_tree(*m),
{
    let mut entries: Vec<Json> = Vec::new();
    let mut i: usize = 0;
    while i < m.entries.len()
        invariant
            i <= m.entries@.len(),
            entries@.len() == i,
            forall|k: int| 0 <= k < i ==> #[trigger] entries@[k].tree() == manifest_entry_tree(m.entries@[k]),
        decreases m.entries@.len() - i,
    {
        let e = &m.entries[i];
        let mut members: Vec<(String, Json)> = Vec::new();
        members.push(member("path", json_text(e.path.as_str())));
        members.push(member("sha256", json_text(e.sha256.as_str())));
        let ghost ms = members@;
        let j = json_object(members);
        assert(members_tree(ms) =~= manifest_entry_tree(*e)->Object_0);
        entries.push(j);
        i += 1;
    }
    let ghost es = entries@;
    let entries_json = json_array(entries);
    assert(items_tree(es) =~= Seq::new(m.entries@.len(), |i: int| manifest_entry_tree(m.entries@[i])));
    let mut members: Vec<(String, Json)> = Vec::new();
    members.push(member("schema_version", json_text(m.schema_version.as_str())));
    members.push(member("package", json_text(m.package.as_str())));
    members.push(member("scope", json_text(m.scope.as_str())));
    members.push(member("path_base", json_text(m.path_base.as_str())));
    members.push(member("entries", entries_json));
    let ghost ms = members@;
    let j = json_object(members);
    assert(members_tree(ms) =~= source_manifest_tree(*m)->Object_0);
    j
}

fn evaluator_provenance_json(evaluator_sha256: &str) -> (j: Json)
    ensures
        j.tree() == evaluator_provenance_tree(evaluator_sha256@),
{
    let aargs: Vec<&str> = vec!["<committed-evaluator-script>"];
    let ghost av = aargs@;
    let acceptance_arguments = texts_json(aargs);
    let mut acceptance: Vec<(String, Json)> = Vec::new();
    acceptance.push(member("executable", json_text("committed_node_runtime")));
    acceptance.push(member("arguments", acceptance_arguments));
    acceptance.push(member("cwd", json_text("repository_root")));
    acceptance.push(member("environment", json_text("empty")));
    let ghost acc = acceptance@;
    let acceptance_json = json_object(acceptance);
    let sargs: Vec<&str> = vec![
            "--no-warnings",
            "--abort-on-uncaught-exception",
            "--unhandled-rejections=strict",
            "--disable-sigusr1",
            "--experimental-vm-modules",
            "--max-old-space-size=128",
            "--permission",
            "--allow-fs-read=<candidate-workspace>",
            "<scenario-launcher-in-disposable-workspace>",
        ];
    let ghost sv = sargs@;
    let scenario_arguments_json = texts_json(sargs);
    assert(sv =~= scenario_arguments());
    let mut scenario: Vec<(String, Json)> = Vec::new();
    scenario.push(member("executable", json_text("committed_node_runtime")));
    scenario.push(member("arguments", scenario_arguments_json));
    scenario.push(
        member(
            "hidden_source_transport",
            json_text("inherited descriptor 3 consumed by the launcher before candidate import"),
        ),
    );
    scenario.push(
        member(
            "authentication_transport",
            json_text(
                "random HMAC key and nonce on inherited descriptor 4 consumed before candidate import",
            ),
        ),
    );
    scenario.push(
        member(
            "trusted_completion_transport",
            json_text("HMAC-SHA-256 completion record on inherited descriptor 5"),
        ),
    );
    scenario.push(member("optional_write_argument", json_text("--allow-fs-write=<candidate-workspace>")));
    scenario.push(member("environment", json_text("empty")));
    let ghost sc = scenario@;
    let scenario_json = json_object(scenario);
    let mut m: Vec<(String, Json)> = Vec::new();
    m.push(member("executable_sha256", json_text(evaluator_sha256)));
    m.push(member("dependency_model", json_text("node_builtin_modules_only")));
    m.push(member("acceptance_invocation", acceptance_json));
    m.push(member("scenario_invocation", scenario_json));
    let ghost ms = m@;
    let j = json_object(m);
    assert(av =~= seq!["<committed-evaluator-script>"]);
    assert(members_tree(acc) =~= evaluator_provenance_tree(evaluator_sha256@)->Object_0[2].1->Object_0);
    assert(members_tree(sc) =~= evaluator_provenance_tree(evaluator_sha256@)->Object_0[3].1->Object_0);
    assert(members_tree(ms) =~= evaluator_provenance_tree(evaluator_sha256@)->Object_0);
    j
}

/// Builds the execution provenance document a seal commits.
pub fn runtime_provenance_json(
    operating_system: Json,
    locale_and_timezone: Json,
    node_executable_sha256: &str,
    node_version: &str,
    node_release: Json,
    node_components: Json,
    policy: &ExecutionToolPolicy,
    evaluator_sha256: &str,
    manifest: &SourceManifest,
    manifest_sha256: &str,
) -> (j: Json)
    ensures
        j.tree() == runtime_provenance_tree(
            operating_system.tree(),
            locale_and_timezone.tree(),
            node_executable_sha256@,
            node_version@,
            node_release.tree(),
            node_components.tree(),
            *policy,
            evaluator_sha256@,
            *manifest,
            manifest_sha256@,
        ),
{
    let ghost os = operating_system.tree();
    let ghost lt = locale_and_timezone.tree();
    let ghost nr = node_release.tree();
    let ghost nc = node_components.tree();
    let mut node: Vec<(String, Json)> = Vec::new();
    node.push(member("executable_sha256", json_text(node_executable_sha256)));
    node.push(member("version", json_text(node_version)));
    node.push(member("release", node_release));
    node.push(member("components", node_components));
    let ghost ns = node@;
    let node_json = json_object(node);
    let mut runner: Vec<(String, Json)> = Vec::new();
    runner.push(member("identity_kind", json_text("source_only")));
    runner.push(member("source_manifest", source_manifest_json(manifest)));
    runner.push(member("source_manifest_sha256", json_text(manifest_sha256)));
    runner.push(member("built_binary_sha256", Json::Null));
    let ghost rs = runner@;
    let runner_json = json_object(runner);
    let mut codex: Vec<(String, Json)> = Vec::new();
    codex.push(member("invoked", Json::Bool(false)));
    codex.push(member("binary_sha256", Json::Null));
    codex.push(member("version", Json::Null));
    let ghost cs = codex@;
    let codex_json = json_object(codex);
    let mut m: Vec<(String, Json)> = Vec::new();
    m.push(member("schema_version", json_text("aiq.execution-provenance.v1")));
    m.push(member("operating_system", operating_system));
    m.push(member("locale_and_timezone", locale_and_timezone));
    m.push(member("node_runtime", node_json));
    m.push(member("model_toolchain", policy.to_json()));
    m.push(member("evaluator", evaluator_provenance_json(evaluator_sha256)));
    m.push(member("runner", runner_json));
    m.push(member("codex", codex_json));
    let ghost ms = m@;
    let j = json_object(m);
    let ghost want = runtime_provenance_tree(
        os,
        lt,
        node_executable_sha256@,
        node_version@,
        nr,
        nc,
        *policy,
        evaluator_sha256@,
        *manifest,
        manifest_sha256@,
    );
    assert(members_tree(ns) =~= want->Object_0[3].1->Object_0);
    assert(members_tree(rs) =~= want->Object_0[6].1->Object_0);
    assert(members_tree(cs) =~= want->Object_0[7].1->Object_0);
    assert(members_tree(ms) =~= want->Object_0);
    j
}

// ---------------------------------------------------------------------------
// Controlled trees and the runner source manifest
// ---------------------------------------------------------------------------
/// Largest file a seal reads from a controlled tree.
pub const MAX_SEAL_FILE_BYTES: u64 = 268435456;

/// The source inventory, which the runner source manifest must list.
pub const SOURCE_INVENTORY_PATH: &'static str = "benchmarks/corpus-source-inventory-v1.json";

/// Every listed file is within the size bound.
pub open spec fn files_bounded(files: Seq<(String, Vec<u8>)>, max_bytes: u64) -> bool {
    forall|i: int| 0 <= i < files.len() ==> #[trigger] files[i].1@.len() <= max_bytes
}

/// A controlled tree: each listed file's path and the digest of its bytes,
/// in listing order.
pub open spec fn controlled_tree_tree(files: Seq<(String, Vec<u8>)>) -> JsonTree {
    JsonTree::Object(
        seq![
            ("schema_version"@, JsonTree::Text("aiq.controlled-tree.v1"@)),
            (
                "entries"@,
                JsonTree::Array(
                    Seq::new(
                        files.len(),
                        |i: int| path_digest_tree(files[i].0@, digest_text(files[i].1@)),
                    ),
                ),
            ),
        ],
    )
}

/// Addresses a controlled tree, given its files as `(relative path, bytes)`
/// in path order: the digest of the canonical encoding of the tree document
/// that lists each path with the digest of its bytes.
pub fn controlled_tree_digest(files: &Vec<(String, Vec<u8>)>) -> (r: Result<String, String>)
    ensures
        match r {
            Ok(d) => files_bounded(files@, MAX_SEAL_FILE_BYTES) && canonical_digest(
                controlled_tree_tree(files@),
            ) == Some(d@),
            Err(_) => !files_bounded(files@, MAX_SEAL_FILE_BYTES) || canonical_digest(
                controlled_tree_tree(files@),
            ) is None,
        },
{
    let mut entries: Vec<Json> = Vec::new();
    let mut i: usize = 0;
    while i < files.len()
        invariant
            i <= files@.len(),
            entries@.len() == i,
            files_bounded(files@.subrange(0, i as int), MAX_SEAL_FILE_BYTES),
            forall|k: int|
                0 <= k < i ==> #[trigger] entries@[k].tree() == path_digest_tree(
                    files@[k].0@,
                    digest_text(files@[k].1@),
                ),
        decreases files@.len() - i,
    {
        let (path, bytes) = &files[i];
        if bytes.len() as u64 > MAX_SEAL_FILE_BYTES {
            assert(!files_bounded(files@, MAX_SEAL_FILE_BYTES) ) by {
                assert(files@[i as int].1@.len() > MAX_SEAL_FILE_BYTES);
            }
            return Err("input must be a bounded non-symlink regular file".to_owned());
        }
        let digest = digest_bytes(bytes.as_slice());
        let mut members: Vec<(String, Json)> = Vec::new();
        members.push(member("path", json_text(path.as_str())));
        members.push(member("sha256", json_text(digest.as_str())));
        let ghost ms = members@;
        let j = json_object(members);
        assert(members_tree(ms) =~= path_digest_tree(path@, digest@)->Object_0);
        entries.push(j);
        proof {
            assert forall|k: int| 0 <= k < i + 1 implies #[trigger] files@.subrange(
                0,
                i + 1,
            )[k].1@.len() <= MAX_SEAL_FILE_BYTES by {
                if k < i {
                    assert(files@.subrange(0, i + 1)[k] == files@.subrange(0, i as int)[k]);
                }
            }
        }
        i += 1;
    }
    assert(files@.subrange(0, files@.len() as int) =~= files@);
    let ghost es = entries@;
    let entries_json = json_array(entries);
    assert(items_tree(es) =~= controlled_tree_tree(files@)->Object_0[1].1->Array_0);
    let mut members: Vec<(String, Json)> = Vec::new();
    members.push(member("schema_version", json_text("aiq.controlled-tree.v1")));
    members.push(member("entries", entries_json));
    let ghost ms = members@;
    let tree = json_object(members);
    assert(members_tree(ms) =~= controlled_tree_tree(files@)->Object_0);
    match canonical_hash(&tree) {
        Some(d) => Ok(d),
        None => Err("controlled tree cannot be canonicalized".to_owned()),
    }
}

/// The listing names the source inventory.
pub open spec fn lists_inventory(files: Seq<(String, Vec<u8>)>) -> bool {
    exists|i: int| 0 <= i < files.len() && #[trigger] files[i].0@ == SOURCE_INVENTORY_PATH@
}

/// Builds the runner source manifest from its files as `(relative path,
/// bytes)` in path order: the fixed header, and each path with the digest of
/// its bytes. The listing must name the source inventory, and every file must
/// be within the source size bound.
pub fn build_source_manifest(files: &Vec<(String, Vec<u8>)>) -> (r: Result<SourceManifest, String>)
    ensures
        match r {
            Ok(m) => {
                &&& lists_inventory(files@)
                &&& files_bounded(files@, MAX_SOURCE_FILE_BYTES)
                &&& m.schema_version@ == "aiq.runner-source-manifest.v1"@
                &&& m.package@ == "aiq-runner"@
                &&& m.scope@ == "cargo_build_and_test_inputs"@
                &&& m.path_base@ == "repository_root"@
                &&& m.entries@.len() == files@.len()
                &&& forall|i: int|
                    0 <= i < files@.len() ==> (#[trigger] m.entries@[i]).path@ == files@[i].0@
                        && m.entries@[i].sha256@ == digest_text(files@[i].1@)
            },
            Err(_) => !lists_inventory(files@) || !files_bounded(files@, MAX_SOURCE_FILE_BYTES),
        },
{
    let mut found = false;
    let mut i: usize = 0;
    while i < files.len()
        invariant
            i <= files@.len(),
            found ==> lists_inventory(files@),
            !found ==> forall|k: int| 0 <= k < i ==> files@[k].0@ != SOURCE_INVENTORY_PATH@,
        decreases files@.len() - i,
    {
        if text_eq(files[i].0.as_str(), SOURCE_INVENTORY_PATH) {
            found = true;
        }
        i += 1;
    }
    if !found {
        return Err("source inventory must include itself".to_owned());
    }
    let mut entries: Vec<SourceManifestEntry> = Vec::new();
    let mut i: usize = 0;
    while i < files.len()
        invariant
            i <= files@.len(),
            entries@.len() == i,
            files_bounded(files@.subrange(0, i as int), MAX_SOURCE_FILE_BYTES),
            forall|k: int|
                0 <= k < i ==> (#[trigger] entries@[k]).path@ == files@[k].0@ && entries@[k].sha256@
                    == digest_text(files@[k].1@),
        decreases files@.len() - i,
    {
        let (path, bytes) = &files[i];
        if bytes.len() as u64 > MAX_SOURCE_FILE_BYTES {
            assert(files@[i as int].1@.len() > MAX_SOURCE_FILE_BYTES);
            return Err("input must be a bounded non-symlink regular file".to_owned());
        }
        entries.push(SourceManifestEntry { path: path.clone(), sha256: digest_bytes(bytes.as_slice()) });
        proof {
            assert forall|k: int| 0 <= k < i + 1 implies #[trigger] files@.subrange(
                0,
                i + 1,
            )[k].1@.len() <= MAX_SOURCE_FILE_BYTES by {
                if k < i {
                    assert(files@.subrange(0, i + 1)[k] == files@.subrange(0, i as int)[k]);
                }
            }
        }
        i += 1;
    }
    assert(files@.subrange(0, files@.len() as int) =~= files@);
    Ok(
        SourceManifest {
            schema_version: "aiq.runner-source-manifest.v1".to_owned(),
            package: "aiq-runner".to_owned(),
            scope: "cargo_build_and_test_inputs".to_owned(),
            path_base: "repository_root".to_owned(),
            entries,
        },
    )
}

/// Addresses a source manifest by the digest of its canonical encoding.
pub fn source_manifest_sha256(m: &SourceManifest) -> (r: Option<String>)
    ensures
        match r {
            Some(d) => canonical_digest(source_manifest_tree(*m)) == Some(d@),
            None => canonical_digest(source_manifest_tree(*m)) is None,
        },
{
    canonical_hash(&source_manifest_json(m))
}

} // verus!

//! The public-safe task validation report: task-load issues with their
//! sources replaced by a scope and an ordinal, and their messages by fixed
//! public text, so that no controlled path or input text is disclosed.
use vstd::prelude::*;
use vstd::string::*;

use crate::cli::{safe_task_issue_message, task_issue_message};
use crate::release_gate::evaluator::{decimal_string, decimal_text};
use crate::release_gate::paths::{path_key, path_key_of, path_starts_with, key_starts_with, PathKey};
use crate::text::text_eq;

verus! {

/// One issue met while loading task sources.
#[derive(Clone, Debug)]
pub struct TaskLoadIssue {
    /// Where the issue was met: a task file or source path.
    pub source: String,
    /// Stable issue code.
    pub code: String,
    /// Field the issue concerns, where there is one.
    pub field: Option<String>,
}

/// An issue as the public report shows it.
#[derive(Clone, Debug)]
pub struct PublicTaskLoadIssue {
    /// `scope[ordinal]` in place of the source path.
    pub source: String,
    pub code: String,
    pub field: Option<String>,
    /// Fixed public text for the code.
    pub message: String,
}

/// The public-safe validation report.
#[derive(Clone, Debug)]
pub struct ValidationReport {
    pub schema_version: String,
    pub valid: bool,
    pub task_count: usize,
    pub task_ids: Vec<String>,
    pub issues: Vec<PublicTaskLoadIssue>,
}

/// Number of components of a path, the root included.
pub open spec fn component_count(p: Seq<char>) -> int {
    path_key(p).1.len() + if path_key(p).0 {
        1int
    } else {
        0int
    }
}

/// The source lies under the given task root.
pub open spec fn under_root(source: Seq<char>, root: Option<Seq<char>>) -> bool {
    root is Some && path_starts_with(source, root->0)
}

/// The scope a source is reported in: the task root it lies under, the
/// deeper root where it lies under both, and `task_source` otherwise.
pub open spec fn issue_scope(source: Seq<char>, public: Option<Seq<char>>, hidden: Option<Seq<char>>) -> Seq<
    char,
> {
    let in_public = under_root(source, public);
    let in_hidden = under_root(source, hidden);
    if in_public && in_hidden {
        let p = component_count(public->0);
        let h = component_count(hidden->0);
        if p < h {
            "hidden_tasks"@
        } else if p > h {
            "public_tasks"@
        } else {
            "task_source"@
        }
    } else if in_public {
        "public_tasks"@
    } else if in_hidden {
        "hidden_tasks"@
    } else {
        "task_source"@
    }
}

/// Each issue's scope and source.
pub open spec fn issue_keys(
    issues: Seq<TaskLoadIssue>,
    public: Option<Seq<char>>,
    hidden: Option<Seq<char>>,
) -> Seq<(Seq<char>, Seq<char>)> {
    Seq::new(issues.len(), |i: int| (issue_scope(issues[i].source@, public, hidden), issues[i].source@))
}

/// Key `j` occurs at `j` first.
pub open spec fn is_first(keys: Seq<(Seq<char>, Seq<char>)>, j: int) -> bool {
    forall|k: int| 0 <= k < j ==> keys[k] != keys[j]
}

/// The first index at or after `from` holding `x` (the length if none).
pub open spec fn earliest(keys: Seq<(Seq<char>, Seq<char>)>, x: (Seq<char>, Seq<char>), from: int) -> int
    decreases keys.len() - from,
{
    if from < 0 || from >= keys.len() {
        keys.len() as int
    } else if keys[from] == x {
        from
    } else {
        earliest(keys, x, from + 1)
    }
}

/// How many distinct sources of the given scope first occur before `n`.
pub open spec fn firsts_with_scope(keys: Seq<(Seq<char>, Seq<char>)>, scope: Seq<char>, n: int) -> int
    decreases n,
{
    if n <= 0 {
        0
    } else {
        firsts_with_scope(keys, scope, n - 1) + if is_first(keys, n - 1) && keys[n - 1].0 == scope {
            1int
        } else {
            0int
        }
    }
}

/// A source's ordinal within its scope: one more than the number of
/// distinct sources of that scope met before it first occurs.
pub open spec fn issue_ordinal(keys: Seq<(Seq<char>, Seq<char>)>, i: int) -> int {
    firsts_with_scope(keys, keys[i].0, earliest(keys, keys[i], 0)) + 1
}

/// The public name of issue `i`'s source: `scope[ordinal]`.
pub open spec fn public_source(keys: Seq<(Seq<char>, Seq<char>)>, i: int) -> Seq<char> {
    keys[i].0 + "["@ + decimal_text(issue_ordinal(keys, i) as nat) + "]"@
}

/// Indices below `n` where a key first occurs, in order.
pub open spec fn first_indices(keys: Seq<(Seq<char>, Seq<char>)>, n: int) -> Seq<int>
    decreases n,
{
    if n <= 0 {
        Seq::empty()
    } else if is_first(keys, n - 1) {
        first_indices(keys, n - 1).push(n - 1)
    } else {
        first_indices(keys, n - 1)
    }
}

/// How many of the first `n` recorded scopes are `scope`.
pub open spec fn count_scope(scopes: Seq<Seq<char>>, scope: Seq<char>, n: int) -> int
    decreases n,
{
    if n <= 0 {
        0
    } else {
        count_scope(scopes, scope, n - 1) + if scopes[n - 1] == scope {
            1int
        } else {
            0int
        }
    }
}

proof fn lemma_earliest(keys: Seq<(Seq<char>, Seq<char>)>, x: (Seq<char>, Seq<char>), from: int, j: int)
    requires
        0 <= from <= j < keys.len(),
        keys[j] == x,
        forall|k: int| from <= k < j ==> keys[k] != x,
    ensures
        earliest(keys, x, from) == j,
    decreases j - from,
{
    if from < j {
        lemma_earliest(keys, x, from + 1, j);
    }
}

proof fn lemma_first_indices(keys: Seq<(Seq<char>, Seq<char>)>, n: int)
    requires
        0 <= n <= keys.len(),
    ensures
        first_indices(keys, n).len() <= n,
        forall|m: int|
            0 <= m < first_indices(keys, n).len() ==> 0 <= #[trigger] first_indices(keys, n)[m] < n
                && is_first(keys, first_indices(keys, n)[m]),
    decreases n,
{
    if n > 0 {
        lemma_first_indices(keys, n - 1);
        let prev = first_indices(keys, n - 1);
        if is_first(keys, n - 1) {
            assert(first_indices(keys, n) == prev.push(n - 1));
        } else {
            assert(first_indices(keys, n) == prev);
        }
    }
}

/// Each recorded entry describes the key that first occurs at the
/// corresponding first index: its scope, its source and its ordinal.
#[verifier::opaque]
pub open spec fn recorded_entries(
    keys: Seq<(Seq<char>, Seq<char>)>,
    n: int,
    scopes: Seq<Seq<char>>,
    sources: Seq<Seq<char>>,
    ordinals: Seq<int>,
) -> bool {
    let fi = first_indices(keys, n);
    forall|m: int|
        0 <= m < fi.len() ==> {
            &&& #[trigger] scopes[m] == keys[fi[m]].0
            &&& sources[m] == keys[fi[m]].1
            &&& ordinals[m] == issue_ordinal(keys, fi[m])
        }
}

/// Every key among the first `n` has been recorded.
#[verifier::opaque]
pub open spec fn recorded_covers(
    keys: Seq<(Seq<char>, Seq<char>)>,
    n: int,
    scopes: Seq<Seq<char>>,
    sources: Seq<Seq<char>>,
) -> bool {
    forall|k: int|
        0 <= k < n ==> exists|m: int|
            0 <= m < scopes.len() && (scopes[m], sources[m]) == #[trigger] keys[k]
}

/// The recorded scopes count the distinct sources of each scope.
#[verifier::opaque]
pub open spec fn recorded_counts(keys: Seq<(Seq<char>, Seq<char>)>, n: int, scopes: Seq<Seq<char>>) -> bool {
    forall|s: Seq<char>|
        #[trigger] firsts_with_scope(keys, s, n) == count_scope(scopes, s, scopes.len() as int)
}

/// What the pass over the first `n` issues has recorded: for each distinct
/// key met so far, in order of first occurrence, its scope, its source and
/// its ordinal.
pub open spec fn recorded(
    keys: Seq<(Seq<char>, Seq<char>)>,
    n: int,
    scopes: Seq<Seq<char>>,
    sources: Seq<Seq<char>>,
    ordinals: Seq<int>,
) -> bool {
    &&& scopes.len() == first_indices(keys, n).len()
    &&& sources.len() == scopes.len()
    &&& ordinals.len() == scopes.len()
    &&& recorded_entries(keys, n, scopes, sources, ordinals)
    &&& recorded_covers(keys, n, scopes, sources)
    &&& recorded_counts(keys, n, scopes)
}

proof fn lemma_recorded_start(keys: Seq<(Seq<char>, Seq<char>)>)
    ensures
        recorded(keys, 0, Seq::empty(), Seq::empty(), Seq::empty()),
{
    reveal(recorded_entries);
    reveal(recorded_covers);
    reveal(recorded_counts);
}

proof fn lemma_new_is_first(
    keys: Seq<(Seq<char>, Seq<char>)>,
    i: int,
    scopes: Seq<Seq<char>>,
    sources: Seq<Seq<char>>,
)
    requires
        0 <= i < keys.len(),
        sources.len() == scopes.len(),
        recorded_covers(keys, i, scopes, sources),
        forall|m: int| 0 <= m < scopes.len() ==> (scopes[m], sources[m]) != keys[i],
    ensures
        is_first(keys, i),
        earliest(keys, keys[i], 0) == i,
{
    reveal(recorded_covers);
    assert forall|k: int| 0 <= k < i implies keys[k] != keys[i] by {
        let w = choose|w: int| 0 <= w < scopes.len() && (scopes[w], sources[w]) == keys[k];
    }
    lemma_earliest(keys, keys[i], 0, i);
}

proof fn lemma_new_counts(keys: Seq<(Seq<char>, Seq<char>)>, i: int, scopes: Seq<Seq<char>>)
    requires
        0 <= i < keys.len(),
        is_first(keys, i),
        recorded_counts(keys, i, scopes),
    ensures
        recorded_counts(keys, i + 1, scopes.push(keys[i].0)),
        count_scope(scopes, keys[i].0, scopes.len() as int) == firsts_with_scope(keys, keys[i].0, i),
{
    reveal(recorded_counts);
    let sc2 = scopes.push(keys[i].0);
    assert(sc2.subrange(0, scopes.len() as int) =~= scopes);
    assert forall|s: Seq<char>|
        #[trigger] firsts_with_scope(keys, s, i + 1) == count_scope(sc2, s, sc2.len() as int) by {
        lemma_count_scope_prefix(sc2, scopes, s, scopes.len() as int);
        assert(firsts_with_scope(keys, s, i) == count_scope(scopes, s, scopes.len() as int));
    }
    assert(firsts_with_scope(keys, keys[i].0, i) == count_scope(scopes, keys[i].0, scopes.len() as int));
}

proof fn lemma_new_covers(
    keys: Seq<(Seq<char>, Seq<char>)>,
    i: int,
    scopes: Seq<Seq<char>>,
    sources: Seq<Seq<char>>,
)
    requires
        0 <= i < keys.len(),
        sources.len() == scopes.len(),
        recorded_covers(keys, i, scopes, sources),
    ensures
        recorded_covers(keys, i + 1, scopes.push(keys[i].0), sources.push(keys[i].1)),
{
    reveal(recorded_covers);
    let sc2 = scopes.push(keys[i].0);
    let so2 = sources.push(keys[i].1);
    assert forall|k: int| 0 <= k < i + 1 implies exists|m: int|
        0 <= m < sc2.len() && (sc2[m], so2[m]) == #[trigger] keys[k] by {
        if k == i {
            assert((sc2[scopes.len() as int], so2[scopes.len() as int]) == keys[k]);
        } else {
            let w = choose|w: int| 0 <= w < scopes.len() && (scopes[w], sources[w]) == keys[k];
            assert((sc2[w], so2[w]) == keys[k]);
        }
    }
}

proof fn lemma_new_entries(
    keys: Seq<(Seq<char>, Seq<char>)>,
    i: int,
    scopes: Seq<Seq<char>>,
    sources: Seq<Seq<char>>,
    ordinals: Seq<int>,
)
    requires
        0 <= i < keys.len(),
        is_first(keys, i),
        scopes.len() == first_indices(keys, i).len(),
        sources.len() == scopes.len(),
        ordinals.len() == scopes.len(),
        recorded_entries(keys, i, scopes, sources, ordinals),
    ensures
        first_indices(keys, i + 1) == first_indices(keys, i).push(i),
        recorded_entries(
            keys,
            i + 1,
            scopes.push(keys[i].0),
            sources.push(keys[i].1),
            ordinals.push(issue_ordinal(keys, i)),
        ),
{
    reveal(recorded_entries);
    lemma_first_indices(keys, i);
    let fi = first_indices(keys, i);
    let next = first_indices(keys, i + 1);
    assert(next == fi.push(i));
    let sc2 = scopes.push(keys[i].0);
    let so2 = sources.push(keys[i].1);
    let or2 = ordinals.push(issue_ordinal(keys, i));
    assert forall|m: int| 0 <= m < next.len() implies {
        &&& #[trigger] sc2[m] == keys[next[m]].0
        &&& so2[m] == keys[next[m]].1
        &&& or2[m] == issue_ordinal(keys, next[m])
    } by {
        if m < fi.len() {
            assert(next[m] == fi[m]);
            assert(scopes[m] == keys[fi[m]].0);
        }
    }
}

proof fn lemma_recorded_new(
    keys: Seq<(Seq<char>, Seq<char>)>,
    i: int,
    scopes: Seq<Seq<char>>,
    sources: Seq<Seq<char>>,
    ordinals: Seq<int>,
)
    requires
        0 <= i < keys.len(),
        recorded(keys, i, scopes, sources, ordinals),
        forall|m: int| 0 <= m < scopes.len() ==> (scopes[m], sources[m]) != keys[i],
    ensures
        issue_ordinal(keys, i) == count_scope(scopes, keys[i].0, scopes.len() as int) + 1,
        recorded(
            keys,
            i + 1,
            scopes.push(keys[i].0),
            sources.push(keys[i].1),
            ordinals.push(issue_ordinal(keys, i)),
        ),
{
    lemma_new_is_first(keys, i, scopes, sources);
    lemma_new_counts(keys, i, scopes);
    lemma_new_covers(keys, i, scopes, sources);
    lemma_new_entries(keys, i, scopes, sources, ordinals);
}

proof fn lemma_recorded_seen(
    keys: Seq<(Seq<char>, Seq<char>)>,
    i: int,
    scopes: Seq<Seq<char>>,
    sources: Seq<Seq<char>>,
    ordinals: Seq<int>,
    x: int,
)
    requires
        0 <= i < keys.len(),
        recorded(keys, i, scopes, sources, ordinals),
        0 <= x < scopes.len(),
        (scopes[x], sources[x]) == keys[i],
    ensures
        issue_ordinal(keys, i) == ordinals[x],
        recorded(keys, i + 1, scopes, sources, ordinals),
{
    lemma_first_indices(keys, i);
    let fi = first_indices(keys, i);
    let f = fi[x];
    assert(scopes[x] == keys[f].0 && sources[x] == keys[f].1 && ordinals[x] == issue_ordinal(keys, f)) by {
        reveal(recorded_entries);
    }
    assert(keys[f] == keys[i]);
    assert(0 <= f < i && is_first(keys, f));
    assert forall|k: int| 0 <= k < f implies keys[k] != keys[i] by {
        assert(keys[k] != keys[f]);
    }
    lemma_earliest(keys, keys[i], 0, f);
    assert(!is_first(keys, i)) by {
        assert(keys[f] == keys[i]);
    }
    assert(first_indices(keys, i + 1) == fi);
    assert(recorded_entries(keys, i + 1, scopes, sources, ordinals)) by {
        reveal(recorded_entries);
    }
    assert(recorded_counts(keys, i + 1, scopes)) by {
        reveal(recorded_counts);
        assert forall|s: Seq<char>|
            #[trigger] firsts_with_scope(keys, s, i + 1) == count_scope(scopes, s, scopes.len() as int) by {
            assert(firsts_with_scope(keys, s, i) == count_scope(scopes, s, scopes.len() as int));
        }
    }
    assert(recorded_covers(keys, i + 1, scopes, sources)) by {
        reveal(recorded_covers);
        assert forall|k: int| 0 <= k < i + 1 implies exists|m: int|
            0 <= m < scopes.len() && (scopes[m], sources[m]) == #[trigger] keys[k] by {
            if k == i {
                assert((scopes[x], sources[x]) == keys[k]);
            }
        }
    }
}

fn component_count_parts(k: &PathKey) -> (r: (usize, bool))
    ensures
        r.0 == k.parts@.len(),
        r.1 == k.rooted,
{
    (k.parts.len(), k.rooted)
}

/// Whether the first root has fewer components than the second.
fn fewer_components(a: &str, b: &str) -> (r: bool)
    ensures
        r == (component_count(a@) < component_count(b@)),
{
    let ka = path_key_of(a);
    let kb = path_key_of(b);
    let (pa, ra) = component_count_parts(&ka);
    let (pb, rb) = component_count_parts(&kb);
    proof {
        assert(ka.parts.deep_view().len() == ka.parts@.len());
        assert(kb.parts.deep_view().len() == kb.parts@.len());
    }
    if ra == rb {
        pa < pb
    } else if ra {
        pb > 0 && pa < pb - 1
    } else {
        pa <= pb
    }
}

fn under_root_of(source: &str, root: Option<&str>) -> (r: bool)
    ensures
        r == under_root(source@, opt_text(root)),
{
    match root {
        Some(p) => {
            let ks = path_key_of(source);
            let kr = path_key_of(p);
            proof {
                assert(ks.parts.deep_view().len() == ks.parts@.len());
                assert(kr.parts.deep_view().len() == kr.parts@.len());
            }
            key_starts_with(&ks, &kr)
        },
        None => false,
    }
}

/// The text of an optional root.
pub open spec fn opt_text(o: Option<&str>) -> Option<Seq<char>> {
    match o {
        Some(s) => Some(s@),
        None => None,
    }
}

fn issue_scope_of(source: &str, public: Option<&str>, hidden: Option<&str>) -> (r: &'static str)
    ensures
        r@ == issue_scope(source@, opt_text(public), opt_text(hidden)),
{
    let in_public = under_root_of(source, public);
    let in_hidden = under_root_of(source, hidden);
    if in_public && in_hidden {
        let (p, h) = match (public, hidden) {
            (Some(p), Some(h)) => (p, h),
            _ => {
                return "task_source";
            },
        };
        if fewer_components(p, h) {
            "hidden_tasks"
        } else if fewer_components(h, p) {
            "public_tasks"
        } else {
            "task_source"
        }
    } else if in_public {
        "public_tasks"
    } else if in_hidden {
        "hidden_tasks"
    } else {
        "task_source"
    }
}

/// Replaces each issue's source by `scope[ordinal]` and its message by the
/// fixed public text for its code.
pub fn public_safe_issues(
    issues: &Vec<TaskLoadIssue>,
    public_tasks: Option<&str>,
    hidden_tasks: Option<&str>,
) -> (r: Vec<PublicTaskLoadIssue>)
    ensures
        r@.len() == issues@.len(),
        forall|i: int|
            0 <= i < r@.len() ==> {
                &&& (#[trigger] r@[i]).source@ == public_source(
                    issue_keys(issues@, opt_text(public_tasks), opt_text(hidden_tasks)),
                    i,
                )
                &&& r@[i].code@ == issues@[i].code@
                &&& r@[i].field == issues@[i].field
                &&& r@[i].message@ == task_issue_message(issues@[i].code@)
            },
{
    let ghost keys = issue_keys(issues@, opt_text(public_tasks), opt_text(hidden_tasks));
    let mut seen_scopes: Vec<&'static str> = Vec::new();
    let mut seen_sources: Vec<&str> = Vec::new();
    let mut seen_ordinals: Vec<usize> = Vec::new();
    let ghost mut g_scopes: Seq<Seq<char>> = Seq::empty();
    let ghost mut g_sources: Seq<Seq<char>> = Seq::empty();
    let ghost mut g_ordinals: Seq<int> = Seq::empty();
    let mut out: Vec<PublicTaskLoadIssue> = Vec::new();
    proof {
        lemma_recorded_start(keys);
    }
    let mut i: usize = 0;
    while i < issues.len()
        invariant
            i <= issues@.len(),
            keys == issue_keys(issues@, opt_text(public_tasks), opt_text(hidden_tasks)),
            keys.len() == issues@.len(),
            recorded(keys, i as int, g_scopes, g_sources, g_ordinals),
            g_sources.len() == g_scopes.len(),
            g_ordinals.len() == g_scopes.len(),
            seen_scopes@.len() == g_scopes.len(),
            seen_sources@.len() == g_scopes.len(),
            seen_ordinals@.len() == g_scopes.len(),
            forall|m: int| 0 <= m < g_scopes.len() ==> (#[trigger] seen_scopes@[m])@ == g_scopes[m],
            forall|m: int| 0 <= m < g_scopes.len() ==> (#[trigger] seen_sources@[m])@ == g_sources[m],
            forall|m: int| 0 <= m < g_scopes.len() ==> #[trigger] seen_ordinals@[m] == g_ordinals[m],
            out@.len() == i,
            forall|k: int|
                0 <= k < i ==> {
                    &&& (#[trigger] out@[k]).source@ == public_source(keys, k)
                    &&& out@[k].code@ == issues@[k].code@
                    &&& out@[k].field == issues@[k].field
                    &&& out@[k].message@ == task_issue_message(issues@[k].code@)
                },
        decreases issues@.len() - i,
    {
        proof {
            lemma_first_indices(keys, i as int);
        }
        let issue = &issues[i];
        let scope = issue_scope_of(issue.source.as_str(), public_tasks, hidden_tasks);
        assert(keys[i as int] == (scope@, issue.source@));
        let mut found: Option<usize> = None;
        let mut count: usize = 0;
        let mut m: usize = 0;
        while m < seen_scopes.len()
            invariant
                m <= seen_scopes@.len(),
                seen_scopes@.len() == g_scopes.len(),
                g_sources.len() == g_scopes.len(),
                seen_sources@.len() == g_scopes.len(),
                forall|q: int| 0 <= q < g_scopes.len() ==> (#[trigger] seen_scopes@[q])@ == g_scopes[q],
                forall|q: int| 0 <= q < g_scopes.len() ==> (#[trigger] seen_sources@[q])@ == g_sources[q],
                count <= m,
                count == count_scope(g_scopes, scope@, m as int),
                match found {
                    Some(x) => x < g_scopes.len() && (g_scopes[x as int], g_sources[x as int]) == (
                        scope@,
                        issue.source@,
                    ),
                    None => forall|q: int|
                        0 <= q < m ==> (g_scopes[q], g_sources[q]) != (scope@, issue.source@),
                },
            decreases seen_scopes@.len() - m,
        {
            let same_scope = text_eq(seen_scopes[m], scope);
            if same_scope {
                count += 1;
            }
            if found.is_none() && same_scope && text_eq(seen_sources[m], issue.source.as_str()) {
                found = Some(m);
            }
            m += 1;
        }
        let ordinal: usize = match found {
            Some(x) => {
                proof {
                    lemma_recorded_seen(keys, i as int, g_scopes, g_sources, g_ordinals, x as int);
                }
                seen_ordinals[x]
            },
            None => {
                proof {
                    lemma_recorded_new(keys, i as int, g_scopes, g_sources, g_ordinals);
                }
                count + 1
            },
        };
        let mut source = scope.to_owned();
        proof {
            reveal_strlit("[");
            reveal_strlit("]");
        }
        source.append("[");
        let digits = decimal_string(ordinal as u64);
        source.append(digits.as_str());
        source.append("]");
        assert(ordinal as int == issue_ordinal(keys, i as int));
        assert(source@ == public_source(keys, i as int));
        out.push(
            PublicTaskLoadIssue {
                source,
                code: issue.code.clone(),
                field: issue.field.clone(),
                message: safe_task_issue_message(issue.code.as_str()).to_owned(),
            },
        );
        if found.is_none() {
            seen_scopes.push(scope);
            seen_sources.push(issue.source.as_str());
            seen_ordinals.push(ordinal);
            proof {
                g_scopes = g_scopes.push(scope@);
                g_sources = g_sources.push(issue.source@);
                g_ordinals = g_ordinals.push(ordinal as int);
            }
        }
        i += 1;
    }
    out
}

proof fn lemma_count_scope_prefix(longer: Seq<Seq<char>>, shorter: Seq<Seq<char>>, s: Seq<char>, n: int)
    requires
        0 <= n <= shorter.len(),
        shorter.len() <= longer.len(),
        longer.subrange(0, shorter.len() as int) == shorter,
    ensures
        count_scope(longer, s, n) == count_scope(shorter, s, n),
    decreases n,
{
    if n > 0 {
        lemma_count_scope_prefix(longer, shorter, s, n - 1);
        assert(longer[n - 1] == shorter[n - 1]) by {
            assert(longer.subrange(0, shorter.len() as int)[n - 1] == longer[n - 1]);
        }
    }
}

/// Builds the public-safe validation report of a task load.
pub fn validation_report(
    task_ids: &Vec<String>,
    issues: &Vec<TaskLoadIssue>,
    public_tasks: Option<&str>,
    hidden_tasks: Option<&str>,
) -> (r: ValidationReport)
    ensures
        r.schema_version@ == "aiq.validation.v2"@,
        r.valid <==> issues@.len() == 0,
        r.task_count == task_ids@.len(),
        r.task_ids.deep_view() == task_ids.deep_view(),
        r.issues@.len() == issues@.len(),
        forall|i: int|
            0 <= i < r.issues@.len() ==> {
                &&& (#[trigger] r.issues@[i]).source@ == public_source(
                    issue_keys(issues@, opt_text(public_tasks), opt_text(hidden_tasks)),
                    i,
                )
                &&& r.issues@[i].code@ == issues@[i].code@
                &&& r.issues@[i].field == issues@[i].field
                &&& r.issues@[i].message@ == task_issue_message(issues@[i].code@)
            },
{
    ValidationReport {
        schema_version: "aiq.validation.v2".to_owned(),
        valid: issues.len() == 0,
        task_count: task_ids.len(),
        task_ids: crate::text::clone_strings(task_ids),
        issues: public_safe_issues(issues, public_tasks, hidden_tasks),
    }
}

// ---------------------------------------------------------------------------
// Laws
// ---------------------------------------------------------------------------
proof fn lemma_decimal_nonempty(n: nat)
    ensures
        decimal_text(n).len() >= 1,
    decreases n,
{
    if n >= 10 {
        lemma_decimal_nonempty(n / 10);
    }
}

proof fn lemma_decimal_injective(n: nat, m: nat)
    requires
        decimal_text(n) == decimal_text(m),
    ensures
        n == m,
    decreases n,
{
    if n < 10 && m < 10 {
        let cn = decimal_text(n)[0];
        let cm = decimal_text(m)[0];
        assert(cn == (48 + n) as char);
        assert(cm == (48 + m) as char);
        assert(cn as int == 48 + n);
        assert(cm as int == 48 + m);
        assert(cn == cm);
    } else if n < 10 {
        lemma_decimal_nonempty(m / 10);
        assert(decimal_text(m).len() >= 2);
    } else if m < 10 {
        lemma_decimal_nonempty(n / 10);
        assert(decimal_text(n).len() >= 2);
    } else {
        let a = decimal_text(n / 10);
        let b = decimal_text(m / 10);
        assert(decimal_text(n) == a.push((48 + n % 10) as char));
        assert(decimal_text(m) == b.push((48 + m % 10) as char));
        assert(a == decimal_text(n).drop_last());
        assert(b == decimal_text(m).drop_last());
        lemma_decimal_injective(n / 10, m / 10);
        let cn = decimal_text(n).last();
        let cm = decimal_text(m).last();
        assert(cn == (48 + n % 10) as char);
        assert(cm == (48 + m % 10) as char);
        assert(cn as int == 48 + n % 10);
        assert(cm as int == 48 + m % 10);
        assert(cn == cm);
        assert(n % 10 == m % 10);
        assert(n == 10 * (n / 10) + n % 10) by (nonlinear_arith);
        assert(m == 10 * (m / 10) + m % 10) by (nonlinear_arith);
    }
}

proof fn lemma_earliest_first(keys: Seq<(Seq<char>, Seq<char>)>, x: (Seq<char>, Seq<char>), from: int, j: int)
    requires
        0 <= from <= j < keys.len(),
        keys[j] == x,
    ensures
        from <= earliest(keys, x, from) <= j,
        keys[earliest(keys, x, from)] == x,
        forall|k: int| from <= k < earliest(keys, x, from) ==> keys[k] != x,
    decreases j - from,
{
    if keys[from] != x {
        lemma_earliest_first(keys, x, from + 1, j);
    }
}

proof fn lemma_firsts_monotone(keys: Seq<(Seq<char>, Seq<char>)>, s: Seq<char>, a: int, b: int)
    requires
        0 <= a <= b,
    ensures
        firsts_with_scope(keys, s, a) <= firsts_with_scope(keys, s, b),
    decreases b - a,
{
    if a < b {
        lemma_firsts_monotone(keys, s, a, b - 1);
    }
}

proof fn lemma_ordinals_distinct(keys: Seq<(Seq<char>, Seq<char>)>, i: int, j: int)
    requires
        0 <= i < keys.len(),
        0 <= j < keys.len(),
        keys[i].0 == keys[j].0,
        keys[i] != keys[j],
    ensures
        issue_ordinal(keys, i) != issue_ordinal(keys, j),
{
    lemma_earliest_first(keys, keys[i], 0, i);
    lemma_earliest_first(keys, keys[j], 0, j);
    let fi = earliest(keys, keys[i], 0);
    let fj = earliest(keys, keys[j], 0);
    let s = keys[i].0;
    assert(is_first(keys, fi));
    assert(is_first(keys, fj));
    if fi < fj {
        lemma_firsts_monotone(keys, s, fi + 1, fj);
        assert(firsts_with_scope(keys, s, fi + 1) == firsts_with_scope(keys, s, fi) + 1);
    } else {
        assert(fi != fj);
        lemma_firsts_monotone(keys, s, fj + 1, fi);
        assert(firsts_with_scope(keys, s, fj + 1) == firsts_with_scope(keys, s, fj) + 1);
    }
}

proof fn lemma_scope_first_char(source: Seq<char>, public: Option<Seq<char>>, hidden: Option<Seq<char>>)
    ensures
        issue_scope(source, public, hidden).len() > 0,
        issue_scope(source, public, hidden)[0] == 'p' <==> issue_scope(source, public, hidden)
            == "public_tasks"@,
        issue_scope(source, public, hidden)[0] == 'h' <==> issue_scope(source, public, hidden)
            == "hidden_tasks"@,
        issue_scope(source, public, hidden)[0] == 't' <==> issue_scope(source, public, hidden)
            == "task_source"@,
{
    reveal_strlit("public_tasks");
    reveal_strlit("hidden_tasks");
    reveal_strlit("task_source");
}

/// Two issues of the public report carry the same public source name
/// exactly when they were met in the same source: the name discloses no
/// path, yet tells sources apart and groups repeated issues of one source.
pub proof fn law_public_sources_identify_sources(
    issues: Seq<TaskLoadIssue>,
    public: Option<Seq<char>>,
    hidden: Option<Seq<char>>,
    i: int,
    j: int,
)
    requires
        0 <= i < issues.len(),
        0 <= j < issues.len(),
    ensures
        public_source(issue_keys(issues, public, hidden), i) == public_source(
            issue_keys(issues, public, hidden),
            j,
        ) <==> issues[i].source@ == issues[j].source@,
{
    let keys = issue_keys(issues, public, hidden);
    let pi = public_source(keys, i);
    let pj = public_source(keys, j);
    let si = keys[i].0;
    let sj = keys[j].0;
    reveal_strlit("[");
    reveal_strlit("]");
    if issues[i].source@ == issues[j].source@ {
        assert(keys[i] == keys[j]);
    } else {
        assert(keys[i] != keys[j]);
        lemma_scope_first_char(issues[i].source@, public, hidden);
        lemma_scope_first_char(issues[j].source@, public, hidden);
        if si != sj {
            assert(pi[0] == si[0]);
            assert(pj[0] == sj[0]);
            assert(pi[0] != pj[0]);
        } else {
            lemma_ordinals_distinct(keys, i, j);
            let oi = issue_ordinal(keys, i);
            let oj = issue_ordinal(keys, j);
            assert(oi >= 1 && oj >= 1) by {
                assert(firsts_with_scope(keys, si, earliest(keys, keys[i], 0)) >= 0) by {
                    lemma_earliest_first(keys, keys[i], 0, i);
                    lemma_firsts_monotone(keys, si, 0, earliest(keys, keys[i], 0));
                }
                assert(firsts_with_scope(keys, sj, earliest(keys, keys[j], 0)) >= 0) by {
                    lemma_earliest_first(keys, keys[j], 0, j);
                    lemma_firsts_monotone(keys, sj, 0, earliest(keys, keys[j], 0));
                }
            }
            let di = decimal_text(oi as nat);
            let dj = decimal_text(oj as nat);
            if pi == pj {
                let l: int = si.len() as int + 1;
                assert(pi.len() == l + di.len() + 1);
                assert(pj.len() == l + dj.len() + 1);
                assert(di =~= pi.subrange(l, l + di.len() as int));
                assert(dj =~= pj.subrange(l, l + dj.len() as int));
                lemma_decimal_injective(oi as nat, oj as nat);
            }
        }
    }
}

} // verus!

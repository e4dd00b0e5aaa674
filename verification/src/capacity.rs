//! Deterministic direct capacity figures for one benchmark run.
use vstd::prelude::*;

use crate::digest::{
    canonical_digest, canonical_hash, items_tree, json_array, json_object, json_optional_number,
    json_text, member, members_tree, optional_number_tree, Json, JsonTree,
};
use crate::model::{
    effort_name_of, effort_text, family_name_of, family_text, in_matrix, matrix_index,
    matrix_index_of, ModelConfig,
};
use crate::release_gate::{is_valid_digest, valid_digest};

verus! {

/// Direct capacity estimate schema version.
pub const CAPACITY_ADMISSION_SCHEMA_VERSION: &'static str = "aiq.capacity-admission.v2";

/// Largest accepted operator-selected worker count.
pub const MAX_RUN_JOBS: usize = 64;

/// Shared-runtime permits for external evaluators.
pub const MAX_PARALLEL_EXTERNAL_EVALUATORS: usize = 4;

/// Smallest local orchestration and finalization reserve, in seconds.
pub const MINIMUM_ORCHESTRATION_RESERVE_SECONDS: u64 = 900;

/// What capacity planning reads of one task definition.
#[derive(Clone, Copy, Debug)]
pub struct CapacityTask {
    /// Declared wall budget of one model run, or `None` for unbounded execution.
    pub wall_seconds: Option<u64>,
    /// Deadline of the task's external evaluator, where it has one.
    pub external_evaluator_timeout_ms: Option<u64>,
}

/// Deterministic capacity data for one selected run.
#[derive(Clone, Debug)]
pub struct CapacityAdmission {
    /// Capacity estimate schema version.
    pub schema_version: String,
    /// Digest of the active capability report.
    pub capability_validation_digest: String,
    /// Ordered actively available model configurations.
    pub available_models: Vec<ModelConfig>,
    /// Ordered actively observed-unsupported model configurations.
    pub observed_unsupported_models: Vec<ModelConfig>,
    /// Operator-selected worker count.
    pub configured_jobs: usize,
    /// Workers that can execute actively available cells.
    pub effective_jobs: usize,
    /// Number of selected task and model cells.
    pub selected_cells: usize,
    /// Number of selected cells that invoke an available model.
    pub runnable_cell_count: usize,
    /// Sum of declared wall budgets for available cells, or `None` for unbounded execution.
    pub declared_wall_budget_sum_seconds: Option<u64>,
    /// Maximum declared wall budget for one available cell, or `None` for unbounded execution.
    pub maximum_cell_wall_budget_seconds: Option<u64>,
    /// Conservative list-scheduling bound for model execution, or `None` when it is unbounded.
    pub model_execution_bound_seconds: Option<u64>,
    /// Sum of external evaluator deadlines for every runnable cell.
    pub declared_evaluator_budget_sum_ms: u64,
    /// Shared-runtime evaluator permits available to this run.
    pub effective_evaluator_jobs: usize,
    /// Conservative bound for the bounded evaluator pool.
    pub evaluator_bound_seconds: u64,
    /// Explicit local orchestration and artifact finalization reserve.
    pub orchestration_reserve_seconds: u64,
    /// Exact interval from this slot to the next configured slot.
    pub seconds_until_next_slot: u64,
    /// End-to-end bound, or `None` because some selected model execution is unbounded.
    pub conservative_bound_seconds: Option<u64>,
}

/// Immutable checkpoint and provenance binding for direct capacity data.
#[derive(Clone, Debug)]
pub struct CapacityCommitment {
    /// Digest of the active capability report.
    pub capability_validation_digest: String,
    /// Number of selected cells that invoke an available model.
    pub runnable_cell_count: usize,
    /// Canonical capacity estimate content address.
    pub admission_digest: String,
    /// Operator-selected worker count.
    pub configured_jobs: usize,
    /// Workers that can execute actively available cells.
    pub effective_jobs: usize,
    /// Exact interval to the next configured slot.
    pub seconds_until_next_slot: u64,
    /// Deterministic conservative estimate, or `None` for unbounded model execution.
    pub conservative_bound_seconds: Option<u64>,
}

/// Capacity arithmetic or input failure.
#[derive(Clone, Debug)]
pub struct CapacityError {
    message: String,
}

/// Failure of an estimate that has no canonical encoding.
pub const CAPACITY_UNHASHABLE: &'static str = "capacity estimate cannot be canonically hashed";

impl View for CapacityError {
    type V = Seq<char>;

    closed spec fn view(&self) -> Seq<char> {
        self.message@
    }
}

impl CapacityError {
    /// A failure with the given text.
    pub fn new(message: &str) -> (e: Self)
        ensures
            e@ == message@,
    {
        CapacityError { message: message.to_owned() }
    }

    /// The failure text.
    pub fn message(&self) -> (m: String)
        ensures
            m@ == self@,
    {
        self.message.clone()
    }
}

// ---------------------------------------------------------------------------
// The model
// ---------------------------------------------------------------------------
pub open spec fn u64_limit() -> int {
    18446744073709551615
}

pub open spec fn min_int(a: int, b: int) -> int {
    if a <= b {
        a
    } else {
        b
    }
}

pub open spec fn opt_int(o: Option<u64>) -> Option<int> {
    match o {
        Some(v) => Some(v as int),
        None => None,
    }
}

/// The available and the observed-unsupported configurations split the
/// matrix: each lists matrix configurations in matrix order, no
/// configuration is in both, and together they hold all seventeen.
pub open spec fn valid_support_partition(available: Seq<ModelConfig>, unsupported: Seq<ModelConfig>) -> bool {
    &&& available.len() + unsupported.len() == 17
    &&& forall|i: int| 0 <= i < available.len() ==> in_matrix(#[trigger] available[i])
    &&& forall|i: int| 0 <= i < unsupported.len() ==> in_matrix(#[trigger] unsupported[i])
    &&& forall|i: int, j: int|
        0 <= i < j < available.len() ==> matrix_index(#[trigger] available[i]) < matrix_index(
            #[trigger] available[j],
        )
    &&& forall|i: int, j: int|
        0 <= i < j < unsupported.len() ==> matrix_index(#[trigger] unsupported[i])
            < matrix_index(#[trigger] unsupported[j])
    &&& forall|i: int, j: int|
        0 <= i < available.len() && 0 <= j < unsupported.len() ==> #[trigger] available[i]
            != #[trigger] unsupported[j]
}

/// How many of the first `n` selected configurations are available.
pub open spec fn active_count(selected: Seq<ModelConfig>, available: Seq<ModelConfig>, n: int) -> int
    decreases n,
{
    if n <= 0 {
        0
    } else {
        active_count(selected, available, n - 1) + if available.contains(selected[n - 1]) {
            1int
        } else {
            0int
        }
    }
}

pub open spec fn wall_of(t: CapacityTask) -> int {
    match t.wall_seconds {
        Some(w) => w as int,
        None => 0,
    }
}

pub open spec fn timeout_of(t: CapacityTask) -> int {
    match t.external_evaluator_timeout_ms {
        Some(w) => w as int,
        None => 0,
    }
}

/// Every task declares a wall budget.
pub open spec fn walls_declared(tasks: Seq<CapacityTask>) -> bool {
    forall|i: int| 0 <= i < tasks.len() ==> (#[trigger] tasks[i]).wall_seconds is Some
}

pub open spec fn wall_sum(tasks: Seq<CapacityTask>, n: int) -> int
    decreases n,
{
    if n <= 0 {
        0
    } else {
        wall_sum(tasks, n - 1) + wall_of(tasks[n - 1])
    }
}

pub open spec fn wall_max(tasks: Seq<CapacityTask>, n: int) -> int
    decreases n,
{
    if n <= 0 {
        0
    } else {
        let m = wall_max(tasks, n - 1);
        if wall_of(tasks[n - 1]) > m {
            wall_of(tasks[n - 1])
        } else {
            m
        }
    }
}

pub open spec fn timeout_sum(tasks: Seq<CapacityTask>, n: int) -> int
    decreases n,
{
    if n <= 0 {
        0
    } else {
        timeout_sum(tasks, n - 1) + timeout_of(tasks[n - 1])
    }
}

pub open spec fn timeout_max(tasks: Seq<CapacityTask>, n: int) -> int
    decreases n,
{
    if n <= 0 {
        0
    } else {
        let m = timeout_max(tasks, n - 1);
        if timeout_of(tasks[n - 1]) > m {
            timeout_of(tasks[n - 1])
        } else {
            m
        }
    }
}

/// How many of the first `n` tasks have an external evaluator.
pub open spec fn external_count(tasks: Seq<CapacityTask>, n: int) -> int
    decreases n,
{
    if n <= 0 {
        0
    } else {
        external_count(tasks, n - 1) + if tasks[n - 1].external_evaluator_timeout_ms is Some {
            1int
        } else {
            0int
        }
    }
}

/// Declared wall-budget sum over runnable cells: `0` with no runnable cell,
/// `None` when some task is unbounded.
pub open spec fn wall_sum_figure(tasks: Seq<CapacityTask>, active: int, runnable: int) -> Option<int> {
    if runnable == 0 {
        Some(0)
    } else if !walls_declared(tasks) {
        None
    } else {
        Some(wall_sum(tasks, tasks.len() as int) * active)
    }
}

/// Largest declared wall budget of one runnable cell.
pub open spec fn wall_max_figure(tasks: Seq<CapacityTask>, runnable: int) -> Option<int> {
    if runnable == 0 {
        Some(0)
    } else if !walls_declared(tasks) {
        None
    } else {
        Some(wall_max(tasks, tasks.len() as int))
    }
}

/// List-scheduling bound: the sum spread over the workers, rounded up, plus
/// the longest cell.
pub open spec fn model_bound_figure(sum: Option<int>, maximum: Option<int>, jobs: int) -> Option<int> {
    if jobs == 0 {
        Some(0)
    } else {
        match (sum, maximum) {
            (Some(s), Some(m)) => Some((s + jobs - 1) / jobs + m),
            _ => None,
        }
    }
}

pub open spec fn evaluator_sum_figure(tasks: Seq<CapacityTask>, active: int) -> int {
    timeout_sum(tasks, tasks.len() as int) * active
}

pub open spec fn evaluator_jobs_figure(tasks: Seq<CapacityTask>, active: int, jobs: int) -> int {
    min_int(
        min_int(jobs, MAX_PARALLEL_EXTERNAL_EVALUATORS as int),
        external_count(tasks, tasks.len() as int) * active,
    )
}

/// The evaluator pool bound in milliseconds, before conversion to seconds.
pub open spec fn evaluator_bound_ms(tasks: Seq<CapacityTask>, active: int, jobs: int) -> int {
    let permits = evaluator_jobs_figure(tasks, active, jobs);
    (evaluator_sum_figure(tasks, active) + permits - 1) / permits + timeout_max(
        tasks,
        tasks.len() as int,
    )
}

/// The evaluator pool bound in whole seconds, rounded up.
pub open spec fn evaluator_bound_figure(tasks: Seq<CapacityTask>, active: int, jobs: int) -> int {
    if evaluator_jobs_figure(tasks, active, jobs) == 0 {
        0
    } else {
        (evaluator_bound_ms(tasks, active, jobs) + 999) / 1000
    }
}

pub open spec fn declared_bound_figure(model_bound: Option<int>, evaluator_bound: int) -> Option<int> {
    match model_bound {
        Some(b) => Some(b + evaluator_bound),
        None => None,
    }
}

/// Orchestration reserve: none without runnable cells, else the larger of
/// the minimum and a twentieth of the declared bound, rounded up.
pub open spec fn reserve_figure(runnable: int, declared: Option<int>) -> int {
    if runnable == 0 {
        0
    } else {
        match declared {
            None => MINIMUM_ORCHESTRATION_RESERVE_SECONDS as int,
            Some(b) => if (b + 19) / 20 > 900 {
                (b + 19) / 20
            } else {
                900
            },
        }
    }
}

pub open spec fn conservative_figure(declared: Option<int>, reserve: int) -> Option<int> {
    match declared {
        Some(b) => Some(b + reserve),
        None => None,
    }
}

/// The figures of a run, in the order in which they are derived.
pub open spec fn runnable_figure(
    tasks: Seq<CapacityTask>,
    selected: Seq<ModelConfig>,
    available: Seq<ModelConfig>,
) -> int {
    tasks.len() * active_count(selected, available, selected.len() as int)
}

pub open spec fn effective_jobs_figure(
    tasks: Seq<CapacityTask>,
    selected: Seq<ModelConfig>,
    available: Seq<ModelConfig>,
    jobs: int,
) -> int {
    min_int(jobs, runnable_figure(tasks, selected, available))
}

/// The wall-budget sums stay within `u64`.
pub open spec fn wall_fits(tasks: Seq<CapacityTask>, active: int, runnable: int) -> bool {
    (runnable != 0 && walls_declared(tasks)) ==> wall_sum(tasks, tasks.len() as int) <= u64_limit()
        && wall_sum(tasks, tasks.len() as int) * active <= u64_limit()
}

/// The list-scheduling bound stays within `u64`.
pub open spec fn model_bound_fits(sum: Option<int>, maximum: Option<int>, jobs: int) -> bool {
    (jobs != 0 && sum is Some && maximum is Some) ==> sum->0 + jobs - 1 <= u64_limit() && (sum->0
        + jobs - 1) / jobs + maximum->0 <= u64_limit()
}

/// The evaluator sums, the evaluator cell count and the evaluator bound stay
/// within their integer types.
pub open spec fn evaluator_fits(tasks: Seq<CapacityTask>, active: int, jobs: int) -> bool {
    let es = timeout_sum(tasks, tasks.len() as int);
    &&& es <= u64_limit()
    &&& es * active <= u64_limit()
    &&& external_count(tasks, tasks.len() as int) * active <= usize::MAX
    &&& evaluator_jobs_figure(tasks, active, jobs) != 0 ==> es * active + evaluator_jobs_figure(
        tasks,
        active,
        jobs,
    ) - 1 <= u64_limit() && evaluator_bound_ms(tasks, active, jobs) <= u64_limit()
        && evaluator_bound_ms(tasks, active, jobs) + 999 <= u64_limit()
}

/// Every checked step of the derivation stays within its integer type.
pub open spec fn capacity_arithmetic_fits(
    tasks: Seq<CapacityTask>,
    selected: Seq<ModelConfig>,
    available: Seq<ModelConfig>,
    jobs: int,
) -> bool {
    let act = active_count(selected, available, selected.len() as int);
    let rc = runnable_figure(tasks, selected, available);
    let ej = effective_jobs_figure(tasks, selected, available, jobs);
    let ws = wall_sum_figure(tasks, act, rc);
    let wm = wall_max_figure(tasks, rc);
    let mb = model_bound_figure(ws, wm, ej);
    let eb = evaluator_bound_figure(tasks, act, ej);
    let db = declared_bound_figure(mb, eb);
    let res = reserve_figure(rc, db);
    &&& tasks.len() * selected.len() <= usize::MAX
    &&& wall_fits(tasks, act, rc)
    &&& model_bound_fits(ws, wm, ej)
    &&& evaluator_fits(tasks, act, ej)
    &&& db is Some ==> db->0 <= u64_limit()
    &&& db is Some ==> db->0 + res <= u64_limit()
}

/// The run is admitted: a nonempty selection, an accepted worker count, a
/// known next slot, a valid capability digest and support partition, every
/// figure in range, and a bounded total that ends before the next slot.
pub open spec fn capacity_admissible(
    tasks: Seq<CapacityTask>,
    selected: Seq<ModelConfig>,
    available: Seq<ModelConfig>,
    unsupported: Seq<ModelConfig>,
    capability_validation_digest: Seq<char>,
    jobs: int,
    seconds_until_next_slot: int,
) -> bool {
    let act = active_count(selected, available, selected.len() as int);
    let rc = runnable_figure(tasks, selected, available);
    let ej = effective_jobs_figure(tasks, selected, available, jobs);
    let mb = model_bound_figure(wall_sum_figure(tasks, act, rc), wall_max_figure(tasks, rc), ej);
    let db = declared_bound_figure(mb, evaluator_bound_figure(tasks, act, ej));
    let cb = conservative_figure(db, reserve_figure(rc, db));
    &&& tasks.len() > 0
    &&& selected.len() > 0
    &&& 1 <= jobs <= MAX_RUN_JOBS
    &&& seconds_until_next_slot > 0
    &&& valid_digest(capability_validation_digest)
    &&& valid_support_partition(available, unsupported)
    &&& capacity_arithmetic_fits(tasks, selected, available, jobs)
    &&& cb is Some ==> cb->0 < seconds_until_next_slot
}

/// `a` holds exactly the figures derived from the inputs.
pub open spec fn admission_figures(
    a: CapacityAdmission,
    tasks: Seq<CapacityTask>,
    selected: Seq<ModelConfig>,
    available: Seq<ModelConfig>,
    jobs: int,
) -> bool {
    let act = active_count(selected, available, selected.len() as int);
    let rc = runnable_figure(tasks, selected, available);
    let ej = effective_jobs_figure(tasks, selected, available, jobs);
    let ws = wall_sum_figure(tasks, act, rc);
    let wm = wall_max_figure(tasks, rc);
    let mb = model_bound_figure(ws, wm, ej);
    let eb = evaluator_bound_figure(tasks, act, ej);
    let db = declared_bound_figure(mb, eb);
    let res = reserve_figure(rc, db);
    &&& a.configured_jobs == jobs
    &&& a.selected_cells == tasks.len() * selected.len()
    &&& a.runnable_cell_count == rc
    &&& a.effective_jobs == ej
    &&& opt_int(a.declared_wall_budget_sum_seconds) == ws
    &&& opt_int(a.maximum_cell_wall_budget_seconds) == wm
    &&& opt_int(a.model_execution_bound_seconds) == mb
    &&& a.declared_evaluator_budget_sum_ms == evaluator_sum_figure(tasks, act)
    &&& a.effective_evaluator_jobs == evaluator_jobs_figure(tasks, act, ej)
    &&& a.evaluator_bound_seconds == eb
    &&& a.orchestration_reserve_seconds == res
    &&& opt_int(a.conservative_bound_seconds) == conservative_figure(db, res)
}


// ---------------------------------------------------------------------------
// Lemmas
// ---------------------------------------------------------------------------
proof fn lemma_sums_monotone(tasks: Seq<CapacityTask>, n: int, m: int)
    requires
        0 <= n <= m <= tasks.len(),
    ensures
        wall_sum(tasks, n) <= wall_sum(tasks, m),
        timeout_sum(tasks, n) <= timeout_sum(tasks, m),
    decreases m - n,
{
    if n < m {
        lemma_sums_monotone(tasks, n, m - 1);
    }
}

proof fn lemma_counts_bounded(tasks: Seq<CapacityTask>, selected: Seq<ModelConfig>, available: Seq<ModelConfig>, n: int)
    requires
        0 <= n,
    ensures
        0 <= active_count(selected, available, n) <= n,
        0 <= external_count(tasks, n) <= n,
        wall_sum(tasks, n) >= 0,
        timeout_sum(tasks, n) >= 0,
        wall_max(tasks, n) >= 0,
        timeout_max(tasks, n) >= 0,
    decreases n,
{
    if n > 0 {
        lemma_counts_bounded(tasks, selected, available, n - 1);
    }
}

proof fn lemma_mul_le(a: int, b: int, c: int)
    requires
        0 <= a,
        0 <= b <= c,
    ensures
        a * b <= a * c,
        0 <= a * b,
{
    assert(a * b <= a * c) by (nonlinear_arith)
        requires
            0 <= a,
            0 <= b <= c,
    ;
    assert(0 <= a * b) by (nonlinear_arith)
        requires
            0 <= a,
            0 <= b,
    ;
}

// ---------------------------------------------------------------------------
// Derivation steps
// ---------------------------------------------------------------------------
fn contains_model(list: &[ModelConfig], m: ModelConfig) -> (r: bool)
    ensures
        r == list@.contains(m),
{
    let mut i: usize = 0;
    while i < list.len()
        invariant
            i <= list@.len(),
            forall|k: int| 0 <= k < i ==> list@[k] != m,
        decreases list@.len() - i,
    {
        if list[i] == m {
            assert(list@[i as int] == m);
            return true;
        }
        i += 1;
    }
    false
}

fn count_active(selected: &[ModelConfig], available: &[ModelConfig]) -> (n: usize)
    ensures
        n == active_count(selected@, available@, selected@.len() as int),
{
    let mut n: usize = 0;
    let mut i: usize = 0;
    while i < selected.len()
        invariant
            i <= selected@.len(),
            n == active_count(selected@, available@, i as int),
            n <= i,
        decreases selected@.len() - i,
    {
        if contains_model(available, selected[i]) {
            n += 1;
        }
        i += 1;
    }
    n
}

/// The list holds matrix configurations in strictly increasing matrix order.
fn ordered_matrix_list(list: &[ModelConfig]) -> (r: bool)
    ensures
        r == ((forall|i: int| 0 <= i < list@.len() ==> in_matrix(#[trigger] list@[i])) && (forall|
            i: int,
            j: int,
        |
            0 <= i < j < list@.len() ==> matrix_index(#[trigger] list@[i]) < matrix_index(
                #[trigger] list@[j],
            ))),
{
    let mut i: usize = 0;
    let mut last: u8 = 0;
    while i < list.len()
        invariant
            i <= list@.len(),
            forall|k: int| 0 <= k < i ==> in_matrix(#[trigger] list@[k]),
            forall|a: int, b: int|
                0 <= a < b < i ==> matrix_index(#[trigger] list@[a]) < matrix_index(
                    #[trigger] list@[b],
                ),
            i > 0 ==> last == matrix_index(list@[i - 1]),
            forall|a: int| 0 <= a < i ==> matrix_index(#[trigger] list@[a]) <= last,
        decreases list@.len() - i,
    {
        let index = matrix_index_of(list[i]);
        if index >= 17 {
            assert(!in_matrix(list@[i as int]));
            return false;
        }
        if i > 0 && index <= last {
            assert(matrix_index(list@[i - 1]) >= matrix_index(list@[i as int]));
            return false;
        }
        last = index;
        i += 1;
    }
    true
}

/// Whether the available and unsupported configurations split the matrix.
fn check_support_partition(available: &[ModelConfig], unsupported: &[ModelConfig]) -> (r: bool)
    ensures
        r == valid_support_partition(available@, unsupported@),
{
    if available.len() > 17 || unsupported.len() != 17 - available.len() {
        return false;
    }
    if !ordered_matrix_list(available) || !ordered_matrix_list(unsupported) {
        return false;
    }
    let mut i: usize = 0;
    while i < available.len()
        invariant
            i <= available@.len(),
            forall|x: int, y: int|
                0 <= x < i && 0 <= y < unsupported@.len() ==> #[trigger] available@[x]
                    != #[trigger] unsupported@[y],
        decreases available@.len() - i,
    {
        if contains_model(unsupported, available[i]) {
            let ghost y = unsupported@.index_of(available@[i as int]);
            assert(available@[i as int] == unsupported@[y]);
            return false;
        }
        i += 1;
    }
    true
}

fn copy_models(list: &[ModelConfig]) -> (r: Vec<ModelConfig>)
    ensures
        r@ == list@,
{
    let mut r: Vec<ModelConfig> = Vec::new();
    let mut i: usize = 0;
    while i < list.len()
        invariant
            i <= list@.len(),
            r@ == list@.subrange(0, i as int),
        decreases list@.len() - i,
    {
        r.push(list[i]);
        i += 1;
    }
    assert(list@.subrange(0, list@.len() as int) =~= list@);
    r
}

/// Declared wall-budget sum and maximum over the runnable cells.
fn declared_wall_budget_metrics(tasks: &[CapacityTask], active: u64, runnable: usize) -> (r: Result<
    (Option<u64>, Option<u64>),
    CapacityError,
>)
    ensures
        match r {
            Ok((sum, maximum)) => wall_fits(tasks@, active as int, runnable as int) && opt_int(sum)
                == wall_sum_figure(tasks@, active as int, runnable as int) && opt_int(maximum)
                == wall_max_figure(tasks@, runnable as int),
            Err(_) => !wall_fits(tasks@, active as int, runnable as int),
        },
{
    if runnable == 0 {
        return Ok((Some(0), Some(0)));
    }
    let mut i: usize = 0;
    while i < tasks.len()
        invariant
            i <= tasks@.len(),
            runnable != 0,
            forall|k: int| 0 <= k < i ==> (#[trigger] tasks@[k]).wall_seconds is Some,
        decreases tasks@.len() - i,
    {
        if tasks[i].wall_seconds.is_none() {
            assert(!walls_declared(tasks@));
            return Ok((None, None));
        }
        i += 1;
    }
    assert(walls_declared(tasks@));
    let mut sum: u64 = 0;
    let mut maximum: u64 = 0;
    i = 0;
    while i < tasks.len()
        invariant
            i <= tasks@.len(),
            walls_declared(tasks@),
            runnable != 0,
            sum == wall_sum(tasks@, i as int),
            maximum == wall_max(tasks@, i as int),
        decreases tasks@.len() - i,
    {
        let w = match tasks[i].wall_seconds {
            Some(w) => w,
            None => 0,
        };
        match sum.checked_add(w) {
            Some(next) => {
                sum = next;
            },
            None => {
                proof {
                    lemma_sums_monotone(tasks@, i as int + 1, tasks@.len() as int);
                }
                return Err(CapacityError::new("declared wall budget sum overflows"));
            },
        }
        if w > maximum {
            maximum = w;
        }
        i += 1;
    }
    match sum.checked_mul(active) {
        Some(total) => Ok((Some(total), Some(maximum))),
        None => Err(CapacityError::new("declared wall budget sum overflows")),
    }
}

/// Conservative list-scheduling bound for model execution.
fn model_execution_bound(sum: Option<u64>, maximum: Option<u64>, jobs: usize) -> (r: Result<
    Option<u64>,
    CapacityError,
>)
    ensures
        match r {
            Ok(bound) => model_bound_fits(opt_int(sum), opt_int(maximum), jobs as int) && opt_int(
                bound,
            ) == model_bound_figure(opt_int(sum), opt_int(maximum), jobs as int),
            Err(_) => !model_bound_fits(opt_int(sum), opt_int(maximum), jobs as int),
        },
{
    if jobs == 0 {
        return Ok(Some(0));
    }
    match (sum, maximum) {
        (Some(s), Some(m)) => {
            let workers = jobs as u64;
            match s.checked_add(workers - 1) {
                Some(spread) => match (spread / workers).checked_add(m) {
                    Some(bound) => Ok(Some(bound)),
                    None => Err(CapacityError::new("capacity bound overflows")),
                },
                None => Err(CapacityError::new("capacity bound overflows")),
            }
        },
        _ => Ok(None),
    }
}

/// Declared evaluator budget, evaluator permits, and the evaluator pool bound.
fn assess_evaluator_capacity(tasks: &[CapacityTask], active: usize, jobs: usize) -> (r: Result<
    (u64, usize, u64),
    CapacityError,
>)
    ensures
        match r {
            Ok((sum, permits, bound)) => evaluator_fits(tasks@, active as int, jobs as int) && sum
                == evaluator_sum_figure(tasks@, active as int) && permits == evaluator_jobs_figure(
                tasks@,
                active as int,
                jobs as int,
            ) && bound == evaluator_bound_figure(tasks@, active as int, jobs as int),
            Err(_) => !evaluator_fits(tasks@, active as int, jobs as int),
        },
{
    let mut one_model_sum: u64 = 0;
    let mut maximum: u64 = 0;
    let mut with_evaluator: usize = 0;
    let mut i: usize = 0;
    while i < tasks.len()
        invariant
            i <= tasks@.len(),
            one_model_sum == timeout_sum(tasks@, i as int),
            maximum == timeout_max(tasks@, i as int),
            with_evaluator == external_count(tasks@, i as int),
            with_evaluator <= i,
        decreases tasks@.len() - i,
    {
        let timeout = match tasks[i].external_evaluator_timeout_ms {
            Some(t) => t,
            None => 0,
        };
        match one_model_sum.checked_add(timeout) {
            Some(next) => {
                one_model_sum = next;
            },
            None => {
                proof {
                    lemma_sums_monotone(tasks@, i as int + 1, tasks@.len() as int);
                }
                return Err(CapacityError::new("evaluator budget sum overflows"));
            },
        }
        if timeout > maximum {
            maximum = timeout;
        }
        if tasks[i].external_evaluator_timeout_ms.is_some() {
            with_evaluator += 1;
        }
        i += 1;
    }
    let declared = match one_model_sum.checked_mul(active as u64) {
        Some(v) => v,
        None => {
            return Err(CapacityError::new("evaluator budget sum overflows"));
        },
    };
    let cells = match with_evaluator.checked_mul(active) {
        Some(v) => v,
        None => {
            return Err(CapacityError::new("evaluator cell count overflows"));
        },
    };
    let mut permits = if jobs < MAX_PARALLEL_EXTERNAL_EVALUATORS {
        jobs
    } else {
        MAX_PARALLEL_EXTERNAL_EVALUATORS
    };
    if cells < permits {
        permits = cells;
    }
    if permits == 0 {
        return Ok((declared, permits, 0));
    }
    let p = permits as u64;
    let bound_ms = match declared.checked_add(p - 1) {
        Some(spread) => match (spread / p).checked_add(maximum) {
            Some(b) => b,
            None => {
                return Err(CapacityError::new("evaluator capacity bound overflows"));
            },
        },
        None => {
            return Err(CapacityError::new("evaluator capacity bound overflows"));
        },
    };
    match bound_ms.checked_add(999) {
        Some(v) => Ok((declared, permits, v / 1000)),
        None => Err(CapacityError::new("evaluator capacity conversion overflows")),
    }
}

/// Builds direct capacity data from active support and the worker count.
#[verifier::rlimit(60)]
pub fn assess_capacity(
    tasks: &[CapacityTask],
    selected_models: &[ModelConfig],
    available_models: &[ModelConfig],
    observed_unsupported_models: &[ModelConfig],
    capability_validation_digest: &str,
    configured_jobs: usize,
    seconds_until_next_slot: u64,
) -> (r: Result<CapacityAdmission, CapacityError>)
    ensures
        match r {
            Ok(a) => {
                &&& capacity_admissible(
                    tasks@,
                    selected_models@,
                    available_models@,
                    observed_unsupported_models@,
                    capability_validation_digest@,
                    configured_jobs as int,
                    seconds_until_next_slot as int,
                )
                &&& admission_figures(
                    a,
                    tasks@,
                    selected_models@,
                    available_models@,
                    configured_jobs as int,
                )
                &&& a.schema_version@ == CAPACITY_ADMISSION_SCHEMA_VERSION@
                &&& a.capability_validation_digest@ == capability_validation_digest@
                &&& a.available_models@ == available_models@
                &&& a.observed_unsupported_models@ == observed_unsupported_models@
                &&& a.seconds_until_next_slot == seconds_until_next_slot
            },
            Err(_) => !capacity_admissible(
                tasks@,
                selected_models@,
                available_models@,
                observed_unsupported_models@,
                capability_validation_digest@,
                configured_jobs as int,
                seconds_until_next_slot as int,
            ),
        },
{
    if tasks.len() == 0 || selected_models.len() == 0 {
        return Err(CapacityError::new("capacity selection cannot be empty"));
    }
    if configured_jobs < 1 || configured_jobs > MAX_RUN_JOBS {
        return Err(CapacityError::new("configured jobs are outside the accepted range"));
    }
    if seconds_until_next_slot == 0 {
        return Err(CapacityError::new("next schedule interval is unknown or zero"));
    }
    if !is_valid_digest(capability_validation_digest) || !check_support_partition(
        available_models,
        observed_unsupported_models,
    ) {
        return Err(CapacityError::new("active capability partition is invalid"));
    }
    let ghost t = tasks@;
    let ghost sel = selected_models@;
    let ghost avail = available_models@;
    let active = count_active(selected_models, available_models);
    proof {
        lemma_counts_bounded(t, sel, avail, sel.len() as int);
        lemma_counts_bounded(t, sel, avail, t.len() as int);
    }
    let selected_cells = match tasks.len().checked_mul(selected_models.len()) {
        Some(v) => v,
        None => {
            return Err(CapacityError::new("selected cell count overflows"));
        },
    };
    proof {
        lemma_mul_le(t.len() as int, active as int, sel.len() as int);
    }
    let runnable = tasks.len() * active;
    let effective_jobs = if configured_jobs < runnable {
        configured_jobs
    } else {
        runnable
    };
    let (wall_sum_seconds, wall_max_seconds) = declared_wall_budget_metrics(
        tasks,
        active as u64,
        runnable,
    )?;
    let model_bound = model_execution_bound(wall_sum_seconds, wall_max_seconds, effective_jobs)?;
    let (evaluator_sum, evaluator_jobs, evaluator_bound) = assess_evaluator_capacity(
        tasks,
        active,
        effective_jobs,
    )?;
    let declared_bound = match model_bound {
        Some(b) => match b.checked_add(evaluator_bound) {
            Some(v) => Some(v),
            None => {
                return Err(CapacityError::new("combined capacity bound overflows"));
            },
        },
        None => None,
    };
    let reserve: u64 = if runnable == 0 {
        0
    } else {
        match declared_bound {
            None => MINIMUM_ORCHESTRATION_RESERVE_SECONDS,
            Some(b) => {
                let share = b / 20 + if b % 20 == 0 {
                    0
                } else {
                    1
                };
                assert(share == (b + 19) / 20);
                if share > 900 {
                    share
                } else {
                    900
                }
            },
        }
    };
    let conservative = match declared_bound {
        Some(b) => match b.checked_add(reserve) {
            Some(v) => Some(v),
            None => {
                return Err(CapacityError::new("end-to-end capacity bound overflows"));
            },
        },
        None => None,
    };
    match conservative {
        Some(b) => {
            if b >= seconds_until_next_slot {
                return Err(
                    CapacityError::new(
                        "declared model, evaluator, and orchestration bound does not fit before the next slot",
                    ),
                );
            }
        },
        None => {},
    }
    let a = CapacityAdmission {
        schema_version: CAPACITY_ADMISSION_SCHEMA_VERSION.to_owned(),
        capability_validation_digest: capability_validation_digest.to_owned(),
        available_models: copy_models(available_models),
        observed_unsupported_models: copy_models(observed_unsupported_models),
        configured_jobs,
        effective_jobs,
        selected_cells,
        runnable_cell_count: runnable,
        declared_wall_budget_sum_seconds: wall_sum_seconds,
        maximum_cell_wall_budget_seconds: wall_max_seconds,
        model_execution_bound_seconds: model_bound,
        declared_evaluator_budget_sum_ms: evaluator_sum,
        effective_evaluator_jobs: evaluator_jobs,
        evaluator_bound_seconds: evaluator_bound,
        orchestration_reserve_seconds: reserve,
        seconds_until_next_slot,
        conservative_bound_seconds: conservative,
    };
    Ok(a)
}


// ---------------------------------------------------------------------------
// Content address and commitment
// ---------------------------------------------------------------------------
/// JSON form of one model configuration.
pub open spec fn model_tree(m: ModelConfig) -> JsonTree {
    JsonTree::Object(
        seq![
            ("family"@, JsonTree::Text(family_text(m.family))),
            ("reasoning_effort"@, JsonTree::Text(effort_text(m.reasoning_effort))),
        ],
    )
}

pub open spec fn models_tree(models: Seq<ModelConfig>) -> JsonTree {
    JsonTree::Array(Seq::new(models.len(), |i: int| model_tree(models[i])))
}

fn model_json(m: ModelConfig) -> (j: Json)
    ensures
        j.tree() == model_tree(m),
{
    let mut members: Vec<(String, Json)> = Vec::new();
    members.push(member("family", json_text(family_name_of(m.family))));
    members.push(member("reasoning_effort", json_text(effort_name_of(m.reasoning_effort))));
    let ghost ms = members@;
    let j = json_object(members);
    assert(members_tree(ms) =~= model_tree(m)->Object_0);
    j
}

fn models_json(models: &Vec<ModelConfig>) -> (j: Json)
    ensures
        j.tree() == models_tree(models@),
{
    let mut items: Vec<Json> = Vec::new();
    let mut i: usize = 0;
    while i < models.len()
        invariant
            i <= models@.len(),
            items@.len() == i,
            forall|k: int| 0 <= k < i ==> #[trigger] items@[k].tree() == model_tree(models@[k]),
        decreases models@.len() - i,
    {
        items.push(model_json(models[i]));
        i += 1;
    }
    let ghost its = items@;
    let j = json_array(items);
    assert(items_tree(its) =~= models_tree(models@)->Array_0);
    j
}

impl CapacityAdmission {
    /// JSON form of the estimate.
    pub open spec fn tree(&self) -> JsonTree {
        JsonTree::Object(
            seq![
                ("schema_version"@, JsonTree::Text(self.schema_version@)),
                ("capability_validation_digest"@, JsonTree::Text(self.capability_validation_digest@)),
                ("available_models"@, models_tree(self.available_models@)),
                ("observed_unsupported_models"@, models_tree(self.observed_unsupported_models@)),
                ("configured_jobs"@, JsonTree::Number(self.configured_jobs as u64)),
                ("effective_jobs"@, JsonTree::Number(self.effective_jobs as u64)),
                ("selected_cells"@, JsonTree::Number(self.selected_cells as u64)),
                ("runnable_cell_count"@, JsonTree::Number(self.runnable_cell_count as u64)),
                (
                    "declared_wall_budget_sum_seconds"@,
                    optional_number_tree(self.declared_wall_budget_sum_seconds),
                ),
                (
                    "maximum_cell_wall_budget_seconds"@,
                    optional_number_tree(self.maximum_cell_wall_budget_seconds),
                ),
                (
                    "model_execution_bound_seconds"@,
                    optional_number_tree(self.model_execution_bound_seconds),
                ),
                (
                    "declared_evaluator_budget_sum_ms"@,
                    JsonTree::Number(self.declared_evaluator_budget_sum_ms),
                ),
                ("effective_evaluator_jobs"@, JsonTree::Number(self.effective_evaluator_jobs as u64)),
                ("evaluator_bound_seconds"@, JsonTree::Number(self.evaluator_bound_seconds)),
                (
                    "orchestration_reserve_seconds"@,
                    JsonTree::Number(self.orchestration_reserve_seconds),
                ),
                ("seconds_until_next_slot"@, JsonTree::Number(self.seconds_until_next_slot)),
                (
                    "conservative_bound_seconds"@,
                    optional_number_tree(self.conservative_bound_seconds),
                ),
            ],
        )
    }

    fn to_json(&self) -> (j: Json)
        ensures
            j.tree() == self.tree(),
    {
        let mut m: Vec<(String, Json)> = Vec::new();
        m.push(member("schema_version", json_text(self.schema_version.as_str())));
        m.push(
            member(
                "capability_validation_digest",
                json_text(self.capability_validation_digest.as_str()),
            ),
        );
        m.push(member("available_models", models_json(&self.available_models)));
        m.push(member("observed_unsupported_models", models_json(&self.observed_unsupported_models)));
        m.push(member("configured_jobs", Json::Number(self.configured_jobs as u64)));
        m.push(member("effective_jobs", Json::Number(self.effective_jobs as u64)));
        m.push(member("selected_cells", Json::Number(self.selected_cells as u64)));
        m.push(member("runnable_cell_count", Json::Number(self.runnable_cell_count as u64)));
        m.push(
            member(
                "declared_wall_budget_sum_seconds",
                json_optional_number(self.declared_wall_budget_sum_seconds),
            ),
        );
        m.push(
            member(
                "maximum_cell_wall_budget_seconds",
                json_optional_number(self.maximum_cell_wall_budget_seconds),
            ),
        );
        m.push(
            member(
                "model_execution_bound_seconds",
                json_optional_number(self.model_execution_bound_seconds),
            ),
        );
        m.push(
            member(
                "declared_evaluator_budget_sum_ms",
                Json::Number(self.declared_evaluator_budget_sum_ms),
            ),
        );
        m.push(member("effective_evaluator_jobs", Json::Number(self.effective_evaluator_jobs as u64)));
        m.push(member("evaluator_bound_seconds", Json::Number(self.evaluator_bound_seconds)));
        m.push(
            member("orchestration_reserve_seconds", Json::Number(self.orchestration_reserve_seconds)),
        );
        m.push(member("seconds_until_next_slot", Json::Number(self.seconds_until_next_slot)));
        m.push(
            member(
                "conservative_bound_seconds",
                json_optional_number(self.conservative_bound_seconds),
            ),
        );
        let ghost ms = m@;
        let j = json_object(m);
        assert(members_tree(ms) =~= self.tree()->Object_0);
        j
    }

    /// Returns the canonical estimate content address; its only failure is
    /// an estimate with no canonical encoding.
    pub fn digest(&self) -> (r: Result<String, CapacityError>)
        ensures
            match r {
                Ok(d) => canonical_digest(self.tree()) == Some(d@),
                Err(e) => canonical_digest(self.tree()) is None && e@ == CAPACITY_UNHASHABLE@,
            },
    {
        match canonical_hash(&self.to_json()) {
            Some(d) => Ok(d),
            None => Err(CapacityError::new(CAPACITY_UNHASHABLE)),
        }
    }

    /// Converts this estimate to the immutable checkpoint and provenance binding.
    pub fn commitment(&self) -> (r: Result<CapacityCommitment, CapacityError>)
        ensures
            match r {
                Ok(c) => {
                    &&& canonical_digest(self.tree()) == Some(c.admission_digest@)
                    &&& c.capability_validation_digest@ == self.capability_validation_digest@
                    &&& c.runnable_cell_count == self.runnable_cell_count
                    &&& c.configured_jobs == self.configured_jobs
                    &&& c.effective_jobs == self.effective_jobs
                    &&& c.seconds_until_next_slot == self.seconds_until_next_slot
                    &&& c.conservative_bound_seconds == self.conservative_bound_seconds
                },
                Err(e) => canonical_digest(self.tree()) is None && e@ == CAPACITY_UNHASHABLE@,
            },
    {
        let admission_digest = match self.digest() {
            Ok(d) => d,
            Err(e) => {
                return Err(e);
            },
        };
        Ok(
            CapacityCommitment {
                capability_validation_digest: self.capability_validation_digest.clone(),
                runnable_cell_count: self.runnable_cell_count,
                admission_digest,
                configured_jobs: self.configured_jobs,
                effective_jobs: self.effective_jobs,
                seconds_until_next_slot: self.seconds_until_next_slot,
                conservative_bound_seconds: self.conservative_bound_seconds,
            },
        )
    }
}


// ---------------------------------------------------------------------------
// Laws
// ---------------------------------------------------------------------------
/// An admitted run with a bounded total always ends before the next slot.
pub proof fn law_bounded_admission_fits_the_slot(
    a: CapacityAdmission,
    tasks: Seq<CapacityTask>,
    selected: Seq<ModelConfig>,
    available: Seq<ModelConfig>,
    unsupported: Seq<ModelConfig>,
    digest: Seq<char>,
    jobs: int,
    seconds_until_next_slot: int,
)
    requires
        capacity_admissible(tasks, selected, available, unsupported, digest, jobs, seconds_until_next_slot),
        admission_figures(a, tasks, selected, available, jobs),
    ensures
        a.conservative_bound_seconds matches Some(c) ==> c < seconds_until_next_slot,
{
}

/// The conservative bound is exactly the model bound, plus the evaluator
/// bound, plus the orchestration reserve; it is absent exactly when the model
/// bound is.
pub proof fn law_conservative_bound_is_the_sum_of_its_parts(
    a: CapacityAdmission,
    tasks: Seq<CapacityTask>,
    selected: Seq<ModelConfig>,
    available: Seq<ModelConfig>,
    jobs: int,
)
    requires
        admission_figures(a, tasks, selected, available, jobs),
    ensures
        a.conservative_bound_seconds is None <==> a.model_execution_bound_seconds is None,
        a.conservative_bound_seconds matches Some(c) ==> c == a.model_execution_bound_seconds->0
            + a.evaluator_bound_seconds + a.orchestration_reserve_seconds,
{
}

/// When some selected task declares no wall budget and a cell can run, no
/// model or total duration is claimed, and the run is admitted or refused
/// the same way whatever the (positive) time to the next slot.
pub proof fn law_unbounded_tasks_claim_no_schedule_fit(
    tasks: Seq<CapacityTask>,
    selected: Seq<ModelConfig>,
    available: Seq<ModelConfig>,
    unsupported: Seq<ModelConfig>,
    digest: Seq<char>,
    jobs: int,
    slot_a: int,
    slot_b: int,
    unbounded: int,
)
    requires
        0 <= unbounded < tasks.len(),
        tasks[unbounded].wall_seconds is None,
        1 <= jobs,
        runnable_figure(tasks, selected, available) > 0,
        slot_a > 0,
        slot_b > 0,
    ensures
        model_bound_figure(
            wall_sum_figure(
                tasks,
                active_count(selected, available, selected.len() as int),
                runnable_figure(tasks, selected, available),
            ),
            wall_max_figure(tasks, runnable_figure(tasks, selected, available)),
            effective_jobs_figure(tasks, selected, available, jobs),
        ) is None,
        capacity_admissible(tasks, selected, available, unsupported, digest, jobs, slot_a)
            == capacity_admissible(tasks, selected, available, unsupported, digest, jobs, slot_b),
{
    assert(!walls_declared(tasks));
    assert(effective_jobs_figure(tasks, selected, available, jobs) > 0);
}

/// A later next slot never turns an admitted run into a refused one.
pub proof fn law_later_slot_keeps_admission(
    tasks: Seq<CapacityTask>,
    selected: Seq<ModelConfig>,
    available: Seq<ModelConfig>,
    unsupported: Seq<ModelConfig>,
    digest: Seq<char>,
    jobs: int,
    slot: int,
    later: int,
)
    requires
        capacity_admissible(tasks, selected, available, unsupported, digest, jobs, slot),
        slot <= later,
    ensures
        capacity_admissible(tasks, selected, available, unsupported, digest, jobs, later),
{
}

/// With no available configuration among the selected ones, nothing can run:
/// no runnable cell, no worker, no evaluator, and a zero total bound.
pub proof fn law_unsupported_cells_have_zero_capacity(
    a: CapacityAdmission,
    tasks: Seq<CapacityTask>,
    selected: Seq<ModelConfig>,
    available: Seq<ModelConfig>,
    jobs: int,
)
    requires
        admission_figures(a, tasks, selected, available, jobs),
        forall|i: int| 0 <= i < selected.len() ==> !available.contains(#[trigger] selected[i]),
    ensures
        a.runnable_cell_count == 0,
        a.effective_jobs == 0,
        a.effective_evaluator_jobs == 0,
        a.evaluator_bound_seconds == 0,
        a.conservative_bound_seconds == Some(0u64),
{
    lemma_no_active(selected, available, selected.len() as int);
    let act = active_count(selected, available, selected.len() as int);
    assert(act == 0);
    assert(runnable_figure(tasks, selected, available) == 0) by {
        assert(tasks.len() * 0 == 0) by (nonlinear_arith);
    }
    assert(external_count(tasks, tasks.len() as int) * act == 0) by (nonlinear_arith)
        requires
            act == 0,
    ;
}

/// Workers never exceed the configured count or the runnable cells, and
/// evaluator permits never exceed the workers or the shared-runtime limit.
pub proof fn law_workers_are_bounded(
    a: CapacityAdmission,
    tasks: Seq<CapacityTask>,
    selected: Seq<ModelConfig>,
    available: Seq<ModelConfig>,
    jobs: int,
)
    requires
        admission_figures(a, tasks, selected, available, jobs),
    ensures
        a.effective_jobs <= jobs,
        a.effective_jobs <= a.runnable_cell_count,
        a.effective_evaluator_jobs <= a.effective_jobs,
        a.effective_evaluator_jobs <= MAX_PARALLEL_EXTERNAL_EVALUATORS,
{
}

/// The model execution bound is the list-scheduling bound: when it is
/// claimed and some worker runs, it is the longest declared cell plus the
/// least whole number of seconds in which the workers together cover the
/// declared wall-budget sum. So it is never below the longest cell, and the
/// part beyond the longest cell, times the workers, covers the whole sum.
pub proof fn law_model_bound_covers_the_sum_and_the_longest_cell(
    a: CapacityAdmission,
    tasks: Seq<CapacityTask>,
    selected: Seq<ModelConfig>,
    available: Seq<ModelConfig>,
    jobs: int,
)
    requires
        admission_figures(a, tasks, selected, available, jobs),
        a.effective_jobs > 0,
    ensures
        a.model_execution_bound_seconds is Some <==> (a.declared_wall_budget_sum_seconds is Some
            && a.maximum_cell_wall_budget_seconds is Some),
        a.model_execution_bound_seconds is Some ==> ({
            let b = a.model_execution_bound_seconds->0 as int;
            let m = a.maximum_cell_wall_budget_seconds->0 as int;
            let s = a.declared_wall_budget_sum_seconds->0 as int;
            let w = a.effective_jobs as int;
            &&& b >= m
            &&& (b - m) * w >= s
            &&& (b - m - 1) * w < s
        }),
{
    if a.model_execution_bound_seconds is Some {
        let m = a.maximum_cell_wall_budget_seconds->0 as int;
        let s = a.declared_wall_budget_sum_seconds->0 as int;
        let w = a.effective_jobs as int;
        let q = (s + w - 1) / w;
        assert(q * w >= s && (q - 1) * w < s && q >= 0) by (nonlinear_arith)
            requires
                w > 0,
                s >= 0,
                q == (s + w - 1) / w,
        ;
    }
}

proof fn lemma_no_active(selected: Seq<ModelConfig>, available: Seq<ModelConfig>, n: int)
    requires
        0 <= n <= selected.len(),
        forall|i: int| 0 <= i < selected.len() ==> !available.contains(#[trigger] selected[i]),
    ensures
        active_count(selected, available, n) == 0,
    decreases n,
{
    if n > 0 {
        lemma_no_active(selected, available, n - 1);
        assert(!available.contains(selected[n - 1]));
    }
}

} // verus!

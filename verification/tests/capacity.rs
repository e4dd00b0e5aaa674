use aiq_runner::capacity::{assess_capacity, CapacityTask, CAPACITY_ADMISSION_SCHEMA_VERSION};
use aiq_runner::model::{model_matrix, ModelConfig};

fn digest() -> String {
    format!("sha256:{}", "a".repeat(64))
}

fn bounded_tasks() -> Vec<CapacityTask> {
    vec![
        CapacityTask { wall_seconds: Some(1_800), external_evaluator_timeout_ms: None },
        CapacityTask { wall_seconds: Some(1_800), external_evaluator_timeout_ms: None },
    ]
}

fn matrix() -> Vec<ModelConfig> {
    model_matrix()
}

#[test]
fn direct_capacity_uses_available_cells_and_jobs() {
    let tasks = bounded_tasks();
    let matrix = matrix();
    let available = matrix[..2].to_vec();
    let unsupported = matrix[2..].to_vec();
    let estimate =
        assess_capacity(&tasks[..2], &matrix, &available, &unsupported, &digest(), 3, 43_200)
            .expect("capacity estimate");

    assert_eq!(estimate.selected_cells, 34);
    assert_eq!(estimate.runnable_cell_count, 4);
    assert_eq!(estimate.effective_jobs, 3);
    assert_eq!(estimate.commitment().expect("commitment").configured_jobs, 3);
}

#[test]
fn unbounded_model_tasks_do_not_claim_or_enforce_a_schedule_fit() {
    let mut tasks = bounded_tasks();

    for task in &mut tasks[..2] {
        task.wall_seconds = None;
    }

    let matrix = matrix();
    let available = matrix[..2].to_vec();
    let unsupported = matrix[2..].to_vec();
    let estimate = assess_capacity(&tasks[..2], &matrix, &available, &unsupported, &digest(), 3, 1)
        .expect("unbounded model execution must not be rejected by a guessed duration");

    assert_eq!(estimate.schema_version, CAPACITY_ADMISSION_SCHEMA_VERSION);
    assert_eq!(estimate.declared_wall_budget_sum_seconds, None);
    assert_eq!(estimate.maximum_cell_wall_budget_seconds, None);
    assert_eq!(estimate.model_execution_bound_seconds, None);
    assert_eq!(estimate.conservative_bound_seconds, None);
    assert_eq!(estimate.commitment().expect("commitment").conservative_bound_seconds, None);
}

#[test]
fn unsupported_cells_have_zero_execution_capacity() {
    let tasks = bounded_tasks();
    let matrix = matrix();
    let estimate = assess_capacity(&tasks[..1], &matrix, &[], &matrix, &digest(), 1, 43_200)
        .expect("capacity estimate");

    assert_eq!(estimate.selected_cells, 17);
    assert_eq!(estimate.runnable_cell_count, 0);
    assert_eq!(estimate.effective_jobs, 0);
    assert_eq!(estimate.conservative_bound_seconds, Some(0));
}

#[test]
fn external_evaluator_deadlines_are_bound_and_must_fit_the_slot() {
    let mut tasks = bounded_tasks();

    tasks[0].external_evaluator_timeout_ms = Some(10_000);

    let matrix = matrix();
    let available = matrix[..2].to_vec();
    let unsupported = matrix[2..].to_vec();
    let estimate =
        assess_capacity(&tasks[..1], &matrix, &available, &unsupported, &digest(), 2, 43_200)
            .expect("capacity estimate with evaluator work");

    assert_eq!(estimate.declared_evaluator_budget_sum_ms, 20_000);
    assert_eq!(estimate.effective_evaluator_jobs, 2);
    assert_eq!(estimate.evaluator_bound_seconds, 20);
    assert_eq!(
        estimate.conservative_bound_seconds,
        Some(
            estimate.model_execution_bound_seconds.expect("bounded model estimate")
                + estimate.evaluator_bound_seconds
                + estimate.orchestration_reserve_seconds
        )
    );
    assert!(assess_capacity(
        &tasks[..1],
        &matrix,
        &available,
        &unsupported,
        &digest(),
        2,
        estimate.conservative_bound_seconds.expect("bounded total estimate"),
    )
    .is_err());
}

#[test]
fn invalid_jobs_and_partitions_fail() {
    let tasks = bounded_tasks();
    let matrix = matrix();

    assert!(assess_capacity(&tasks[..1], &matrix, &matrix, &[], &digest(), 0, 43_200).is_err());
    assert!(assess_capacity(&tasks[..1], &matrix, &matrix[..1], &[], &digest(), 1, 43_200).is_err());
}

#[test]
fn a_later_slot_never_refuses_an_admitted_run() {
    let tasks = bounded_tasks();
    let matrix = matrix();
    let available = matrix[..2].to_vec();
    let unsupported = matrix[2..].to_vec();
    let admitted = assess_capacity(&tasks, &matrix, &available, &unsupported, &digest(), 2, 43_200)
        .expect("admitted run");
    let bound = admitted.conservative_bound_seconds.expect("bounded run");

    assert!(bound < 43_200);
    assert!(assess_capacity(&tasks, &matrix, &available, &unsupported, &digest(), 2, bound + 1).is_ok());
    assert!(assess_capacity(&tasks, &matrix, &available, &unsupported, &digest(), 2, u64::MAX).is_ok());
    assert!(assess_capacity(&tasks, &matrix, &available, &unsupported, &digest(), 2, bound).is_err());
}

#[test]
fn workers_never_exceed_cells_or_the_evaluator_limit() {
    let mut tasks = bounded_tasks();

    tasks[0].external_evaluator_timeout_ms = Some(1_000);
    tasks[1].external_evaluator_timeout_ms = Some(2_000);

    let matrix = matrix();
    let available = matrix.clone();
    let estimate = assess_capacity(&tasks, &matrix, &available, &[], &digest(), 64, 10_000_000)
        .expect("capacity estimate");

    assert_eq!(estimate.runnable_cell_count, 34);
    assert_eq!(estimate.effective_jobs, 34);
    assert_eq!(estimate.effective_evaluator_jobs, 4);
    assert_eq!(estimate.declared_evaluator_budget_sum_ms, 3_000 * 17);
    assert_eq!(estimate.declared_wall_budget_sum_seconds, Some(3_600 * 17));
    assert_eq!(estimate.maximum_cell_wall_budget_seconds, Some(1_800));
}

#[test]
fn capacity_commitment_names_the_estimate_digest() {
    let tasks = bounded_tasks();
    let matrix = matrix();
    let available = matrix[..2].to_vec();
    let unsupported = matrix[2..].to_vec();
    let estimate = assess_capacity(&tasks, &matrix, &available, &unsupported, &digest(), 3, 43_200)
        .expect("capacity estimate");
    assert_eq!(estimate.commitment().expect("commitment").admission_digest, estimate.digest().expect("digest"));
}

use phonegen::orchestrator::plan_run;
use phonegen::partition::work_plan;

#[test]
fn quotas_sum_to_total() {
    for total in [0usize, 1, 7, 1000, 1_000_003] {
        for workers in [1usize, 2, 3, 8, 64] {
            let q = work_plan(total, workers);
            assert_eq!(q.len(), workers);
            assert_eq!(q.iter().sum::<usize>(), total);
        }
    }
}

#[test]
fn remainder_goes_to_first_worker() {
    assert_eq!(work_plan(10, 3), vec![4, 3, 3]);
    assert_eq!(work_plan(1000, 7), vec![148, 142, 142, 142, 142, 142, 142]);
}

#[test]
fn single_outlier_exceeds_base_by_remainder() {
    let q = work_plan(1001, 8);
    let base = 1001 / 8;
    assert_eq!(q[0] - base, 1001 % 8);
    assert!(q[1..].iter().all(|&x| x == base));
}

#[test]
fn fewer_values_than_workers() {
    assert_eq!(work_plan(2, 4), vec![2, 0, 0, 0]);
}

#[test]
fn zero_total() {
    assert_eq!(work_plan(0, 5), vec![0, 0, 0, 0, 0]);
}

#[test]
fn one_worker_takes_everything() {
    assert_eq!(work_plan(1000, 1), vec![1000]);
}

#[test]
fn worker_count_does_not_change_total() {
    let one: usize = work_plan(1000, 1).iter().sum();
    let many: usize = work_plan(1000, 64).iter().sum();
    assert_eq!(one, 1000);
    assert_eq!(many, 1000);
}

#[test]
fn plan_on_this_machine() {
    let q = plan_run(1000);
    assert!(!q.is_empty());
    assert_eq!(q.iter().sum::<usize>(), 1000);
    let base = 1000 / q.len();
    assert_eq!(q[0], base + 1000 % q.len());
}

use batch_latency::dispatch::{
    container_overrides, list_jobs_args, load_test_plan, submit_job_args, BURST_SPACING_SECS,
    INNER_BURSTS, OUTER_BURSTS,
};

#[test]
fn plan_is_ten_groups_of_five_spaced_by_five_seconds() {
    let plan = load_test_plan();
    assert_eq!(plan.len(), 10);
    assert_eq!(OUTER_BURSTS, 10);
    assert_eq!(INNER_BURSTS, 5);
    assert_eq!(BURST_SPACING_SECS, 5);
    for step in &plan {
        assert_eq!(step.delay_before_secs, 5);
        assert_eq!(step.submissions, 5);
    }
}

#[test]
fn plan_submits_exactly_fifty_jobs() {
    let plan = load_test_plan();
    let total: u64 = plan.iter().map(|s| s.submissions).sum();
    assert_eq!(total, 50);
}

#[test]
fn list_arguments_name_the_staged_queue() {
    let args = list_jobs_args("stage");
    let expected = vec![
        "batch",
        "list-jobs",
        "--job-queue",
        "scheduler-stage",
        "--job-status",
        "Succeeded",
        "--output",
        "json",
    ];
    assert_eq!(args, expected);
}

#[test]
fn submit_arguments_carry_the_fixed_overrides() {
    let args = submit_job_args();
    assert_eq!(args.len(), 10);
    assert_eq!(args[0], "batch");
    assert_eq!(args[1], "submit-job");
    assert_eq!(args[2], "--job-name");
    assert_eq!(args[3], "load-testing-cold-start");
    assert_eq!(args[4], "--job-queue");
    assert_eq!(args[5], "scheduler-stage");
    assert_eq!(args[6], "--job-definition");
    assert_eq!(
        args[7],
        "arn:aws:batch:us-east-1:663148821630:job-definition/run-scheduler-stage:8"
    );
    assert_eq!(args[8], "--container-overrides");
    assert_eq!(args[9], container_overrides());
}

#[test]
fn container_overrides_are_well_formed_json() {
    let payload: serde_json::Value = serde_json::from_str(container_overrides()).unwrap();
    assert_eq!(payload["environment"][0]["name"], "STAGE");
    assert_eq!(payload["resourceRequirements"][0]["value"], "2048");
    assert!(payload["command"].is_array());
}

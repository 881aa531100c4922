use batch_latency::durations::compute_durations;
use batch_latency::model::{JobRecord, UnitPolicy};
use batch_latency::report::deltas_fit_checked;

fn job(created: i64, started: i64, stopped: i64) -> JobRecord {
    JobRecord {
        job_arn: "arn".to_string(),
        job_id: "id".to_string(),
        job_name: "name".to_string(),
        created_at: created,
        started_at: started,
        stopped_at: stopped,
    }
}

#[test]
fn single_complete_job_true_seconds() {
    let jobs = vec![job(1000, 1060, 1180)];
    let times = compute_durations(&jobs, UnitPolicy::TrueSeconds);
    assert_eq!(times.len(), 1);
    assert_eq!(times[0].cold, 60);
    assert_eq!(times[0].run, 120);
    assert_eq!(times[0].total, 180);
}

#[test]
fn single_complete_job_legacy_millis() {
    let jobs = vec![job(1000, 1060, 1180)];
    let times = compute_durations(&jobs, UnitPolicy::LegacyMillis);
    assert_eq!(times.len(), 1);
    assert_eq!(times[0].cold, 0);
    assert_eq!(times[0].run, 0);
    assert_eq!(times[0].total, 0);
}

#[test]
fn unstarted_jobs_are_filtered_out() {
    let jobs = vec![job(1000, 1060, 1180), job(2000, 0, 0)];
    let times = compute_durations(&jobs, UnitPolicy::TrueSeconds);
    assert_eq!(times.len(), 1);
    assert_eq!(times[0].cold, 60);
}

#[test]
fn surviving_jobs_keep_their_order() {
    let jobs = vec![
        job(0, 10, 40),
        job(100, 0, 0),
        job(0, 20, 80),
        job(0, 30, 120),
    ];
    let times = compute_durations(&jobs, UnitPolicy::TrueSeconds);
    assert_eq!(times.len(), 3);
    assert_eq!(times[0].cold, 10);
    assert_eq!(times[1].cold, 20);
    assert_eq!(times[2].cold, 30);
}

#[test]
fn total_is_cold_plus_run_in_true_seconds() {
    let jobs = vec![job(1000, 1060, 1180), job(5, 9, 30), job(7, 3, 2)];
    let times = compute_durations(&jobs, UnitPolicy::TrueSeconds);
    for t in times {
        assert_eq!(t.total, t.cold + t.run);
    }
}

#[test]
fn legacy_millis_truncates_each_component() {
    // The three raw deltas are 1500, 1500 and 3000 seconds; the legacy
    // scaling truncates each separately, so the total is not the sum of
    // the two parts.
    let jobs = vec![job(0, 1500, 3000)];
    let times = compute_durations(&jobs, UnitPolicy::LegacyMillis);
    assert_eq!(times[0].cold, 1);
    assert_eq!(times[0].run, 1);
    assert_eq!(times[0].total, 3);
}

#[test]
fn negative_deltas_truncate_toward_zero() {
    let jobs = vec![job(2000, 1000, 1500)];
    let true_times = compute_durations(&jobs, UnitPolicy::TrueSeconds);
    assert_eq!(true_times[0].cold, -1000);
    assert_eq!(true_times[0].run, 500);
    assert_eq!(true_times[0].total, -500);
    let legacy_times = compute_durations(&jobs, UnitPolicy::LegacyMillis);
    assert_eq!(legacy_times[0].cold, -1);
    assert_eq!(legacy_times[0].run, 0);
    assert_eq!(legacy_times[0].total, 0);
}

#[test]
fn empty_list_yields_no_durations() {
    let jobs: Vec<JobRecord> = vec![];
    let times = compute_durations(&jobs, UnitPolicy::TrueSeconds);
    assert_eq!(times.len(), 0);
}

#[test]
fn delta_check_accepts_ordinary_instants() {
    let jobs = vec![job(1660842028, 1660842088, 1660842188), job(0, 0, 0)];
    assert!(deltas_fit_checked(&jobs));
}

#[test]
fn delta_check_rejects_extreme_instants() {
    let jobs = vec![job(i64::MIN, i64::MAX, 0)];
    assert!(!deltas_fit_checked(&jobs));
}

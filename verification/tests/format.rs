use batch_latency::model::{JobRecord, Selector, UnitPolicy};
use batch_latency::numfmt::{field_10, i64_to_string, u64_to_string};
use batch_latency::report::render_report;

fn job(created: i64, started: i64, stopped: i64) -> JobRecord {
    JobRecord {
        job_arn: "arn".to_string(),
        job_id: "id".to_string(),
        job_name: "name".to_string(),
        created_at: created,
        started_at: started,
        stopped_at: stopped,
    }
}

fn selector(cold: bool, run: bool, total: bool, all: bool) -> Selector {
    Selector { cold, run, total, all }
}

#[test]
fn decimal_rendering_is_exact() {
    assert_eq!(u64_to_string(0), "0");
    assert_eq!(u64_to_string(7), "7");
    assert_eq!(u64_to_string(1234567890), "1234567890");
    assert_eq!(u64_to_string(u64::MAX), "18446744073709551615");
    assert_eq!(i64_to_string(0), "0");
    assert_eq!(i64_to_string(-5), "-5");
    assert_eq!(i64_to_string(i64::MAX), "9223372036854775807");
    assert_eq!(i64_to_string(i64::MIN), "-9223372036854775808");
}

#[test]
fn fields_are_left_justified_to_ten_characters() {
    assert_eq!(field_10(60), "60        ");
    assert_eq!(field_10(-1000), "-1000     ");
    assert_eq!(field_10(i64::MIN), "-9223372036854775808");
}

#[test]
fn empty_list_prints_only_the_header() {
    let jobs: Vec<JobRecord> = vec![];
    let lines = render_report(&jobs, selector(false, false, false, true), UnitPolicy::TrueSeconds);
    assert_eq!(lines.len(), 1);
    assert_eq!(lines[0], format!("{0: <10} {1: <10} {2: <10}", "cold", "run", "time"));
}

#[test]
fn table_mode_prints_header_then_rows() {
    let jobs = vec![job(1000, 1060, 1180)];
    let lines = render_report(&jobs, selector(false, false, false, true), UnitPolicy::TrueSeconds);
    assert_eq!(lines.len(), 2);
    assert_eq!(lines[0], "cold       run        time      ");
    assert_eq!(lines[1], format!("{0: <10} {1: <10} {2: <10}", 60, 120, 180));
    assert_eq!(lines[1], "60         120        180       ");
}

#[test]
fn table_mode_supersedes_column_flags() {
    let jobs = vec![job(1000, 1060, 1180)];
    let lines = render_report(&jobs, selector(true, true, false, true), UnitPolicy::TrueSeconds);
    assert_eq!(lines.len(), 2);
    assert_eq!(lines[0], "cold       run        time      ");
}

#[test]
fn unstarted_job_is_left_out_of_the_table() {
    let jobs = vec![job(1000, 1060, 1180), job(2000, 0, 0)];
    let lines = render_report(&jobs, selector(false, false, false, true), UnitPolicy::TrueSeconds);
    assert_eq!(lines.len(), 2);
}

#[test]
fn cold_and_total_leave_a_gap_for_the_middle_slot() {
    let jobs = vec![job(0, 10, 40)];
    let lines = render_report(&jobs, selector(true, false, true, false), UnitPolicy::TrueSeconds);
    assert_eq!(lines.len(), 1);
    assert_eq!(lines[0], "10s  40s");
}

#[test]
fn single_column_has_no_surrounding_whitespace() {
    let jobs = vec![job(0, 12, 30)];
    let cold_only = render_report(&jobs, selector(true, false, false, false), UnitPolicy::TrueSeconds);
    assert_eq!(cold_only[0], "12s");
    let run_only = render_report(&jobs, selector(false, true, false, false), UnitPolicy::TrueSeconds);
    assert_eq!(run_only[0], "18s");
    let total_only = render_report(&jobs, selector(false, false, true, false), UnitPolicy::TrueSeconds);
    assert_eq!(total_only[0], "30s");
}

#[test]
fn all_three_columns_are_single_spaced() {
    let jobs = vec![job(0, 10, 40)];
    let lines = render_report(&jobs, selector(true, true, true, false), UnitPolicy::TrueSeconds);
    assert_eq!(lines[0], "10s 30s 40s");
}

#[test]
fn adjacent_columns_are_single_spaced() {
    let jobs = vec![job(0, 10, 40)];
    let cold_run = render_report(&jobs, selector(true, true, false, false), UnitPolicy::TrueSeconds);
    assert_eq!(cold_run[0], "10s 30s");
    let run_total = render_report(&jobs, selector(false, true, true, false), UnitPolicy::TrueSeconds);
    assert_eq!(run_total[0], "30s 40s");
}

#[test]
fn no_columns_selected_prints_empty_lines() {
    let jobs = vec![job(0, 10, 40)];
    let lines = render_report(&jobs, selector(false, false, false, false), UnitPolicy::TrueSeconds);
    assert_eq!(lines.len(), 1);
    assert_eq!(lines[0], "");
}

use batch_latency::json::decode_job_list;
use batch_latency::model::{DecodeError, JobField};

#[test]
fn round_trip_decode_complete_record() {
    let doc = br#"{ "jobSummaryList": [
      { "jobArn": "arn:aws:batch:us-east-1:1:job/abc", "jobId": "id-1",
        "jobName": "planner",
        "createdAt": 1660842028, "startedAt": 1660842088, "stoppedAt": 1660842188 }
    ] }"#;
    let jobs = decode_job_list(doc).unwrap();
    assert_eq!(jobs.len(), 1);
    assert_eq!(jobs[0].job_arn, "arn:aws:batch:us-east-1:1:job/abc");
    assert_eq!(jobs[0].job_id, "id-1");
    assert_eq!(jobs[0].job_name, "planner");
    assert_eq!(jobs[0].created_at, 1660842028);
    assert_eq!(jobs[0].started_at, 1660842088);
    assert_eq!(jobs[0].stopped_at, 1660842188);
}

#[test]
fn empty_list_decodes_to_no_records() {
    let jobs = decode_job_list(br#"{"jobSummaryList": []}"#).unwrap();
    assert_eq!(jobs.len(), 0);
}

#[test]
fn absent_instants_default_to_epoch() {
    let doc = br#"{ "jobSummaryList": [
      { "jobArn": "a", "jobId": "b", "jobName": "c", "createdAt": 500 }
    ] }"#;
    let jobs = decode_job_list(doc).unwrap();
    assert_eq!(jobs[0].started_at, 0);
    assert_eq!(jobs[0].stopped_at, 0);
}

#[test]
fn unknown_members_are_ignored() {
    let doc = br#"{ "jobSummaryList": [
      { "jobArn": "a", "jobId": "b", "jobName": "c", "createdAt": 1,
        "startedAt": 2, "stoppedAt": 3, "status": "SUCCEEDED", "extra": [1, 2] }
    ], "nextToken": null }"#;
    let jobs = decode_job_list(doc).unwrap();
    assert_eq!(jobs.len(), 1);
    assert_eq!(jobs[0].started_at, 2);
}

#[test]
fn records_keep_document_order() {
    let doc = br#"{ "jobSummaryList": [
      { "jobArn": "a1", "jobId": "i1", "jobName": "n1", "createdAt": 1 },
      { "jobArn": "a2", "jobId": "i2", "jobName": "n2", "createdAt": 2 },
      { "jobArn": "a3", "jobId": "i3", "jobName": "n3", "createdAt": 3 }
    ] }"#;
    let jobs = decode_job_list(doc).unwrap();
    assert_eq!(jobs.len(), 3);
    assert_eq!(jobs[0].job_id, "i1");
    assert_eq!(jobs[1].job_id, "i2");
    assert_eq!(jobs[2].job_id, "i3");
}

#[test]
fn malformed_json_is_a_syntax_error() {
    assert_eq!(decode_job_list(b"not-json").unwrap_err(), DecodeError::Syntax);
}

#[test]
fn missing_summary_list_is_reported() {
    assert_eq!(decode_job_list(br#"{"jobs": []}"#).unwrap_err(), DecodeError::Missing(JobField::JobSummaryList));
}

#[test]
fn non_array_summary_list_is_reported() {
    assert_eq!(decode_job_list(br#"{"jobSummaryList": 7}"#).unwrap_err(), DecodeError::WrongType(JobField::JobSummaryList));
}

#[test]
fn missing_required_fields_are_reported() {
    let no_arn = br#"{ "jobSummaryList": [
      { "jobId": "b", "jobName": "c", "createdAt": 1 } ] }"#;
    assert_eq!(decode_job_list(no_arn).unwrap_err(), DecodeError::Missing(JobField::JobArn));
    let no_created = br#"{ "jobSummaryList": [
      { "jobArn": "a", "jobId": "b", "jobName": "c" } ] }"#;
    assert_eq!(decode_job_list(no_created).unwrap_err(), DecodeError::Missing(JobField::CreatedAt));
}

#[test]
fn wrongly_typed_fields_are_reported() {
    let bad_name = br#"{ "jobSummaryList": [
      { "jobArn": "a", "jobId": "b", "jobName": 9, "createdAt": 1 } ] }"#;
    assert_eq!(decode_job_list(bad_name).unwrap_err(), DecodeError::WrongType(JobField::JobName));
    let bad_created = br#"{ "jobSummaryList": [
      { "jobArn": "a", "jobId": "b", "jobName": "c", "createdAt": "soon" } ] }"#;
    assert_eq!(decode_job_list(bad_created).unwrap_err(), DecodeError::WrongType(JobField::CreatedAt));
    let fractional_start = br#"{ "jobSummaryList": [
      { "jobArn": "a", "jobId": "b", "jobName": "c", "createdAt": 1,
        "startedAt": 2.5 } ] }"#;
    assert_eq!(decode_job_list(fractional_start).unwrap_err(), DecodeError::WrongType(JobField::StartedAt));
    let oversized_created = br#"{ "jobSummaryList": [
      { "jobArn": "a", "jobId": "b", "jobName": "c",
        "createdAt": 9223372036854775808 } ] }"#;
    assert_eq!(decode_job_list(oversized_created).unwrap_err(), DecodeError::WrongType(JobField::CreatedAt));
}

#[test]
fn non_object_document_lacks_the_list() {
    assert_eq!(decode_job_list(b"[1, 2]").unwrap_err(), DecodeError::Missing(JobField::JobSummaryList));
}

#[test]
fn non_object_record_has_every_field_absent() {
    let doc = br#"{ "jobSummaryList": [42] }"#;
    assert_eq!(decode_job_list(doc).unwrap_err(), DecodeError::Missing(JobField::JobArn));
}

#[test]
fn first_faulty_record_ends_the_decode() {
    let doc = br#"{ "jobSummaryList": [
      { "jobArn": "a", "jobId": "b", "jobName": "c", "createdAt": 1 },
      { "jobArn": "a2", "jobId": "b2", "jobName": "c2" }
    ] }"#;
    assert_eq!(decode_job_list(doc).unwrap_err(), DecodeError::Missing(JobField::CreatedAt));
}

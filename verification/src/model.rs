use vstd::prelude::*;

verus! {

/// One completed job as the batch service reports it: three identifying
/// strings and three instants, each a whole count of seconds since the
/// UNIX epoch. An absent start or stop instant is recorded as the epoch
/// itself (0 seconds).
#[derive(Debug)]
pub struct JobRecord {
    pub job_arn: String,
    pub job_id: String,
    pub job_name: String,
    pub created_at: i64,
    pub started_at: i64,
    pub stopped_at: i64,
}

/// Mathematical image of a `JobRecord`: character sequences and
/// unbounded integers.
pub struct JobRecordView {
    pub job_arn: Seq<char>,
    pub job_id: Seq<char>,
    pub job_name: Seq<char>,
    pub created_at: int,
    pub started_at: int,
    pub stopped_at: int,
}

impl View for JobRecord {
    type V = JobRecordView;

    open spec fn view(&self) -> JobRecordView {
        JobRecordView {
            job_arn: self.job_arn@,
            job_id: self.job_id@,
            job_name: self.job_name@,
            created_at: self.created_at as int,
            started_at: self.started_at as int,
            stopped_at: self.stopped_at as int,
        }
    }
}

impl DeepView for JobRecord {
    type V = JobRecordView;

    open spec fn deep_view(&self) -> JobRecordView {
        self.view()
    }
}

/// The three per-job durations, in whole seconds.
#[derive(Clone, Copy, Debug)]
pub struct DurationTriple {
    pub cold: i64,
    pub run: i64,
    pub total: i64,
}

/// Mathematical image of a `DurationTriple`.
pub struct DurationTripleView {
    pub cold: int,
    pub run: int,
    pub total: int,
}

impl View for DurationTriple {
    type V = DurationTripleView;

    open spec fn view(&self) -> DurationTripleView {
        DurationTripleView {
            cold: self.cold as int,
            run: self.run as int,
            total: self.total as int,
        }
    }
}

impl DeepView for DurationTriple {
    type V = DurationTripleView;

    open spec fn deep_view(&self) -> DurationTripleView {
        self.view()
    }
}

/// Which columns the report shows. `all` supersedes the three column
/// flags and selects the full three-column table with its header.
#[derive(Clone, Copy, PartialEq, Eq, Structural, Debug)]
pub struct Selector {
    pub cold: bool,
    pub run: bool,
    pub total: bool,
    pub all: bool,
}

/// How a duration is scaled before it is reported.
///
/// The service hands back second-precision instants, so the difference of
/// two of them is already a whole count of seconds. `LegacyMillis`
/// nevertheless divides that count by 1000 once more, which collapses most
/// realistic durations to zero; it is kept as an explicit policy for
/// parity with reports produced that way. `TrueSeconds` reports the plain
/// second count.
#[derive(Clone, Copy, PartialEq, Eq, Structural, Debug)]
pub enum UnitPolicy {
    LegacyMillis,
    TrueSeconds,
}

/// A field of the job-list document.
#[derive(Clone, Copy, PartialEq, Eq, Structural, Debug)]
pub enum JobField {
    JobSummaryList,
    JobArn,
    JobId,
    JobName,
    CreatedAt,
    StartedAt,
    StoppedAt,
}

/// Why a job-list document failed to decode.
///
/// `Syntax` is malformed JSON; `Missing` names a required field that the
/// document lacks; `WrongType` names a field carried with the wrong JSON
/// type. A record with several faults reports the first one in the order
/// `jobArn`, `jobId`, `jobName`, `createdAt`, `startedAt`, `stoppedAt`.
#[derive(Clone, Copy, PartialEq, Eq, Structural, Debug)]
pub enum DecodeError {
    Syntax,
    Missing(JobField),
    WrongType(JobField),
}

} // verus!

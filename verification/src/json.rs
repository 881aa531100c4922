use crate::model::{DecodeError, JobField, JobRecord, JobRecordView};
use vstd::prelude::*;

verus! {

/// serde_json's dynamic JSON value. Opaque here: it is read only through
/// the trusted accessors below, whose contracts speak of its image under
/// `val_view`.
#[verifier::external_type_specification]
#[verifier::external_body]
pub struct ExJsonValue(serde_json::Value);

/// serde_json's parse error. Opaque; it is mapped at once to
/// `DecodeError::Syntax` and nothing of it is read.
#[verifier::external_type_specification]
#[verifier::external_body]
pub struct ExJsonError(serde_json::Error);

/// Mathematical image of a JSON value, as far as the decoder reads one:
/// an object is a map from member name to value (a repeated name keeps
/// its last value), an array a sequence, a string a character sequence.
/// Numbers are split into the integers that fit a signed 64-bit word and
/// the rest (fractions and larger magnitudes), which is the one
/// distinction the decoder draws.
pub enum JsonView {
    Null,
    Bool(bool),
    IntNum(i64),
    OtherNum,
    Str(Seq<char>),
    Arr(Seq<JsonView>),
    Obj(Map<Seq<char>, JsonView>),
}

/// What parsing the bytes yields: `None` on malformed JSON, otherwise the
/// document's image. The outcome is a function of the bytes alone; only
/// the trusted parser below says anything about this name.
pub uninterp spec fn parsed_doc(bytes: Seq<u8>) -> Option<JsonView>;

/// The image of one in-memory JSON value. The trusted accessors below
/// each fix what it is for the variant they read.
pub uninterp spec fn val_view(v: serde_json::Value) -> JsonView;

/// Relies on `serde_json::from_slice`: parses the bytes as one JSON
/// document, and fails exactly on malformed JSON.
#[verifier::external_body]
fn parse_document(bytes: &[u8]) -> (r: Result<serde_json::Value, serde_json::Error>)
    ensures
        r is Ok <==> parsed_doc(bytes@) is Some,
        r is Ok ==> val_view(r->Ok_0) == parsed_doc(bytes@)->Some_0,
{
    serde_json::from_slice::<serde_json::Value>(bytes)
}

/// Relies on `serde_json::Value::get`: the member of a JSON object under
/// the given key, or `None` when the value is no object or lacks the key.
#[verifier::external_body]
fn get_member<'a>(v: &'a serde_json::Value, key: &str) -> (r: Option<&'a serde_json::Value>)
    ensures
        match r {
            Some(m) => val_view(*v) is Obj && val_view(*v)->Obj_0.contains_key(key@) && val_view(
                *m,
            ) == val_view(*v)->Obj_0[key@],
            None => !(val_view(*v) is Obj) || !val_view(*v)->Obj_0.contains_key(key@),
        },
{
    v.get(key)
}

/// Relies on `serde_json::Value::as_array`: the elements of a JSON array,
/// or `None` when the value is no array.
#[verifier::external_body]
fn member_as_array<'a>(v: &'a serde_json::Value) -> (r: Option<&'a Vec<serde_json::Value>>)
    ensures
        match r {
            Some(a) => val_view(*v) is Arr && a@.len() == val_view(*v)->Arr_0.len() && forall|
                i: int,
            |
                0 <= i < a@.len() ==> val_view(#[trigger] a@[i]) == val_view(*v)->Arr_0[i],
            None => !(val_view(*v) is Arr),
        },
{
    v.as_array()
}

/// Relies on `serde_json::Value::as_i64`: the value of a JSON integer
/// that fits a signed 64-bit word, or `None` otherwise (fractions and
/// larger magnitudes included).
#[verifier::external_body]
fn member_as_int(v: &serde_json::Value) -> (r: Option<i64>)
    ensures
        match r {
            Some(n) => val_view(*v) == JsonView::IntNum(n),
            None => !(val_view(*v) is IntNum),
        },
{
    v.as_i64()
}

/// Relies on `serde_json::Value::as_str`: the contents of a JSON string,
/// or `None` when the value is no string.
#[verifier::external_body]
fn member_as_string(v: &serde_json::Value) -> (r: Option<String>)
    ensures
        match r {
            Some(s) => val_view(*v) is Str && s@ == val_view(*v)->Str_0,
            None => !(val_view(*v) is Str),
        },
{
    match v.as_str() {
        Some(s) => Some(s.to_owned()),
        None => None,
    }
}

/// How one field of a record arrived in the document: not at all, with
/// the wrong JSON type, or carrying a value.
pub enum FieldState<T> {
    Absent,
    WrongType,
    Present(T),
}

/// The image of an extracted string field.
pub open spec fn fs_view(f: FieldState<String>) -> FieldState<Seq<char>> {
    match f {
        FieldState::Absent => FieldState::Absent,
        FieldState::WrongType => FieldState::WrongType,
        FieldState::Present(s) => FieldState::Present(s@),
    }
}

/// Does this field state fault the record? An absent field faults it only
/// when the field is required.
pub open spec fn field_has_err<T>(f: FieldState<T>, required: bool) -> bool {
    match f {
        FieldState::Absent => required,
        FieldState::WrongType => true,
        FieldState::Present(_) => false,
    }
}

/// The fault a field state reports, named after the field.
pub open spec fn field_err<T>(f: FieldState<T>, which: JobField) -> DecodeError {
    match f {
        FieldState::Absent => DecodeError::Missing(which),
        _ => DecodeError::WrongType(which),
    }
}

/// The instant a field state carries; an absent optional instant is the
/// epoch.
pub open spec fn instant_of(f: FieldState<i64>) -> i64 {
    if f is Present {
        f->Present_0
    } else {
        0
    }
}

/// How a string member of a record object arrives: absent when the value
/// is no object or lacks the member, faulted when the member is no
/// string.
pub open spec fn str_member(d: JsonView, key: Seq<char>) -> FieldState<Seq<char>> {
    if !(d is Obj) || !d->Obj_0.contains_key(key) {
        FieldState::Absent
    } else if d->Obj_0[key] is Str {
        FieldState::Present(d->Obj_0[key]->Str_0)
    } else {
        FieldState::WrongType
    }
}

/// How an integer member of a record object arrives.
pub open spec fn int_member(d: JsonView, key: Seq<char>) -> FieldState<i64> {
    if !(d is Obj) || !d->Obj_0.contains_key(key) {
        FieldState::Absent
    } else if d->Obj_0[key] is IntNum {
        FieldState::Present(d->Obj_0[key]->IntNum_0)
    } else {
        FieldState::WrongType
    }
}

/// The record built from six extracted fields, or the first fault in the
/// order `jobArn`, `jobId`, `jobName`, `createdAt`, `startedAt`,
/// `stoppedAt`. The three strings and the creation instant are required;
/// absent start and stop instants default to the epoch.
pub open spec fn job_from_members(
    arn: FieldState<Seq<char>>,
    id: FieldState<Seq<char>>,
    name: FieldState<Seq<char>>,
    created: FieldState<i64>,
    started: FieldState<i64>,
    stopped: FieldState<i64>,
) -> Result<JobRecordView, DecodeError> {
    if field_has_err(arn, true) {
        Err(field_err(arn, JobField::JobArn))
    } else if field_has_err(id, true) {
        Err(field_err(id, JobField::JobId))
    } else if field_has_err(name, true) {
        Err(field_err(name, JobField::JobName))
    } else if field_has_err(created, true) {
        Err(field_err(created, JobField::CreatedAt))
    } else if field_has_err(started, false) {
        Err(field_err(started, JobField::StartedAt))
    } else if field_has_err(stopped, false) {
        Err(field_err(stopped, JobField::StoppedAt))
    } else {
        Ok(
            JobRecordView {
                job_arn: arn->Present_0,
                job_id: id->Present_0,
                job_name: name->Present_0,
                created_at: created->Present_0 as int,
                started_at: instant_of(started) as int,
                stopped_at: instant_of(stopped) as int,
            },
        )
    }
}

/// What decoding one record object yields: `job_from_members` on its six
/// members.
pub open spec fn decode_job_spec(d: JsonView) -> Result<JobRecordView, DecodeError> {
    job_from_members(
        str_member(d, "jobArn"@),
        str_member(d, "jobId"@),
        str_member(d, "jobName"@),
        int_member(d, "createdAt"@),
        int_member(d, "startedAt"@),
        int_member(d, "stoppedAt"@),
    )
}

/// The records of elements that all decode, in order.
pub open spec fn records_of(elems: Seq<JsonView>) -> Seq<JobRecordView> {
    Seq::new(elems.len(), |k: int| decode_job_spec(elems[k])->Ok_0)
}

/// What decoding an element sequence yields: every record in order, or
/// the first element's fault.
pub open spec fn decode_records(elems: Seq<JsonView>) -> Result<Seq<JobRecordView>, DecodeError>
    decreases elems.len(),
{
    if elems.len() == 0 {
        Ok(Seq::empty())
    } else {
        match decode_job_spec(elems[0]) {
            Err(e) => Err(e),
            Ok(j) => match decode_records(elems.drop_first()) {
                Err(e) => Err(e),
                Ok(rest) => Ok(seq![j].add(rest)),
            },
        }
    }
}

/// What decoding a whole document yields: the records of its
/// `jobSummaryList` member, or the member's own fault.
pub open spec fn decode_list_spec(d: JsonView) -> Result<Seq<JobRecordView>, DecodeError> {
    if !(d is Obj) || !d->Obj_0.contains_key("jobSummaryList"@) {
        Err(DecodeError::Missing(JobField::JobSummaryList))
    } else if !(d->Obj_0["jobSummaryList"@] is Arr) {
        Err(DecodeError::WrongType(JobField::JobSummaryList))
    } else {
        decode_records(d->Obj_0["jobSummaryList"@]->Arr_0)
    }
}

proof fn lemma_decode_records_all_ok(elems: Seq<JsonView>)
    requires
        forall|k: int| 0 <= k < elems.len() ==> decode_job_spec(#[trigger] elems[k]) is Ok,
    ensures
        decode_records(elems) is Ok,
        decode_records(elems)->Ok_0 == records_of(elems),
    decreases elems.len(),
{
    if elems.len() == 0 {
        assert(decode_records(elems)->Ok_0 =~= records_of(elems));
    } else {
        assert forall|k: int| 0 <= k < elems.drop_first().len() implies decode_job_spec(
            #[trigger] elems.drop_first()[k],
        ) is Ok by {
            assert(elems.drop_first()[k] == elems[k + 1]);
        }
        lemma_decode_records_all_ok(elems.drop_first());
        assert(decode_records(elems)->Ok_0 =~= records_of(elems));
    }
}

proof fn lemma_decode_records_first_err(elems: Seq<JsonView>, i: int)
    requires
        0 <= i < elems.len(),
        forall|k: int| 0 <= k < i ==> decode_job_spec(#[trigger] elems[k]) is Ok,
        decode_job_spec(elems[i]) is Err,
    ensures
        decode_records(elems) is Err,
        decode_records(elems)->Err_0 == decode_job_spec(elems[i])->Err_0,
    decreases i,
{
    if i == 0 {
    } else {
        assert forall|k: int| 0 <= k < i - 1 implies decode_job_spec(
            #[trigger] elems.drop_first()[k],
        ) is Ok by {
            assert(elems.drop_first()[k] == elems[k + 1]);
        }
        assert(elems.drop_first()[i - 1] == elems[i]);
        lemma_decode_records_first_err(elems.drop_first(), i - 1);
    }
}

/// Round-trip law: a document whose `jobSummaryList` member is an array
/// of record objects that all decode yields exactly those records, one
/// per element, in their document order.
pub proof fn lemma_round_trip(d: JsonView)
    requires
        d is Obj,
        d->Obj_0.contains_key("jobSummaryList"@),
        d->Obj_0["jobSummaryList"@] is Arr,
        forall|k: int|
            0 <= k < d->Obj_0["jobSummaryList"@]->Arr_0.len() ==> decode_job_spec(
                #[trigger] d->Obj_0["jobSummaryList"@]->Arr_0[k],
            ) is Ok,
    ensures
        decode_list_spec(d) is Ok,
        decode_list_spec(d)->Ok_0 == records_of(d->Obj_0["jobSummaryList"@]->Arr_0),
{
    lemma_decode_records_all_ok(d->Obj_0["jobSummaryList"@]->Arr_0);
}

/// Builds one job record from its six extracted fields, or reports the
/// first faulty field.
pub fn finish_job(
    arn: FieldState<String>,
    id: FieldState<String>,
    name: FieldState<String>,
    created: FieldState<i64>,
    started: FieldState<i64>,
    stopped: FieldState<i64>,
) -> (r: Result<JobRecord, DecodeError>)
    ensures
        ({
            let expected = job_from_members(
                fs_view(arn),
                fs_view(id),
                fs_view(name),
                created,
                started,
                stopped,
            );
            match r {
                Ok(j) => expected is Ok && j@ == expected->Ok_0,
                Err(e) => expected is Err && e == expected->Err_0,
            }
        }),
{
    let job_arn = match arn {
        FieldState::Absent => {
            return Err(DecodeError::Missing(JobField::JobArn));
        },
        FieldState::WrongType => {
            return Err(DecodeError::WrongType(JobField::JobArn));
        },
        FieldState::Present(s) => s,
    };
    let job_id = match id {
        FieldState::Absent => {
            return Err(DecodeError::Missing(JobField::JobId));
        },
        FieldState::WrongType => {
            return Err(DecodeError::WrongType(JobField::JobId));
        },
        FieldState::Present(s) => s,
    };
    let job_name = match name {
        FieldState::Absent => {
            return Err(DecodeError::Missing(JobField::JobName));
        },
        FieldState::WrongType => {
            return Err(DecodeError::WrongType(JobField::JobName));
        },
        FieldState::Present(s) => s,
    };
    let created_at = match created {
        FieldState::Absent => {
            return Err(DecodeError::Missing(JobField::CreatedAt));
        },
        FieldState::WrongType => {
            return Err(DecodeError::WrongType(JobField::CreatedAt));
        },
        FieldState::Present(v) => v,
    };
    let started_at = match started {
        FieldState::Absent => 0i64,
        FieldState::WrongType => {
            return Err(DecodeError::WrongType(JobField::StartedAt));
        },
        FieldState::Present(v) => v,
    };
    let stopped_at = match stopped {
        FieldState::Absent => 0i64,
        FieldState::WrongType => {
            return Err(DecodeError::WrongType(JobField::StoppedAt));
        },
        FieldState::Present(v) => v,
    };
    Ok(JobRecord { job_arn, job_id, job_name, created_at, started_at, stopped_at })
}

/// Extracts a string member of a record object.
fn str_field(v: &serde_json::Value, key: &str) -> (r: FieldState<String>)
    ensures
        fs_view(r) == str_member(val_view(*v), key@),
{
    match get_member(v, key) {
        None => FieldState::Absent,
        Some(f) => match member_as_string(f) {
            None => FieldState::WrongType,
            Some(s) => FieldState::Present(s),
        },
    }
}

/// Extracts an integer member of a record object.
fn int_field(v: &serde_json::Value, key: &str) -> (r: FieldState<i64>)
    ensures
        r == int_member(val_view(*v), key@),
{
    match get_member(v, key) {
        None => FieldState::Absent,
        Some(f) => match member_as_int(f) {
            None => FieldState::WrongType,
            Some(n) => FieldState::Present(n),
        },
    }
}

/// Decodes one job record from its JSON value: exactly
/// `decode_job_spec` of the value's image. Unknown members are ignored.
pub fn decode_job(v: &serde_json::Value) -> (r: Result<JobRecord, DecodeError>)
    ensures
        ({
            let expected = decode_job_spec(val_view(*v));
            match r {
                Ok(j) => expected is Ok && j@ == expected->Ok_0,
                Err(e) => expected is Err && e == expected->Err_0,
            }
        }),
{
    let arn = str_field(v, "jobArn");
    let id = str_field(v, "jobId");
    let name = str_field(v, "jobName");
    let created = int_field(v, "createdAt");
    let started = int_field(v, "startedAt");
    let stopped = int_field(v, "stoppedAt");
    finish_job(arn, id, name, created, started, stopped)
}

/// Decodes a whole job-list document from raw bytes. Malformed JSON is
/// `Syntax`; otherwise the result is exactly `decode_list_spec` of the
/// parsed document's image: the records of its `jobSummaryList` array in
/// their document order, or the first fault met.
#[verifier::loop_isolation(false)]
pub fn decode_job_list(bytes: &[u8]) -> (r: Result<Vec<JobRecord>, DecodeError>)
    ensures
        parsed_doc(bytes@) is None ==> r is Err && r->Err_0 == DecodeError::Syntax,
        parsed_doc(bytes@) is Some ==> ({
            let expected = decode_list_spec(parsed_doc(bytes@)->Some_0);
            match r {
                Ok(v) => expected is Ok && v.deep_view() == expected->Ok_0,
                Err(e) => expected is Err && e == expected->Err_0,
            }
        }),
{
    let doc = match parse_document(bytes) {
        Ok(v) => v,
        Err(_) => {
            return Err(DecodeError::Syntax);
        },
    };
    let ghost dv = val_view(doc);
    let list = match get_member(&doc, "jobSummaryList") {
        Some(l) => l,
        None => {
            return Err(DecodeError::Missing(JobField::JobSummaryList));
        },
    };
    let arr = match member_as_array(list) {
        Some(a) => a,
        None => {
            return Err(DecodeError::WrongType(JobField::JobSummaryList));
        },
    };
    let ghost elems = val_view(*list)->Arr_0;
    let mut out: Vec<JobRecord> = Vec::new();
    let mut i: usize = 0;
    while i < arr.len()
        invariant
            i <= arr@.len(),
            arr@.len() == elems.len(),
            forall|k: int| 0 <= k < arr@.len() ==> val_view(#[trigger] arr@[k]) == elems[k],
            out@.len() == i,
            forall|k: int|
                0 <= k < i ==> decode_job_spec(#[trigger] elems[k]) is Ok
                    && out.deep_view()[k] == decode_job_spec(elems[k])->Ok_0,
        decreases arr@.len() - i,
    {
        match decode_job(&arr[i]) {
            Ok(j) => out.push(j),
            Err(e) => {
                proof {
                    lemma_decode_records_first_err(elems, i as int);
                }
                return Err(e);
            },
        }
        i = i + 1;
    }
    proof {
        lemma_decode_records_all_ok(elems);
        assert(out.deep_view() =~= records_of(elems));
    }
    Ok(out)
}


} // verus!

use crate::model::{DurationTriple, DurationTripleView, JobRecord, JobRecordView, UnitPolicy};
use vstd::prelude::*;

verus! {

/// Signed division by 1000 that truncates toward zero, as the machine's
/// signed `/` does.
pub open spec fn div1000_trunc(x: int) -> int {
    if x >= 0 {
        x / 1000
    } else {
        -((-x) / 1000)
    }
}

/// Cold-start seconds of a job: start minus creation.
pub open spec fn raw_cold(j: JobRecordView) -> int {
    j.started_at - j.created_at
}

/// Run seconds of a job: stop minus start.
pub open spec fn raw_run(j: JobRecordView) -> int {
    j.stopped_at - j.started_at
}

/// Total seconds of a job: stop minus creation, the sum of the other two.
pub open spec fn raw_total(j: JobRecordView) -> int {
    j.stopped_at - j.created_at
}

/// The duration triple a job reports under `policy`.
pub open spec fn triple_of(j: JobRecordView, policy: UnitPolicy) -> DurationTripleView {
    match policy {
        UnitPolicy::TrueSeconds => DurationTripleView {
            cold: raw_cold(j),
            run: raw_run(j),
            total: raw_total(j),
        },
        UnitPolicy::LegacyMillis => DurationTripleView {
            cold: div1000_trunc(raw_cold(j)),
            run: div1000_trunc(raw_run(j)),
            total: div1000_trunc(raw_total(j)),
        },
    }
}

/// Has the job started? A job still waiting carries the epoch as its
/// start instant.
pub open spec fn has_started(j: JobRecordView) -> bool {
    j.started_at != 0
}

/// The jobs that survive the start filter, in their given order.
pub open spec fn surviving(jobs: Seq<JobRecordView>) -> Seq<JobRecordView> {
    jobs.filter(|j: JobRecordView| has_started(j))
}

/// The triples of a job sequence, in order.
pub open spec fn triples_of(jobs: Seq<JobRecordView>, policy: UnitPolicy) -> Seq<
    DurationTripleView,
> {
    jobs.map_values(|j: JobRecordView| triple_of(j, policy))
}

/// The machine arithmetic asks that each delta of a job fit in a signed
/// 64-bit word; the word's least value is also left out so that the
/// magnitude of every delta fits as well.
pub open spec fn deltas_fit(j: JobRecordView) -> bool {
    &&& -(i64::MAX as int) <= raw_cold(j) <= i64::MAX as int
    &&& -(i64::MAX as int) <= raw_run(j) <= i64::MAX as int
    &&& -(i64::MAX as int) <= raw_total(j) <= i64::MAX as int
}

/// The duration triples of the started jobs, in order.
pub open spec fn durations_spec(jobs: Seq<JobRecordView>, policy: UnitPolicy) -> Seq<
    DurationTripleView,
>
    decreases jobs.len(),
{
    if jobs.len() == 0 {
        Seq::empty()
    } else {
        let rest = durations_spec(jobs.drop_last(), policy);
        if has_started(jobs.last()) {
            rest.push(triple_of(jobs.last(), policy))
        } else {
            rest
        }
    }
}

/// Filtering and order law: the reported triples are exactly the triples
/// of the surviving jobs, kept in their input order, and every surviving
/// job has a start instant other than the epoch.
pub proof fn lemma_durations_filtered_ordered(jobs: Seq<JobRecordView>, policy: UnitPolicy)
    ensures
        durations_spec(jobs, policy) == triples_of(surviving(jobs), policy),
        forall|i: int|
            0 <= i < surviving(jobs).len() ==> has_started(#[trigger] surviving(jobs)[i]),
        durations_spec(jobs, policy).len() == surviving(jobs).len(),
        forall|i: int|
            0 <= i < surviving(jobs).len() ==> #[trigger] durations_spec(jobs, policy)[i]
                == triple_of(surviving(jobs)[i], policy),
    decreases jobs.len(),
{
    reveal(Seq::filter);
    if jobs.len() == 0 {
        assert(durations_spec(jobs, policy) =~= triples_of(surviving(jobs), policy));
    } else {
        lemma_durations_filtered_ordered(jobs.drop_last(), policy);
        if has_started(jobs.last()) {
            assert(surviving(jobs) == surviving(jobs.drop_last()).push(jobs.last()));
            assert(triples_of(surviving(jobs), policy) =~= triples_of(
                surviving(jobs.drop_last()),
                policy,
            ).push(triple_of(jobs.last(), policy)));
        } else {
            assert(surviving(jobs) == surviving(jobs.drop_last()));
        }
        assert(durations_spec(jobs, policy) =~= triples_of(surviving(jobs), policy));
    }
}

/// Additivity law: under `TrueSeconds` units, every reported triple
/// satisfies total == cold + run exactly.
pub proof fn lemma_total_is_cold_plus_run(jobs: Seq<JobRecordView>)
    ensures
        forall|i: int|
            0 <= i < durations_spec(jobs, UnitPolicy::TrueSeconds).len()
                ==> (#[trigger] durations_spec(jobs, UnitPolicy::TrueSeconds)[i]).total
                == durations_spec(jobs, UnitPolicy::TrueSeconds)[i].cold + durations_spec(
                jobs,
                UnitPolicy::TrueSeconds,
            )[i].run,
{
    lemma_durations_filtered_ordered(jobs, UnitPolicy::TrueSeconds);
}

/// Divides by 1000, truncating toward zero, as the legacy scaling of the
/// report does.
fn div1000_i64(x: i64) -> (r: i64)
    requires
        x != i64::MIN,
    ensures
        r as int == div1000_trunc(x as int),
{
    if x >= 0 {
        ((x as u64) / 1000) as i64
    } else {
        let m = ((-x) as u64) / 1000;
        -(m as i64)
    }
}

/// Computes the duration triples of the started jobs, in their input
/// order, under the given unit policy.
pub fn compute_durations(jobs: &Vec<JobRecord>, policy: UnitPolicy) -> (r: Vec<DurationTriple>)
    requires
        forall|i: int| 0 <= i < jobs@.len() ==> deltas_fit(#[trigger] jobs@[i]@),
    ensures
        r.deep_view() == durations_spec(jobs.deep_view(), policy),
{
    let ghost jv = jobs.deep_view();
    let mut out: Vec<DurationTriple> = Vec::new();
    let mut i: usize = 0;
    proof {
        assert(out.deep_view() =~= durations_spec(jv.take(0), policy));
    }
    while i < jobs.len()
        invariant
            i <= jobs@.len(),
            jv == jobs.deep_view(),
            forall|k: int| 0 <= k < jobs@.len() ==> deltas_fit(#[trigger] jobs@[k]@),
            out.deep_view() == durations_spec(jv.take(i as int), policy),
        decreases jobs@.len() - i,
    {
        let ghost old_out = out.deep_view();
        let rec = &jobs[i];
        proof {
            assert(jv[i as int] == jobs@[i as int]@);
            assert(deltas_fit(jv[i as int]));
        }
        if rec.started_at != 0 {
            let cold: i64;
            let run: i64;
            let total: i64;
            match policy {
                UnitPolicy::TrueSeconds => {
                    cold = rec.started_at - rec.created_at;
                    run = rec.stopped_at - rec.started_at;
                    total = rec.stopped_at - rec.created_at;
                },
                UnitPolicy::LegacyMillis => {
                    cold = div1000_i64(rec.started_at - rec.created_at);
                    run = div1000_i64(rec.stopped_at - rec.started_at);
                    total = div1000_i64(rec.stopped_at - rec.created_at);
                },
            }
            let t = DurationTriple { cold, run, total };
            proof {
                assert(t@ == triple_of(jv[i as int], policy));
            }
            out.push(t);
            proof {
                assert(out.deep_view() =~= old_out.push(t@));
            }
        }
        proof {
            assert(jv.take(i + 1).drop_last() =~= jv.take(i as int));
            assert(jv.take(i + 1).last() == jv[i as int]);
            assert(out.deep_view() =~= durations_spec(jv.take(i + 1), policy));
        }
        i = i + 1;
    }
    proof {
        assert(jv.take(jobs@.len() as int) =~= jv);
    }
    out
}

} // verus!

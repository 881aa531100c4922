use crate::durations::{compute_durations, deltas_fit, durations_spec};
use crate::model::{DurationTriple, DurationTripleView, JobRecord, JobRecordView, Selector,
    UnitPolicy};
use crate::numfmt::{dec_int, field_10, i64_to_string, lemma_dec_int_shape, pad10, pad_to_10};
use vstd::prelude::*;
use vstd::string::StringExecFns;

verus! {

/// The table's header: the three column names, each left-justified in a
/// ten-character field, separated by single spaces.
pub open spec fn header_row() -> Seq<char> {
    pad10(seq!['c', 'o', 'l', 'd']).add(seq![' ']).add(pad10(seq!['r', 'u', 'n'])).add(
        seq![' '],
    ).add(pad10(seq!['t', 'i', 'm', 'e']))
}

/// One table line: the three counts, each left-justified in a
/// ten-character field, separated by single spaces.
pub open spec fn table_row(t: DurationTripleView) -> Seq<char> {
    pad10(dec_int(t.cold)).add(seq![' ']).add(pad10(dec_int(t.run))).add(seq![' ']).add(
        pad10(dec_int(t.total)),
    )
}

/// One column cell of the subset mode: the count with an 's' suffix.
pub open spec fn secs_cell(v: int) -> Seq<char> {
    dec_int(v).add(seq!['s'])
}

/// One line of the column-subset mode. Each of the three slots is either
/// the suffixed count or empty; the slots are joined with single spaces
/// and the line is trimmed at both ends, so an empty middle slot leaves
/// two spaces between its neighbours.
pub open spec fn subset_line(t: DurationTripleView, sel: Selector) -> Seq<char> {
    let c = secs_cell(t.cold);
    let r = secs_cell(t.run);
    let tt = secs_cell(t.total);
    let sp = seq![' '];
    if sel.cold && sel.run && sel.total {
        c.add(sp).add(r).add(sp).add(tt)
    } else if sel.cold && sel.run {
        c.add(sp).add(r)
    } else if sel.cold && sel.total {
        c.add(sp).add(sp).add(tt)
    } else if sel.run && sel.total {
        r.add(sp).add(tt)
    } else if sel.cold {
        c
    } else if sel.run {
        r
    } else if sel.total {
        tt
    } else {
        Seq::empty()
    }
}

/// The table lines of a triple sequence, in order.
pub open spec fn table_lines(ts: Seq<DurationTripleView>) -> Seq<Seq<char>> {
    ts.map_values(|t: DurationTripleView| table_row(t))
}

/// The column-subset lines of a triple sequence, in order.
pub open spec fn subset_lines(ts: Seq<DurationTripleView>, sel: Selector) -> Seq<Seq<char>> {
    ts.map_values(|t: DurationTripleView| subset_line(t, sel))
}

/// Every line of the report on `jobs`: the full table when `all` is set,
/// the selected columns otherwise.
pub open spec fn report_lines(
    jobs: Seq<JobRecordView>,
    sel: Selector,
    policy: UnitPolicy,
) -> Seq<Seq<char>> {
    let ts = durations_spec(jobs, policy);
    if sel.all {
        seq![header_row()].add(table_lines(ts))
    } else {
        subset_lines(ts, sel)
    }
}

/// Header law: with `all` set, the first report line is the header row,
/// and exactly one line follows per reported triple.
pub proof fn lemma_header_first(jobs: Seq<JobRecordView>, sel: Selector, policy: UnitPolicy)
    requires
        sel.all,
    ensures
        report_lines(jobs, sel, policy).len() == durations_spec(jobs, policy).len() + 1,
        report_lines(jobs, sel, policy)[0] == header_row(),
{
}

/// Selector-collapse law: with `all` unset and exactly one column flag
/// set, each line is that column's count with its 's' suffix alone, with
/// no leading or trailing whitespace.
pub proof fn lemma_selector_collapse(t: DurationTripleView, sel: Selector)
    requires
        !sel.all,
        (sel.cold && !sel.run && !sel.total) || (!sel.cold && sel.run && !sel.total) || (!sel.cold
            && !sel.run && sel.total),
    ensures
        sel.cold ==> subset_line(t, sel) == secs_cell(t.cold),
        sel.run ==> subset_line(t, sel) == secs_cell(t.run),
        sel.total ==> subset_line(t, sel) == secs_cell(t.total),
        subset_line(t, sel).len() > 0,
        subset_line(t, sel)[0] != ' ',
        subset_line(t, sel)[subset_line(t, sel).len() - 1] == 's',
{
    if sel.cold {
        lemma_dec_int_shape(t.cold);
    } else if sel.run {
        lemma_dec_int_shape(t.run);
    } else {
        lemma_dec_int_shape(t.total);
    }
}

/// The count with its 's' suffix, as a string.
fn secs_string(v: i64) -> (r: String)
    ensures
        r@ == secs_cell(v as int),
{
    let mut s = i64_to_string(v);
    s.append("s");
    proof {
        reveal_strlit("s");
        assert(s@ =~= secs_cell(v as int));
    }
    s
}

/// The header row as a string.
fn header_string() -> (r: String)
    ensures
        r@ == header_row(),
{
    proof {
        reveal_strlit("cold");
        reveal_strlit("run");
        reveal_strlit("time");
        reveal_strlit(" ");
        assert("cold"@ =~= seq!['c', 'o', 'l', 'd']);
        assert("run"@ =~= seq!['r', 'u', 'n']);
        assert("time"@ =~= seq!['t', 'i', 'm', 'e']);
    }
    let mut h = pad_to_10("cold".to_owned(), 4);
    h.append(" ");
    let middle = pad_to_10("run".to_owned(), 3);
    h.append(middle.as_str());
    h.append(" ");
    let last = pad_to_10("time".to_owned(), 4);
    h.append(last.as_str());
    proof {
        assert(h@ =~= header_row());
    }
    h
}

/// One table line as a string.
fn table_row_string(t: &DurationTriple) -> (r: String)
    ensures
        r@ == table_row(t@),
{
    let mut s = field_10(t.cold);
    s.append(" ");
    let mid = field_10(t.run);
    s.append(mid.as_str());
    s.append(" ");
    let last = field_10(t.total);
    s.append(last.as_str());
    proof {
        reveal_strlit(" ");
        assert(s@ =~= table_row(t@));
    }
    s
}

/// One column-subset line as a string.
fn subset_line_string(t: &DurationTriple, sel: Selector) -> (r: String)
    ensures
        r@ == subset_line(t@, sel),
{
    proof {
        reveal_strlit(" ");
    }
    if sel.cold && sel.run && sel.total {
        let mut s = secs_string(t.cold);
        s.append(" ");
        let m = secs_string(t.run);
        s.append(m.as_str());
        s.append(" ");
        let e = secs_string(t.total);
        s.append(e.as_str());
        proof {
            assert(s@ =~= subset_line(t@, sel));
        }
        s
    } else if sel.cold && sel.run {
        let mut s = secs_string(t.cold);
        s.append(" ");
        let m = secs_string(t.run);
        s.append(m.as_str());
        proof {
            assert(s@ =~= subset_line(t@, sel));
        }
        s
    } else if sel.cold && sel.total {
        let mut s = secs_string(t.cold);
        s.append(" ");
        s.append(" ");
        let e = secs_string(t.total);
        s.append(e.as_str());
        proof {
            assert(s@ =~= subset_line(t@, sel));
        }
        s
    } else if sel.run && sel.total {
        let mut s = secs_string(t.run);
        s.append(" ");
        let e = secs_string(t.total);
        s.append(e.as_str());
        proof {
            assert(s@ =~= subset_line(t@, sel));
        }
        s
    } else if sel.cold {
        secs_string(t.cold)
    } else if sel.run {
        secs_string(t.run)
    } else if sel.total {
        secs_string(t.total)
    } else {
        let s = String::new();
        proof {
            assert(s@ =~= subset_line(t@, sel));
        }
        s
    }
}

/// Renders the full table: the header row, then one line per triple.
pub fn format_table(times: &Vec<DurationTriple>) -> (r: Vec<String>)
    ensures
        r.deep_view() == seq![header_row()].add(table_lines(times.deep_view())),
{
    let ghost ts = times.deep_view();
    let mut r: Vec<String> = Vec::new();
    r.push(header_string());
    proof {
        assert(r.deep_view() =~= seq![header_row()].add(table_lines(ts.take(0))));
    }
    let mut i: usize = 0;
    while i < times.len()
        invariant
            i <= times@.len(),
            ts == times.deep_view(),
            r.deep_view() == seq![header_row()].add(table_lines(ts.take(i as int))),
        decreases times@.len() - i,
    {
        let ghost old_r = r.deep_view();
        let line = table_row_string(&times[i]);
        proof {
            assert(ts[i as int] == times@[i as int]@);
        }
        r.push(line);
        proof {
            assert(table_lines(ts.take(i + 1)) =~= table_lines(ts.take(i as int)).push(
                table_row(ts[i as int]),
            ));
            assert(r.deep_view() =~= old_r.push(table_row(ts[i as int])));
            assert(r.deep_view() =~= seq![header_row()].add(table_lines(ts.take(i + 1))));
        }
        i = i + 1;
    }
    proof {
        assert(ts.take(times@.len() as int) =~= ts);
    }
    r
}

/// Renders the selected columns: one line per triple, no header.
pub fn format_columns(times: &Vec<DurationTriple>, sel: Selector) -> (r: Vec<String>)
    ensures
        r.deep_view() == subset_lines(times.deep_view(), sel),
{
    let ghost ts = times.deep_view();
    let mut r: Vec<String> = Vec::new();
    proof {
        assert(r.deep_view() =~= subset_lines(ts.take(0), sel));
    }
    let mut i: usize = 0;
    while i < times.len()
        invariant
            i <= times@.len(),
            ts == times.deep_view(),
            r.deep_view() == subset_lines(ts.take(i as int), sel),
        decreases times@.len() - i,
    {
        let ghost old_r = r.deep_view();
        let line = subset_line_string(&times[i], sel);
        proof {
            assert(ts[i as int] == times@[i as int]@);
        }
        r.push(line);
        proof {
            assert(subset_lines(ts.take(i + 1), sel) =~= subset_lines(ts.take(i as int), sel).push(
                subset_line(ts[i as int], sel),
            ));
            assert(r.deep_view() =~= old_r.push(subset_line(ts[i as int], sel)));
        }
        i = i + 1;
    }
    proof {
        assert(ts.take(times@.len() as int) =~= ts);
    }
    r
}

/// Renders the whole report on the decoded jobs: filters the unstarted
/// ones, computes their durations under `policy`, and formats them as the
/// selector asks.
pub fn render_report(jobs: &Vec<JobRecord>, sel: Selector, policy: UnitPolicy) -> (r: Vec<String>)
    requires
        forall|i: int| 0 <= i < jobs@.len() ==> deltas_fit(#[trigger] jobs@[i]@),
    ensures
        r.deep_view() == report_lines(jobs.deep_view(), sel, policy),
{
    let times = compute_durations(jobs, policy);
    if sel.all {
        format_table(&times)
    } else {
        format_columns(&times, sel)
    }
}

/// Whether every job's deltas fit the machine arithmetic; the report
/// functions ask this of their callers.
pub fn deltas_fit_checked(jobs: &Vec<JobRecord>) -> (b: bool)
    ensures
        b == forall|i: int| 0 <= i < jobs@.len() ==> deltas_fit(#[trigger] jobs@[i]@),
{
    let mut i: usize = 0;
    while i < jobs.len()
        invariant
            i <= jobs@.len(),
            forall|k: int| 0 <= k < i ==> deltas_fit(#[trigger] jobs@[k]@),
        decreases jobs@.len() - i,
    {
        let rec = &jobs[i];
        let created = rec.created_at as i128;
        let started = rec.started_at as i128;
        let stopped = rec.stopped_at as i128;
        let lo = -(i64::MAX as i128);
        let hi = i64::MAX as i128;
        let cold_ok = lo <= started - created && started - created <= hi;
        let run_ok = lo <= stopped - started && stopped - started <= hi;
        let total_ok = lo <= stopped - created && stopped - created <= hi;
        if !(cold_ok && run_ok && total_ok) {
            proof {
                assert(!deltas_fit(jobs@[i as int]@));
            }
            return false;
        }
        proof {
            assert(deltas_fit(jobs@[i as int]@));
        }
        i = i + 1;
    }
    true
}

} // verus!

//! The timelines of one request, built from its audit record.

use vstd::prelude::*;
use vstd::string::{StrSliceExecFns, StringExecFns};
use crate::log_muskie::{
    audit_problem,
    audited,
    header_get,
    header_lookup,
    mri_audit_entry,
    AuditError,
    MuskieAuditInfo,
    MuskieLogEntry,
    MuskieLogEntryHeaderValue,
};
use crate::time::{
    formatted_parse,
    in_range,
    parse_utc,
    parse_with_format,
    utc_parse,
    Duration,
    Timestamp,
    TIME_LIMIT,
};
use crate::timeline::{
    insert_index,
    lemma_insert_index_bounds,
    lemma_prepend_goes_first,
    Timeline,
    TimelineBuilder,
};

verus! {

/// The user's validated input: which Muskie log to read.
pub struct MantaLogParserInput {
    pub mli_muskie_filename: String,
}

/// What is known of a request: its audit record, its overall timeline and
/// the timeline of Muskie's request handlers.
pub struct MantaRequestInfo {
    pub mri_muskie: MuskieAuditInfo,
    pub mri_timeline_overall: Timeline,
    pub mri_timeline_muskie: Timeline,
}

/// Why the timelines of a request cannot be built.
#[derive(Clone, Copy, Debug, PartialEq, Eq, Structural)]
pub enum TimelineError {
    /// The timer at this index was not recorded as an integer.
    TimerNotInteger(usize),
    /// The timer at this index is negative.
    TimerNegative(usize),
    /// The timers from this index on add up to more than the range of times.
    TimerOutOfRange(usize),
    /// The request has no "date" header.
    MissingDate,
    /// The request's "date" header is not a string.
    DateNotString,
}

/// The duration recorded by timer `k` (0 when it is not an integer).
pub open spec fn timer_micros(ts: Seq<(String, Option<i64>)>, k: int) -> int {
    match ts[k].1 {
        Some(d) => d as int,
        None => 0,
    }
}

/// Total duration of the timers from index `k` on.
pub open spec fn suffix_total(ts: Seq<(String, Option<i64>)>, k: int) -> int
    decreases ts.len() - k,
{
    if k < 0 || k >= ts.len() {
        0
    } else {
        timer_micros(ts, k) + suffix_total(ts, k + 1)
    }
}

/// The problem with timer `k`, given that the later ones have none: the
/// handlers are placed back to front from the end `end`.
pub open spec fn timer_problem(ts: Seq<(String, Option<i64>)>, k: int, end: int) -> Option<
    TimelineError,
> {
    match ts[k].1 {
        None => Some(TimelineError::TimerNotInteger(k as usize)),
        Some(d) => if d < 0 {
            Some(TimelineError::TimerNegative(k as usize))
        } else if end - suffix_total(ts, k) < -TIME_LIMIT {
            Some(TimelineError::TimerOutOfRange(k as usize))
        } else {
            None
        },
    }
}

/// The first problem met among the timers from index `k` on, going from the
/// last one back.
pub open spec fn timers_problem(ts: Seq<(String, Option<i64>)>, k: int, end: int) -> Option<
    TimelineError,
>
    decreases ts.len() - k,
{
    if k < 0 || k >= ts.len() {
        None
    } else {
        match timers_problem(ts, k + 1, end) {
            Some(e) => Some(e),
            None => timer_problem(ts, k, end),
        }
    }
}

/// `tl` is the timeline of the request handlers whose timers are `ts`, ending
/// at `end`: an instantaneous event where processing began, then each handler
/// in the order of the timers, placed back to back so that the last one ends
/// at `end`, then an instantaneous event at `end` where the audit entry was
/// made.
pub open spec fn handlers_timeline(ts: Seq<(String, Option<i64>)>, end: int, tl: Timeline) -> bool {
    let n = ts.len() as int;
    let evs = tl.events_seq();
    &&& tl.wf()
    &&& tl.end_at() == end
    &&& tl.height_at() == 0
    &&& evs.len() == n + 2
    &&& evs[0].text() == "muskie began processing request"@
    &&& evs[0].length() == 0
    &&& evs[0].start_at() == end - suffix_total(ts, 0)
    &&& evs[0].nested() is None
    &&& forall|k: int|
        0 <= k < n ==> {
            &&& (#[trigger] evs[k + 1]).text() == ts[k].0@
            &&& evs[k + 1].length() == timer_micros(ts, k)
            &&& evs[k + 1].start_at() == end - suffix_total(ts, k)
            &&& evs[k + 1].nested() is None
        }
    &&& evs[n + 1].text() == "muskie created audit log entry"@
    &&& evs[n + 1].length() == 0
    &&& evs[n + 1].start_at() == end
    &&& evs[n + 1].nested() is None
}

proof fn lemma_timers_problem_stays(ts: Seq<(String, Option<i64>)>, k: int, end: int)
    requires
        0 <= k < ts.len(),
        timers_problem(ts, k, end) is Some,
    ensures
        timers_problem(ts, 0, end) == timers_problem(ts, k, end),
    decreases k,
{
    if k > 0 {
        lemma_timers_problem_stays(ts, k - 1, end);
    }
}

proof fn lemma_suffix_total_nonneg(ts: Seq<(String, Option<i64>)>, k: int, end: int)
    requires
        0 <= k,
        timers_problem(ts, k, end) is None,
    ensures
        suffix_total(ts, k) >= 0,
    decreases ts.len() - k,
{
    if k < ts.len() {
        lemma_suffix_total_nonneg(ts, k + 1, end);
    }
}

/// Builds the timeline of the request handlers from the timers of `info`,
/// back to front from the time of the audit entry.
pub fn mri_handlers_timeline(info: &MuskieAuditInfo) -> (r: Result<Timeline, TimelineError>)
    requires
        info.mai_time.valid(),
    ensures
        match timers_problem(info.mai_timers->Timers_0@, 0, info.mai_time.micros as int) {
            Some(e) => r == Err::<Timeline, TimelineError>(e),
            None => r matches Ok(tl) && handlers_timeline(
                info.mai_timers->Timers_0@,
                info.mai_time.micros as int,
                tl,
            ),
        },
{
    let end = info.mai_time;
    let ghost e = end.micros as int;
    let mut b = TimelineBuilder::new_ending(end);
    let ghost b0 = b;
    b.prepend("muskie created audit log entry", &Duration { micros: 0 });
    proof {
        lemma_prepend_goes_first(b0, b, "muskie created audit log entry"@, 0);
    }
    let timers = info.mai_timers.map();
    let ghost ts = timers@;
    let n = timers.len();
    let mut i: usize = n;
    let mut anchor: i64 = end.micros;
    while i > 0
        invariant
            ts == timers@,
            ts == info.mai_timers->Timers_0@,
            n == ts.len(),
            e == end.micros,
            end == info.mai_time,
            end.valid(),
            i <= n,
            b.wf(),
            b.end_at() == e,
            b.height_at() == 0,
            timers_problem(ts, i as int, e) is None,
            anchor == e - suffix_total(ts, i as int),
            b.anchor() == anchor,
            b.pending().len() == n - i + 1,
            forall|j: int|
                0 <= j < n - i ==> {
                    &&& (#[trigger] b.pending()[j]).text() == ts[i + j].0@
                    &&& b.pending()[j].length() == timer_micros(ts, i + j)
                    &&& b.pending()[j].start_at() == e - suffix_total(ts, i + j)
                    &&& b.pending()[j].nested() is None
                },
            b.pending()[n - i].text() == "muskie created audit log entry"@,
            b.pending()[n - i].length() == 0,
            b.pending()[n - i].start_at() == e,
            b.pending()[n - i].nested() is None,
        decreases i,
    {
        let k = i - 1;
        let d = match timers[k].1 {
            Some(d) => d,
            None => {
                proof {
                    assert(timers_problem(ts, k as int, e) == Some(TimelineError::TimerNotInteger(k)));
                    lemma_timers_problem_stays(ts, k as int, e);
                }
                return Err(TimelineError::TimerNotInteger(k));
            },
        };
        if d < 0 {
            proof {
                assert(timers_problem(ts, k as int, e) == Some(TimelineError::TimerNegative(k)));
                lemma_timers_problem_stays(ts, k as int, e);
            }
            return Err(TimelineError::TimerNegative(k));
        }
        if d > anchor + TIME_LIMIT {
            proof {
                assert(suffix_total(ts, k as int) == d + suffix_total(ts, i as int));
                assert(timers_problem(ts, k as int, e) == Some(TimelineError::TimerOutOfRange(k)));
                lemma_timers_problem_stays(ts, k as int, e);
            }
            return Err(TimelineError::TimerOutOfRange(k));
        }
        let ghost before = b;
        b.prepend(timers[k].0.as_str(), &Duration { micros: d });
        proof {
            lemma_prepend_goes_first(before, b, ts[k as int].0@, d as int);
            assert forall|j: int| 0 <= j < n - k implies {
                &&& (#[trigger] b.pending()[j]).text() == ts[k + j].0@
                &&& b.pending()[j].length() == timer_micros(ts, k + j)
                &&& b.pending()[j].start_at() == e - suffix_total(ts, k + j)
                &&& b.pending()[j].nested() is None
            } by {
                if j > 0 {
                    assert(b.pending()[j] == before.pending()[j - 1]);
                }
            }
            assert(b.pending()[n - k] == before.pending()[n - i]);
        }
        anchor = anchor - d;
        i = k;
    }
    let ghost before = b;
    b.prepend("muskie began processing request", &Duration { micros: 0 });
    proof {
        lemma_prepend_goes_first(before, b, "muskie began processing request"@, 0);
    }
    let tl = b.finish();
    proof {
        let evs = tl.events_seq();
        assert forall|k: int| 0 <= k < n implies {
            &&& (#[trigger] evs[k + 1]).text() == ts[k].0@
            &&& evs[k + 1].length() == timer_micros(ts, k)
            &&& evs[k + 1].start_at() == e - suffix_total(ts, k)
            &&& evs[k + 1].nested() is None
        } by {
            assert(b.pending()[k + 1] == before.pending()[k]);
            assert(evs[k + 1].te_wall_start == b.tlb_events@[k + 1].tbe_wall_start);
        }
        assert(b.pending()[n + 1] == before.pending()[n as int]);
        assert(evs[n + 1].te_wall_start == b.tlb_events@[n + 1].tbe_wall_start);
        assert(evs[0].te_wall_start == b.tlb_events@[0].tbe_wall_start);
    }
    Ok(tl)
}

/// What the client's "date" header `s` reads as, in microseconds since the
/// epoch: a date in the form of RFC 1123 when it ends in " GMT" (read with an
/// offset of +00:00 in its place), else an RFC 3339 timestamp.
pub open spec fn client_time_of(s: Seq<char>) -> Option<int> {
    if s.len() >= 4 && s.subrange(s.len() - 4, s.len() as int) == " GMT"@ {
        formatted_parse(s.subrange(0, s.len() - 4) + " +00:00"@, "%a, %d %h %Y %T %:z"@)
    } else {
        utc_parse(s)
    }
}

/// Reads the client's "date" header: `Ok(None)` when it does not read as a
/// time, an error when it is missing or not a string.
pub fn mri_client_timestamp(info: &MuskieAuditInfo) -> (r: Result<Option<i64>, TimelineError>)
    ensures
        match header_lookup(info.mai_req_headers@, "date"@) {
            None => r == Err::<Option<i64>, TimelineError>(TimelineError::MissingDate),
            Some(MuskieLogEntryHeaderValue::Int(_)) => r == Err::<Option<i64>, TimelineError>(
                TimelineError::DateNotString,
            ),
            Some(MuskieLogEntryHeaderValue::Str(s)) => r matches Ok(t) && match t {
                Some(m) => client_time_of(s@) == Some(m as int),
                None => client_time_of(s@) is None,
            },
        },
{
    let value = match header_get(&info.mai_req_headers, "date") {
        None => return Err(TimelineError::MissingDate),
        Some(v) => v,
    };
    let client_time = match value.as_string() {
        None => return Err(TimelineError::DateNotString),
        Some(s) => s.as_str(),
    };
    let n = client_time.unicode_len();
    if n >= 4 {
        let tail = client_time.substring_char(n - 4, n).to_owned();
        if tail == " GMT".to_owned() {
            let mut text = client_time.substring_char(0, n - 4).to_owned();
            text.append(" +00:00");
            return Ok(parse_with_format(text.as_str(), "%a, %d %h %Y %T %:z"));
        }
    }
    Ok(parse_utc(client_time))
}

/// `tl` is the overall timeline of a request whose handlers' timers are `ts`
/// and whose audit entry was made at `end`: the client's Date header at
/// `client`, when that is a time in range, and one event spanning the
/// handlers' timeline, in wall-clock order (the handlers first on a tie).
pub open spec fn overall_timeline(
    ts: Seq<(String, Option<i64>)>,
    end: int,
    client: Option<int>,
    tl: Timeline,
) -> bool {
    let start = end - suffix_total(ts, 0);
    let evs = tl.events_seq();
    let shows_client = client matches Some(t) && in_range(t);
    let m = if shows_client && client->Some_0 < start {
        1int
    } else {
        0int
    };
    &&& tl.wf()
    &&& tl.end_at() == end
    &&& evs.len() == if shows_client {
        2int
    } else {
        1int
    }
    &&& evs[m].text() == "muskie handlers"@
    &&& evs[m].start_at() == start
    &&& evs[m].length() == suffix_total(ts, 0)
    &&& evs[m].nested() matches Some(h) && handlers_timeline(ts, end, *h)
    &&& shows_client ==> {
        let c = 1 - m;
        &&& evs[c].text() == "client generated Date header"@
        &&& evs[c].start_at() == client->Some_0
        &&& evs[c].length() == 0
        &&& evs[c].nested() is None
    }
}

/// Builds the overall timeline of the request and the timeline of its
/// handlers, with the client's Date header read as `client` (microseconds
/// since the epoch).
pub fn mri_timelines_at(info: &MuskieAuditInfo, client: Option<i64>) -> (r: Result<
    (Timeline, Timeline),
    TimelineError,
>)
    requires
        info.mai_time.valid(),
    ensures
        match timers_problem(info.mai_timers->Timers_0@, 0, info.mai_time.micros as int) {
            Some(e) => r == Err::<(Timeline, Timeline), TimelineError>(e),
            None => r matches Ok((overall, handlers)) && handlers_timeline(
                info.mai_timers->Timers_0@,
                info.mai_time.micros as int,
                handlers,
            ) && overall_timeline(
                info.mai_timers->Timers_0@,
                info.mai_time.micros as int,
                match client {
                    Some(t) => Some(t as int),
                    None => None,
                },
                overall,
            ),
        },
{
    let ghost ts = info.mai_timers->Timers_0@;
    let ghost e = info.mai_time.micros as int;
    let attached = match mri_handlers_timeline(info) {
        Ok(t) => t,
        Err(err) => return Err(err),
    };
    let handlers = match mri_handlers_timeline(info) {
        Ok(t) => t,
        Err(err) => return Err(err),
    };
    proof {
        lemma_suffix_total_nonneg(ts, 0, e);
    }
    let mut b = TimelineBuilder::new_ending(info.mai_time);
    let ghost b0 = b;
    match client {
        Some(t) => if -TIME_LIMIT <= t && t <= TIME_LIMIT {
            b.add("client generated Date header", &Timestamp { micros: t }, &Duration { micros: 0 }, None);
        },
        None => {},
    }
    let ghost b1 = b;
    b.add_timeline("muskie handlers", Box::new(attached));
    let ghost b2 = b;
    let overall = b.finish();
    proof {
        lemma_insert_index_bounds(b1.pending(), attached.start_at());
        if b0 != b1 {
            let t = client->Some_0 as int;
            lemma_insert_index_bounds(b0.pending(), t);
            assert(b1.pending().len() == 1);
            let k = insert_index(b1.pending(), attached.start_at());
            assert(b1.pending()[0].start_at() == t);
            if t < attached.start_at() {
                assert(b1.pending().drop_first().len() == 0);
                assert(k == 1);
            } else {
                assert(k == 0);
            }
            assert(overall.tl_events@[0].te_wall_start == b2.tlb_events@[0].tbe_wall_start);
            assert(overall.tl_events@[1].te_wall_start == b2.tlb_events@[1].tbe_wall_start);
        } else {
            assert(overall.tl_events@[0].te_wall_start == b2.tlb_events@[0].tbe_wall_start);
        }
    }
    Ok((overall, handlers))
}

/// Builds the overall timeline of the request and the timeline of its
/// handlers, reading the client's "date" header for the former.
pub fn mri_timelines(info: &MuskieAuditInfo) -> (r: Result<(Timeline, Timeline), TimelineError>)
    requires
        info.mai_time.valid(),
    ensures
        match timers_problem(info.mai_timers->Timers_0@, 0, info.mai_time.micros as int) {
            Some(e) => r == Err::<(Timeline, Timeline), TimelineError>(e),
            None => match header_lookup(info.mai_req_headers@, "date"@) {
                None => r == Err::<(Timeline, Timeline), TimelineError>(TimelineError::MissingDate),
                Some(MuskieLogEntryHeaderValue::Int(_)) => r == Err::<
                    (Timeline, Timeline),
                    TimelineError,
                >(TimelineError::DateNotString),
                Some(MuskieLogEntryHeaderValue::Str(s)) => r matches Ok((overall, handlers))
                    && handlers_timeline(
                    info.mai_timers->Timers_0@,
                    info.mai_time.micros as int,
                    handlers,
                ) && overall_timeline(
                    info.mai_timers->Timers_0@,
                    info.mai_time.micros as int,
                    client_time_of(s@),
                    overall,
                ),
            },
        },
{
    match mri_client_timestamp(info) {
        Ok(client) => mri_timelines_at(info, client),
        Err(e) => match mri_handlers_timeline(info) {
            Err(te) => Err(te),
            Ok(_) => Err(e),
        },
    }
}

/// Why what is known of a request cannot be put together.
#[derive(Clone, Copy, Debug, PartialEq, Eq, Structural)]
pub enum RequestError {
    /// The log holds no entry.
    NoEntry,
    /// The entry is not a well-formed audit entry.
    Audit(AuditError),
    /// The request's timelines cannot be built.
    Timeline(TimelineError),
}

/// Puts together what is known of the request that the first of `entries`
/// records: its audit record and its timelines.
pub fn mri_request_info(entries: Vec<MuskieLogEntry>) -> (r: Result<MantaRequestInfo, RequestError>)
    ensures
        entries@.len() == 0 ==> r == Err::<MantaRequestInfo, RequestError>(RequestError::NoEntry),
        entries@.len() > 0 ==> ({
            let mle = entries@[0];
            match audit_problem(mle, utc_parse(mle.mle_time@)) {
                Some(e) => r == Err::<MantaRequestInfo, RequestError>(RequestError::Audit(e)),
                None => {
                    let end = utc_parse(mle.mle_time@)->Some_0;
                    let ts = mle.mle_request->Some_0.mle_req_timers->Timers_0@;
                    match timers_problem(ts, 0, end) {
                        Some(e) => r == Err::<MantaRequestInfo, RequestError>(
                            RequestError::Timeline(e),
                        ),
                        None => match header_lookup(
                            mle.mle_request->Some_0.mle_req_headers@,
                            "date"@,
                        ) {
                            None => r == Err::<MantaRequestInfo, RequestError>(
                                RequestError::Timeline(TimelineError::MissingDate),
                            ),
                            Some(MuskieLogEntryHeaderValue::Int(_)) => r == Err::<
                                MantaRequestInfo,
                                RequestError,
                            >(RequestError::Timeline(TimelineError::DateNotString)),
                            Some(MuskieLogEntryHeaderValue::Str(s)) => r matches Ok(info)
                                && audited(mle, end, info.mri_muskie) && handlers_timeline(
                                ts,
                                end,
                                info.mri_timeline_muskie,
                            ) && overall_timeline(
                                ts,
                                end,
                                client_time_of(s@),
                                info.mri_timeline_overall,
                            ),
                        },
                    }
                },
            }
        }),
{
    let mut entries = entries;
    if entries.len() == 0 {
        return Err(RequestError::NoEntry);
    }
    let entry = entries.swap_remove(0);
    let audit = match mri_audit_entry(entry) {
        Ok(a) => a,
        Err(e) => return Err(RequestError::Audit(e)),
    };
    match mri_timelines(&audit) {
        Ok((overall, handlers)) => Ok(
            MantaRequestInfo {
                mri_muskie: audit,
                mri_timeline_overall: overall,
                mri_timeline_muskie: handlers,
            },
        ),
        Err(e) => Err(RequestError::Timeline(e)),
    }
}

} // verus!

//! Muskie audit log entries: their fields as recorded, and their validation
//! into a record of a completed request.

use vstd::prelude::*;
use crate::numbers::{decimal_text, i64_of, parse_i64, u64_text};
use crate::time::{in_range, parse_utc, utc_from_timestamp, utc_parse, Duration, Timestamp};

verus! {

/// Header names with their values, in the order recorded.
pub type Headers = Vec<(String, MuskieLogEntryHeaderValue)>;

/// The entries read from one Muskie log file.
pub struct MuskieLog {
    pub muskie_filename: String,
    pub muskie_entries: Vec<MuskieLogEntry>,
}

/// One bunyan-formatted Muskie log entry, with the fields an audit entry has.
#[derive(Debug, Clone, PartialEq)]
pub struct MuskieLogEntry {
    pub mle_hostname: String,
    pub mle_pid: u64,
    pub mle_level: i16,
    pub mle_time: String,
    pub mle_bunyan_version: u16,
    pub mle_message: String,
    pub mle_audit: Option<bool>,
    pub mle_operation: Option<String>,
    pub mle_latency: Option<u32>,
    pub mle_route: Option<String>,
    pub mle_remote_address_logical: Option<String>,
    pub mle_billable_operation: Option<String>,
    pub mle_request_header_length: Option<u16>,
    pub mle_request: Option<MuskieLogEntryRequest>,
    pub mle_response_header_length: Option<u16>,
    pub mle_response: Option<MuskieLogEntryResponse>,
    pub mle_error: Option<MuskieErrorValue>,
    pub mle_objectid: Option<String>,
    pub mle_shard_entry: Option<String>,
    pub mle_shard_parent: Option<String>,
    pub mle_sharks_contacted: Option<Vec<MuskieLogSharkContacted>>,
    pub mle_bytes_transferred: Option<MuskieLogEntryMaybeNumeric>,
}

#[derive(Debug, Clone, PartialEq)]
pub struct MuskieLogEntryRequest {
    pub mle_req_method: String,
    pub mle_req_url: String,
    pub mle_req_http_version: String,
    pub mle_req_owner: String,
    pub mle_req_headers: Headers,
    pub mle_req_caller: Option<MuskieLogEntryCaller>,
    pub mle_req_timers: MuskieLogEntryTimers,
}

#[derive(Debug, Clone, PartialEq)]
pub struct MuskieLogEntryCaller {
    pub mle_req_caller_login: String,
    pub mle_req_caller_uuid: String,
    pub mle_req_caller_groups: Vec<String>,
}

/// A header value, recorded either as a string or as an integer.
#[derive(Debug, Clone, PartialEq)]
pub enum MuskieLogEntryHeaderValue {
    Str(String),
    Int(i64),
}

/// The request handlers' timers, in the order recorded: each handler's name
/// and its duration in microseconds, when that was recorded as an integer
/// that fits in an `i64`.
#[derive(Debug, Clone, PartialEq)]
pub enum MuskieLogEntryTimers {
    Timers(Vec<(String, Option<i64>)>),
}

#[derive(Debug, Clone, PartialEq)]
pub struct MuskieLogEntryResponse {
    pub mle_response_status_code: u16,
    pub mle_response_headers: Headers,
}

/// The recorded error: an error object, or a flag (`false` for none).
#[derive(Debug, Clone, PartialEq)]
pub enum MuskieErrorValue {
    Error(MuskieErrorObject),
    NoError(bool),
}

#[derive(Debug, Clone, PartialEq)]
pub struct MuskieErrorObject {
    pub mle_error_stack: String,
    pub mle_error_name: String,
    pub mle_error_message: String,
}

/// A value that should be a number but may have been recorded as a string.
#[derive(Debug, Clone, PartialEq)]
pub enum MuskieLogEntryMaybeNumeric {
    Str(String),
    Int(i64),
}

/// One storage node contacted while serving the request, as recorded.
#[derive(Debug, Clone, PartialEq)]
pub struct MuskieLogSharkContacted {
    pub mle_shark_storid: String,
    pub mle_shark_result: String,
    pub mle_shark_latency_ttfb: u64,
    pub mle_shark_latency_total: u64,
    pub mle_shark_time_start: u64,
}

impl MuskieLogEntryHeaderValue {
    /// The value as a string, or `None` when it was recorded as an integer.
    pub fn as_string(&self) -> (r: Option<&String>)
        ensures
            match self {
                MuskieLogEntryHeaderValue::Str(s) => r == Some(s),
                MuskieLogEntryHeaderValue::Int(_) => r is None,
            },
    {
        match self {
            MuskieLogEntryHeaderValue::Str(s) => Some(s),
            MuskieLogEntryHeaderValue::Int(_) => None,
        }
    }

    /// The value as an integer: the recorded integer, or the integer that the
    /// recorded string writes in decimal; `None` when it writes none.
    pub fn as_i64(&self) -> (r: Option<i64>)
        ensures
            match self {
                MuskieLogEntryHeaderValue::Int(v) => r == Some(*v),
                MuskieLogEntryHeaderValue::Str(s) => r == i64_of(s@),
            },
    {
        match self {
            MuskieLogEntryHeaderValue::Int(v) => Some(*v),
            MuskieLogEntryHeaderValue::Str(s) => parse_i64(s.as_str()),
        }
    }
}

impl MuskieLogEntryMaybeNumeric {
    pub open spec fn numeric(&self) -> Option<i64> {
        match self {
            MuskieLogEntryMaybeNumeric::Int(v) => Some(*v),
            MuskieLogEntryMaybeNumeric::Str(s) => i64_of(s@),
        }
    }

    /// The value as an integer: the recorded integer, or the integer that the
    /// recorded string writes in decimal; `None` when it writes none.
    pub fn as_i64(&self) -> (r: Option<i64>)
        ensures
            r == self.numeric(),
    {
        match self {
            MuskieLogEntryMaybeNumeric::Int(v) => Some(*v),
            MuskieLogEntryMaybeNumeric::Str(s) => parse_i64(s.as_str()),
        }
    }
}

impl MuskieLogEntryTimers {
    /// The timers, in the order recorded.
    pub fn map(&self) -> (r: &Vec<(String, Option<i64>)>)
        ensures
            match self {
                MuskieLogEntryTimers::Timers(v) => r == v,
            },
    {
        match self {
            MuskieLogEntryTimers::Timers(v) => v,
        }
    }
}

/// The value of the first header in `h` named `name`.
pub open spec fn header_lookup(h: Seq<(String, MuskieLogEntryHeaderValue)>, name: Seq<char>) -> Option<
    MuskieLogEntryHeaderValue,
>
    decreases h.len(),
{
    if h.len() == 0 {
        None
    } else if h[0].0@ == name {
        Some(h[0].1)
    } else {
        header_lookup(h.drop_first(), name)
    }
}

/// Looks up the header named `name`.
pub fn header_get<'a>(headers: &'a Headers, name: &str) -> (r: Option<&'a MuskieLogEntryHeaderValue>)
    ensures
        match r {
            Some(v) => header_lookup(headers@, name@) == Some(*v),
            None => header_lookup(headers@, name@) is None,
        },
{
    let key = name.to_owned();
    let n = headers.len();
    let mut i: usize = 0;
    assert(headers@.subrange(0, n as int) =~= headers@);
    while i < n
        invariant
            i <= n,
            n == headers@.len(),
            key@ == name@,
            header_lookup(headers@, name@) == header_lookup(headers@.subrange(i as int, n as int), name@),
        decreases n - i,
    {
        let ghost rest = headers@.subrange(i as int, n as int);
        assert(rest[0] == headers@[i as int]);
        if headers[i].0 == key {
            return Some(&headers[i].1);
        }
        assert(rest.drop_first() =~= headers@.subrange(i + 1, n as int));
        i = i + 1;
    }
    None
}

/// A field that a completed request's audit entry must have.
#[derive(Clone, Copy, Debug, PartialEq, Eq, Structural)]
pub enum AuditField {
    Operation,
    Route,
    LogicalRemoteAddress,
    BillableOperation,
    Req,
    Res,
    ReqCaller,
    ReqHeaderLength,
    ResHeaderLength,
}

/// Why a log entry is not a well-formed audit entry.
#[derive(Clone, Copy, Debug, PartialEq, Eq, Structural)]
pub enum AuditError {
    /// The bunyan version is not 0.
    BunyanVersion(u16),
    /// The entry is not marked `"audit": true`.
    NotAudit,
    /// The entry's time is not a timestamp in range.
    BadTime,
    /// A required field is missing.
    Missing(AuditField),
    /// The error value is the flag `true`.
    ErrorIsTrue,
    /// The contacted storage node at this index has a result other than
    /// "ok" or "fail".
    SharkResult(usize),
    /// The contacted storage node at this index has a start time out of range.
    SharkStartTime(usize),
    /// The contacted storage node at this index has a latency out of range.
    SharkLatency(usize),
    /// The bytes transferred are recorded as a string that is not an integer.
    BytesTransferred,
}

/// The valid parts of a log entry that records a completed request.
pub struct MuskieAuditInfo {
    pub mai_hostname: String,
    pub mai_pid: String,
    pub mai_time: Timestamp,
    pub mai_operation: String,
    pub mai_route: String,
    pub mai_remote_address_logical: String,
    pub mai_billable_operation: String,
    pub mai_timers: MuskieLogEntryTimers,
    pub mai_req_header_length: u16,
    pub mai_req_method: String,
    pub mai_req_url: String,
    pub mai_req_http_version: String,
    pub mai_req_owner_uuid: String,
    pub mai_req_headers: Headers,
    pub mai_req_caller_operator: bool,
    pub mai_req_caller_uuid: String,
    pub mai_req_caller_login: String,
    pub mai_response_header_length: u16,
    pub mai_response_status_code: u16,
    pub mai_response_headers: Headers,
    pub mai_error: Option<MuskieErrorObject>,
    pub mai_objectid: Option<String>,
    pub mai_shard_entry: Option<String>,
    pub mai_shard_parent: Option<String>,
    pub mai_bytes_transferred: Option<i64>,
    pub mai_sharks_contacted: Option<Vec<MuskieAuditSharkContacted>>,
}

/// A contacted storage node, validated.
pub struct MuskieAuditSharkContacted {
    pub mai_shark_storid: String,
    pub mai_shark_success: bool,
    pub mai_shark_latency_ttfb: Duration,
    pub mai_shark_latency_total: Duration,
    pub mai_shark_time_start: Timestamp,
}

/// What is wrong with the contacted storage node `s`, at index `i`, if
/// anything.
pub open spec fn shark_problem(s: MuskieLogSharkContacted, i: int) -> Option<AuditError> {
    if !(s.mle_shark_result@ == "ok"@ || s.mle_shark_result@ == "fail"@) {
        Some(AuditError::SharkResult(i as usize))
    } else if !in_range(s.mle_shark_time_start * 1000) {
        Some(AuditError::SharkStartTime(i as usize))
    } else if s.mle_shark_latency_ttfb * 1000 > i64::MAX || s.mle_shark_latency_total * 1000
        > i64::MAX {
        Some(AuditError::SharkLatency(i as usize))
    } else {
        None
    }
}

/// The problem of the first of the first `n` storage nodes that has one.
pub open spec fn sharks_problem(s: Seq<MuskieLogSharkContacted>, n: int) -> Option<AuditError>
    decreases n,
{
    if n <= 0 {
        None
    } else {
        match sharks_problem(s, n - 1) {
            Some(e) => Some(e),
            None => shark_problem(s[n - 1], n - 1),
        }
    }
}

/// `a` is the validated form of the contacted storage node `s`: latencies in
/// milliseconds and the start in milliseconds since the epoch.
pub open spec fn shark_audited(s: MuskieLogSharkContacted, a: MuskieAuditSharkContacted) -> bool {
    &&& a.mai_shark_storid@ == s.mle_shark_storid@
    &&& a.mai_shark_success == (s.mle_shark_result@ == "ok"@)
    &&& a.mai_shark_latency_ttfb.micros == s.mle_shark_latency_ttfb * 1000
    &&& a.mai_shark_latency_total.micros == s.mle_shark_latency_total * 1000
    &&& a.mai_shark_time_start.micros == s.mle_shark_time_start * 1000
}

/// Validates the storage nodes that `mle` records as contacted: `None` when
/// it records none, else each of them validated, or the problem of the first
/// one that has a problem.
pub fn mri_audit_sharks(mle: &MuskieLogEntry) -> (r: Result<
    Option<Vec<MuskieAuditSharkContacted>>,
    AuditError,
>)
    ensures
        match mle.mle_sharks_contacted {
            None => r == Ok::<Option<Vec<MuskieAuditSharkContacted>>, AuditError>(None),
            Some(raw) => match sharks_problem(raw@, raw@.len() as int) {
                Some(e) => r == Err::<Option<Vec<MuskieAuditSharkContacted>>, AuditError>(e),
                None => r matches Ok(Some(v)) && v@.len() == raw@.len() && forall|i: int|
                    0 <= i < raw@.len() ==> shark_audited(raw@[i], #[trigger] v@[i]),
            },
        },
{
    match &mle.mle_sharks_contacted {
        None => Ok(None),
        Some(rawsharks) => {
            let ok = "ok".to_owned();
            let fail = "fail".to_owned();
            let mut sharks: Vec<MuskieAuditSharkContacted> = Vec::new();
            let n = rawsharks.len();
            let mut i: usize = 0;
            while i < n
                invariant
                    i <= n,
                    n == rawsharks@.len(),
                    mle.mle_sharks_contacted == Some(*rawsharks),
                    ok@ == "ok"@,
                    fail@ == "fail"@,
                    sharks_problem(rawsharks@, i as int) is None,
                    sharks@.len() == i,
                    forall|j: int| 0 <= j < i ==> shark_audited(rawsharks@[j], #[trigger] sharks@[j]),
                decreases n - i,
            {
                let rawshark = &rawsharks[i];
                let is_ok = rawshark.mle_shark_result == ok;
                if !is_ok && !(rawshark.mle_shark_result == fail) {
                    proof {
                        assert(sharks_problem(rawsharks@, i as int + 1) == Some(AuditError::SharkResult(i)));
                        lemma_sharks_problem_stays(rawsharks@, i as int + 1, n as int);
                    }
                    return Err(AuditError::SharkResult(i));
                }
                let ms = rawshark.mle_shark_time_start;
                let secs = (ms / 1000) as i64;
                let nsecs = (1_000_000 * (ms % 1000)) as u32;
                proof {
                    assert(secs * 1_000_000 + nsecs / 1000 == ms * 1000) by (nonlinear_arith)
                        requires
                            secs == ms / 1000,
                            nsecs == 1_000_000 * (ms % 1000),
                    ;
                }
                let start = utc_from_timestamp(secs, nsecs);
                let start_micros = match start {
                    Some(m) => m,
                    None => 0,
                };
                if start.is_none() || !(-crate::time::TIME_LIMIT <= start_micros
                    && start_micros <= crate::time::TIME_LIMIT) {
                    proof {
                        assert(sharks_problem(rawsharks@, i as int + 1) == Some(AuditError::SharkStartTime(i)));
                        lemma_sharks_problem_stays(rawsharks@, i as int + 1, n as int);
                    }
                    return Err(AuditError::SharkStartTime(i));
                }
                let ttfb = rawshark.mle_shark_latency_ttfb;
                let total = rawshark.mle_shark_latency_total;
                if ttfb > 9_223_372_036_854_775 || total > 9_223_372_036_854_775 {
                    proof {
                        assert(sharks_problem(rawsharks@, i as int + 1) == Some(AuditError::SharkLatency(i)));
                        lemma_sharks_problem_stays(rawsharks@, i as int + 1, n as int);
                    }
                    return Err(AuditError::SharkLatency(i));
                }
                assert(sharks_problem(rawsharks@, i as int + 1) is None);
                sharks.push(
                    MuskieAuditSharkContacted {
                        mai_shark_storid: rawshark.mle_shark_storid.clone(),
                        mai_shark_success: is_ok,
                        mai_shark_latency_ttfb: Duration { micros: (ttfb * 1000) as i64 },
                        mai_shark_latency_total: Duration { micros: (total * 1000) as i64 },
                        mai_shark_time_start: Timestamp { micros: start_micros },
                    },
                );
                i = i + 1;
            }
            Ok(Some(sharks))
        },
    }
}

/// Once the first `n` storage nodes have a problem, so have the first `m`.
proof fn lemma_sharks_problem_stays(s: Seq<MuskieLogSharkContacted>, n: int, m: int)
    requires
        0 <= n <= m,
        sharks_problem(s, n) is Some,
    ensures
        sharks_problem(s, m) == sharks_problem(s, n),
    decreases m - n,
{
    if m > n {
        lemma_sharks_problem_stays(s, n, m - 1);
    }
}

/// What keeps `mle` from being a well-formed audit entry whose time reads as
/// `time` (microseconds since the epoch), if anything: the first problem in
/// the order the checks are made.
pub open spec fn audit_problem(mle: MuskieLogEntry, time: Option<int>) -> Option<AuditError> {
    if mle.mle_bunyan_version != 0 {
        Some(AuditError::BunyanVersion(mle.mle_bunyan_version))
    } else if mle.mle_audit != Some(true) {
        Some(AuditError::NotAudit)
    } else if !(time matches Some(t) && in_range(t)) {
        Some(AuditError::BadTime)
    } else if mle.mle_operation is None {
        Some(AuditError::Missing(AuditField::Operation))
    } else if mle.mle_route is None {
        Some(AuditError::Missing(AuditField::Route))
    } else if mle.mle_remote_address_logical is None {
        Some(AuditError::Missing(AuditField::LogicalRemoteAddress))
    } else if mle.mle_billable_operation is None {
        Some(AuditError::Missing(AuditField::BillableOperation))
    } else if mle.mle_request is None {
        Some(AuditError::Missing(AuditField::Req))
    } else if mle.mle_response is None {
        Some(AuditError::Missing(AuditField::Res))
    } else if mle.mle_request->Some_0.mle_req_caller is None {
        Some(AuditError::Missing(AuditField::ReqCaller))
    } else if mle.mle_error == Some(MuskieErrorValue::NoError(true)) {
        Some(AuditError::ErrorIsTrue)
    } else if mle.mle_sharks_contacted matches Some(raw) && sharks_problem(raw@, raw@.len() as int) is Some {
        sharks_problem(mle.mle_sharks_contacted->Some_0@, mle.mle_sharks_contacted->Some_0@.len() as int)
    } else if mle.mle_request_header_length is None {
        Some(AuditError::Missing(AuditField::ReqHeaderLength))
    } else if mle.mle_response_header_length is None {
        Some(AuditError::Missing(AuditField::ResHeaderLength))
    } else if mle.mle_bytes_transferred matches Some(b) && b.numeric() is None {
        Some(AuditError::BytesTransferred)
    } else {
        None
    }
}

/// Some string of `groups` reads `name`.
pub open spec fn has_text(groups: Seq<String>, name: Seq<char>) -> bool {
    exists|i: int| 0 <= i < groups.len() && (#[trigger] groups[i])@ == name
}

/// `info` is the audit record of the well-formed audit entry `mle`, whose
/// time is `t`: the entry's fields, with the pid written in decimal, the
/// caller marked an operator when one of its groups is "operators", the error
/// object if one was recorded, the bytes transferred as an integer and the
/// contacted storage nodes validated.
pub open spec fn audited(mle: MuskieLogEntry, t: int, info: MuskieAuditInfo) -> bool {
    let req = mle.mle_request->Some_0;
    let res = mle.mle_response->Some_0;
    let caller = req.mle_req_caller->Some_0;
    &&& info.mai_hostname == mle.mle_hostname
    &&& info.mai_pid@ == decimal_text(mle.mle_pid as nat)
    &&& info.mai_time.micros == t
    &&& info.mai_operation == mle.mle_operation->Some_0
    &&& info.mai_route == mle.mle_route->Some_0
    &&& info.mai_remote_address_logical == mle.mle_remote_address_logical->Some_0
    &&& info.mai_billable_operation == mle.mle_billable_operation->Some_0
    &&& info.mai_timers == req.mle_req_timers
    &&& info.mai_req_header_length == mle.mle_request_header_length->Some_0
    &&& info.mai_req_method == req.mle_req_method
    &&& info.mai_req_url == req.mle_req_url
    &&& info.mai_req_http_version == req.mle_req_http_version
    &&& info.mai_req_owner_uuid == req.mle_req_owner
    &&& info.mai_req_headers == req.mle_req_headers
    &&& info.mai_req_caller_operator == has_text(caller.mle_req_caller_groups@, "operators"@)
    &&& info.mai_req_caller_uuid == caller.mle_req_caller_uuid
    &&& info.mai_req_caller_login == caller.mle_req_caller_login
    &&& info.mai_response_header_length == mle.mle_response_header_length->Some_0
    &&& info.mai_response_status_code == res.mle_response_status_code
    &&& info.mai_response_headers == res.mle_response_headers
    &&& info.mai_error == match mle.mle_error {
        Some(MuskieErrorValue::Error(o)) => Some(o),
        _ => None,
    }
    &&& info.mai_objectid == mle.mle_objectid
    &&& info.mai_shard_entry == mle.mle_shard_entry
    &&& info.mai_shard_parent == mle.mle_shard_parent
    &&& info.mai_bytes_transferred == match mle.mle_bytes_transferred {
        Some(b) => b.numeric(),
        None => None,
    }
    &&& match mle.mle_sharks_contacted {
        None => info.mai_sharks_contacted is None,
        Some(raw) => info.mai_sharks_contacted matches Some(v) && v@.len() == raw@.len() && forall|i: int|
            0 <= i < raw@.len() ==> shark_audited(raw@[i], #[trigger] v@[i]),
    }
}

/// The outcome of validating `mle` whose time reads as `time`: the first
/// problem found, or the audit record.
pub open spec fn audit_outcome(
    mle: MuskieLogEntry,
    time: Option<int>,
    r: Result<MuskieAuditInfo, AuditError>,
) -> bool {
    match audit_problem(mle, time) {
        Some(e) => r == Err::<MuskieAuditInfo, AuditError>(e),
        None => r matches Ok(info) && audited(mle, time->Some_0, info),
    }
}

/// Whether one of `groups` is `name`.
fn has_group(groups: &Vec<String>, name: &str) -> (r: bool)
    ensures
        r == has_text(groups@, name@),
{
    let key = name.to_owned();
    let n = groups.len();
    let mut i: usize = 0;
    while i < n
        invariant
            i <= n,
            n == groups@.len(),
            key@ == name@,
            forall|j: int| 0 <= j < i ==> (#[trigger] groups@[j])@ != name@,
        decreases n - i,
    {
        if groups[i] == key {
            return true;
        }
        i = i + 1;
    }
    false
}

/// Validates the log entry `mle`, whose time has been read as `time`
/// (microseconds since the epoch, `None` when it does not read as a
/// timestamp), into the record of a completed request.
pub fn mri_audit_entry_at(mle: MuskieLogEntry, time: Option<i64>) -> (r: Result<
    MuskieAuditInfo,
    AuditError,
>)
    ensures
        audit_outcome(
            mle,
            match time {
                Some(t) => Some(t as int),
                None => None,
            },
            r,
        ),
{
    if mle.mle_bunyan_version != 0 {
        return Err(AuditError::BunyanVersion(mle.mle_bunyan_version));
    }
    match mle.mle_audit {
        Some(true) => {},
        _ => return Err(AuditError::NotAudit),
    }
    let wall_time = match time {
        Some(t) => if -crate::time::TIME_LIMIT <= t && t <= crate::time::TIME_LIMIT {
            t
        } else {
            return Err(AuditError::BadTime);
        },
        None => return Err(AuditError::BadTime),
    };
    if mle.mle_operation.is_none() {
        return Err(AuditError::Missing(AuditField::Operation));
    }
    if mle.mle_route.is_none() {
        return Err(AuditError::Missing(AuditField::Route));
    }
    if mle.mle_remote_address_logical.is_none() {
        return Err(AuditError::Missing(AuditField::LogicalRemoteAddress));
    }
    if mle.mle_billable_operation.is_none() {
        return Err(AuditError::Missing(AuditField::BillableOperation));
    }
    let operator = match &mle.mle_request {
        None => return Err(AuditError::Missing(AuditField::Req)),
        Some(request) => {
            if mle.mle_response.is_none() {
                return Err(AuditError::Missing(AuditField::Res));
            }
            match &request.mle_req_caller {
                None => return Err(AuditError::Missing(AuditField::ReqCaller)),
                Some(caller) => has_group(&caller.mle_req_caller_groups, "operators"),
            }
        },
    };
    match &mle.mle_error {
        Some(MuskieErrorValue::NoError(true)) => return Err(AuditError::ErrorIsTrue),
        _ => {},
    }
    let sharks = match mri_audit_sharks(&mle) {
        Ok(s) => s,
        Err(e) => return Err(e),
    };
    if mle.mle_request_header_length.is_none() {
        return Err(AuditError::Missing(AuditField::ReqHeaderLength));
    }
    if mle.mle_response_header_length.is_none() {
        return Err(AuditError::Missing(AuditField::ResHeaderLength));
    }
    let bytes = match &mle.mle_bytes_transferred {
        None => None,
        Some(b) => match b.as_i64() {
            Some(v) => Some(v),
            None => return Err(AuditError::BytesTransferred),
        },
    };
    let pid = u64_text(mle.mle_pid);
    let ghost entry = mle;
    let MuskieLogEntry {
        mle_hostname,
        mle_operation,
        mle_route,
        mle_remote_address_logical,
        mle_billable_operation,
        mle_request_header_length,
        mle_request,
        mle_response_header_length,
        mle_response,
        mle_error,
        mle_objectid,
        mle_shard_entry,
        mle_shard_parent,
        ..
    } = mle;
    let MuskieLogEntryRequest {
        mle_req_method,
        mle_req_url,
        mle_req_http_version,
        mle_req_owner,
        mle_req_headers,
        mle_req_caller,
        mle_req_timers,
    } = mle_request.unwrap();
    let caller = mle_req_caller.unwrap();
    let response = mle_response.unwrap();
    let error = match mle_error {
        Some(MuskieErrorValue::Error(error_object)) => Some(error_object),
        _ => None,
    };
    let info = MuskieAuditInfo {
        mai_hostname: mle_hostname,
        mai_pid: pid,
        mai_time: Timestamp { micros: wall_time },
        mai_operation: mle_operation.unwrap(),
        mai_route: mle_route.unwrap(),
        mai_remote_address_logical: mle_remote_address_logical.unwrap(),
        mai_billable_operation: mle_billable_operation.unwrap(),
        mai_timers: mle_req_timers,
        mai_req_header_length: mle_request_header_length.unwrap(),
        mai_req_method: mle_req_method,
        mai_req_url: mle_req_url,
        mai_req_http_version: mle_req_http_version,
        mai_req_owner_uuid: mle_req_owner,
        mai_req_headers: mle_req_headers,
        mai_req_caller_operator: operator,
        mai_req_caller_uuid: caller.mle_req_caller_uuid,
        mai_req_caller_login: caller.mle_req_caller_login,
        mai_response_header_length: mle_response_header_length.unwrap(),
        mai_response_status_code: response.mle_response_status_code,
        mai_response_headers: response.mle_response_headers,
        mai_error: error,
        mai_objectid: mle_objectid,
        mai_shard_entry: mle_shard_entry,
        mai_shard_parent: mle_shard_parent,
        mai_bytes_transferred: bytes,
        mai_sharks_contacted: sharks,
    };
    Ok(info)
}

/// Validates the log entry `mle` into the record of a completed request,
/// reading its time as an RFC 3339 timestamp.
pub fn mri_audit_entry(mle: MuskieLogEntry) -> (r: Result<MuskieAuditInfo, AuditError>)
    ensures
        audit_outcome(mle, utc_parse(mle.mle_time@), r),
{
    let time = parse_utc(mle.mle_time.as_str());
    mri_audit_entry_at(mle, time)
}

} // verus!

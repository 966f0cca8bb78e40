use manta_mreq::{
    mri_audit_entry, mri_audit_entry_at, mri_request_info, mri_timelines, mri_timelines_at,
    AuditError, AuditField, MuskieErrorObject, MuskieErrorValue, MuskieLogEntry,
    MuskieLogEntryCaller, MuskieLogEntryHeaderValue, MuskieLogEntryMaybeNumeric,
    MuskieLogEntryRequest, MuskieLogEntryResponse, MuskieLogEntryTimers, MuskieLogSharkContacted,
    RequestError, TimelineError,
};

const T_END: i64 = 1_704_067_210_000_000; // 2024-01-01T00:00:10.000Z

fn s(text: &str) -> String {
    text.to_string()
}

fn header(name: &str, value: MuskieLogEntryHeaderValue) -> (String, MuskieLogEntryHeaderValue) {
    (s(name), value)
}

fn entry() -> MuskieLogEntry {
    MuskieLogEntry {
        mle_hostname: s("webapi-1"),
        mle_pid: 1234,
        mle_level: 30,
        mle_time: s("2024-01-01T00:00:10.000Z"),
        mle_bunyan_version: 0,
        mle_message: s("handled: 200"),
        mle_audit: Some(true),
        mle_operation: Some(s("putobject")),
        mle_latency: Some(5000),
        mle_route: Some(s("putobject")),
        mle_remote_address_logical: Some(s("10.0.0.1")),
        mle_billable_operation: Some(s("PUT")),
        mle_request_header_length: Some(300),
        mle_request: Some(MuskieLogEntryRequest {
            mle_req_method: s("PUT"),
            mle_req_url: s("/acct/stor/obj"),
            mle_req_http_version: s("1.1"),
            mle_req_owner: s("owner-uuid"),
            mle_req_headers: vec![
                header("date", MuskieLogEntryHeaderValue::Str(s("Mon, 01 Jan 2024 00:00:04 GMT"))),
                header("host", MuskieLogEntryHeaderValue::Str(s("manta.example.com"))),
            ],
            mle_req_caller: Some(MuskieLogEntryCaller {
                mle_req_caller_login: s("poseidon"),
                mle_req_caller_uuid: s("caller-uuid"),
                mle_req_caller_groups: vec![s("users"), s("operators")],
            }),
            mle_req_timers: MuskieLogEntryTimers::Timers(vec![
                (s("handlerA"), Some(3_000_000)),
                (s("handlerB"), Some(2_000_000)),
            ]),
        }),
        mle_response_header_length: Some(200),
        mle_response: Some(MuskieLogEntryResponse {
            mle_response_status_code: 204,
            mle_response_headers: vec![header(
                "x-response-time",
                MuskieLogEntryHeaderValue::Int(12),
            )],
        }),
        mle_error: Some(MuskieErrorValue::NoError(false)),
        mle_objectid: Some(s("object-uuid")),
        mle_shard_entry: None,
        mle_shard_parent: None,
        mle_sharks_contacted: Some(vec![MuskieLogSharkContacted {
            mle_shark_storid: s("1.stor"),
            mle_shark_result: s("ok"),
            mle_shark_latency_ttfb: 3,
            mle_shark_latency_total: 7,
            mle_shark_time_start: 1_704_067_205_123,
        }]),
        mle_bytes_transferred: Some(MuskieLogEntryMaybeNumeric::Str(s("42"))),
    }
}

fn set_date(mle: &mut MuskieLogEntry, value: Option<MuskieLogEntryHeaderValue>) {
    let req = mle.mle_request.as_mut().unwrap();
    req.mle_req_headers.retain(|(k, _)| k != "date");
    if let Some(v) = value {
        req.mle_req_headers.push((s("date"), v));
    }
}

#[test]
fn header_value_accessors() {
    assert_eq!(MuskieLogEntryHeaderValue::Int(7).as_i64(), Some(7));
    assert_eq!(MuskieLogEntryHeaderValue::Str(s("123")).as_i64(), Some(123));
    assert_eq!(MuskieLogEntryHeaderValue::Str(s("-5")).as_i64(), Some(-5));
    assert_eq!(MuskieLogEntryHeaderValue::Str(s("+8")).as_i64(), Some(8));
    assert_eq!(MuskieLogEntryHeaderValue::Str(s("12a")).as_i64(), None);
    assert_eq!(MuskieLogEntryHeaderValue::Str(s("")).as_i64(), None);
    assert_eq!(MuskieLogEntryHeaderValue::Str(s("9223372036854775808")).as_i64(), None);
    assert_eq!(MuskieLogEntryHeaderValue::Str(s("abc")).as_string(), Some(&s("abc")));
    assert_eq!(MuskieLogEntryHeaderValue::Int(3).as_string(), None);
}

#[test]
fn maybe_numeric_accessor() {
    assert_eq!(MuskieLogEntryMaybeNumeric::Int(-4).as_i64(), Some(-4));
    assert_eq!(MuskieLogEntryMaybeNumeric::Str(s("1048576")).as_i64(), Some(1_048_576));
    assert_eq!(MuskieLogEntryMaybeNumeric::Str(s("n/a")).as_i64(), None);
}

#[test]
fn timers_accessor_keeps_order() {
    let t = MuskieLogEntryTimers::Timers(vec![(s("b"), Some(1)), (s("a"), None)]);
    assert_eq!(t.map(), &vec![(s("b"), Some(1)), (s("a"), None)]);
}

#[test]
fn audit_entry_accepts_well_formed_entry() {
    let info = mri_audit_entry(entry()).ok().expect("valid entry");
    assert_eq!(info.mai_hostname, "webapi-1");
    assert_eq!(info.mai_pid, "1234");
    assert_eq!(info.mai_time.micros, T_END);
    assert_eq!(info.mai_operation, "putobject");
    assert_eq!(info.mai_req_method, "PUT");
    assert!(info.mai_req_caller_operator);
    assert_eq!(info.mai_req_caller_login, "poseidon");
    assert_eq!(info.mai_req_header_length, 300);
    assert_eq!(info.mai_response_status_code, 204);
    assert!(info.mai_error.is_none());
    assert_eq!(info.mai_bytes_transferred, Some(42));
    let sharks = info.mai_sharks_contacted.expect("sharks");
    assert_eq!(sharks.len(), 1);
    assert_eq!(sharks[0].mai_shark_storid, "1.stor");
    assert!(sharks[0].mai_shark_success);
    assert_eq!(sharks[0].mai_shark_latency_ttfb.micros, 3_000);
    assert_eq!(sharks[0].mai_shark_latency_total.micros, 7_000);
    assert_eq!(sharks[0].mai_shark_time_start.micros, 1_704_067_205_123_000);
}

#[test]
fn audit_entry_keeps_error_object_and_unprivileged_caller() {
    let mut mle = entry();
    mle.mle_error = Some(MuskieErrorValue::Error(MuskieErrorObject {
        mle_error_stack: s("stack"),
        mle_error_name: s("NotFoundError"),
        mle_error_message: s("no such object"),
    }));
    mle.mle_request.as_mut().unwrap().mle_req_caller.as_mut().unwrap().mle_req_caller_groups =
        vec![s("users")];
    let info = mri_audit_entry(mle).ok().expect("valid entry");
    assert!(!info.mai_req_caller_operator);
    assert_eq!(info.mai_error.expect("error").mle_error_name, "NotFoundError");
}

fn audit_error(mle: MuskieLogEntry) -> AuditError {
    match mri_audit_entry(mle) {
        Ok(_) => panic!("expected an error"),
        Err(e) => e,
    }
}

#[test]
fn audit_entry_errors() {
    let mut mle = entry();
    mle.mle_bunyan_version = 1;
    assert_eq!(audit_error(mle), AuditError::BunyanVersion(1));

    let mut mle = entry();
    mle.mle_audit = Some(false);
    assert_eq!(audit_error(mle), AuditError::NotAudit);

    let mut mle = entry();
    mle.mle_time = s("yesterday");
    assert_eq!(audit_error(mle), AuditError::BadTime);

    let mut mle = entry();
    mle.mle_operation = None;
    assert_eq!(audit_error(mle), AuditError::Missing(AuditField::Operation));

    let mut mle = entry();
    mle.mle_response = None;
    assert_eq!(audit_error(mle), AuditError::Missing(AuditField::Res));

    let mut mle = entry();
    mle.mle_request.as_mut().unwrap().mle_req_caller = None;
    assert_eq!(audit_error(mle), AuditError::Missing(AuditField::ReqCaller));

    let mut mle = entry();
    mle.mle_error = Some(MuskieErrorValue::NoError(true));
    assert_eq!(audit_error(mle), AuditError::ErrorIsTrue);

    let mut mle = entry();
    mle.mle_sharks_contacted.as_mut().unwrap()[0].mle_shark_result = s("maybe");
    assert_eq!(audit_error(mle), AuditError::SharkResult(0));

    let mut mle = entry();
    mle.mle_sharks_contacted.as_mut().unwrap()[0].mle_shark_time_start = u64::MAX;
    assert_eq!(audit_error(mle), AuditError::SharkStartTime(0));

    let mut mle = entry();
    mle.mle_sharks_contacted.as_mut().unwrap()[0].mle_shark_latency_total = u64::MAX / 10;
    assert_eq!(audit_error(mle), AuditError::SharkLatency(0));

    let mut mle = entry();
    mle.mle_response_header_length = None;
    assert_eq!(audit_error(mle), AuditError::Missing(AuditField::ResHeaderLength));

    let mut mle = entry();
    mle.mle_bytes_transferred = Some(MuskieLogEntryMaybeNumeric::Str(s("lots")));
    assert_eq!(audit_error(mle), AuditError::BytesTransferred);
}

#[test]
fn audit_entry_with_given_time() {
    let info = mri_audit_entry_at(entry(), Some(77)).ok().expect("valid entry");
    assert_eq!(info.mai_time.micros, 77);
    assert!(matches!(mri_audit_entry_at(entry(), None), Err(AuditError::BadTime)));
    assert!(matches!(
        mri_audit_entry_at(entry(), Some(i64::MAX)),
        Err(AuditError::BadTime)
    ));
}

fn labels_and_starts(tl: &manta_mreq::Timeline) -> Vec<(String, i64, i64)> {
    tl.events()
        .iter()
        .map(|e| (e.label(), e.wall_start().micros, e.duration().micros))
        .collect()
}

#[test]
fn timelines_from_audit_record() {
    let info = mri_audit_entry(entry()).ok().expect("valid entry");
    let (overall, handlers) = mri_timelines(&info).ok().expect("timelines");
    let five = T_END - 5_000_000;
    assert_eq!(
        labels_and_starts(&handlers),
        vec![
            (s("muskie began processing request"), five, 0),
            (s("handlerA"), five, 3_000_000),
            (s("handlerB"), T_END - 2_000_000, 2_000_000),
            (s("muskie created audit log entry"), T_END, 0),
        ]
    );
    assert_eq!(handlers.total_elapsed().micros, 5_000_000);
    assert_eq!(
        labels_and_starts(&overall),
        vec![
            (s("client generated Date header"), T_END - 6_000_000, 0),
            (s("muskie handlers"), five, 5_000_000),
        ]
    );
    let sub = overall.events()[1].subtimeline().expect("handlers");
    assert_eq!(labels_and_starts(sub), labels_and_starts(&handlers));
    assert_eq!(overall.events()[1].relative_start().micros, 1_000_000);
}

#[test]
fn timelines_rfc3339_date_and_tie() {
    let mut mle = entry();
    set_date(&mut mle, Some(MuskieLogEntryHeaderValue::Str(s("2024-01-01T00:00:05Z"))));
    let info = mri_audit_entry(mle).ok().expect("valid entry");
    let (overall, _) = mri_timelines(&info).ok().expect("timelines");
    assert_eq!(
        labels_and_starts(&overall),
        vec![
            (s("muskie handlers"), T_END - 5_000_000, 5_000_000),
            (s("client generated Date header"), T_END - 5_000_000, 0),
        ]
    );
}

#[test]
fn timelines_unreadable_date_is_left_out() {
    let mut mle = entry();
    set_date(&mut mle, Some(MuskieLogEntryHeaderValue::Str(s("sometime"))));
    let info = mri_audit_entry(mle).ok().expect("valid entry");
    let (overall, _) = mri_timelines(&info).ok().expect("timelines");
    assert_eq!(overall.events().len(), 1);
    assert_eq!(overall.events()[0].label(), "muskie handlers");
    let (given, _) = mri_timelines_at(&info, Some(T_END - 9_000_000)).ok().expect("timelines");
    assert_eq!(given.events()[0].label(), "client generated Date header");
}

#[test]
fn timelines_errors() {
    let mut mle = entry();
    set_date(&mut mle, None);
    let info = mri_audit_entry(mle).ok().expect("valid entry");
    assert!(matches!(mri_timelines(&info), Err(TimelineError::MissingDate)));

    let mut mle = entry();
    set_date(&mut mle, Some(MuskieLogEntryHeaderValue::Int(5)));
    let info = mri_audit_entry(mle).ok().expect("valid entry");
    assert!(matches!(mri_timelines(&info), Err(TimelineError::DateNotString)));

    let mut mle = entry();
    mle.mle_request.as_mut().unwrap().mle_req_timers =
        MuskieLogEntryTimers::Timers(vec![(s("a"), None), (s("b"), Some(-1))]);
    let info = mri_audit_entry(mle).ok().expect("valid entry");
    assert!(matches!(mri_timelines(&info), Err(TimelineError::TimerNegative(1))));

    let mut mle = entry();
    mle.mle_request.as_mut().unwrap().mle_req_timers =
        MuskieLogEntryTimers::Timers(vec![(s("a"), None), (s("b"), Some(1))]);
    let info = mri_audit_entry(mle).ok().expect("valid entry");
    assert!(matches!(mri_timelines(&info), Err(TimelineError::TimerNotInteger(0))));

    let mut mle = entry();
    mle.mle_request.as_mut().unwrap().mle_req_timers =
        MuskieLogEntryTimers::Timers(vec![(s("a"), Some(i64::MAX))]);
    let info = mri_audit_entry(mle).ok().expect("valid entry");
    assert!(matches!(mri_timelines(&info), Err(TimelineError::TimerOutOfRange(0))));
}

#[test]
fn request_info_from_entries() {
    assert!(matches!(mri_request_info(vec![]), Err(RequestError::NoEntry)));
    let mut bad = entry();
    bad.mle_audit = None;
    assert!(matches!(
        mri_request_info(vec![bad]),
        Err(RequestError::Audit(AuditError::NotAudit))
    ));
    let info = mri_request_info(vec![entry()]).ok().expect("request info");
    assert_eq!(info.mri_timeline_muskie.total_elapsed().micros, 5_000_000);
    assert_eq!(info.mri_timeline_overall.events().len(), 2);
    assert_eq!(info.mri_muskie.mai_route, "putobject");
}

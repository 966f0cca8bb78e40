//! Reconstruction of the timeline of a single request from the evidence in
//! server logs: an audit entry's completion time, the durations its request
//! handlers recorded, and a client-supplied date, put together into nested
//! timelines and rendered as depth-aware lines.

pub mod log_muskie;
pub mod numbers;
pub mod render;
pub mod request;
pub mod time;
pub mod timeline;

pub use log_muskie::{
    header_get,
    mri_audit_entry,
    mri_audit_entry_at,
    AuditError,
    AuditField,
    MuskieAuditInfo,
    MuskieAuditSharkContacted,
    MuskieErrorObject,
    MuskieErrorValue,
    MuskieLog,
    MuskieLogEntry,
    MuskieLogEntryCaller,
    MuskieLogEntryHeaderValue,
    MuskieLogEntryMaybeNumeric,
    MuskieLogEntryRequest,
    MuskieLogEntryResponse,
    MuskieLogEntryTimers,
    MuskieLogSharkContacted,
};
pub use render::{render, RenderLine};
pub use request::{
    mri_client_timestamp,
    mri_request_info,
    mri_timelines,
    mri_timelines_at,
    MantaLogParserInput,
    MantaRequestInfo,
    RequestError,
    TimelineError,
};
pub use time::{Duration, Timestamp};
pub use timeline::{Timeline, TimelineBuilder, TimelineEvent};

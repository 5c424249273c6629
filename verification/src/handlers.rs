//! The decisions of the report task: when a report waits for its schedule,
//! how it is delivered, and what a file delivery needs.
use vstd::prelude::*;
use vstd::string::*;
use crate::admin::{jsonpath_condition, search_condition_spec};
use crate::rest::{ReportModel, ReportSendType};
use std::fmt::Write;

verus! {

/// Whether `<cron::Schedule as FromStr>::from_str` accepts `expr`.
pub uninterp spec fn cron_accepts(expr: Seq<char>) -> bool;

/// `cron::Schedule::from_str(expr).is_ok()`: whether `expr` is a cron
/// schedule that the cron crate reads.
#[verifier::external_body]
pub(crate) fn cron_parses(expr: &str) -> (r: bool)
    ensures
        r == cron_accepts(expr@),
{
    <cron::Schedule as std::str::FromStr>::from_str(expr).is_ok()
}

/// What the report task does with a report before it waits.
#[derive(Debug, PartialEq, Eq, Structural)]
pub enum SchedulePlan {
    /// The schedule does not read: the report's task ends.
    InvalidCron,
    /// Delivery by mail is not offered: the report's task ends.
    EmailUnsupported,
    /// Sleep until the schedule's next time.
    Wait,
}

pub open spec fn plan_spec(cron: Seq<char>, send_type: Option<ReportSendType>) -> SchedulePlan {
    plan_for_spec(cron_accepts(cron), send_type)
}

/// The plan once it is known whether the schedule reads.
pub open spec fn plan_for_spec(cron_ok: bool, send_type: Option<ReportSendType>) -> SchedulePlan {
    if !cron_ok {
        SchedulePlan::InvalidCron
    } else if send_type == Some(ReportSendType::Email) {
        SchedulePlan::EmailUnsupported
    } else {
        SchedulePlan::Wait
    }
}

/// What the report task does with a report before it waits.
pub fn schedule_plan(r: &ReportModel) -> (p: SchedulePlan)
    ensures
        p == plan_spec(r.cron@, r.send_type),
{
    let cron_ok = cron_parses(r.cron.as_str());
    plan_for(cron_ok, r.send_type)
}

/// The plan once it is known whether the schedule reads: a schedule that does
/// not read ends the task, so does mail delivery; otherwise the task waits.
pub fn plan_for(cron_ok: bool, send_type: Option<ReportSendType>) -> (p: SchedulePlan)
    ensures
        p == plan_for_spec(cron_ok, send_type),
{
    if !cron_ok {
        SchedulePlan::InvalidCron
    } else {
        match send_type {
            Some(ReportSendType::Email) => SchedulePlan::EmailUnsupported,
            _ => SchedulePlan::Wait,
        }
    }
}

/// How a due report is delivered.
#[derive(Debug, PartialEq, Eq, Structural)]
pub enum Dispatch {
    /// Write the report file.
    WriteFile,
    /// Mail delivery, which is not written yet.
    EmailUnimplemented,
    /// The report names no delivery.
    NoSendType,
}

/// How a due report is delivered.
pub fn dispatch(r: &ReportModel) -> (d: Dispatch)
    ensures
        d == (match r.send_type {
            Some(ReportSendType::File) => Dispatch::WriteFile,
            Some(ReportSendType::Email) => Dispatch::EmailUnimplemented,
            None => Dispatch::NoSendType,
        }),
{
    match r.send_type {
        Some(ReportSendType::File) => Dispatch::WriteFile,
        Some(ReportSendType::Email) => Dispatch::EmailUnimplemented,
        None => Dispatch::NoSendType,
    }
}

/// What writing a report file needs: how far back it reaches (seconds), the
/// index it reads, the file name pattern (which the report may lack; the file
/// is named only after the entries' filter and columns are settled), and the
/// filter on the entries.
pub struct FileJob {
    pub interval_seconds: i64,
    pub index: u128,
    pub send_to: Option<String>,
    pub condition: String,
}

/// What a report lacks before a file delivery can start.
#[derive(Debug, PartialEq, Eq, Structural)]
pub enum JobError {
    NoInterval,
    NoIndex,
}

/// The file job of a report, or what it lacks (checked in this order).
pub fn file_job(r: &ReportModel) -> (j: Result<FileJob, JobError>)
    ensures
        r.interval is None ==> j == Err::<FileJob, JobError>(JobError::NoInterval),
        r.interval is Some && r.index is None ==> j == Err::<FileJob, JobError>(JobError::NoIndex),
        j is Ok <==> (r.interval is Some && r.index is Some),
        j matches Ok(job) ==> job.interval_seconds == r.interval->0 as i64 && job.index
            == r.index->0 && job.condition@ == search_condition_spec(Some(r.query@)) && (match r.send_to {
            Some(t) => job.send_to matches Some(u) && u@ == t@,
            None => job.send_to is None,
        }),
{
    let interval = match r.interval {
        Some(i) => i,
        None => {
            return Err(JobError::NoInterval);
        },
    };
    let index = match r.index {
        Some(i) => i,
        None => {
            return Err(JobError::NoIndex);
        },
    };
    let send_to = match &r.send_to {
        Some(s) => Some(s.clone()),
        None => None,
    };
    let condition = jsonpath_condition(r.query.as_str());
    Ok(FileJob { interval_seconds: interval as i64, index, send_to, condition })
}

/// The first moment a report file covers, in seconds since the Unix epoch:
/// `interval_seconds` before `now_secs`, or `None` where that leaves the range
/// of `i64`.
pub fn window_start(job: &FileJob, now_secs: i64) -> (r: Option<i64>)
    ensures
        match r {
            Some(t) => t == now_secs - job.interval_seconds,
            None => !(i64::MIN <= now_secs - job.interval_seconds <= i64::MAX),
        },
{
    now_secs.checked_sub(job.interval_seconds)
}

/// The value sea_query binds for the naive UTC time of chrono's
/// `DateTime::<Utc>::from_timestamp(secs, nanos)`, or `None` where chrono has
/// no such moment.
pub uninterp spec fn utc_moment_value(secs: i64, nanos: u32) -> Option<sea_query::Value>;

/// chrono's `DateTime::<Utc>::from_timestamp(secs, nanos)`, taken as a naive
/// UTC time and converted into the value sea_query binds for it.
#[verifier::external_body]
fn moment_value(secs: i64, nanos: u32) -> (r: Option<sea_query::Value>)
    ensures
        r == utc_moment_value(secs, nanos),
{
    match chrono::DateTime::from_timestamp(secs, nanos) {
        Some(t) => Some(sea_query::Value::from(t.naive_utc())),
        None => None,
    }
}

/// Where a report file's window opens, as the value bound into the report's
/// select: `interval_seconds` before the UTC moment `now_secs`, `now_nanos`,
/// or `None` where that moment is out of range.
pub fn window_start_value(job: &FileJob, now_secs: i64, now_nanos: u32) -> (r: Option<
    sea_query::Value,
>)
    ensures
        r == (if i64::MIN <= now_secs - job.interval_seconds <= i64::MAX {
            utc_moment_value((now_secs - job.interval_seconds) as i64, now_nanos)
        } else {
            None
        }),
{
    match window_start(job, now_secs) {
        Some(t) => moment_value(t, now_nanos),
        None => None,
    }
}

/// What chrono writes for the strftime `pattern` at the UTC moment
/// `DateTime::<Utc>::from_timestamp(secs, nanos)`; `None` where that moment is
/// out of chrono's range or the pattern holds an item chrono cannot format.
pub uninterp spec fn utc_formatted(secs: i64, nanos: u32, pattern: Seq<char>) -> Option<Seq<char>>;

/// chrono's `DateTime::<Utc>::from_timestamp(secs, nanos)` formatted with
/// `pattern` (`DateTime::format`, written into a `String`). A pattern chrono
/// cannot format makes the write fail, which gives `None` here rather than the
/// panic of `to_string`.
#[verifier::external_body]
fn format_utc(secs: i64, nanos: u32, pattern: &str) -> (r: Option<String>)
    ensures
        match r {
            Some(t) => utc_formatted(secs, nanos, pattern@) == Some(t@),
            None => utc_formatted(secs, nanos, pattern@) is None,
        },
{
    let t = chrono::DateTime::from_timestamp(secs, nanos)?;
    let mut out = String::new();
    write!(out, "{}", t.format(pattern)).ok()?;
    Some(out)
}

/// Why a report file could not be named.
#[derive(Debug, PartialEq, Eq, Structural)]
pub enum FileNameError {
    NoPattern,
    Unformattable,
}

/// The name of the file a report writes at the UTC moment `now_secs`,
/// `now_nanos`: the job's name pattern, formatted by chrono at that moment.
pub fn report_file_name(job: &FileJob, now_secs: i64, now_nanos: u32) -> (r: Result<
    String,
    FileNameError,
>)
    ensures
        match job.send_to {
            None => r == Err::<String, FileNameError>(FileNameError::NoPattern),
            Some(p) => match utc_formatted(now_secs, now_nanos, p@) {
                Some(t) => r matches Ok(name) && name@ == t,
                None => r == Err::<String, FileNameError>(FileNameError::Unformattable),
            },
        },
{
    match &job.send_to {
        None => Err(FileNameError::NoPattern),
        Some(p) => match format_utc(now_secs, now_nanos, p.as_str()) {
            Some(name) => Ok(name),
            None => Err(FileNameError::Unformattable),
        },
    }
}

} // verus!

use log_saver::admin::{
    autocomplete_limit, autocomplete_prefix, index_names, jsonpath_condition, reindex_sql,
    reindex_started, search_condition, search_window,
};
use log_saver::credentials::{bus_size, httpserver_bind_uri, postgres_connections, postgres_schema};
use log_saver::error::{Error, JsonCategory};
use log_saver::event::Events;
use log_saver::handlers::{dispatch, file_job, plan_for, schedule_plan, Dispatch, JobError, SchedulePlan};
use log_saver::json::JsonValue;
use log_saver::rest::{
    LogRecord, LogResponse, Report, ReportModel, ReportSendType, ReportType, Success, Timestamp,
};
use log_saver::rpc::{
    check_message, index_list, index_list_reply, insert_reply, message_verdict, search_reply, IndexRecord, IndexSearchRequest,
    Message, RpcStatus,
};
use log_saver::schemes::LogMessage;

fn s(x: &str) -> String {
    x.to_string()
}

#[test]
fn error_status_and_message() {
    let e = Error::Json { category: JsonCategory::Syntax, line: 3, column: 7, detail: s("Error(\"x\", line: 3, column: 7)") };
    assert_eq!(e.status_code(), 400);
    assert_eq!(e.message(), "Json error: Syntax in line 3 column 7: Json(Error(\"x\", line: 3, column: 7))");
    let h = Error::Http { status: 404, detail: s("NotFound") };
    assert_eq!(h.status_code(), 404);
    assert_eq!(h.message(), "Http error: Http(NotFound)");
    let b = Error::SyncBr { detail: s("\"closed\"") };
    assert_eq!(b.status_code(), 500);
    assert_eq!(b.message(), "Sync Broadcast error: SyncBr(\"closed\")");
    assert_eq!(Error::Sql { detail: s("e") }.message(), "Sql build error:Sql(e)");
    assert_eq!(Error::DB { detail: s("e") }.status_code(), 400);
}

#[test]
fn events_describe_themselves() {
    assert_eq!(Events::Ticker { id: -5 }.describe(), "Event: Ticker: -5");
    assert_eq!(Events::Ticker { id: 1234567 }.describe(), "Event: Ticker: 1234567");
    assert_eq!(Events::ReIndex { index: s("logs") }.describe(), "Event: Reindex index logs");
    assert_eq!(
        Events::NewReport { index: 0x67e5504410b1426f9247bb680e5fe0c8 }.describe(),
        "Event: New report 67e55044-10b1-426f-9247-bb680e5fe0c8"
    );
    let m = LogMessage { index: s("i"), token: s("t"), data: s("{}") };
    assert_eq!(
        Events::NewMessage { index: s("i"), message: m }.describe(),
        "Event: New Message index: i message:index: i data {}"
    );
    assert_eq!(Events::ReIndex { index: s("x") }.reindex_target(), Some(&s("x")));
    assert_eq!(Events::Ticker { id: 1 }.reindex_target(), None);
    assert_eq!(Events::NewReport { index: 9 }.new_report_target(), Some(9));
}

#[test]
fn settings_and_defaults() {
    assert_eq!(postgres_schema(None), "indexes");
    assert_eq!(postgres_schema(Some(s("x"))), "x");
    assert_eq!(httpserver_bind_uri(None), "127.0.0.1:8500");
    assert_eq!(postgres_connections(None), Some(64));
    assert_eq!(postgres_connections(Some(s("abc"))), None);
    assert_eq!(bus_size(None), Some(1024));
    assert_eq!(bus_size(Some(s("+7"))), Some(7));
}

#[test]
fn admin_helpers() {
    assert_eq!(search_condition(&Some(s("$.a == 1"))), "\"data\" @@ '$.a == 1'");
    assert_eq!(search_condition(&None), "1 = 1");
    assert_eq!(jsonpath_condition("q"), "\"data\" @@ 'q'");
    assert_eq!(search_window(None, None), (10, 0));
    assert_eq!(search_window(Some(3), Some(4)), (3, 4));
    assert_eq!(autocomplete_prefix("$.message.$.name"), "message.name");
    assert_eq!(autocomplete_limit(None), 10);
    assert_eq!(index_names(&vec![Some(s("a")), None, Some(s("b"))]), vec![s("a"), s("b")]);
    assert_eq!(reindex_started().message, "Job reindex start");
    let q = reindex_sql("indexes", "logs");
    assert!(q.starts_with("SELECT DISTINCT jsonb_recursive(\"data\") AS path FROM \"indexes\".\"logs\" \n"));
    assert!(q.ends_with("LIMIT 1 )\n                    )"));
}

fn model(send: Option<ReportSendType>, cron: &str) -> ReportModel {
    ReportModel {
        id: 1,
        cron: s(cron),
        interval: Some(60),
        query: s("$.a == 1"),
        name: s("r"),
        index: Some(2),
        send_type: send,
        send_to: Some(s("/tmp/%Y.csv")),
        columns: Some(JsonValue::Array(vec![JsonValue::String(s("a"))])),
    }
}

#[test]
fn report_schedule_decisions() {
    assert_eq!(schedule_plan(&model(Some(ReportSendType::File), "0 0 * * * *")), SchedulePlan::Wait);
    assert_eq!(schedule_plan(&model(None, "0 0 * * * *")), SchedulePlan::Wait);
    assert_eq!(schedule_plan(&model(Some(ReportSendType::File), "bad cron")), SchedulePlan::InvalidCron);
    assert_eq!(
        schedule_plan(&model(Some(ReportSendType::Email), "0 0 * * * *")),
        SchedulePlan::EmailUnsupported
    );
    assert_eq!(dispatch(&model(Some(ReportSendType::File), "x")), Dispatch::WriteFile);
    assert_eq!(dispatch(&model(Some(ReportSendType::Email), "x")), Dispatch::EmailUnimplemented);
    assert_eq!(dispatch(&model(None, "x")), Dispatch::NoSendType);
    let job = file_job(&model(None, "x")).unwrap();
    assert_eq!(job.interval_seconds, 60);
    assert_eq!(job.index, 2);
    assert_eq!(job.send_to, Some(s("/tmp/%Y.csv")));
    assert_eq!(job.condition, "\"data\" @@ '$.a == 1'");
    let mut m = model(None, "x");
    m.index = None;
    assert!(matches!(file_job(&m), Err(JobError::NoIndex)));
    let mut m = model(None, "x");
    m.interval = None;
    assert!(matches!(file_job(&m), Err(JobError::NoInterval)));
    let mut m = model(None, "x");
    m.send_to = None;
    assert!(matches!(file_job(&m), Ok(j) if j.send_to.is_none()));
}

#[test]
fn report_from_model() {
    let r = Report::from_model(model(Some(ReportSendType::Email), "c"));
    assert_eq!(r.send_type, ReportType::Email);
    assert_eq!(r.columns, vec![s("a")]);
    assert_eq!(r.index, 2);
    let mut m = model(None, "c");
    m.index = None;
    m.send_to = None;
    let r = Report::from_model(m);
    assert_eq!(r.send_type, ReportType::File);
    assert_eq!(r.index, 0);
    assert_eq!(r.send_to, "");
    assert_eq!(ReportType::from(ReportSendType::File), ReportType::File);
}

#[test]
fn success_answers() {
    assert_eq!(Success::default().message, "Success");
    assert_eq!(Success::from(s("done")).message, "done");
    assert_eq!(Success::from_text("x").message, "x");
}

#[test]
fn log_response_uses_now_for_missing_time() {
    let now = Timestamp { seconds: 10, nanos: 0, offset_seconds: 0 };
    let t = Timestamp { seconds: 5, nanos: 1, offset_seconds: 3600 };
    let r = LogResponse::from_record(LogRecord { id: 1, timestamp: None, data: JsonValue::Null }, now);
    assert_eq!(r.timestamp, now);
    let r = LogResponse::from_record(LogRecord { id: 1, timestamp: Some(t), data: JsonValue::Null }, now);
    assert_eq!(r.timestamp, t);
}

#[test]
fn rpc_decisions() {
    let m = Message { index: s("i"), password: s("p"), data: s("{\"a\":1}") };
    assert!(check_message(&m).is_ok());
    let bad = Message { index: s("i"), password: s("p"), data: s("{") };
    assert!(matches!(check_message(&bad), Err(RpcStatus::InvalidArgument(t)) if t == "Can`t convert json from data"));
    assert!(matches!(insert_reply(true), Ok(r) if r.ok));
    assert!(matches!(insert_reply(false), Err(RpcStatus::Internal(t)) if t == "Can`t insert value"));
    let list = index_list(&vec![
        IndexRecord { id: 0, name: None },
        IndexRecord { id: 0x67e5504410b1426f9247bb680e5fe0c8, name: Some(s("logs")) },
    ]);
    assert_eq!(list.indexes[0].id, "00000000-0000-0000-0000-000000000000");
    assert_eq!(list.indexes[0].name, "");
    assert_eq!(list.indexes[1].id, "67e55044-10b1-426f-9247-bb680e5fe0c8");
    assert_eq!(list.indexes[1].name, "logs");
    let req = IndexSearchRequest { index: None, from: s(""), to: None, take: None, skip: None, query: None };
    assert!(search_reply(&req).response.is_empty());
}

#[test]
fn plans_and_verdicts_from_known_results() {
    assert_eq!(plan_for(false, Some(ReportSendType::File)), SchedulePlan::InvalidCron);
    assert_eq!(plan_for(false, Some(ReportSendType::Email)), SchedulePlan::InvalidCron);
    assert_eq!(plan_for(true, Some(ReportSendType::Email)), SchedulePlan::EmailUnsupported);
    assert_eq!(plan_for(true, None), SchedulePlan::Wait);
    assert!(message_verdict(true).is_ok());
    assert!(matches!(message_verdict(false), Err(RpcStatus::InvalidArgument(_))));
}

#[test]
fn index_list_reply_answers_failures() {
    let ok = index_list_reply(Ok(vec![IndexRecord { id: 1, name: Some(s("a")) }])).ok().unwrap();
    assert_eq!(ok.indexes[0].id, "00000000-0000-0000-0000-000000000001");
    assert!(matches!(index_list_reply(Err(s("boom"))), Err(RpcStatus::Internal(t)) if t == "Database error: boom"));
}

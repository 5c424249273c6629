use log_saver::admin::{path_record_sql, reindex_step, ReindexAction, ReindexInput, ReindexState};
use log_saver::event::Events;
use log_saver::handlers::{report_file_name, window_start, window_start_value, FileJob, FileNameError};
use log_saver::sql::search_day;

fn job(interval: i64, send_to: Option<&str>) -> FileJob {
    FileJob {
        interval_seconds: interval,
        index: 7,
        send_to: send_to.map(|s| s.to_string()),
        condition: "1 = 1".to_string(),
    }
}

#[test]
fn window_opens_an_interval_back() {
    assert_eq!(window_start(&job(3600, None), 10000), Some(6400));
    assert_eq!(window_start(&job(-5, None), 10), Some(15));
    assert_eq!(window_start(&job(10, None), i64::MIN + 5), None);
    let expected = chrono::DateTime::from_timestamp(6400, 5).unwrap().naive_utc();
    assert_eq!(window_start_value(&job(3600, None), 10000, 5), Some(sea_query::Value::from(expected)));
    assert_eq!(window_start_value(&job(10, None), i64::MIN + 5, 0), None);
}

#[test]
fn report_file_is_named_by_its_pattern() {
    assert_eq!(report_file_name(&job(1, Some("r-%Y-%m-%d.csv")), 0, 0), Ok("r-1970-01-01.csv".to_string()));
    assert_eq!(report_file_name(&job(1, Some("%H:%M")), 3600 * 5 + 60 * 7, 0), Ok("05:07".to_string()));
    assert_eq!(report_file_name(&job(1, None), 0, 0), Err(FileNameError::NoPattern));
    assert_eq!(report_file_name(&job(1, Some("%Q")), 0, 0), Err(FileNameError::Unformattable));
}

#[test]
fn search_bound_is_cut_to_its_local_date() {
    let day = |y, m, d| Some(sea_query::Value::from(chrono::NaiveDate::from_ymd_opt(y, m, d).unwrap()));
    assert_eq!(search_day(0, 0), day(1970, 1, 1));
    assert_eq!(search_day(-1, 0), day(1969, 12, 31));
    assert_eq!(search_day(86399, 3600), day(1970, 1, 2));
    assert_eq!(search_day(3600, -7200), day(1969, 12, 31));
    let t = chrono::DateTime::parse_from_rfc3339("2024-03-05T23:30:00+02:00").unwrap();
    assert_eq!(search_day(t.timestamp(), t.offset().local_minus_utc()), Some(sea_query::Value::from(t.date_naive())));
    assert_eq!(search_day(i64::MAX, 0), None);
}

#[test]
fn reindex_run_goes_through_its_steps() {
    let (s, a) = reindex_step(ReindexState::Idle, ReindexInput::Event(Events::ReIndex { index: "logs".to_string() }));
    assert!(matches!(&a, ReindexAction::LookUp { index } if index == "logs"));
    let (s, a) = reindex_step(s, ReindexInput::IndexFound { name: Some("logs".to_string()) });
    assert!(matches!(&a, ReindexAction::Collect { index } if index == "logs"));
    let (s, a) = reindex_step(s, ReindexInput::PathsCollected { paths: vec!["a".to_string(), "a.b".to_string()] });
    assert!(matches!(a, ReindexAction::Open));
    let (s, a) = reindex_step(s, ReindexInput::Opened);
    assert!(matches!(s, ReindexState::Idle));
    match a {
        ReindexAction::Record { name, paths } => {
            assert_eq!(name, Some("logs".to_string()));
            assert_eq!(paths, vec!["a".to_string(), "a.b".to_string()]);
        }
        _ => panic!("expected a record step"),
    }
}

#[test]
fn reindex_failures_and_other_events_wait() {
    let (s, a) = reindex_step(ReindexState::Idle, ReindexInput::Event(Events::Ticker { id: 3 }));
    assert!(matches!(s, ReindexState::Idle) && matches!(a, ReindexAction::Wait));
    let (s, a) = reindex_step(ReindexState::LookingUp { index: "x".to_string() }, ReindexInput::IndexMissing);
    assert!(matches!(s, ReindexState::Idle) && matches!(a, ReindexAction::Wait));
    let (s, a) = reindex_step(
        ReindexState::Opening { name: None, paths: vec![] },
        ReindexInput::Failed,
    );
    assert!(matches!(s, ReindexState::Idle) && matches!(a, ReindexAction::Wait));
}

#[test]
fn path_record_statement() {
    assert_eq!(
        path_record_sql(),
        "INSERT INTO log_structs (\"index\", path) VALUES ($1, $2) ON CONFLICT (\"index\", path) DO UPDATE SET timestamp = CURRENT_TIMESTAMP"
    );
}

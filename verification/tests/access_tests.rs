use log_saver::auth::{auth_client, token_decision, AuthError, AuthOutcome, TokenAuth};
use log_saver::schemes::{contains_string, AccessHashMap, AccessRecord, LogMessage};

fn rec(i: &str, p: &str) -> AccessRecord {
    AccessRecord { index: i.to_string(), password: p.to_string() }
}

fn rules() -> AccessHashMap {
    AccessHashMap::from_records(&vec![rec("logs", "p1"), rec("other", "x"), rec("logs", "p2")])
}

#[test]
fn records_are_grouped_by_index() {
    let r = rules();
    let (names, passwords) = r.inner();
    assert_eq!(names, &vec!["logs".to_string(), "other".to_string()]);
    assert_eq!(passwords, &vec![vec!["p1".to_string(), "p2".to_string()], vec!["x".to_string()]]);
    assert_eq!(r.passwords(&"other".to_string()), Some(&vec!["x".to_string()]));
    assert_eq!(r.passwords(&"free".to_string()), None);
}

#[test]
fn auth_client_checks_passwords() {
    let r = rules();
    assert_eq!(auth_client(&r, &"logs".to_string(), &"p2".to_string()), Ok(()));
    assert_eq!(auth_client(&r, &"logs".to_string(), &"x".to_string()), Err(AuthError::Unauthorized));
    assert_eq!(auth_client(&r, &"free".to_string(), &"anything".to_string()), Ok(()));
    let open = AccessHashMap::new();
    assert_eq!(auth_client(&open, &"logs".to_string(), &"".to_string()), Ok(()));
}

#[test]
fn token_check_outcomes() {
    let r = rules();
    let m = TokenAuth.new_transform(7u8);
    assert_eq!(*m.service(), 7u8);
    let good = LogMessage { index: "logs".to_string(), token: "p1".to_string(), data: "{}".to_string() };
    let bad = LogMessage { index: "logs".to_string(), token: "nope".to_string(), data: "{}".to_string() };
    assert_eq!(m.call("Application/JSON", Some(&good), &r), AuthOutcome::Forward);
    assert_eq!(m.call("application/json", Some(&bad), &r), AuthOutcome::Unauthorized);
    assert_eq!(m.call("application/json", None, &r), AuthOutcome::BadRequest);
    assert_eq!(m.call("text/plain", Some(&good), &r), AuthOutcome::UnsupportedMediaType);
}

#[test]
fn contains_string_finds_members() {
    let v = vec!["a".to_string(), "b".to_string()];
    assert!(contains_string(&v, &"b".to_string()));
    assert!(!contains_string(&v, &"c".to_string()));
}

#[test]
fn log_message_description() {
    let m = LogMessage { index: "logs".to_string(), token: "t".to_string(), data: "{\"a\":1}".to_string() };
    assert_eq!(m.describe(), "index: logs data {\"a\":1}");
}

#[test]
fn token_decision_takes_lowered_content_type() {
    let r = rules();
    let good = LogMessage { index: "logs".to_string(), token: "p2".to_string(), data: "{}".to_string() };
    assert_eq!(token_decision("application/json", Some(&good), &r), AuthOutcome::Forward);
    // the decision itself does not lower the case
    assert_eq!(token_decision("Application/JSON", Some(&good), &r), AuthOutcome::UnsupportedMediaType);
    let stranger = LogMessage { index: "open".to_string(), token: "".to_string(), data: "1".to_string() };
    assert_eq!(token_decision("application/json", Some(&stranger), &r), AuthOutcome::Forward);
}

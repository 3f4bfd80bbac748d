use dsh_desktop::json::{package_version, package_version_from_text, parse_json, Json};
use dsh_desktop::notify::{
    session_list_request, sessions_from_body, sessions_from_reply, Chimes, CompletionWatch,
};

fn obj(entries: Vec<(&str, Json)>) -> Json {
    Json::Object(entries.into_iter().map(|(k, v)| (k.to_string(), v)).collect())
}

fn s(t: &str) -> Json {
    Json::Str(t.to_string())
}

fn item(id: Option<&str>, running: Option<Json>, phase: Option<&str>) -> Json {
    let mut e = vec![];
    if let Some(id) = id {
        e.push(("sessionId", s(id)));
    }
    if let Some(r) = running {
        e.push(("running", r));
    }
    if let Some(p) = phase {
        e.push(("projections", obj(vec![("values", obj(vec![("goal", obj(vec![("phase", s(p))]))]))])));
    }
    obj(e)
}

const SECOND: u64 = 1_000_000_000;

#[test]
fn sessions_read_from_reply() {
    let items = Json::Array(vec![
        item(Some("a"), Some(Json::Bool(true)), Some("active")),
        item(None, Some(Json::Bool(true)), None),
        item(Some(""), Some(Json::Bool(true)), None),
        item(Some("b"), Some(s("yes")), None),
        item(Some("c"), None, Some("complete")),
    ]);
    let reply = obj(vec![("result", obj(vec![("value", obj(vec![("items", items)]))]))]);
    let got: Vec<(String, bool, String)> =
        sessions_from_reply(&reply).into_iter().map(|x| (x.id, x.running, x.goal_phase)).collect();
    assert_eq!(
        got,
        vec![
            ("a".to_string(), true, "active".to_string()),
            ("b".to_string(), false, "".to_string()),
            ("c".to_string(), false, "complete".to_string()),
        ]
    );
}

#[test]
fn sessions_of_malformed_reply_are_empty() {
    assert!(sessions_from_reply(&Json::Null).is_empty());
    let reply = obj(vec![("result", obj(vec![("value", obj(vec![("items", s("x"))]))]))]);
    assert!(sessions_from_reply(&reply).is_empty());
}

#[test]
fn package_version_reads_string() {
    assert_eq!(package_version(&obj(vec![("name", s("dsh")), ("version", s("0.4.1"))])), Some("0.4.1".to_string()));
    assert_eq!(package_version(&obj(vec![("version", Json::Number("1".into()))])), None);
    assert_eq!(package_version(&Json::Array(vec![])), None);
}

#[test]
fn session_list_request_body() {
    assert_eq!(
        session_list_request(1700000000123),
        r#"{"type":"client-request","rpcId":"n1700000000123","method":"session.list","payload":{}}"#
    );
}

fn none() -> Chimes {
    Chimes { turn_end: false, goal_complete: false }
}

#[test]
fn turn_end_chimes_when_running_stops() {
    let mut w = CompletionWatch::new();
    assert_eq!(w.observe("a", false, "", 0), none());
    assert_eq!(w.observe("a", true, "", SECOND), none());
    assert_eq!(w.observe("a", false, "", 2 * SECOND), Chimes { turn_end: true, goal_complete: false });
    assert_eq!(w.observe("a", false, "", 3 * SECOND), none());
}

#[test]
fn first_sighting_never_chimes() {
    let mut w = CompletionWatch::new();
    assert_eq!(w.observe("a", false, "complete", 0), none());
}

#[test]
fn turn_end_held_back_for_thirty_seconds() {
    let mut w = CompletionWatch::new();
    w.observe("a", true, "", 0);
    assert!(w.observe("a", false, "", 10 * SECOND).turn_end);
    w.observe("a", true, "", 20 * SECOND);
    // 29 s after the last chime: held back.
    assert!(!w.observe("a", false, "", 39 * SECOND).turn_end);
    w.observe("a", true, "", 39 * SECOND + 1);
    // 30 s after the last chime: chimes again.
    assert!(w.observe("a", false, "", 40 * SECOND).turn_end);
    w.observe("a", true, "", 41 * SECOND);
    assert!(!w.observe("a", false, "", 70 * SECOND - 1).turn_end);
}

#[test]
fn sessions_tracked_apart() {
    let mut w = CompletionWatch::new();
    w.observe("a", true, "", 0);
    w.observe("b", true, "", 0);
    assert!(w.observe("a", false, "", SECOND).turn_end);
    assert!(w.observe("b", false, "", SECOND).turn_end);
}

#[test]
fn goal_completion_chimes_once() {
    let mut w = CompletionWatch::new();
    w.observe("g", true, "active", 0);
    assert_eq!(w.observe("g", true, "complete", SECOND), Chimes { turn_end: false, goal_complete: true });
    w.observe("g", true, "active", 2 * SECOND);
    assert_eq!(w.observe("g", true, "complete", 3 * SECOND), none());
}

#[test]
fn both_chimes_at_once() {
    let mut w = CompletionWatch::new();
    w.observe("g", true, "active", 0);
    assert_eq!(w.observe("g", false, "complete", SECOND), Chimes { turn_end: true, goal_complete: true });
}

#[test]
fn parse_json_reads_values() {
    match parse_json(r#"{"b": [1, true, null], "a": "x"}"#) {
        Ok(Json::Object(members)) => {
            assert_eq!(members.len(), 2);
            let a = members.iter().find(|(k, _)| k == "a").unwrap();
            assert!(matches!(&a.1, Json::Str(s) if s == "x"));
            let b = members.iter().find(|(k, _)| k == "b").unwrap();
            match &b.1 {
                Json::Array(items) => {
                    assert!(matches!(&items[0], Json::Number(n) if n == "1"));
                    assert!(matches!(items[1], Json::Bool(true)));
                    assert!(matches!(items[2], Json::Null));
                }
                _ => panic!("expected an array"),
            }
        }
        _ => panic!("expected an object"),
    }
    assert!(parse_json("{not json").is_err());
    assert!(parse_json("").is_err());
}

#[test]
fn sessions_from_reply_text() {
    let body = r#"{"result":{"value":{"items":[
        {"sessionId":"s1","running":true,"projections":{"values":{"goal":{"phase":"active"}}}},
        {"sessionId":"","running":true},
        {"running":false},
        {"sessionId":"s2"}
    ]}}}"#;
    let got: Vec<(String, bool, String)> = sessions_from_body(body)
        .unwrap()
        .into_iter()
        .map(|x| (x.id, x.running, x.goal_phase))
        .collect();
    assert_eq!(
        got,
        vec![("s1".to_string(), true, "active".to_string()), ("s2".to_string(), false, String::new())]
    );
    assert!(sessions_from_body("<html>").is_err());
    assert!(sessions_from_body("{}").unwrap().is_empty());
}

#[test]
fn package_version_of_text() {
    assert_eq!(package_version_from_text(r#"{"name":"@deepseek-ai/dsh","version":"0.5.2"}"#), Ok("0.5.2".to_string()));
    assert_eq!(
        package_version_from_text(r#"{"name":"dsh"}"#),
        Err("runtime dsh package.json 缺少 version".to_string())
    );
    assert!(package_version_from_text("not json").is_err());
}

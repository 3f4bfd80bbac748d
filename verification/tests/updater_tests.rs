use dsh_desktop::text::Order;
use dsh_desktop::updater::{
    UpdateAction, UpdateEvent, UpdateRun, compare_version, latest_version_from_body, retry_update_after, should_offer_update,
    update_done_message, update_outcome, updater_page_url,
};

#[test]
fn compare_version_uses_semver_where_both_parse() {
    // As text "1.2.10" < "1.2.9"; as versions it is greater.
    assert_eq!(compare_version("1.2.10", "1.2.9"), Order::Greater);
    assert_eq!(compare_version("1.2.9", "1.2.10"), Order::Less);
    assert_eq!(compare_version("1.0.0-alpha", "1.0.0"), Order::Less);
    assert_eq!(compare_version("0.3.1", "0.3.1"), Order::Equal);
    assert_eq!(compare_version("2.0.0", "10.0.0"), Order::Less);
}

#[test]
fn compare_version_falls_back_to_text() {
    assert_eq!(compare_version("1.10", "1.9"), Order::Less);
    assert_eq!(compare_version("?", "1.2.3"), Order::Greater);
    assert_eq!(compare_version("v2", "1.0.0"), Order::Greater);
    assert_eq!(compare_version("abc", "abc"), Order::Equal);
}

#[test]
fn compare_version_is_antisymmetric() {
    let texts = ["1.2.3", "1.2.10", "1.0.0-rc.1", "1.0", "?", "", "0.0.1+build"];
    for a in texts {
        assert_eq!(compare_version(a, a), Order::Equal);
        for b in texts {
            let ab = compare_version(a, b);
            let ba = compare_version(b, a);
            let reversed = match ab {
                Order::Less => Order::Greater,
                Order::Equal => Order::Equal,
                Order::Greater => Order::Less,
            };
            assert_eq!(ba, reversed);
        }
    }
}

#[test]
fn update_offered_only_for_newer_version() {
    assert!(should_offer_update("1.3.0", "1.2.9"));
    assert!(!should_offer_update("1.2.9", "1.2.9"));
    assert!(!should_offer_update("1.2.8", "1.2.9"));
}

#[test]
fn latest_version_from_body_trims() {
    assert_eq!(latest_version_from_body("1.4.2\n"), Ok("1.4.2".to_string()));
    assert_eq!(
        latest_version_from_body("  \n"),
        Err("runtime-version.txt 内容为空".to_string())
    );
}

#[test]
fn update_outcome_passes_failure_on() {
    let r = update_outcome(Err("替换运行时失败：busy".to_string()), Some("1.0.0".to_string()), None);
    assert_eq!(r, Err("替换运行时失败：busy".to_string()));
}

#[test]
fn update_outcome_checks_installed_version() {
    assert_eq!(
        update_outcome(Ok(()), Some("1.2.0".to_string()), Some("1.2.0".to_string())),
        Ok("1.2.0".to_string())
    );
    assert_eq!(
        update_outcome(Ok(()), Some("1.3.0".to_string()), Some("1.2.0".to_string())),
        Ok("1.3.0".to_string())
    );
    assert_eq!(
        update_outcome(Ok(()), Some("1.1.9".to_string()), Some("1.2.0".to_string())),
        Err("更新自检失败：期望 v1.2.0，实际 v1.1.9（下载到的资产已过期，请稍后重试）".to_string())
    );
    assert_eq!(update_outcome(Ok(()), Some("1.1.9".to_string()), None), Ok("1.1.9".to_string()));
}

#[test]
fn update_outcome_unknown_installed_version() {
    // "?" is no semantic version; as text it sorts after digits, so it is not older.
    assert_eq!(update_outcome(Ok(()), None, Some("1.2.0".to_string())), Ok("?".to_string()));
}

#[test]
fn update_messages() {
    assert_eq!(update_done_message("1.0.0", "1.1.0"), "已从 v1.0.0 更新到 v1.1.0，正在重启...");
    assert_eq!(updater_page_url("1.1.0", "1.0.0"), "updater.html?latest=1.1.0&current=1.0.0");
}

#[test]
fn update_tried_twice() {
    assert!(retry_update_after(1));
    assert!(!retry_update_after(2));
}

fn act(a: UpdateAction) -> String {
    match a {
        UpdateAction::StopDsh => "stop".to_string(),
        UpdateAction::Pause(n) => format!("pause {}", n),
        UpdateAction::ReplaceRuntime => "replace".to_string(),
        UpdateAction::ReadInstalled => "read".to_string(),
        UpdateAction::StartDsh => "start".to_string(),
        UpdateAction::Report(Ok(v)) => format!("report ok {}", v),
        UpdateAction::Report(Err(e)) => format!("report err {}", e),
        UpdateAction::Finish(Ok(v)) => format!("ok {}", v),
        UpdateAction::Finish(Err(e)) => format!("err {}", e),
    }
}

fn update(target: Option<&str>, events: Vec<UpdateEvent>) -> Vec<String> {
    let mut run = UpdateRun::new(target.map(|t| t.to_string()));
    events.into_iter().map(|e| act(run.step(e))).collect()
}

#[test]
fn update_runs_in_order() {
    let log = update(
        Some("1.2.0"),
        vec![
            UpdateEvent::Done,
            UpdateEvent::Done,
            UpdateEvent::Done,
            UpdateEvent::Replaced(Ok(())),
            UpdateEvent::Installed(Some("1.2.0".to_string())),
            UpdateEvent::Done,
            UpdateEvent::Done,
            UpdateEvent::Done,
        ],
    );
    assert_eq!(
        log,
        vec!["stop", "pause 3", "replace", "read", "report ok 1.2.0", "start", "ok 1.2.0", "ok 1.2.0"]
    );
}

#[test]
fn update_retries_once() {
    let log = update(
        None,
        vec![
            UpdateEvent::Done,
            UpdateEvent::Done,
            UpdateEvent::Done,
            UpdateEvent::Replaced(Err("first".to_string())),
            UpdateEvent::Done,
            UpdateEvent::Replaced(Err("second".to_string())),
            UpdateEvent::Done,
            UpdateEvent::Done,
        ],
    );
    assert_eq!(
        log,
        vec!["stop", "pause 3", "replace", "pause 2", "replace", "report err second", "start", "err second"]
    );
}

#[test]
fn update_second_attempt_succeeds() {
    let log = update(
        Some("1.2.0"),
        vec![
            UpdateEvent::Done,
            UpdateEvent::NoManager,
            UpdateEvent::Replaced(Err("busy".to_string())),
            UpdateEvent::Done,
            UpdateEvent::Replaced(Ok(())),
            UpdateEvent::Installed(Some("1.1.0".to_string())),
            UpdateEvent::Done,
            UpdateEvent::Done,
        ],
    );
    assert_eq!(
        log,
        vec![
            "stop",
            "replace",
            "pause 2",
            "replace",
            "read",
            "report err 更新自检失败：期望 v1.2.0，实际 v1.1.0（下载到的资产已过期，请稍后重试）",
            "start",
            "err 更新自检失败：期望 v1.2.0，实际 v1.1.0（下载到的资产已过期，请稍后重试）",
        ]
    );
}

#[test]
fn update_unreadable_version() {
    let log = update(
        Some("1.2.0"),
        vec![
            UpdateEvent::Done,
            UpdateEvent::NoManager,
            UpdateEvent::Replaced(Ok(())),
            UpdateEvent::Installed(None),
            UpdateEvent::Done,
            UpdateEvent::Done,
        ],
    );
    assert_eq!(log.last().unwrap(), "ok ?");
}

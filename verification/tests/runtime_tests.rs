use dsh_desktop::poll::{port_wait_continues, wait_step, WaitStep};
use dsh_desktop::runtime::{
    curl_download_usable, extract_entry_kind, extract_progress_due, EntryKind, should_migrate_legacy, InstallAction, Outcome,
    Place, RuntimeInstall,
};
use dsh_desktop::tray::{lan_switch_message, LanSwitch};

fn describe(a: &InstallAction) -> String {
    match a {
        InstallAction::ReportDownload => "report".to_string(),
        InstallAction::Download => "download".to_string(),
        InstallAction::Probe(p) => format!("probe {:?}", p),
        InstallAction::RemoveDirAll(p) => format!("rmdir {:?}", p),
        InstallAction::CreateDirAll(p) => format!("mkdir {:?}", p),
        InstallAction::Extract => "extract".to_string(),
        InstallAction::Rename(a, b) => format!("rename {:?} {:?}", a, b),
        InstallAction::RemoveFile(p) => format!("rm {:?}", p),
        InstallAction::Finish(Ok(())) => "ok".to_string(),
        InstallAction::Finish(Err(e)) => format!("err {}", e),
    }
}

/// Runs the installation against a world where the listed places exist and the listed
/// actions fail.
fn run(exists: &[Place], fails: &[&str]) -> Vec<String> {
    let mut m = RuntimeInstall::new();
    let mut outcome = Outcome::Done;
    let mut log = vec![];
    for _ in 0..30 {
        let a = m.step(outcome);
        let d = describe(&a);
        log.push(d);
        if let InstallAction::Finish(_) = a {
            assert!(m.is_finished());
            return log;
        }
        let name = log.last().unwrap().clone();
        outcome = match a {
            InstallAction::Probe(p) => Outcome::Found(exists.contains(&p)),
            _ if fails.contains(&name.as_str()) => Outcome::Failed("boom".to_string()),
            _ => Outcome::Done,
        };
    }
    panic!("installation did not finish");
}

#[test]
fn install_first_time() {
    let log = run(&[Place::StagedEntry], &[]);
    assert_eq!(
        log,
        vec![
            "report", "download", "probe Staging", "mkdir Staging", "extract", "probe StagedEntry",
            "probe Backup", "probe Runtime", "rename StagedRuntime Runtime", "probe Backup",
            "rm DownloadZip", "rmdir Staging", "ok",
        ]
    );
}

#[test]
fn install_over_existing_runtime() {
    let log = run(&[Place::StagedEntry, Place::Staging, Place::Backup, Place::Runtime], &[]);
    assert_eq!(
        log,
        vec![
            "report", "download", "probe Staging", "rmdir Staging", "mkdir Staging", "extract",
            "probe StagedEntry", "probe Backup", "rmdir Backup", "probe Runtime",
            "rename Runtime Backup", "rename StagedRuntime Runtime", "probe Backup", "rmdir Backup",
            "rm DownloadZip", "rmdir Staging", "ok",
        ]
    );
}

#[test]
fn install_download_failure() {
    assert_eq!(run(&[], &["download"]), vec!["report", "download", "err boom"]);
}

#[test]
fn install_rejects_archive_without_dsh() {
    let log = run(&[Place::Runtime], &[]);
    assert_eq!(log.last().unwrap(), "err 下载内容缺少 dsh 运行时");
    assert!(!log.iter().any(|l| l.starts_with("rename")));
}

#[test]
fn install_staging_failures() {
    assert_eq!(run(&[Place::Staging], &["rmdir Staging"]).last().unwrap(), "err 清理临时目录失败：boom");
    assert_eq!(run(&[], &["mkdir Staging"]).last().unwrap(), "err 创建临时目录失败：boom");
    assert_eq!(run(&[], &["extract"]).last().unwrap(), "err boom");
}

#[test]
fn install_backup_failures() {
    assert_eq!(
        run(&[Place::StagedEntry, Place::Backup], &["rmdir Backup"]).last().unwrap(),
        "err 清理备份失败：boom"
    );
    assert_eq!(
        run(&[Place::StagedEntry, Place::Runtime], &["rename Runtime Backup"]).last().unwrap(),
        "err 备份旧运行时失败：boom"
    );
}

#[test]
fn install_fails_when_replacement_fails() {
    let log = run(&[Place::StagedEntry, Place::Runtime], &["rename StagedRuntime Runtime"]);
    assert_eq!(
        log[log.len() - 4..].to_vec(),
        vec!["rename Runtime Backup", "rename StagedRuntime Runtime", "probe Backup", "err 替换运行时失败：boom"]
    );
}

#[test]
fn install_restores_backup() {
    let mut m = RuntimeInstall::new();
    let steps = [
        Outcome::Done,
        Outcome::Done,
        Outcome::Done,
        Outcome::Found(false),
        Outcome::Done,
        Outcome::Done,
        Outcome::Found(true),
        Outcome::Found(false),
        Outcome::Found(true),
        Outcome::Done,
        Outcome::Failed("locked".to_string()),
        Outcome::Found(true),
        Outcome::Done,
    ];
    let mut actions = vec![];
    for o in steps {
        actions.push(describe(&m.step(o)));
    }
    assert_eq!(
        actions,
        vec![
            "report", "download", "probe Staging", "mkdir Staging", "extract", "probe StagedEntry",
            "probe Backup", "probe Runtime", "rename Runtime Backup", "rename StagedRuntime Runtime",
            "probe Backup", "rename Backup Runtime", "err 替换运行时失败：locked",
        ]
    );
    assert!(m.is_finished());
    assert_eq!(describe(&m.step(Outcome::Done)), "err 替换运行时失败：locked");
}

#[test]
fn extract_progress_reports() {
    assert!(!extract_progress_due(0, 1000));
    assert!(extract_progress_due(199, 1000));
    assert!(!extract_progress_due(200, 1000));
    assert!(extract_progress_due(399, 1000));
    assert!(extract_progress_due(999, 1000));
    assert!(extract_progress_due(4, 5));
}

#[test]
fn curl_download_checks() {
    assert!(curl_download_usable(true, true, Some(2048)));
    assert!(!curl_download_usable(true, true, Some(1024)));
    assert!(!curl_download_usable(true, true, None));
    assert!(!curl_download_usable(true, false, Some(4096)));
    assert!(!curl_download_usable(false, true, Some(4096)));
}

#[test]
fn legacy_migration() {
    assert!(should_migrate_legacy(false, true, false));
    assert!(!should_migrate_legacy(true, true, false));
    assert!(!should_migrate_legacy(false, false, false));
    assert!(!should_migrate_legacy(false, true, true));
}

#[test]
fn waiting() {
    assert_eq!(wait_step(true, 500, 100), WaitStep::Ready);
    assert_eq!(wait_step(false, 101, 100), WaitStep::GiveUp);
    assert_eq!(wait_step(false, 100, 100), WaitStep::Retry);
    assert!(port_wait_continues(9, 10));
    assert!(!port_wait_continues(10, 10));
}

#[test]
fn lan_switch_dialogs() {
    assert_eq!(lan_switch_message(LanSwitch::Off), ("局域网访问".to_string(), "已关闭局域网访问。".to_string()));
    assert_eq!(
        lan_switch_message(LanSwitch::On(Some(("https://192.168.1.5:8787".to_string(), "ab12".to_string())))),
        (
            "局域网访问已开启".to_string(),
            "手机浏览器打开：\nhttps://192.168.1.5:8787/?token=ab12\n\n（首次需信任自签名证书；电脑 IP 变化后会自动重签）".to_string()
        )
    );
    assert_eq!(
        lan_switch_message(LanSwitch::On(None)),
        ("开启失败".to_string(), "无法获取局域网 IP 或生成证书，转发器未启动。".to_string())
    );
    assert_eq!(lan_switch_message(LanSwitch::NoManager), ("错误".to_string(), "内部错误：服务未就绪。".to_string()));
}

#[test]
fn extract_entry_kinds() {
    assert_eq!(extract_entry_kind(false, true), Err("压缩包内存在非法路径".to_string()));
    assert_eq!(extract_entry_kind(false, false), Err("压缩包内存在非法路径".to_string()));
    assert_eq!(extract_entry_kind(true, true), Ok(EntryKind::Directory));
    assert_eq!(extract_entry_kind(true, false), Ok(EntryKind::File));
}

use dsh_desktop::cert::{cert_script, CertAction, CertEvent, CertSetup, CERT_PASSWORD};

fn name(a: &CertAction) -> String {
    match a {
        CertAction::ProbeCert => "probe".to_string(),
        CertAction::ReadRecordedIp => "read".to_string(),
        CertAction::DiscardOld => "discard".to_string(),
        CertAction::CreateDir => "mkdir".to_string(),
        CertAction::RunScript(s) => format!("run {}", s.len()),
        CertAction::RecordIp(ip) => format!("record {}", ip),
        CertAction::Finish(b) => format!("finish {}", b),
    }
}

fn drive(events: Vec<CertEvent>) -> Vec<String> {
    let mut setup = CertSetup::new(Some("192.168.1.5".to_string()), r"C:\c\forwarder.pfx".to_string());
    events.into_iter().map(|e| name(&setup.step(e))).collect()
}

fn script_len() -> usize {
    cert_script("192.168.1.5", r"C:\c\forwarder.pfx", CERT_PASSWORD).len()
}

#[test]
fn cert_kept_for_same_address() {
    let log = drive(vec![
        CertEvent::Done,
        CertEvent::Found(true),
        CertEvent::Text("192.168.1.5\r\n".to_string()),
    ]);
    assert_eq!(log, vec!["probe", "read", "finish true"]);
}

#[test]
fn cert_made_anew_when_address_changed() {
    let log = drive(vec![
        CertEvent::Done,
        CertEvent::Found(true),
        CertEvent::Text("192.168.1.9".to_string()),
        CertEvent::Done,
        CertEvent::Done,
        CertEvent::Done,
        CertEvent::Found(true),
        CertEvent::Done,
        CertEvent::Done,
    ]);
    assert_eq!(
        log,
        vec![
            "probe".to_string(),
            "read".to_string(),
            "discard".to_string(),
            "mkdir".to_string(),
            format!("run {}", script_len()),
            "probe".to_string(),
            "record 192.168.1.5".to_string(),
            "finish true".to_string(),
            "finish true".to_string(),
        ]
    );
}

#[test]
fn cert_made_when_missing() {
    let log = drive(vec![CertEvent::Done, CertEvent::Found(false), CertEvent::Done]);
    assert_eq!(log, vec!["probe".to_string(), "mkdir".to_string(), format!("run {}", script_len())]);
}

#[test]
fn cert_unreadable_record_means_new_cert() {
    let log = drive(vec![CertEvent::Done, CertEvent::Found(true), CertEvent::Failed]);
    assert_eq!(log, vec!["probe", "read", "discard"]);
}

#[test]
fn cert_failures() {
    assert_eq!(
        drive(vec![CertEvent::Done, CertEvent::Found(false), CertEvent::Failed]),
        vec!["probe", "mkdir", "finish false"]
    );
    let log = drive(vec![CertEvent::Done, CertEvent::Found(false), CertEvent::Done, CertEvent::Failed]);
    assert_eq!(log.last().unwrap(), "finish false");
    let log = drive(vec![
        CertEvent::Done,
        CertEvent::Found(false),
        CertEvent::Done,
        CertEvent::Done,
        CertEvent::Found(false),
    ]);
    assert_eq!(log.last().unwrap(), "finish false");
}

#[test]
fn cert_script_runs_for_current_address() {
    let mut setup = CertSetup::new(Some("10.0.0.7".to_string()), "/c/f.pfx".to_string());
    setup.step(CertEvent::Done);
    setup.step(CertEvent::Found(false));
    match setup.step(CertEvent::Done) {
        CertAction::RunScript(s) => assert_eq!(s, cert_script("10.0.0.7", "/c/f.pfx", "dsh-fwd")),
        _ => panic!("expected the certificate command"),
    }
}

#[test]
fn cert_without_address_touches_nothing() {
    let mut setup = CertSetup::new(None, "/c/f.pfx".to_string());
    assert_eq!(name(&setup.step(CertEvent::Done)), "finish false");
    assert_eq!(name(&setup.step(CertEvent::Found(true))), "finish false");
}

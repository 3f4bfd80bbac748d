use dsh_desktop::cert::{cert_reusable, cert_script, CERT_PASSWORD};
use dsh_desktop::dsh::{
    generate_token, github_token_note, ipv4_to_string, is_lan_address, lan_ipv4, stored_token,
    taskkill_args, token_from_bytes, user_env_entries, forwarder_env, DshManager, ForwarderAction,
    RegistryValue, StartAction, FORWARD_PORT,
};

fn manager() -> DshManager<u32> {
    DshManager::new(
        "node".to_string(),
        r"C:\rt\node_modules\@deepseek-ai\dsh\lib\bin.js".to_string(),
        r"C:\rt\dsh.log".to_string(),
        r"C:\rt\certs".to_string(),
    )
}

#[test]
fn lan_address_classes() {
    assert!(is_lan_address([10, 0, 0, 5]));
    assert!(is_lan_address([172, 16, 0, 1]));
    assert!(is_lan_address([172, 31, 255, 1]));
    assert!(!is_lan_address([172, 32, 0, 1]));
    assert!(!is_lan_address([172, 15, 0, 1]));
    assert!(is_lan_address([192, 168, 1, 20]));
    assert!(!is_lan_address([192, 169, 1, 20]));
    assert!(!is_lan_address([100, 100, 1, 1]));
    assert!(!is_lan_address([127, 0, 0, 1]));
    assert!(!is_lan_address([8, 8, 8, 8]));
}

#[test]
fn lan_ipv4_picks_first_private() {
    let addrs = vec![None, Some([127, 0, 0, 1]), Some([100, 64, 0, 3]), Some([192, 168, 3, 7]), Some([10, 0, 0, 2])];
    assert_eq!(lan_ipv4(&addrs), Some([192, 168, 3, 7]));
    assert_eq!(lan_ipv4(&vec![None, Some([8, 8, 4, 4])]), None);
    assert_eq!(lan_ipv4(&vec![]), None);
}

#[test]
fn ipv4_text() {
    assert_eq!(ipv4_to_string([192, 168, 0, 12]), "192.168.0.12");
    assert_eq!(ipv4_to_string([0, 0, 0, 0]), "0.0.0.0");
    assert_eq!(ipv4_to_string([255, 255, 255, 255]), "255.255.255.255");
}

#[test]
fn start_spawns_only_once() {
    let mut m = manager();
    assert_eq!(m.start(), StartAction::SpawnDsh);
    m.attach_dsh(41);
    assert_eq!(m.start(), StartAction::AlreadyRunning);
    assert!(!m.forwarder_running());
}

#[test]
fn stop_hands_back_both_processes() {
    let mut m = manager();
    m.attach_dsh(41);
    m.attach_forwarder(42);
    assert_eq!(m.stop(), vec![41, 42]);
    assert!(!m.forwarder_running());
    assert_eq!(m.start(), StartAction::SpawnDsh);
    assert_eq!(m.stop(), Vec::<u32>::new());
}

#[test]
fn stop_detached_hands_back_both_processes() {
    let mut m = manager();
    m.attach_forwarder(7);
    assert_eq!(m.stop_detached(), vec![7]);
    assert!(!m.forwarder_running());
}

#[test]
fn restart_keeps_forwarder() {
    let mut m = manager();
    m.attach_dsh(1);
    m.attach_forwarder(2);
    assert_eq!(m.restart(), Some(1));
    assert!(m.forwarder_running());
    assert_eq!(m.start(), StartAction::SpawnDsh);
    assert_eq!(m.restart(), None);
}

#[test]
fn set_forwarder_switches() {
    let mut m = manager();
    assert!(matches!(m.set_forwarder(true), ForwarderAction::SpawnForwarder));
    m.attach_forwarder(9);
    assert!(matches!(m.set_forwarder(true), ForwarderAction::AlreadyRunning));
    assert!(m.forwarder_running());
    assert!(matches!(m.set_forwarder(false), ForwarderAction::Stopped(Some(9))));
    assert!(!m.forwarder_running());
    assert!(matches!(m.set_forwarder(false), ForwarderAction::Stopped(None)));
}

#[test]
fn forwarder_link_address() {
    let m = manager();
    let (url, token) = m.forwarder_link([192, 168, 1, 5], "abc123".to_string());
    assert_eq!(url, "https://192.168.1.5:8787");
    assert_eq!(token, "abc123");
    assert_eq!(FORWARD_PORT, 8787);
}

#[test]
fn manager_paths_and_args() {
    let m = manager();
    assert_eq!(m.node(), "node");
    assert_eq!(m.log(), r"C:\rt\dsh.log");
    assert_eq!(m.cert_dir(), r"C:\rt\certs");
    assert_eq!(
        m.dsh_args(),
        vec![r"C:\rt\node_modules\@deepseek-ai\dsh\lib\bin.js".to_string(), "web".to_string(), "--no-open".to_string()]
    );
    assert_eq!(m.entry(), r"C:\rt\node_modules\@deepseek-ai\dsh\lib\bin.js");
}

#[test]
fn token_is_32_hex_digits() {
    let t = generate_token().expect("the system's random source answers");
    assert_eq!(t.len(), 32);
    assert!(t.chars().all(|c| "0123456789abcdef".contains(c)));
    let u = generate_token().unwrap();
    assert_eq!(u.len(), 32);
    assert_ne!(t, u);
    // Stored and read back, the token comes back as it was.
    assert_eq!(stored_token(&format!("{t}\n")), Some(t.clone()));
    assert_eq!(stored_token(&t), Some(t));
}

#[test]
fn token_from_bytes_maps_low_bits() {
    assert_eq!(token_from_bytes(&vec![0, 9, 10, 15, 1, 0x10, 0xff, 0xa7]), "09af10f7");
    assert_eq!(token_from_bytes(&vec![]), "");
}

#[test]
fn forwarder_needs_cert_and_token() {
    let cert = Some(("C:\\c\\forwarder.pfx".to_string(), "dsh-fwd".to_string()));
    assert_eq!(forwarder_env(None, Some("t".to_string())), None);
    assert_eq!(forwarder_env(cert.clone(), None), None);
    assert_eq!(forwarder_env(None, None), None);
    assert_eq!(
        forwarder_env(cert, Some("abc".to_string())),
        Some(vec![
            ("FORWARD_PFX".to_string(), "C:\\c\\forwarder.pfx".to_string()),
            ("FORWARD_PFX_PASS".to_string(), "dsh-fwd".to_string()),
            ("FORWARD_TOKEN".to_string(), "abc".to_string()),
        ])
    );
}

#[test]
fn stored_token_reused_when_present() {
    assert_eq!(stored_token("  deadbeef\n"), Some("deadbeef".to_string()));
    assert_eq!(stored_token("\n"), None);
}

#[test]
fn cert_reused_only_for_same_ip() {
    assert!(cert_reusable(true, "192.168.1.5\r\n", "192.168.1.5"));
    assert!(!cert_reusable(true, "192.168.1.6", "192.168.1.5"));
    assert!(!cert_reusable(false, "192.168.1.5", "192.168.1.5"));
    assert!(!cert_reusable(true, "", "192.168.1.5"));
}

#[test]
fn cert_script_text() {
    let s = cert_script("192.168.1.5", r"C:\certs\forwarder.pfx", CERT_PASSWORD);
    assert_eq!(
        s,
        "New-SelfSignedCertificate -Subject 'CN=192.168.1.5' -TextExtension @('2.5.29.17={text}ipaddress=192.168.1.5&ipaddress=127.0.0.1&dns=localhost') -CertStoreLocation Cert:\\CurrentUser\\My -FriendlyName 'Dsh Forwarder' -NotAfter (Get-Date).AddYears(5) | Export-PfxCertificate -FilePath 'C:\\certs\\forwarder.pfx' -Password (ConvertTo-SecureString 'dsh-fwd' -AsPlainText -Force) -Force"
    );
}

#[test]
fn taskkill_arguments() {
    assert_eq!(taskkill_args(4242), vec!["/PID", "4242", "/T", "/F"]);
}

#[test]
fn user_env_skips_expandable_and_empty() {
    let values = vec![
        RegistryValue { name: "GITHUB_TOKEN".into(), expandable: false, text: "ghp_x".into() },
        RegistryValue { name: "TEMP".into(), expandable: true, text: "%USERPROFILE%\\Temp".into() },
        RegistryValue { name: "EMPTY".into(), expandable: false, text: "".into() },
        RegistryValue { name: "PATHX".into(), expandable: false, text: "C:\\x".into() },
    ];
    assert_eq!(
        user_env_entries(values),
        vec![("GITHUB_TOKEN".to_string(), "ghp_x".to_string()), ("PATHX".to_string(), "C:\\x".to_string())]
    );
}

#[test]
fn github_token_notes() {
    assert_eq!(github_token_note(true), "found-in-registry");
    assert_eq!(github_token_note(false), "not-found");
}

use nexus::platform::{allow_media_request, autostart_result, is_own_origin};
use nexus::platform::{
    autostart_task_script, mic_permission_verdict, task_registered, task_state_enabled, trim, MicPermission,
    AUTOSTART_SCRIPT_HEAD, AUTOSTART_SCRIPT_TAIL,
};

#[test]
fn mic_listing_failure_is_denied() {
    assert!(matches!(mic_permission_verdict(None, true, true), MicPermission::Denied));
}

#[test]
fn mic_without_devices() {
    assert!(matches!(mic_permission_verdict(Some(0), true, true), MicPermission::NoDevice));
    assert!(matches!(mic_permission_verdict(Some(2), false, true), MicPermission::NoDevice));
}

#[test]
fn mic_granted_or_denied_by_config_probe() {
    assert!(matches!(mic_permission_verdict(Some(1), true, true), MicPermission::Granted));
    assert!(matches!(mic_permission_verdict(Some(1), true, false), MicPermission::Denied));
}

#[test]
fn mic_words() {
    assert_eq!(MicPermission::Granted.as_word(), "granted");
    assert_eq!(MicPermission::Denied.as_word(), "denied");
    assert_eq!(MicPermission::NoDevice.as_word(), "no_device");
}

#[test]
fn trim_like_std() {
    for s in ["  Ready \r\n", "", "   ", "a b", "\u{3000}x\u{a0}", "\tx y\n"] {
        assert_eq!(trim(s), s.trim());
    }
}

#[test]
fn task_state_ready_or_running() {
    assert!(task_state_enabled("Ready\r\n"));
    assert!(task_state_enabled("  Running "));
    assert!(!task_state_enabled("Disabled\r\n"));
    assert!(!task_state_enabled(""));
    assert!(!task_state_enabled("ready"));
}

#[test]
fn task_registration_needs_success_and_marker() {
    assert!(task_registered(true, "NEXUS_TASK_OK\r\n"));
    assert!(!task_registered(false, "NEXUS_TASK_OK"));
    assert!(!task_registered(true, "NEXUS_TASK_FAIL"));
}

#[test]
fn autostart_script_embeds_executable() {
    let s = autostart_task_script("C:\\Apps\\nexus.exe");
    assert!(s.starts_with("$exe = 'C:\\Apps\\nexus.exe';\n"));
    assert!(s.contains("-Argument '--background'"));
    assert!(s.ends_with("if ($result) { Write-Output 'NEXUS_TASK_OK' } else { Write-Output 'NEXUS_TASK_FAIL' }"));
    assert_eq!(s, format!("{}{}{}", AUTOSTART_SCRIPT_HEAD, "C:\\Apps\\nexus.exe", AUTOSTART_SCRIPT_TAIL));
}

#[test]
fn own_origins_for_media_permissions() {
    assert!(is_own_origin("https://tauri.localhost/index.html"));
    assert!(is_own_origin("http://localhost:5173/"));
    assert!(is_own_origin("ipc://localhost"));
    assert!(!is_own_origin("https://example.com"));
    assert!(!is_own_origin(""));
    assert!(allow_media_request(true, "http://tauri.localhost"));
    assert!(!allow_media_request(false, "http://tauri.localhost"));
    assert!(!allow_media_request(true, "https://evil.example"));
}

#[test]
fn origin_hosts_must_match_exactly() {
    assert!(!is_own_origin("http://localhost.attacker.example/"));
    assert!(!is_own_origin("https://localhost.evil.test/"));
    assert!(!is_own_origin("http://tauri.localhost.evil/"));
    assert!(!is_own_origin("ipc://localhostx"));
    assert!(!is_own_origin("http://localhost:"));
    assert!(!is_own_origin("http://localhost:12ab/"));
    assert!(!is_own_origin("http://localhost@evil.example/"));
    assert!(is_own_origin("http://localhost"));
    assert!(is_own_origin("https://localhost:1420"));
    assert!(is_own_origin("http://tauri.localhost:8080/x"));
    assert!(is_own_origin("ipc://localhost/invoke"));
    assert!(!allow_media_request(true, "http://localhost.attacker.example/"));
}

#[test]
fn autostart_answers() {
    assert_eq!(autostart_result(true, Ok((true, "NEXUS_TASK_OK\r\n".to_string()))), Ok(true));
    assert_eq!(
        autostart_result(true, Ok((true, "NEXUS_TASK_FAIL".to_string()))),
        Err("Failed to create scheduled task".to_string())
    );
    assert_eq!(
        autostart_result(true, Ok((false, "NEXUS_TASK_OK".to_string()))),
        Err("Failed to create scheduled task".to_string())
    );
    assert_eq!(autostart_result(false, Ok((false, String::new()))), Ok(false));
    assert_eq!(
        autostart_result(false, Err("not found".to_string())),
        Err("PowerShell error: not found".to_string())
    );
}

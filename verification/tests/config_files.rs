use nexus::config::{
    autostart_setting, default_tts_provider, extract_json_string, merge_saved_config, preserve_identity,
    render_config, server_config_from_json, session_config, ServerConfig, DEFAULT_SERVER_URL,
};

fn cfg(url: &str, user: &str, device: &str) -> ServerConfig {
    ServerConfig { server_url: url.to_string(), user_id: user.to_string(), device_id: device.to_string() }
}

fn triple(c: &ServerConfig) -> (String, String, String) {
    (c.server_url.clone(), c.user_id.clone(), c.device_id.clone())
}

fn t(url: &str, user: &str, device: &str) -> (String, String, String) {
    (url.to_string(), user.to_string(), device.to_string())
}

#[test]
fn default_config_uses_default_server() {
    let c = ServerConfig::default();
    assert_eq!(triple(&c), t(DEFAULT_SERVER_URL, "", ""));
    assert_eq!(DEFAULT_SERVER_URL, "https://nexus-worker.chitkullakshya.workers.dev");
}

#[test]
fn config_read_from_saved_file() {
    let text = r#"{"serverUrl":"https://my.server","userId":"user_1","deviceId":"device_1"}"#;
    let c = server_config_from_json(text, DEFAULT_SERVER_URL).unwrap();
    assert_eq!(triple(&c), t("https://my.server", "user_1", "device_1"));
}

#[test]
fn config_empty_url_falls_back_to_default() {
    let text = r#"{"serverUrl":"","userId":"u"}"#;
    let c = server_config_from_json(text, "https://default").unwrap();
    assert_eq!(triple(&c), t("https://default", "u", ""));
}

#[test]
fn config_missing_members_and_non_string_values() {
    let c = server_config_from_json(r#"{"userId": 7}"#, "https://default").unwrap();
    assert_eq!(triple(&c), t("https://default", "", ""));
}

#[test]
fn config_invalid_json_is_an_error() {
    let e = server_config_from_json("{not json", "https://default");
    assert!(e.is_err());
    assert!(!e.unwrap_err().is_empty());
}

#[test]
fn merge_replaces_present_members() {
    let current = cfg("https://a", "old_user", "old_device");
    let m = merge_saved_config(current, r#"{"serverUrl":"","userId":"new_user"}"#, "https://default");
    assert_eq!(triple(&m), t("https://default", "new_user", "old_device"));
}

#[test]
fn merge_keeps_current_on_invalid_document() {
    let current = cfg("https://a", "u", "d");
    let m = merge_saved_config(current, "oops", "https://default");
    assert_eq!(triple(&m), t("https://a", "u", "d"));
}

#[test]
fn merge_keeps_url_when_member_absent() {
    let current = cfg("https://a", "u", "d");
    let m = merge_saved_config(current, r#"{"deviceId":"d2"}"#, "https://default");
    assert_eq!(triple(&m), t("https://a", "u", "d2"));
}

#[test]
fn preserve_identity_keeps_saved_ids_for_empty_settings() {
    let settings = cfg("", "", "");
    let existing = r#"{"serverUrl":"https://saved","userId":"user_saved","deviceId":"device_saved"}"#;
    let r = preserve_identity(&settings, Some(existing), "https://default");
    assert_eq!(triple(&r), t("https://saved", "user_saved", "device_saved"));
}

#[test]
fn preserve_identity_prefers_settings_values() {
    let settings = cfg("https://new", "user_new", "");
    let existing = r#"{"serverUrl":"https://saved","userId":"user_saved","deviceId":"device_saved"}"#;
    let r = preserve_identity(&settings, Some(existing), "https://default");
    assert_eq!(triple(&r), t("https://new", "user_new", "device_saved"));
}

#[test]
fn preserve_identity_saved_file_without_url() {
    let settings = cfg("", "", "");
    let r = preserve_identity(&settings, Some(r#"{"userId":"u"}"#), "https://default");
    assert_eq!(triple(&r), t("https://default", "u", ""));
}

#[test]
fn preserve_identity_without_existing_file() {
    let settings = cfg("", "u", "");
    let r = preserve_identity(&settings, None, "https://default");
    assert_eq!(triple(&r), t("https://default", "u", ""));
    let r2 = preserve_identity(&settings, Some("garbage"), "https://default");
    assert_eq!(triple(&r2), t("https://default", "u", ""));
}

#[test]
fn render_config_writes_sorted_compact_json() {
    let c = cfg("https://s", "u\"1", "d");
    assert_eq!(render_config(&c), r#"{"deviceId":"d","serverUrl":"https://s","userId":"u\"1"}"#);
}

#[test]
fn rendered_config_reads_back() {
    let c = cfg("https://s/é", "user_\\x", "device_\n1");
    let text = render_config(&c);
    let back = server_config_from_json(&text, "https://default").unwrap();
    assert_eq!(triple(&back), triple(&c));
}

#[test]
fn autostart_defaults_to_on() {
    assert!(autostart_setting(None));
    assert!(autostart_setting(Some("not json")));
    assert!(autostart_setting(Some("{}")));
    assert!(autostart_setting(Some(r#"{"autostart":"no"}"#)));
}

#[test]
fn autostart_reads_setting() {
    assert!(!autostart_setting(Some(r#"{"autostart":false,"hotkey":"Ctrl+Space"}"#)));
    assert!(autostart_setting(Some(r#"{"autostart":true}"#)));
}

#[test]
fn session_needs_user_id() {
    assert!(session_config(r#"{"serverUrl":"https://s","userId":""}"#, "https://d").is_none());
    assert!(session_config("bad", "https://d").is_none());
    let s = session_config(r#"{"userId":"u","deviceId":"d"}"#, "https://d").unwrap();
    assert_eq!(triple(&s), t("https://d", "u", "d"));
}

#[test]
fn extract_json_string_finds_value() {
    let json = r#"{ "serverUrl" : "https://x", "userId": "abc" }"#;
    assert_eq!(extract_json_string(json, "userId"), Some("abc".to_string()));
    assert_eq!(extract_json_string(json, "serverUrl"), Some("https://x".to_string()));
}

#[test]
fn extract_json_string_missing_key() {
    assert_eq!(extract_json_string(r#"{"a":"b"}"#, "c"), None);
    assert_eq!(extract_json_string(r#"{"a":1}"#, "a"), None);
}

#[test]
fn default_tts_provider_is_kokoro() {
    assert_eq!(default_tts_provider(), "kokoro");
}

#[test]
fn extract_json_string_needs_a_string_value() {
    assert_eq!(extract_json_string(r#"{"userId":5,"deviceId":"d1"}"#, "userId"), None);
    assert_eq!(extract_json_string("{\"userId\":\n\t \"u7\"}", "userId"), Some("u7".to_string()));
    assert_eq!(extract_json_string(r#"{"userId": null}"#, "userId"), None);
    assert_eq!(extract_json_string(r#"{"userId":"#, "userId"), None);
}

#[test]
fn rendered_config_with_control_characters_reads_back() {
    let c = cfg("", "tab\there", "bell\u{7}\u{1f}");
    let text = render_config(&c);
    assert!(text.contains("\\u0007") && text.contains("\\u001f") && text.contains("\\t"));
    let back = server_config_from_json(&text, "https://default").unwrap();
    assert_eq!(triple(&back), t("https://default", "tab\there", "bell\u{7}\u{1f}"));
}

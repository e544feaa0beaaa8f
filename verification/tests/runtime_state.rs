use nexus::meeting::MeetingStatus;
use nexus::playback::PlaybackGate;
use nexus::processes::{find_running_app, running_apps_among, running_matches};
use nexus::sidebar::{should_capture_backdrop, sidebar_origin, FrameChangeDetector, PendingSidebar, SidebarSlot};

fn content(q: &str) -> PendingSidebar {
    PendingSidebar {
        query: q.to_string(),
        text: "answer".to_string(),
        backdrop: Some("data:image/png;base64,AAAA".to_string()),
        analysis: Some(serde_json::Value::Bool(true)),
    }
}

#[test]
fn pending_sidebar_content_is_delivered_once() {
    let mut slot = SidebarSlot::new();
    assert!(slot.take().is_none());
    slot.store(content("first"));
    slot.store(content("second"));
    let got = slot.take().unwrap();
    assert_eq!(got.query, "second");
    assert_eq!(got.text, "answer");
    assert_eq!(got.backdrop.as_deref(), Some("data:image/png;base64,AAAA"));
    assert_eq!(got.analysis, Some(serde_json::Value::Bool(true)));
    assert!(slot.take().is_none());
}

#[test]
fn backdrop_capture_skipped_for_visible_window() {
    assert!(!should_capture_backdrop(true, true));
    assert!(should_capture_backdrop(true, false));
    assert!(should_capture_backdrop(false, true));
    assert!(should_capture_backdrop(false, false));
}

#[test]
fn sidebar_goes_bottom_right_above_taskbar() {
    assert_eq!(sidebar_origin(1920, 1080, 600, 1000, 48, 12), (1308, 20));
}

#[test]
fn sidebar_taller_than_screen_is_clamped_to_top() {
    assert_eq!(sidebar_origin(1280, 720, 900, 1500, 36, 12), (368, 0));
}

#[test]
fn frames_sent_only_when_changed() {
    let mut d = FrameChangeDetector::new();
    assert!(d.observe(5));
    assert!(!d.observe(5));
    assert!(d.observe(6));
    d.reset();
    assert!(d.observe(6));
}

#[test]
fn stop_cancels_reply_in_progress() {
    let mut gate = PlaybackGate::new();
    let ticket = gate.ticket();
    assert!(!gate.cancelled(ticket));
    gate.stop();
    assert!(gate.cancelled(ticket));
    let next = gate.ticket();
    assert!(!gate.cancelled(next));
    gate.stop();
    gate.stop();
    assert!(gate.cancelled(next));
}

#[test]
fn meeting_status_fields() {
    let s = MeetingStatus { meeting_active: true, paused: false, tts_playing: true, detection_enabled: false };
    let c = s.clone();
    assert!(c.meeting_active && !c.paused && c.tts_playing && !c.detection_enabled);
}

#[test]
fn running_matches_by_lowercase_fragment() {
    let procs = vec![
        ("Spotify.exe".to_string(), 10u32),
        ("bash".to_string(), 11u32),
        ("Code Helper".to_string(), 12u32),
    ];
    let cands = vec!["code".to_string(), "spotify".to_string()];
    assert_eq!(running_matches(&procs, &cands), vec![0usize, 2usize]);
    assert!(running_matches(&procs, &vec![]).is_empty());
}

#[test]
fn running_apps_found_look_like_the_target() {
    let found = find_running_app("zz-no-such-app-qq");
    for (name, _) in &found {
        assert!(name.to_lowercase().contains("zz-no-such-app-qq"));
    }
}

#[test]
fn running_apps_among_keeps_matching_processes_in_order() {
    let procs = vec![
        ("bash".to_string(), 1u32),
        ("Code Helper (Renderer)".to_string(), 2u32),
        ("code".to_string(), 3u32),
        ("VSCode.exe".to_string(), 4u32),
    ];
    let got = running_apps_among(&procs, "vs code");
    assert_eq!(
        got,
        vec![
            ("Code Helper (Renderer)".to_string(), 2u32),
            ("code".to_string(), 3u32),
            ("VSCode.exe".to_string(), 4u32),
        ]
    );
    assert!(running_apps_among(&procs, "spotify").is_empty());
}

use nexus::command_executor::{
    clean_phone, close_app_plan, close_outcome, github_search, keystroke_for, keystroke_script, media_acknowledged,
    media_outcome, open_search, open_url, plan_command, send_message, sendkeys_for, sendkeys_script, set_alarm,
    set_timer, spotify_play, url_outcome, whatsapp_chat, whatsapp_launch, windows_close_plan, wtype_args_for,
    youtube_play, youtube_search, create_event, volume_mute, take_screenshot, lock_screen, CommandPlan, Intent,
    KillAttempt,
};

#[test]
fn set_timer_acknowledges() {
    let r = set_timer("5 minutes");
    assert!(r.success);
    assert_eq!(r.message, "Timer set for 5 minutes, sir.");
}

#[test]
fn set_alarm_acknowledges() {
    let r = set_alarm("7 am");
    assert!(r.success);
    assert_eq!(r.message, "Alarm set for 7 am, sir.");
}

#[test]
fn fixed_replies() {
    assert_eq!(volume_mute().message, "Muted, sir.");
    assert_eq!(take_screenshot().message, "Screenshot taken, sir.");
    assert_eq!(lock_screen().message, "Locking screen, sir.");
}

#[test]
fn open_url_plan() {
    let p = open_url("gmail", "https://mail.google.com");
    assert_eq!(p.url, "https://mail.google.com");
    assert!(p.opened.success);
    assert_eq!(p.opened.message, "Opened Gmail in your browser, sir.");
    assert!(!p.failed.success);
    assert_eq!(p.failed.message, "I couldn't open gmail, sir.");
}

#[test]
fn open_search_plan() {
    let p = open_search("rust lang & verus");
    assert_eq!(p.url, "https://www.google.com/search?q=rust+lang+%26+verus");
    assert_eq!(p.opened.message, "Searching for rust lang & verus, sir.");
    assert_eq!(p.failed.message, "I couldn't search for rust lang & verus, sir.");
}

#[test]
fn youtube_plans() {
    let s = youtube_search("lo fi");
    assert_eq!(s.url, "https://www.youtube.com/results?search_query=lo+fi");
    assert_eq!(s.opened.message, "Searching lo fi on YouTube, sir.");
    assert_eq!(s.failed.message, "I couldn't search YouTube, sir.");
    let p = youtube_play("lo fi");
    assert_eq!(p.url, "https://www.youtube.com/results?search_query=lo+fi");
    assert_eq!(p.opened.message, "Playing lo fi on YouTube, sir.");
    assert_eq!(p.failed.message, "I couldn't open YouTube, sir.");
}

#[test]
fn github_search_plan() {
    let p = github_search("verus lang");
    assert_eq!(p.url, "https://github.com/search?q=verus+lang&type=repositories");
    assert_eq!(p.opened.message, "Searching verus lang on GitHub, sir.");
}

#[test]
fn send_message_and_create_event_plans() {
    let m = send_message("mom");
    assert_eq!(m.url, "https://web.whatsapp.com");
    assert_eq!(m.opened.message, "Opening WhatsApp for mom, sir.");
    let e = create_event("lunch");
    assert_eq!(e.url, "https://calendar.google.com/calendar/u/0/r/eventedit");
    assert_eq!(e.opened.message, "Creating event lunch in your calendar, sir.");
    assert_eq!(e.failed.message, "I couldn't open your calendar, sir.");
}

#[test]
fn spotify_plan() {
    let p = spotify_play("daft punk");
    assert_eq!(p.app_uri, "spotify:search:daft+punk");
    assert_eq!(p.web_url, "https://open.spotify.com/search/daft+punk");
    assert_eq!(p.played.message, "Playing daft punk on Spotify, sir.");
    assert_eq!(p.failed.message, "I couldn't open Spotify, sir.");
}

#[test]
fn url_outcome_picks_reply() {
    let ok = url_outcome(open_url("x", "https://x.com"), true);
    assert!(ok.success);
    assert_eq!(ok.message, "Opened X in your browser, sir.");
    let bad = url_outcome(open_url("x", "https://x.com"), false);
    assert!(!bad.success);
    assert_eq!(bad.message, "I couldn't open x, sir.");
}

#[test]
fn plan_for_timer_intent() {
    match plan_command(Intent::SetTimer { query: "10 minutes".to_string() }) {
        CommandPlan::Reply(r) => {
            assert!(r.success);
            assert_eq!(r.message, "Timer set for 10 minutes, sir.");
        },
        _ => panic!("expected a reply"),
    }
}

#[test]
fn plan_for_unknown_intent() {
    match plan_command(Intent::Unknown { raw: "blorp".to_string() }) {
        CommandPlan::Reply(r) => {
            assert!(!r.success);
            assert_eq!(r.message, "I didn't understand: blorp. Could you rephrase that, sir?");
        },
        _ => panic!("expected a reply"),
    }
}

#[test]
fn plan_for_greeting_intent() {
    match plan_command(Intent::Greeting { reply: "Hello, sir.".to_string() }) {
        CommandPlan::Reply(r) => {
            assert!(r.success);
            assert_eq!(r.message, "Hello, sir.");
        },
        _ => panic!("expected a reply"),
    }
}

#[test]
fn plan_for_google_search_intent() {
    match plan_command(Intent::GoogleSearch { query: "weather".to_string() }) {
        CommandPlan::OpenUrl(p) => assert_eq!(p.url, "https://www.google.com/search?q=weather"),
        _ => panic!("expected a URL"),
    }
}

#[test]
fn plan_for_browser_intents() {
    match plan_command(Intent::BrowserNewTab) {
        CommandPlan::BrowserKey { keys, reply } => {
            assert_eq!(keys, "ctrl+t");
            assert_eq!(reply.message, "New tab sir.");
        },
        _ => panic!("expected a key press"),
    }
    match plan_command(Intent::BrowserBack) {
        CommandPlan::BrowserKey { keys, reply } => {
            assert_eq!(keys, "alt+left");
            assert_eq!(reply.message, "Back sir.");
        },
        _ => panic!("expected a key press"),
    }
}

#[test]
fn plan_for_media_intents() {
    match plan_command(Intent::MediaPlayPause) {
        CommandPlan::Media { action } => assert_eq!(action, "play_pause"),
        _ => panic!("expected media control"),
    }
    match plan_command(Intent::MediaPrevious) {
        CommandPlan::Media { action } => assert_eq!(action, "previous"),
        _ => panic!("expected media control"),
    }
}

#[test]
fn plan_for_app_intents() {
    match plan_command(Intent::OpenApp { target: "spotify".to_string() }) {
        CommandPlan::OpenApp { target } => assert_eq!(target, "spotify"),
        _ => panic!("expected app resolution"),
    }
    match plan_command(Intent::CloseApp { target: "spotify".to_string() }) {
        CommandPlan::CloseApp { target } => assert_eq!(target, "spotify"),
        _ => panic!("expected app closing"),
    }
    match plan_command(Intent::WhatsappChat { contact: "mom".to_string() }) {
        CommandPlan::WhatsappChat { contact } => assert_eq!(contact, "mom"),
        _ => panic!("expected a chat"),
    }
}

#[test]
fn plan_for_fixed_intents() {
    match plan_command(Intent::VolumeMute) {
        CommandPlan::Mute(r) => assert_eq!(r.message, "Muted, sir."),
        _ => panic!("expected mute"),
    }
    match plan_command(Intent::Lock) {
        CommandPlan::Lock(r) => assert_eq!(r.message, "Locking screen, sir."),
        _ => panic!("expected lock"),
    }
}

#[test]
fn key_sequences_per_platform() {
    assert_eq!(sendkeys_for("ctrl+tab"), "^{TAB}");
    assert_eq!(sendkeys_for("alt+left"), "%{LEFT}");
    assert_eq!(sendkeys_for("ctrl+z"), "");
    assert_eq!(
        sendkeys_script("^t"),
        "Add-Type -AssemblyName System.Windows.Forms; [System.Windows.Forms.SendKeys]::SendWait('^t')"
    );
    assert_eq!(keystroke_for("alt+left"), ("command down".to_string(), "[".to_string()));
    assert_eq!(
        keystroke_script("t", "command down"),
        "tell application \"System Events\" to keystroke \"t\" using {command down}"
    );
    assert_eq!(
        wtype_args_for("ctrl+w"),
        Some(vec!["-M", "ctrl", "-k", "w", "-m", "ctrl"].into_iter().map(String::from).collect())
    );
    assert_eq!(wtype_args_for("ctrl+z"), None);
}

#[test]
fn media_replies() {
    let ok = media_outcome(Ok("Paused".to_string()));
    assert!(ok.success);
    assert_eq!(ok.message, "Paused");
    let err = media_outcome(Err("no player".to_string()));
    assert!(!err.success);
    assert_eq!(err.message, "Couldn't control media: no player");
    assert_eq!(media_acknowledged("next").message, "Media next executed, sir.");
}

#[test]
fn close_plan_for_flatpak_app() {
    let p = close_app_plan("spotify", Some("Spotify"), Some("flatpak run com.spotify.Client --uri=%U"));
    assert_eq!(p.app_name, "Spotify");
    assert_eq!(p.attempts.len(), 3);
    assert!(matches!(&p.attempts[0], KillAttempt::FlatpakKill { app_id } if app_id == "com.spotify.Client"));
    assert!(matches!(&p.attempts[1], KillAttempt::Pkill { pattern } if pattern == "flatpak"));
    assert!(matches!(&p.attempts[2], KillAttempt::Pkill { pattern } if pattern == "Spotify"));
}

#[test]
fn close_plan_for_native_app() {
    let p = close_app_plan("firefox", None, Some("/usr/lib/firefox/firefox %u"));
    assert_eq!(p.app_name, "firefox");
    assert_eq!(p.attempts.len(), 2);
    assert!(matches!(&p.attempts[0], KillAttempt::Pkill { pattern } if pattern == "firefox"));
    assert!(matches!(&p.attempts[1], KillAttempt::Pkill { pattern } if pattern == "firefox"));
}

#[test]
fn close_plan_without_registry_entry() {
    let p = close_app_plan("gedit", None, None);
    assert_eq!(p.attempts.len(), 1);
    assert!(matches!(&p.attempts[0], KillAttempt::Pkill { pattern } if pattern == "gedit"));
}

#[test]
fn windows_close_plan_names() {
    let p = windows_close_plan("chrome", None, None);
    assert_eq!(p.app_name, "chrome");
    assert_eq!(p.exe_name, "chrome.exe");
    assert_eq!(p.wmic_filter, "name like '%chrome%'");
    let q = windows_close_plan("code", Some("VS Code"), Some("Code.exe.exe"));
    assert_eq!(q.app_name, "VS Code");
    assert_eq!(q.exe_name, "Code.exe.exe");
    assert_eq!(q.wmic_filter, "name like '%Code%'");
}

#[test]
fn close_outcome_replies() {
    let ok = close_outcome("spotify", true);
    assert!(ok.success);
    assert_eq!(ok.message, "Closed Spotify, sir.");
    let bad = close_outcome("spotify", false);
    assert!(!bad.success);
    assert_eq!(bad.message, "I couldn't find Spotify running, sir.");
}

#[test]
fn clean_phone_keeps_digits() {
    assert_eq!(clean_phone("+1 (555) 123-4567"), "15551234567");
    assert_eq!(clean_phone("no digits"), "");
}

#[test]
fn whatsapp_launch_plan() {
    let p = whatsapp_launch("Mom", "+44 20 7946 0018");
    assert_eq!(p.url, "whatsapp://send?phone=442079460018");
    assert_eq!(p.opened.message, "Opening your chat with Mom, sir.");
    assert!(!p.failed.success);
    assert_eq!(p.failed.message, "I couldn't open WhatsApp, sir. Make sure it's installed.");
}

#[test]
fn whatsapp_chat_exact_contact() {
    let contacts = r#"{"Mom": "+1 (555) 123-4567", "Dad": "555 0000"}"#;
    let p = whatsapp_chat("MOM", Some(contacts));
    assert_eq!(p.url, "whatsapp://send?phone=15551234567");
    assert_eq!(p.opened.message, "Opening your chat with Mom, sir.");
}

#[test]
fn whatsapp_chat_partial_contact() {
    let contacts = r#"{"Grandma Rose": "123", "Dad": "555"}"#;
    let p = whatsapp_chat("grandma", Some(contacts));
    assert_eq!(p.url, "whatsapp://send?phone=123");
    assert_eq!(p.opened.message, "Opening your chat with Grandma Rose, sir.");
}

#[test]
fn whatsapp_chat_non_string_number() {
    let contacts = r#"{"Bob": 42}"#;
    let p = whatsapp_chat("bob", Some(contacts));
    assert_eq!(p.url, "whatsapp://send?phone=");
}

#[test]
fn whatsapp_chat_unknown_contact() {
    let p = whatsapp_chat("zed", Some(r#"{"Mom": "1"}"#));
    assert_eq!(p.url, "whatsapp://");
    assert!(p.opened.success);
    assert_eq!(
        p.opened.message,
        "I couldn't find Zed in your contacts, sir. Opening WhatsApp so you can pick a chat."
    );
}

#[test]
fn whatsapp_chat_without_contacts_file() {
    let p = whatsapp_chat("mom", None);
    assert_eq!(p.url, "whatsapp://");
    let q = whatsapp_chat("mom", Some("not json"));
    assert_eq!(q.url, "whatsapp://");
    let r = whatsapp_chat("mom", Some("[1, 2]"));
    assert_eq!(r.url, "whatsapp://");
}

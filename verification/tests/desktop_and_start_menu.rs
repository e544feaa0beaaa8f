use nexus::exec_line::{clean_exec, desktop_exec, desktop_file_matches, exec_basename, flatpak_app_id, split_words};
use nexus::start_apps::{apps_folder_target, choose_start_app, parse_start_apps_json};
use nexus::resolve::launch_via_start_apps;

fn pairs(v: &[(&str, &str)]) -> Vec<(String, String)> {
    v.iter().map(|(a, b)| (a.to_string(), b.to_string())).collect()
}

fn strings(v: &[&str]) -> Vec<String> {
    v.iter().map(|s| s.to_string()).collect()
}

#[test]
fn desktop_exec_reads_first_exec_line() {
    let entry = "[Desktop Entry]\nName=Firefox\nExec=firefox   --new-window %u\nExec=other\n";
    assert_eq!(desktop_exec(entry), Some("firefox --new-window".to_string()));
}

#[test]
fn desktop_exec_handles_crlf_and_missing_line() {
    assert_eq!(desktop_exec("Name=X\r\nExec=/usr/bin/x %F\r\n"), Some("/usr/bin/x".to_string()));
    assert_eq!(desktop_exec("[Desktop Entry]\nName=X\n"), None);
    assert_eq!(desktop_exec(""), None);
}

#[test]
fn desktop_exec_requires_prefix_at_line_start() {
    assert_eq!(desktop_exec("TryExec=foo\n Exec=bar\n"), None);
}

#[test]
fn clean_exec_drops_field_codes() {
    let v: Vec<char> = "  gimp-2.10 %U  --x %f ".chars().collect();
    assert_eq!(clean_exec(&v), "gimp-2.10 --x");
}

#[test]
fn split_words_like_split_whitespace() {
    let v: Vec<char> = " a\tbc  d ".chars().collect();
    let w: Vec<String> = split_words(&v).iter().map(|w| w.iter().collect()).collect();
    assert_eq!(w, strings(&["a", "bc", "d"]));
}

#[test]
fn flatpak_ids() {
    assert_eq!(flatpak_app_id("flatpak run org.gimp.GIMP --file %f"), Some("org.gimp.GIMP".to_string()));
    assert_eq!(flatpak_app_id("flatpak run"), None);
    assert_eq!(flatpak_app_id("firefox %u"), None);
    assert_eq!(flatpak_app_id("/usr/bin/flatpak run x"), None);
}

#[test]
fn exec_basenames() {
    assert_eq!(exec_basename("/usr/lib/firefox/firefox %u"), Some("firefox".to_string()));
    assert_eq!(exec_basename("code --new"), Some("code".to_string()));
    assert_eq!(exec_basename("/opt/app/"), Some("".to_string()));
    assert_eq!(exec_basename("   "), None);
}

#[test]
fn desktop_file_name_matching() {
    assert!(desktop_file_matches("google-chrome.desktop", "Google Chrome"));
    assert!(desktop_file_matches("org.gnome.calculator.desktop", "calculator"));
    assert!(!desktop_file_matches("firefox.desktop", "chrome"));
}

#[test]
fn start_apps_json_array() {
    let json = r#"[{"Name":"Gmail","AppID":"Brave._crx_abc"},{"Name":"Spotify","AppID":"SpotifyAB.SpotifyMusic_zpdnekdrzrea0!Spotify"}]"#;
    assert_eq!(
        parse_start_apps_json(json),
        pairs(&[("Gmail", "Brave._crx_abc"), ("Spotify", "SpotifyAB.SpotifyMusic_zpdnekdrzrea0!Spotify")])
    );
}

#[test]
fn start_apps_json_single_object() {
    let json = r#"{"Name":"Calculator","AppID":"Microsoft.WindowsCalculator_8wekyb3d8bbwe!App"}"#;
    assert_eq!(
        parse_start_apps_json(json),
        pairs(&[("Calculator", "Microsoft.WindowsCalculator_8wekyb3d8bbwe!App")])
    );
}

#[test]
fn start_apps_json_incomplete_entries_are_skipped() {
    assert_eq!(parse_start_apps_json(r#"{"Name":"Broken"}"#), pairs(&[]));
    assert_eq!(parse_start_apps_json(""), pairs(&[]));
}

#[test]
fn start_app_prefers_exact_native() {
    let entries = pairs(&[("Gmail", "Brave._crx_x"), ("Gmail", "com.squirrel.gmail"), ("Gmail Helper", "native")]);
    assert_eq!(choose_start_app(&entries, &strings(&["gmail"])), Some(1));
}

#[test]
fn start_app_exact_web_before_partial_native() {
    let entries = pairs(&[("Gmail Helper", "native"), ("Gmail", "Brave._crx_x")]);
    assert_eq!(choose_start_app(&entries, &strings(&["gmail"])), Some(1));
}

#[test]
fn start_app_partial_match() {
    let entries = pairs(&[("Notepad", "n"), ("Visual Studio Code Insiders", "vsc")]);
    assert_eq!(choose_start_app(&entries, &strings(&["visual studio code", "vs code"])), Some(1));
    assert_eq!(choose_start_app(&entries, &strings(&["paint"])), None);
}

#[test]
fn apps_folder_target_format() {
    assert_eq!(apps_folder_target("X!App"), "shell:AppsFolder\\X!App");
}

#[test]
fn launch_target_from_start_menu() {
    let json = r#"[{"Name":"Gmail","AppID":"Brave._crx_x"},{"Name":"Gmail","AppID":"com.squirrel.gmail"}]"#;
    assert_eq!(launch_via_start_apps(json, "gmail"), Some("shell:AppsFolder\\com.squirrel.gmail".to_string()));
    assert_eq!(launch_via_start_apps(json, "slack"), None);
}

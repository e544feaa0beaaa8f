use nexus::command_executor::CommandResult;
use nexus::resolve::{
    already_open, already_running, check_installed_and_launch, check_installed_windows, installed_reply, installed_step, InstalledStep,
    launched_ok, macos_app_locations, macos_app_name, opened_app, where_exe_name, AppResolution, InstalledProbe,
    Platform, ResolveAction, ResolveEvent, ResolveStage,
};

fn finish(a: ResolveAction) -> (bool, String, bool) {
    match a {
        ResolveAction::Finish { result, record_usage } => (result.success, result.message, record_usage),
        _ => panic!("expected the end of the resolution"),
    }
}

#[test]
fn resolution_starts_with_registry_lookup() {
    let (r, a) = AppResolution::resolve_and_open_app("VS Code");
    assert!(matches!(a, ResolveAction::LookupRegistry));
    assert!(matches!(r.stage, ResolveStage::Registry));
    assert_eq!(r.target_lower, "vs code");
    assert_eq!(r.display_name, "VS Code");
}

#[test]
fn registry_focus_finishes_with_ok_sir() {
    let (mut r, _) = AppResolution::resolve_and_open_app("spotify");
    assert!(matches!(r.step(ResolveEvent::RegistryFound(true)), ResolveAction::FocusRegistered));
    let end = finish(r.step(ResolveEvent::Focused(true)));
    assert_eq!(end, (true, "Ok sir.".to_string(), true));
    assert!(matches!(r.stage, ResolveStage::Done));
}

#[test]
fn registry_launch_after_failed_focus() {
    let (mut r, _) = AppResolution::resolve_and_open_app("spotify");
    r.step(ResolveEvent::RegistryFound(true));
    assert!(matches!(r.step(ResolveEvent::Focused(false)), ResolveAction::LaunchRegistered));
    let end = finish(r.step(ResolveEvent::Launched(true)));
    assert_eq!(end, (true, "Ok sir.".to_string(), true));
}

#[test]
fn failed_registry_launch_falls_back_to_process_check() {
    let (mut r, _) = AppResolution::resolve_and_open_app("spotify");
    r.step(ResolveEvent::RegistryFound(true));
    r.step(ResolveEvent::Focused(false));
    assert!(matches!(r.step(ResolveEvent::Launched(false)), ResolveAction::CheckRunning));
    let found = CommandResult { success: true, message: "Spotify is already open, sir.".to_string() };
    let end = finish(r.step(ResolveEvent::RunningResult(Some(found))));
    assert_eq!(end, (true, "Spotify is already open, sir.".to_string(), false));
}

#[test]
fn installed_copy_is_launched_after_registry_miss() {
    let (mut r, _) = AppResolution::resolve_and_open_app("notepad");
    assert!(matches!(r.step(ResolveEvent::RegistryFound(false)), ResolveAction::CheckRunning));
    assert!(matches!(r.step(ResolveEvent::RunningResult(None)), ResolveAction::CheckInstalled));
    let end = finish(r.step(ResolveEvent::InstalledResult(Some(launched_ok()))));
    assert_eq!(end, (true, "Ok sir.".to_string(), false));
}

#[test]
fn web_service_opens_in_browser() {
    let (mut r, _) = AppResolution::resolve_and_open_app("Gmail");
    r.step(ResolveEvent::RegistryFound(false));
    r.step(ResolveEvent::RunningResult(None));
    match r.step(ResolveEvent::InstalledResult(None)) {
        ResolveAction::OpenUrl(p) => assert_eq!(p.url, "https://mail.google.com"),
        _ => panic!("expected a web address"),
    }
    assert!(matches!(r.stage, ResolveStage::Url));
    let end = finish(r.step(ResolveEvent::UrlOpened(true)));
    assert_eq!(end, (true, "Opened Gmail in your browser, sir.".to_string(), false));
}

#[test]
fn web_service_that_fails_to_open() {
    let (mut r, _) = AppResolution::resolve_and_open_app("youtube");
    r.step(ResolveEvent::RegistryFound(false));
    r.step(ResolveEvent::RunningResult(None));
    r.step(ResolveEvent::InstalledResult(None));
    let end = finish(r.step(ResolveEvent::UrlOpened(false)));
    assert_eq!(end, (false, "I couldn't open YouTube, sir.".to_string(), false));
}

#[test]
fn unknown_app_is_not_found() {
    let (mut r, _) = AppResolution::resolve_and_open_app("zzz unknown");
    r.step(ResolveEvent::RegistryFound(false));
    r.step(ResolveEvent::RunningResult(None));
    let end = finish(r.step(ResolveEvent::InstalledResult(None)));
    assert_eq!(end, (false, "Didn't find that, sir.".to_string(), false));
}

#[test]
fn replies_of_the_installed_checks() {
    assert_eq!(already_open("Slack").message, "Slack is already open, sir.");
    assert_eq!(already_running("Slack").message, "Slack is already running, sir.");
    assert_eq!(opened_app("Slack").message, "Opened Slack, sir.");
    assert_eq!(launched_ok().message, "Ok sir.");
}

#[test]
fn installed_probes_per_platform() {
    let w = check_installed_windows();
    assert_eq!(w.len(), 2);
    assert!(matches!(w[0], InstalledProbe::StartApps));
    assert!(matches!(w[1], InstalledProbe::WherePath));
    let l = check_installed_and_launch(Platform::Linux);
    assert_eq!(l.len(), 2);
    assert!(matches!(l[0], InstalledProbe::DesktopEntry));
    assert!(matches!(l[1], InstalledProbe::OpenTarget));
    let m = check_installed_and_launch(Platform::MacOs);
    assert_eq!(m.len(), 1);
    assert!(matches!(m[0], InstalledProbe::MacBundle));
    assert!(check_installed_and_launch(Platform::Other).is_empty());
    assert_eq!(check_installed_and_launch(Platform::Windows).len(), 2);
}

#[test]
fn installed_probe_replies() {
    assert_eq!(installed_reply(&InstalledProbe::StartApps, "Gmail").message, "Ok sir.");
    assert_eq!(installed_reply(&InstalledProbe::WherePath, "Gmail").message, "Ok sir.");
    assert_eq!(installed_reply(&InstalledProbe::DesktopEntry, "Gimp").message, "Opened Gimp, sir.");
    assert_eq!(installed_reply(&InstalledProbe::MacBundle, "Notes").message, "Opened Notes, sir.");
}

#[test]
fn executable_and_bundle_names() {
    assert_eq!(where_exe_name("chrome"), "chrome.exe");
    assert_eq!(where_exe_name("chrome.exe"), "chrome.exe");
    assert_eq!(macos_app_name("safari", "Safari"), "Safari.app");
    assert_eq!(macos_app_name("Xcode.app", "Xcode.app"), "Xcode.app");
    assert_eq!(
        macos_app_locations("Safari.app", "/Users/me"),
        vec![
            "/Applications/Safari.app".to_string(),
            "/Users/me/Applications/Safari.app".to_string(),
            "/System/Applications/Safari.app".to_string(),
        ]
    );
}

#[test]
fn installed_check_stops_at_first_launch() {
    assert!(matches!(installed_step(&Platform::Windows, 0, false, "Gmail"), InstalledStep::Try(InstalledProbe::StartApps)));
    match installed_step(&Platform::Windows, 1, true, "Gmail") {
        InstalledStep::Launched(r) => assert_eq!(r.message, "Ok sir."),
        _ => panic!("expected the app to count as launched"),
    }
    assert!(matches!(installed_step(&Platform::Windows, 1, false, "Gmail"), InstalledStep::Try(InstalledProbe::WherePath)));
    assert!(matches!(installed_step(&Platform::Windows, 2, false, "Gmail"), InstalledStep::NotInstalled));
    match installed_step(&Platform::Linux, 2, true, "Gimp") {
        InstalledStep::Launched(r) => assert_eq!(r.message, "Opened Gimp, sir."),
        _ => panic!("expected the app to count as launched"),
    }
    assert!(matches!(installed_step(&Platform::Other, 0, false, "X"), InstalledStep::NotInstalled));
}

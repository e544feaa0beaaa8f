use nexus::launch::{
    any_arg, cleanup_next, find_arg_with_prefix, first_run_config, oauth_callback_urls, secondary_launch_action,
    setup_close_script, startup_plan, CleanupAction, RemoveOutcome, SecondaryLaunch,
};

fn args(v: &[&str]) -> Vec<String> {
    v.iter().map(|s| s.to_string()).collect()
}

#[test]
fn second_launch_forwards_deep_link_first() {
    let a = args(&["nexus.exe", "--settings", "nexus://oauth/google?code=1", "nexus://second"]);
    match secondary_launch_action(&a, false) {
        SecondaryLaunch::DeepLink { url } => assert_eq!(url, "nexus://oauth/google?code=1"),
        _ => panic!("expected a deep link"),
    }
}

#[test]
fn second_launch_background_stays_hidden() {
    assert!(matches!(secondary_launch_action(&args(&["nexus", "--background"]), false), SecondaryLaunch::StayHidden));
}

#[test]
fn second_launch_setup_and_settings() {
    assert!(matches!(secondary_launch_action(&args(&["nexus", "-s"]), false), SecondaryLaunch::OpenSetup));
    assert!(matches!(
        secondary_launch_action(&args(&["nexus", "--background", "--setup"]), false),
        SecondaryLaunch::OpenSetup
    ));
    assert!(matches!(
        secondary_launch_action(&args(&["nexus", "--settings", "--background"]), true),
        SecondaryLaunch::OpenSettings
    ));
}

#[test]
fn second_launch_plain_wakes_unless_setup_open() {
    assert!(matches!(secondary_launch_action(&args(&["nexus"]), false), SecondaryLaunch::WakeMain));
    assert!(matches!(secondary_launch_action(&args(&["nexus"]), true), SecondaryLaunch::Nothing));
    assert!(matches!(secondary_launch_action(&args(&[]), false), SecondaryLaunch::WakeMain));
}

#[test]
fn argument_helpers() {
    let a = args(&["nexus", "--x", "nexus://a"]);
    assert!(any_arg(&a, "--y", "--x"));
    assert!(!any_arg(&a, "--y", "--z"));
    assert_eq!(find_arg_with_prefix(&a, "nexus://"), Some(2));
    assert_eq!(find_arg_with_prefix(&a, "http"), None);
}

#[test]
fn startup_plan_first_run_opens_setup() {
    let p = startup_plan(&args(&["nexus", "--background"]), true);
    assert!(p.open_setup);
    assert!(!p.background);
}

#[test]
fn startup_plan_background_start() {
    let p = startup_plan(&args(&["nexus", "--background"]), false);
    assert!(!p.open_setup);
    assert!(p.background);
    let q = startup_plan(&args(&["nexus", "--setup"]), false);
    assert!(q.open_setup);
    let r = startup_plan(&args(&["nexus"]), false);
    assert!(!r.open_setup && !r.background);
}

#[test]
fn first_run_identity() {
    let c = first_run_config("1234", "abcd", "https://s");
    assert_eq!(c.server_url, "https://s");
    assert_eq!(c.user_id, "user_1234");
    assert_eq!(c.device_id, "device_abcd");
}

#[test]
fn oauth_callbacks_filtered_in_order() {
    let urls = args(&["nexus://oauth/google?code=1", "nexus://other", "https://x", "nexus://oauth/github"]);
    assert_eq!(oauth_callback_urls(&urls), args(&["nexus://oauth/google?code=1", "nexus://oauth/github"]));
    assert!(oauth_callback_urls(&args(&[])).is_empty());
}

#[test]
fn setup_close_scripts() {
    assert_eq!(
        setup_close_script(Some(true)),
        "window.__NEXUS_FIRST_RUN_GREETING__ && window.__NEXUS_FIRST_RUN_GREETING__()"
    );
    assert_eq!(setup_close_script(Some(false)), "window.__NEXUS_WAKE__ && window.__NEXUS_WAKE__()");
    assert_eq!(setup_close_script(None), "window.__NEXUS_WAKE__ && window.__NEXUS_WAKE__()");
}

#[test]
fn profile_cleanup_decisions() {
    assert!(matches!(cleanup_next(1, RemoveOutcome::Removed), CleanupAction::Finished));
    assert!(matches!(cleanup_next(2, RemoveOutcome::NotFound), CleanupAction::Finished));
    assert!(matches!(cleanup_next(1, RemoveOutcome::Locked), CleanupAction::PauseAndRetry));
    assert!(matches!(cleanup_next(2, RemoveOutcome::Failed), CleanupAction::PauseAndRetry));
    assert!(matches!(cleanup_next(3, RemoveOutcome::Locked), CleanupAction::PauseAndRename));
    assert!(matches!(cleanup_next(3, RemoveOutcome::Removed), CleanupAction::Finished));
}

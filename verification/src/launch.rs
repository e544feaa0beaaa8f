//! Decisions taken when the assistant starts: what a second launch asks the
//! running instance to do, whether the first run opens the setup wizard, and
//! which deep links are OAuth callbacks.

use vstd::prelude::*;
use crate::config::ServerConfig;
use crate::sorted_names::views;
use crate::text::{concat2, eq_str, starts_with, starts_with_str, str_chars};

verus! {

broadcast use vstd::string::group_string_axioms;

/// What the running instance does when the app is launched again.
pub enum SecondaryLaunch {
    /// Forward an OAuth redirect (`nexus://...`) to the frontend, and nothing else.
    DeepLink { url: String },
    /// A `--background` start: stay hidden.
    StayHidden,
    /// Show the setup wizard.
    OpenSetup,
    /// Show the settings window.
    OpenSettings,
    /// Show and wake the orb.
    WakeMain,
    /// Do nothing (the setup wizard is open).
    Nothing,
}

/// Some argument equals `a` or `b`.
pub open spec fn has_arg(args: Seq<Seq<char>>, a: Seq<char>, b: Seq<char>) -> bool {
    exists|i: int| 0 <= i < args.len() && (args[i] == a || args[i] == b)
}

/// `i` is the index of the first argument that begins with `prefix`.
pub open spec fn is_first_with_prefix(args: Seq<Seq<char>>, prefix: Seq<char>, i: int) -> bool {
    &&& 0 <= i < args.len()
    &&& starts_with(args[i], prefix)
    &&& forall|j: int| 0 <= j < i ==> !starts_with(#[trigger] args[j], prefix)
}

/// No argument begins with `prefix`.
pub open spec fn none_with_prefix(args: Seq<Seq<char>>, prefix: Seq<char>) -> bool {
    forall|j: int| 0 <= j < args.len() ==> !starts_with(#[trigger] args[j], prefix)
}

/// The first argument that begins with `prefix`, if any.
pub open spec fn first_with_prefix_arg(args: Seq<Seq<char>>, prefix: Seq<char>) -> Option<Seq<char>> {
    if exists|i: int| is_first_with_prefix(args, prefix, i) {
        Some(args[choose|i: int| is_first_with_prefix(args, prefix, i)])
    } else {
        None
    }
}

/// At most one index is the first with a given prefix.
proof fn lemma_first_with_prefix_unique(args: Seq<Seq<char>>, prefix: Seq<char>, i: int, k: int)
    requires
        is_first_with_prefix(args, prefix, i),
        is_first_with_prefix(args, prefix, k),
    ensures
        i == k,
{
    if i < k {
        assert(!starts_with(args[i], prefix));
    } else if k < i {
        assert(!starts_with(args[k], prefix));
    }
}

/// What a second launch with these arguments does, given whether the setup
/// wizard is open in the running instance.
pub open spec fn secondary_launch_of(args: Seq<Seq<char>>, setup_active: bool) -> (int, Seq<char>) {
    let is_setup = has_arg(args, "--setup"@, "-s"@);
    let is_settings = has_arg(args, "--settings"@, "--settings"@);
    let is_background = has_arg(args, "--background"@, "--background"@);
    match first_with_prefix_arg(args, "nexus://"@) {
        Some(url) => (0, url),
        None => if is_background && !is_setup && !is_settings {
            (1, Seq::empty())
        } else if is_setup {
            (2, Seq::empty())
        } else if is_settings {
            (3, Seq::empty())
        } else if !setup_active {
            (4, Seq::empty())
        } else {
            (5, Seq::empty())
        },
    }
}

/// The decision, as a number (in declaration order) and the deep-link URL.
pub open spec fn secondary_view(a: SecondaryLaunch) -> (int, Seq<char>) {
    match a {
        SecondaryLaunch::DeepLink { url } => (0, url@),
        SecondaryLaunch::StayHidden => (1, Seq::empty()),
        SecondaryLaunch::OpenSetup => (2, Seq::empty()),
        SecondaryLaunch::OpenSettings => (3, Seq::empty()),
        SecondaryLaunch::WakeMain => (4, Seq::empty()),
        SecondaryLaunch::Nothing => (5, Seq::empty()),
    }
}

/// Whether some argument is `a` or `b`.
pub fn any_arg(args: &Vec<String>, a: &str, b: &str) -> (r: bool)
    ensures
        r == has_arg(views(args@), a@, b@),
{
    let mut i: usize = 0;
    while i < args.len()
        invariant
            i <= args@.len(),
            forall|j: int| 0 <= j < i ==> !(views(args@)[j] == a@ || views(args@)[j] == b@),
        decreases args@.len() - i,
    {
        let v = str_chars(args[i].as_str());
        if eq_str(&v, a) || eq_str(&v, b) {
            assert(views(args@)[i as int] == args@[i as int]@);
            return true;
        }
        i += 1;
    }
    false
}

/// The first argument that begins with `prefix`.
pub fn find_arg_with_prefix(args: &Vec<String>, prefix: &str) -> (r: Option<usize>)
    ensures
        match r {
            Some(i) => is_first_with_prefix(views(args@), prefix@, i as int),
            None => none_with_prefix(views(args@), prefix@),
        },
{
    let ghost all = views(args@);
    let mut i: usize = 0;
    while i < args.len()
        invariant
            i <= args@.len(),
            all == views(args@),
            forall|j: int| 0 <= j < i ==> !starts_with(#[trigger] all[j], prefix@),
        decreases args@.len() - i,
    {
        let v = str_chars(args[i].as_str());
        proof {
            assert(all[i as int] == args@[i as int]@);
        }
        if starts_with_str(&v, prefix) {
            return Some(i);
        }
        i += 1;
    }
    None
}

/// Decides what the running instance does for a second launch.
pub fn secondary_launch_action(args: &Vec<String>, setup_active: bool) -> (r: SecondaryLaunch)
    ensures
        secondary_view(r) == secondary_launch_of(views(args@), setup_active),
{
    if let Some(i) = find_arg_with_prefix(args, "nexus://") {
        proof {
            let all = views(args@);
            assert(all[i as int] == args@[i as int]@);
            let k = choose|k: int| is_first_with_prefix(all, "nexus://"@, k);
            lemma_first_with_prefix_unique(all, "nexus://"@, i as int, k);
        }
        return SecondaryLaunch::DeepLink { url: args[i].clone() };
    }
    let is_setup = any_arg(args, "--setup", "-s");
    let is_settings = any_arg(args, "--settings", "--settings");
    let is_background = any_arg(args, "--background", "--background");
    if is_background && !is_setup && !is_settings {
        SecondaryLaunch::StayHidden
    } else if is_setup {
        SecondaryLaunch::OpenSetup
    } else if is_settings {
        SecondaryLaunch::OpenSettings
    } else if !setup_active {
        SecondaryLaunch::WakeMain
    } else {
        SecondaryLaunch::Nothing
    }
}

/// How the first instance starts.
pub struct StartupPlan {
    /// Show the setup wizard (and hide the orb while it is open).
    pub open_setup: bool,
    /// Hide the orb and run from the tray only.
    pub background: bool,
}

/// Plans startup from the command-line arguments and whether the
/// configuration file was found missing (in a readable app-data directory):
/// the wizard opens on `--setup`/`-s` or a first run; otherwise `--background`
/// keeps the orb hidden.
pub fn startup_plan(args: &Vec<String>, config_missing: bool) -> (r: StartupPlan)
    ensures
        r.open_setup == (has_arg(views(args@), "--setup"@, "-s"@) || config_missing),
        r.background == (!r.open_setup && has_arg(views(args@), "--background"@, "--background"@)),
{
    let open_setup = any_arg(args, "--setup", "-s") || config_missing;
    let background = !open_setup && any_arg(args, "--background", "--background");
    StartupPlan { open_setup, background }
}

/// The configuration written on first run: the default server and fresh
/// `user_<uuid>` / `device_<uuid>` identifiers.
pub fn first_run_config(user_uuid: &str, device_uuid: &str, server_url: &str) -> (r: ServerConfig)
    ensures
        r@ == (server_url@, "user_"@ + user_uuid@, "device_"@ + device_uuid@),
{
    ServerConfig {
        server_url: server_url.to_string(),
        user_id: concat2("user_", user_uuid),
        device_id: concat2("device_", device_uuid),
    }
}

/// The URLs opened through the deep-link handler that are OAuth callbacks
/// (`nexus://oauth/...`), in order.
pub open spec fn oauth_callbacks_of(urls: Seq<Seq<char>>) -> Seq<Seq<char>>
    decreases urls.len(),
{
    if urls.len() == 0 {
        Seq::empty()
    } else if starts_with(urls.last(), "nexus://oauth/"@) {
        oauth_callbacks_of(urls.drop_last()).push(urls.last())
    } else {
        oauth_callbacks_of(urls.drop_last())
    }
}

/// Keeps the OAuth callback URLs among the URLs a deep link delivered.
pub fn oauth_callback_urls(urls: &Vec<String>) -> (r: Vec<String>)
    ensures
        views(r@) == oauth_callbacks_of(views(urls@)),
{
    let ghost all = views(urls@);
    let mut out: Vec<String> = Vec::new();
    let mut i: usize = 0;
    while i < urls.len()
        invariant
            i <= urls@.len(),
            all == views(urls@),
            views(out@) == oauth_callbacks_of(all.take(i as int)),
        decreases urls@.len() - i,
    {
        let v = str_chars(urls[i].as_str());
        proof {
            assert(all.take(i + 1).drop_last() =~= all.take(i as int));
            assert(all.take(i + 1).last() == urls@[i as int]@);
        }
        if starts_with_str(&v, "nexus://oauth/") {
            let ghost before = views(out@);
            out.push(urls[i].clone());
            proof {
                assert(views(out@) =~= before.push(urls@[i as int]@));
            }
        }
        i += 1;
    }
    proof {
        assert(all.take(i as int) =~= all);
    }
    out
}

/// The script run in the orb window when the setup wizard closes: the
/// first-run greeting after a first run, else the wake-up.
pub fn setup_close_script(first_run: Option<bool>) -> (r: String)
    ensures
        r@ == if first_run == Some(true) {
            "window.__NEXUS_FIRST_RUN_GREETING__ && window.__NEXUS_FIRST_RUN_GREETING__()"@
        } else {
            "window.__NEXUS_WAKE__ && window.__NEXUS_WAKE__()"@
        },
{
    let first = match first_run {
        Some(b) => b,
        None => false,
    };
    if first {
        "window.__NEXUS_FIRST_RUN_GREETING__ && window.__NEXUS_FIRST_RUN_GREETING__()".to_string()
    } else {
        "window.__NEXUS_WAKE__ && window.__NEXUS_WAKE__()".to_string()
    }
}

// ───────────────────────── stale WebView2 profile ─────────────────────────

/// How one attempt to delete the stale WebView2 profile directory ended.
pub enum RemoveOutcome {
    Removed,
    /// The files are still locked by an exiting process (OS error 32).
    Locked,
    /// The directory is already gone (OS error 2).
    NotFound,
    /// Any other error.
    Failed,
}

/// What to do after an attempt.
pub enum CleanupAction {
    /// The profile is gone; nothing more to do.
    Finished,
    /// Wait a moment and try deleting again.
    PauseAndRetry,
    /// Wait a moment, then rename the directory aside instead.
    PauseAndRename,
}

/// The number of deletion attempts before the directory is renamed.
pub const REMOVE_ATTEMPTS: u8 = 3;

/// The decision after attempt number `attempt` (counting from 1).
pub open spec fn cleanup_next_of(attempt: u8, outcome: RemoveOutcome) -> CleanupAction {
    match outcome {
        RemoveOutcome::Removed => CleanupAction::Finished,
        RemoveOutcome::NotFound => CleanupAction::Finished,
        _ => if attempt < REMOVE_ATTEMPTS {
            CleanupAction::PauseAndRetry
        } else {
            CleanupAction::PauseAndRename
        },
    }
}

/// Decides what follows a deletion attempt.
pub fn cleanup_next(attempt: u8, outcome: RemoveOutcome) -> (r: CleanupAction)
    requires
        1 <= attempt <= REMOVE_ATTEMPTS,
    ensures
        r == cleanup_next_of(attempt, outcome),
{
    match outcome {
        RemoveOutcome::Removed => CleanupAction::Finished,
        RemoveOutcome::NotFound => CleanupAction::Finished,
        _ => if attempt < REMOVE_ATTEMPTS {
            CleanupAction::PauseAndRetry
        } else {
            CleanupAction::PauseAndRename
        },
    }
}

/// The directory is deleted at most three times before it is renamed: the
/// last attempt never asks for another, and an attempt that deleted it (or
/// found it gone) ends the cleanup.
pub proof fn law_cleanup_attempts_bounded(attempt: u8, outcome: RemoveOutcome)
    requires
        1 <= attempt <= REMOVE_ATTEMPTS,
    ensures
        attempt == REMOVE_ATTEMPTS ==> !(cleanup_next_of(attempt, outcome) is PauseAndRetry),
        (outcome is Removed || outcome is NotFound) ==> cleanup_next_of(attempt, outcome) is Finished,
        cleanup_next_of(attempt, outcome) is PauseAndRename ==> attempt == REMOVE_ATTEMPTS,
{
}

} // verus!

//! Opening an app by name, in order of preference: focus it if the app
//! registry knows it and it is running, launch it through the registry, focus
//! a running process that looks like it, launch an installed copy, open the
//! web version of a known service, and otherwise say it was not found.
//!
//! The caller performs each step (they touch the operating system) and
//! reports its outcome; `AppResolution::step` decides what comes next.

use vstd::prelude::*;
use crate::app_names::{app_display_name, display_name_of, lookup_first, url_fallback, url_table, search_names_of, app_search_names};
use crate::command_executor::{open_url, open_url_spec, url_outcome, CommandResult, UrlPlan};
use crate::sorted_names::{sorted_list_of, strictly_sorted, views};
use crate::start_apps::{apps_folder_target, chosen_start_app, choose_start_app, pair_views, parse_start_apps_json, start_apps_entries, string_views};
use crate::text::{capitalized, concat2, concat3, ends_with, ends_with_str, lowercase, str_chars, str_lowercase};

verus! {

broadcast use vstd::string::group_string_axioms;

/// How far the resolution has got.
pub enum ResolveStage {
    /// Waiting for the app-registry lookup.
    Registry,
    /// Waiting to hear whether the registered app's window was focused.
    Focus,
    /// Waiting to hear whether the registered app was launched.
    Launch,
    /// Waiting for the running-process check.
    Running,
    /// Waiting for the installed-app check.
    Installed,
    /// Waiting to hear whether the web address opened.
    Url,
    /// Finished.
    Done,
}

/// An outcome reported by the caller.
pub enum ResolveEvent {
    /// Whether the app registry has an entry for the target.
    RegistryFound(bool),
    /// Whether the registered app's existing window was focused.
    Focused(bool),
    /// Whether the registered app was launched.
    Launched(bool),
    /// The reply from focusing a running process, if one was found.
    RunningResult(Option<CommandResult>),
    /// The reply from launching an installed copy, if one was found.
    InstalledResult(Option<CommandResult>),
    /// Whether the web address opened.
    UrlOpened(bool),
}

/// What the caller does next.
pub enum ResolveAction {
    /// Look the target up in the app registry.
    LookupRegistry,
    /// Focus the registered app's window if it is running.
    FocusRegistered,
    /// Launch the registered app.
    LaunchRegistered,
    /// Look for a running process for `target_lower` and focus it.
    CheckRunning,
    /// Look for an installed copy of `target_lower` and launch it.
    CheckInstalled,
    /// Open this web address.
    OpenUrl(UrlPlan),
    /// Reply with this result; record a use of the target in the registry
    /// when `record_usage` is set.
    Finish { result: CommandResult, record_usage: bool },
}

/// The state of one resolution.
pub struct AppResolution {
    /// The name as spoken.
    pub target: String,
    /// The name lower-cased, used by the fallback checks.
    pub target_lower: String,
    /// The name spoken back to the user.
    pub display_name: String,
    pub stage: ResolveStage,
    /// The web address being opened, held while waiting on it.
    pub url_plan: Option<UrlPlan>,
}

/// The event each stage waits for.
pub open spec fn event_fits(stage: ResolveStage, event: ResolveEvent) -> bool {
    match stage {
        ResolveStage::Registry => event is RegistryFound,
        ResolveStage::Focus => event is Focused,
        ResolveStage::Launch => event is Launched,
        ResolveStage::Running => event is RunningResult,
        ResolveStage::Installed => event is InstalledResult,
        ResolveStage::Url => event is UrlOpened,
        ResolveStage::Done => false,
    }
}

/// Each stage's place in the order the stages are visited.
pub open spec fn stage_rank(stage: ResolveStage) -> int {
    match stage {
        ResolveStage::Registry => 0,
        ResolveStage::Focus => 1,
        ResolveStage::Launch => 2,
        ResolveStage::Running => 3,
        ResolveStage::Installed => 4,
        ResolveStage::Url => 5,
        ResolveStage::Done => 6,
    }
}

/// The reply after a registered app was focused or launched.
pub open spec fn ok_sir() -> (bool, Seq<char>) {
    (true, "Ok sir."@)
}

/// The reply when nothing matched.
pub open spec fn not_found_reply() -> (bool, Seq<char>) {
    (false, "Didn't find that, sir."@)
}

/// The view of an action: which kind, and for `OpenUrl` / `Finish` its data.
pub open spec fn finish_of(a: ResolveAction) -> Option<((bool, Seq<char>), bool)> {
    match a {
        ResolveAction::Finish { result, record_usage } => Some((result@, record_usage)),
        _ => None,
    }
}

impl AppResolution {
    /// The resolution is consistent: its lower-cased and display names belong
    /// to the target, and a web address is held exactly while waiting on it.
    pub open spec fn wf(&self) -> bool {
        &&& self.target_lower@ == str_lowercase(self.target@)
        &&& self.display_name@ == display_name_of(self.target_lower@)
        &&& (self.stage is Url <==> self.url_plan is Some)
        &&& (self.url_plan matches Some(p) ==> (
            lookup_first(url_table(), self.target_lower@) matches Some(u)
            && p@ == open_url_spec(self.display_name@, u)))
    }

    /// The web plan held while waiting on the URL stage.
    pub open spec fn held_url_plan(&self) -> Option<(Seq<char>, (bool, Seq<char>), (bool, Seq<char>))> {
        match self.url_plan {
            Some(p) => Some(p@),
            None => None,
        }
    }

    /// Starts resolving `target`: the first step is the registry lookup.
    pub fn resolve_and_open_app(target: &str) -> (r: (AppResolution, ResolveAction))
        ensures
            r.0.wf(),
            r.0.target@ == target@,
            r.0.stage is Registry,
            r.1 is LookupRegistry,
    {
        let target_lower = lowercase(target);
        let display_name = app_display_name(target_lower.as_str());
        (
            AppResolution {
                target: target.to_string(),
                target_lower,
                display_name,
                stage: ResolveStage::Registry,
                url_plan: None,
            },
            ResolveAction::LookupRegistry,
        )
    }

    /// Advances the resolution with the outcome of the step just performed.
    pub fn step(&mut self, event: ResolveEvent) -> (action: ResolveAction)
        requires
            old(self).wf(),
            event_fits(old(self).stage, event),
        ensures
            final(self).wf(),
            final(self).target@ == old(self).target@,
            stage_rank(final(self).stage) > stage_rank(old(self).stage),
            final(self).stage is Done <==> action is Finish,
            match (old(self).stage, event) {
                (ResolveStage::Registry, ResolveEvent::RegistryFound(found)) => if found {
                    final(self).stage is Focus && action is FocusRegistered
                } else {
                    final(self).stage is Running && action is CheckRunning
                },
                (ResolveStage::Focus, ResolveEvent::Focused(focused)) => if focused {
                    finish_of(action) == Some((ok_sir(), true))
                } else {
                    final(self).stage is Launch && action is LaunchRegistered
                },
                (ResolveStage::Launch, ResolveEvent::Launched(launched)) => if launched {
                    finish_of(action) == Some((ok_sir(), true))
                } else {
                    final(self).stage is Running && action is CheckRunning
                },
                (ResolveStage::Running, ResolveEvent::RunningResult(found)) => match found {
                    Some(res) => finish_of(action) == Some((res@, false)),
                    None => final(self).stage is Installed && action is CheckInstalled,
                },
                (ResolveStage::Installed, ResolveEvent::InstalledResult(found)) => match found {
                    Some(res) => finish_of(action) == Some((res@, false)),
                    None => match lookup_first(url_table(), old(self).target_lower@) {
                        Some(u) => final(self).stage is Url && (action matches ResolveAction::OpenUrl(p)
                            && p@ == open_url_spec(old(self).display_name@, u)),
                        None => finish_of(action) == Some((not_found_reply(), false)),
                    },
                },
                (ResolveStage::Url, ResolveEvent::UrlOpened(opened)) => finish_of(action) == Some((
                    if opened { old(self).held_url_plan().unwrap().1 } else { old(self).held_url_plan().unwrap().2 },
                    false,
                )),
                _ => false,
            },
    {
        let done_ok = || -> (r: ResolveAction)
            ensures
                finish_of(r) == Some((ok_sir(), true)),
            { ResolveAction::Finish { result: CommandResult { success: true, message: "Ok sir.".to_string() }, record_usage: true } };
        match event {
            ResolveEvent::RegistryFound(found) => {
                if found {
                    self.stage = ResolveStage::Focus;
                    ResolveAction::FocusRegistered
                } else {
                    self.stage = ResolveStage::Running;
                    ResolveAction::CheckRunning
                }
            },
            ResolveEvent::Focused(focused) => {
                if focused {
                    self.stage = ResolveStage::Done;
                    done_ok()
                } else {
                    self.stage = ResolveStage::Launch;
                    ResolveAction::LaunchRegistered
                }
            },
            ResolveEvent::Launched(launched) => {
                if launched {
                    self.stage = ResolveStage::Done;
                    done_ok()
                } else {
                    self.stage = ResolveStage::Running;
                    ResolveAction::CheckRunning
                }
            },
            ResolveEvent::RunningResult(found) => match found {
                Some(res) => {
                    self.stage = ResolveStage::Done;
                    ResolveAction::Finish { result: res, record_usage: false }
                },
                None => {
                    self.stage = ResolveStage::Installed;
                    ResolveAction::CheckInstalled
                },
            },
            ResolveEvent::InstalledResult(found) => match found {
                Some(res) => {
                    self.stage = ResolveStage::Done;
                    ResolveAction::Finish { result: res, record_usage: false }
                },
                None => match url_fallback(self.target_lower.as_str()) {
                    Some(url) => {
                        let plan = open_url(self.display_name.as_str(), url.as_str());
                        let held = open_url(self.display_name.as_str(), url.as_str());
                        self.url_plan = Some(held);
                        self.stage = ResolveStage::Url;
                        ResolveAction::OpenUrl(plan)
                    },
                    None => {
                        self.stage = ResolveStage::Done;
                        ResolveAction::Finish {
                            result: CommandResult { success: false, message: "Didn't find that, sir.".to_string() },
                            record_usage: false,
                        }
                    },
                },
            },
            ResolveEvent::UrlOpened(opened) => {
                let plan = self.url_plan.take().unwrap();
                self.stage = ResolveStage::Done;
                ResolveAction::Finish { result: url_outcome(plan, opened), record_usage: false }
            },
        }
    }
}

/// A resolution reaches its end within six reported outcomes: every step
/// moves to a later stage, and the last stage has no step.
pub proof fn law_resolution_terminates(before: ResolveStage, after: ResolveStage)
    requires
        stage_rank(after) > stage_rank(before),
    ensures
        0 <= stage_rank(before) < stage_rank(after) <= 6,
        !(before is Done),
{
}

// ───────────────────────── the installed-app checks ─────────────────────────

/// The reply once an app was found running and brought forward.
pub fn already_open(display_name: &str) -> (r: CommandResult)
    ensures
        r@ == (true, display_name@ + " is already open, sir."@),
{
    CommandResult { success: true, message: concat2(display_name, " is already open, sir.") }
}

/// The reply where the platform cannot bring a running app forward.
pub fn already_running(display_name: &str) -> (r: CommandResult)
    ensures
        r@ == (true, display_name@ + " is already running, sir."@),
{
    CommandResult { success: true, message: concat2(display_name, " is already running, sir.") }
}

/// The reply once an installed copy was launched by name.
pub fn opened_app(display_name: &str) -> (r: CommandResult)
    ensures
        r@ == (true, "Opened "@ + display_name@ + ", sir."@),
{
    CommandResult { success: true, message: concat3("Opened ", display_name, ", sir.") }
}

/// The reply once an app was launched from the Start menu or `PATH`.
pub fn launched_ok() -> (r: CommandResult)
    ensures
        r@ == ok_sir(),
{
    CommandResult { success: true, message: "Ok sir.".to_string() }
}

/// The Start-menu target to launch for `target`, from the output of
/// `Get-StartApps | ConvertTo-Json -Compress`: `shell:AppsFolder\<AppID>` of
/// the best entry for the target's search names.
pub open spec fn start_app_target_of(json: Seq<char>, names: Seq<Seq<char>>) -> Option<Seq<char>> {
    let entries = start_apps_entries(json, 0);
    match chosen_start_app(entries, names) {
        Some(i) => Some("shell:AppsFolder\\"@ + entries[i].1),
        None => None,
    }
}

/// Chooses what to launch from the Start-menu listing for `target`.
pub fn launch_via_start_apps(start_apps_json: &str, target: &str) -> (r: Option<String>)
    ensures
        match r {
            Some(t) => start_app_target_of(start_apps_json@, sorted_list_of(search_names_of(target@))) == Some(t@),
            None => start_app_target_of(start_apps_json@, sorted_list_of(search_names_of(target@))) is None,
        },
{
    let entries = parse_start_apps_json(start_apps_json);
    let names = app_search_names(target);
    proof {
        assert(string_views(names@) == views(names@));
    }
    let r = match choose_start_app(&entries, &names) {
        Some(i) => {
            proof {
                crate::start_apps::lemma_first_present_in_range(pair_views(entries@), string_views(names@));
                assert(pair_views(entries@)[i as int] == (entries@[i as int].0@, entries@[i as int].1@));
            }
            Some(apps_folder_target(entries[i].1.as_str()))
        },
        None => None,
    };
    r
}

/// The executable `where.exe` looks for: the name itself when it already ends
/// in `.exe`, else the name with `.exe` added.
pub fn where_exe_name(target: &str) -> (r: String)
    ensures
        r@ == if ends_with(target@, ".exe"@) { target@ } else { target@ + ".exe"@ },
{
    let v = str_chars(target);
    if ends_with_str(&v, ".exe") {
        target.to_string()
    } else {
        concat2(target, ".exe")
    }
}

/// The macOS application bundle name: the name itself when it ends in
/// `.app`, else the display name with `.app` added.
pub fn macos_app_name(target: &str, display_name: &str) -> (r: String)
    ensures
        r@ == if ends_with(target@, ".app"@) { target@ } else { display_name@ + ".app"@ },
{
    let v = str_chars(target);
    if ends_with_str(&v, ".app") {
        target.to_string()
    } else {
        concat2(display_name, ".app")
    }
}

/// Where a macOS bundle is looked for: `/Applications`, the user's
/// `~/Applications`, and `/System/Applications`.
pub fn macos_app_locations(app_name: &str, home: &str) -> (r: Vec<String>)
    ensures
        views(r@) == seq![
            "/Applications/"@ + app_name@,
            home@ + "/Applications/"@ + app_name@,
            "/System/Applications/"@ + app_name@,
        ],
{
    let r = vec![
        concat2("/Applications/", app_name),
        concat3(home, "/Applications/", app_name),
        concat2("/System/Applications/", app_name),
    ];
    proof {
        assert(views(r@) =~= seq![
            "/Applications/"@ + app_name@,
            home@ + "/Applications/"@ + app_name@,
            "/System/Applications/"@ + app_name@,
        ]);
    }
    r
}

// ───────────────────────── which installed-app checks run ─────────────────────────

/// The operating system the assistant runs on.
pub enum Platform {
    Windows,
    MacOs,
    Linux,
    Other,
}

/// One way of finding and launching an installed app.
pub enum InstalledProbe {
    /// Windows: launch the best `Get-StartApps` entry through
    /// `shell:AppsFolder` (see `launch_via_start_apps`).
    StartApps,
    /// Windows: launch the first executable `where.exe` finds (see
    /// `where_exe_name`).
    WherePath,
    /// macOS: open the application bundle found in one of the application
    /// folders (see `macos_app_locations`).
    MacBundle,
    /// Linux: run the command line of a matching desktop entry.
    DesktopEntry,
    /// Linux: hand the name to the desktop's opener.
    OpenTarget,
}

/// The probes of the installed-app check, in the order they are tried; the
/// first one that launches the app ends the check.
pub open spec fn installed_probes_of(platform: Platform) -> Seq<InstalledProbe> {
    match platform {
        Platform::Windows => seq![InstalledProbe::StartApps, InstalledProbe::WherePath],
        Platform::MacOs => seq![InstalledProbe::MacBundle],
        Platform::Linux => seq![InstalledProbe::DesktopEntry, InstalledProbe::OpenTarget],
        Platform::Other => Seq::empty(),
    }
}

/// The Windows probes: the Start-menu listing first, then `PATH`.
pub fn check_installed_windows() -> (r: Vec<InstalledProbe>)
    ensures
        r@ == installed_probes_of(Platform::Windows),
{
    let r = vec![InstalledProbe::StartApps, InstalledProbe::WherePath];
    proof {
        assert(r@ =~= installed_probes_of(Platform::Windows));
    }
    r
}

/// The probes of the installed-app check on `platform` (none on a platform
/// without one).
pub fn check_installed_and_launch(platform: Platform) -> (r: Vec<InstalledProbe>)
    ensures
        r@ == installed_probes_of(platform),
{
    match platform {
        Platform::Windows => check_installed_windows(),
        Platform::MacOs => {
            let r = vec![InstalledProbe::MacBundle];
            proof {
                assert(r@ =~= installed_probes_of(platform));
            }
            r
        },
        Platform::Linux => {
            let r = vec![InstalledProbe::DesktopEntry, InstalledProbe::OpenTarget];
            proof {
                assert(r@ =~= installed_probes_of(platform));
            }
            r
        },
        Platform::Other => {
            let r: Vec<InstalledProbe> = Vec::new();
            proof {
                assert(r@ =~= installed_probes_of(platform));
            }
            r
        },
    }
}

/// The reply once a probe launched the app: the Windows probes say "Ok sir.",
/// the others name the app.
pub open spec fn installed_reply_of(probe: InstalledProbe, display_name: Seq<char>) -> (bool, Seq<char>) {
    match probe {
        InstalledProbe::StartApps => ok_sir(),
        InstalledProbe::WherePath => ok_sir(),
        _ => (true, "Opened "@ + display_name + ", sir."@),
    }
}

/// Builds the reply for a probe that launched the app.
pub fn installed_reply(probe: &InstalledProbe, display_name: &str) -> (r: CommandResult)
    ensures
        r@ == installed_reply_of(*probe, display_name@),
{
    match probe {
        InstalledProbe::StartApps => launched_ok(),
        InstalledProbe::WherePath => launched_ok(),
        _ => opened_app(display_name),
    }
}

/// What the installed-app check does after `tried` probes of the platform's
/// list, the last of which launched the app or not.
pub enum InstalledStep {
    /// A probe launched the app: reply with this.
    Launched(CommandResult),
    /// Run this probe next.
    Try(InstalledProbe),
    /// Every probe failed: no installed copy was found.
    NotInstalled,
}

/// The check stops at the first probe that launches the app; otherwise it
/// tries the next probe in order, and finds nothing once all have failed.
/// So on Windows `PATH` is searched only when the Start menu gave nothing.
pub open spec fn installed_step_of(
    platform: Platform,
    tried: int,
    last_launched: bool,
    display_name: Seq<char>,
) -> (int, Option<InstalledProbe>, (bool, Seq<char>)) {
    let probes = installed_probes_of(platform);
    if tried > 0 && last_launched {
        (0, None, installed_reply_of(probes[tried - 1], display_name))
    } else if tried < probes.len() {
        (1, Some(probes[tried]), (false, Seq::empty()))
    } else {
        (2, None, (false, Seq::empty()))
    }
}

/// The view of a step: which kind, the probe to try, the reply.
pub open spec fn installed_step_view(s: InstalledStep) -> (int, Option<InstalledProbe>, (bool, Seq<char>)) {
    match s {
        InstalledStep::Launched(r) => (0, None, r@),
        InstalledStep::Try(p) => (1, Some(p), (false, Seq::empty())),
        InstalledStep::NotInstalled => (2, None, (false, Seq::empty())),
    }
}

/// Decides the next step of the installed-app check. Start with `tried` 0;
/// after running the probe it names, call again with `tried` one higher and
/// whether that probe launched the app.
pub fn installed_step(platform: &Platform, tried: usize, last_launched: bool, display_name: &str) -> (r: InstalledStep)
    requires
        tried <= installed_probes_of(*platform).len(),
    ensures
        installed_step_view(r) == installed_step_of(*platform, tried as int, last_launched, display_name@),
{
    let probes = match platform {
        Platform::Windows => check_installed_and_launch(Platform::Windows),
        Platform::MacOs => check_installed_and_launch(Platform::MacOs),
        Platform::Linux => check_installed_and_launch(Platform::Linux),
        Platform::Other => check_installed_and_launch(Platform::Other),
    };
    if tried > 0 && last_launched {
        InstalledStep::Launched(installed_reply(&probes[tried - 1], display_name))
    } else if tried < probes.len() {
        let p = match &probes[tried] {
            InstalledProbe::StartApps => InstalledProbe::StartApps,
            InstalledProbe::WherePath => InstalledProbe::WherePath,
            InstalledProbe::MacBundle => InstalledProbe::MacBundle,
            InstalledProbe::DesktopEntry => InstalledProbe::DesktopEntry,
            InstalledProbe::OpenTarget => InstalledProbe::OpenTarget,
        };
        InstalledStep::Try(p)
    } else {
        InstalledStep::NotInstalled
    }
}

/// On Windows the Start menu is tried first; `PATH` is searched only when the
/// Start menu launched nothing; the app counts as installed exactly when one
/// of the two launched it, with "Ok sir." as the reply.
pub proof fn law_path_searched_only_after_start_menu_fails(display_name: Seq<char>, launched: bool)
    ensures
        installed_step_of(Platform::Windows, 0, launched, display_name).1 == Some(InstalledProbe::StartApps),
        installed_step_of(Platform::Windows, 1, true, display_name) == (0int, None::<InstalledProbe>, ok_sir()),
        installed_step_of(Platform::Windows, 1, false, display_name).1 == Some(InstalledProbe::WherePath),
        installed_step_of(Platform::Windows, 2, true, display_name) == (0int, None::<InstalledProbe>, ok_sir()),
        installed_step_of(Platform::Windows, 2, false, display_name).0 == 2,
{
}

} // verus!

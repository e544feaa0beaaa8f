//! What the assistant does for each recognised intent. The operating-system
//! work (opening a URL, starting or stopping a process, pressing keys) is
//! done by the caller; this module decides what to do and what to say.

use vstd::prelude::*;
use crate::text::{
    ascii_lower_char, capitalize, capitalized, concat2, concat3, contains_exec, ends_with, ends_with_str, eq_str, lowercase, push_char,
    seq_contains, str_chars, str_lowercase, string_of_range,
};
use crate::exec_line::{exec_basename, exec_basename_of, flatpak_app_id, flatpak_id_of};
use crate::json::{json_string_member_list, json_string_members, json_syntax_error, member_views};
use crate::start_apps::{first_where, lemma_first_where_exists, lemma_first_where_in_range, opt_int, pair_views};
use crate::urlencoding::{encode, encoded};
use vstd::utf8::encode_utf8;

verus! {

broadcast use vstd::string::group_string_axioms;

/// Intent received from the frontend intent parser.
#[derive(Debug, Clone)]
pub enum Intent {
    OpenApp { target: String },
    OpenUrl { target: String, url: String },
    CloseApp { target: String },
    WhatsappChat { contact: String },
    Search { query: String },
    SpotifyPlay { query: String },
    YoutubeSearch { query: String },
    YoutubePlay { query: String },
    GoogleSearch { query: String },
    GithubSearch { query: String },
    SendMessage { query: String },
    SetTimer { query: String },
    SetAlarm { query: String },
    CreateEvent { query: String },
    VolumeMute,
    Screenshot,
    Lock,
    BrowserNewTab,
    BrowserCloseTab,
    BrowserNextTab,
    BrowserBack,
    MediaPlayPause,
    MediaNext,
    MediaPrevious,
    MediaStop,
    /// Local conversational reply (greetings, thanks, etc.)
    Greeting { reply: String },
    Unknown { raw: String },
}

/// Result of executing a command.
#[derive(Debug)]
pub struct CommandResult {
    pub success: bool,
    /// Human-readable message to speak.
    pub message: String,
}

impl View for CommandResult {
    type V = (bool, Seq<char>);

    open spec fn view(&self) -> Self::V {
        (self.success, self.message@)
    }
}

impl Clone for CommandResult {
    fn clone(&self) -> (r: Self)
        ensures
            r@ == self@,
    {
        CommandResult { success: self.success, message: self.message.clone() }
    }
}

/// A URL to open, with the reply for when it opened and for when it did not.
pub struct UrlPlan {
    pub url: String,
    pub opened: CommandResult,
    pub failed: CommandResult,
}

impl View for UrlPlan {
    type V = (Seq<char>, (bool, Seq<char>), (bool, Seq<char>));

    open spec fn view(&self) -> Self::V {
        (self.url@, self.opened@, self.failed@)
    }
}

/// A successful reply.
pub open spec fn ok(msg: Seq<char>) -> (bool, Seq<char>) {
    (true, msg)
}

/// A failed reply.
pub open spec fn fail(msg: Seq<char>) -> (bool, Seq<char>) {
    (false, msg)
}

/// The query-string form of a spoken query (its UTF-8 bytes, encoded).
pub open spec fn url_query(q: Seq<char>) -> Seq<char> {
    encoded(encode_utf8(q))
}

fn reply(success: bool, message: String) -> (r: CommandResult)
    ensures
        r@ == (success, message@),
{
    CommandResult { success, message }
}

// ───────────────────────── fixed and parameterised replies ─────────────────────────

/// Set a timer (no timer is started: the request is acknowledged).
pub fn set_timer(query: &str) -> (r: CommandResult)
    ensures
        r@ == ok("Timer set for "@ + query@ + ", sir."@),
{
    reply(true, concat3("Timer set for ", query, ", sir."))
}

/// Set an alarm (no alarm is started: the request is acknowledged).
pub fn set_alarm(query: &str) -> (r: CommandResult)
    ensures
        r@ == ok("Alarm set for "@ + query@ + ", sir."@),
{
    reply(true, concat3("Alarm set for ", query, ", sir."))
}

/// The reply to an intent the parser could not classify.
pub fn unknown_reply(raw: &str) -> (r: CommandResult)
    ensures
        r@ == fail("I didn't understand: "@ + raw@ + ". Could you rephrase that, sir?"@),
{
    reply(false, concat3("I didn't understand: ", raw, ". Could you rephrase that, sir?"))
}

// ───────────────────────── URL-opening commands ─────────────────────────

/// Open a URL for a named target.
pub open spec fn open_url_spec(target: Seq<char>, url: Seq<char>) -> (Seq<char>, (bool, Seq<char>), (bool, Seq<char>)) {
    (
        url,
        ok("Opened "@ + capitalized(target) + " in your browser, sir."@),
        fail("I couldn't open "@ + target + ", sir."@),
    )
}

/// Open a URL in the default browser for a named target.
pub fn open_url(target: &str, url: &str) -> (r: UrlPlan)
    ensures
        r@ == open_url_spec(target@, url@),
{
    let cap = capitalize(target);
    UrlPlan {
        url: url.to_string(),
        opened: reply(true, concat3("Opened ", cap.as_str(), " in your browser, sir.")),
        failed: reply(false, concat3("I couldn't open ", target, ", sir.")),
    }
}

/// A web search.
pub open spec fn open_search_spec(q: Seq<char>) -> (Seq<char>, (bool, Seq<char>), (bool, Seq<char>)) {
    (
        "https://www.google.com/search?q="@ + url_query(q),
        ok("Searching for "@ + q + ", sir."@),
        fail("I couldn't search for "@ + q + ", sir."@),
    )
}

/// Search the web for `query`.
pub fn open_search(query: &str) -> (r: UrlPlan)
    ensures
        r@ == open_search_spec(query@),
{
    let q = encode(query);
    UrlPlan {
        url: concat2("https://www.google.com/search?q=", q.as_str()),
        opened: reply(true, concat3("Searching for ", query, ", sir.")),
        failed: reply(false, concat3("I couldn't search for ", query, ", sir.")),
    }
}

/// A YouTube search.
pub open spec fn youtube_search_spec(q: Seq<char>) -> (Seq<char>, (bool, Seq<char>), (bool, Seq<char>)) {
    (
        "https://www.youtube.com/results?search_query="@ + url_query(q),
        ok("Searching "@ + q + " on YouTube, sir."@),
        fail("I couldn't search YouTube, sir."@),
    )
}

/// Search YouTube for `query`.
pub fn youtube_search(query: &str) -> (r: UrlPlan)
    ensures
        r@ == youtube_search_spec(query@),
{
    let q = encode(query);
    UrlPlan {
        url: concat2("https://www.youtube.com/results?search_query=", q.as_str()),
        opened: reply(true, concat3("Searching ", query, " on YouTube, sir.")),
        failed: reply(false, "I couldn't search YouTube, sir.".to_string()),
    }
}

/// Playing on YouTube: the search page, from which the first result plays.
pub open spec fn youtube_play_spec(q: Seq<char>) -> (Seq<char>, (bool, Seq<char>), (bool, Seq<char>)) {
    (
        "https://www.youtube.com/results?search_query="@ + url_query(q),
        ok("Playing "@ + q + " on YouTube, sir."@),
        fail("I couldn't open YouTube, sir."@),
    )
}

/// Play `query` on YouTube (opens the search results).
pub fn youtube_play(query: &str) -> (r: UrlPlan)
    ensures
        r@ == youtube_play_spec(query@),
{
    let q = encode(query);
    UrlPlan {
        url: concat2("https://www.youtube.com/results?search_query=", q.as_str()),
        opened: reply(true, concat3("Playing ", query, " on YouTube, sir.")),
        failed: reply(false, "I couldn't open YouTube, sir.".to_string()),
    }
}

/// A GitHub repository search.
pub open spec fn github_search_spec(q: Seq<char>) -> (Seq<char>, (bool, Seq<char>), (bool, Seq<char>)) {
    (
        "https://github.com/search?q="@ + url_query(q) + "&type=repositories"@,
        ok("Searching "@ + q + " on GitHub, sir."@),
        fail("I couldn't search GitHub, sir."@),
    )
}

/// Search GitHub repositories for `query`.
pub fn github_search(query: &str) -> (r: UrlPlan)
    ensures
        r@ == github_search_spec(query@),
{
    let q = encode(query);
    UrlPlan {
        url: concat3("https://github.com/search?q=", q.as_str(), "&type=repositories"),
        opened: reply(true, concat3("Searching ", query, " on GitHub, sir.")),
        failed: reply(false, "I couldn't search GitHub, sir.".to_string()),
    }
}

/// Sending a message: WhatsApp Web, where the user picks the contact.
pub open spec fn send_message_spec(q: Seq<char>) -> (Seq<char>, (bool, Seq<char>), (bool, Seq<char>)) {
    (
        "https://web.whatsapp.com"@,
        ok("Opening WhatsApp for "@ + q + ", sir."@),
        fail("I couldn't open WhatsApp, sir."@),
    )
}

/// Send a message to `query` (opens WhatsApp Web).
pub fn send_message(query: &str) -> (r: UrlPlan)
    ensures
        r@ == send_message_spec(query@),
{
    UrlPlan {
        url: "https://web.whatsapp.com".to_string(),
        opened: reply(true, concat3("Opening WhatsApp for ", query, ", sir.")),
        failed: reply(false, "I couldn't open WhatsApp, sir.".to_string()),
    }
}

/// Creating a calendar event: Google Calendar's event editor.
pub open spec fn create_event_spec(q: Seq<char>) -> (Seq<char>, (bool, Seq<char>), (bool, Seq<char>)) {
    (
        "https://calendar.google.com/calendar/u/0/r/eventedit"@,
        ok("Creating event "@ + q + " in your calendar, sir."@),
        fail("I couldn't open your calendar, sir."@),
    )
}

/// Create a calendar event named `query` (opens Google Calendar).
pub fn create_event(query: &str) -> (r: UrlPlan)
    ensures
        r@ == create_event_spec(query@),
{
    UrlPlan {
        url: "https://calendar.google.com/calendar/u/0/r/eventedit".to_string(),
        opened: reply(true, concat3("Creating event ", query, " in your calendar, sir.")),
        failed: reply(false, "I couldn't open your calendar, sir.".to_string()),
    }
}

/// Spotify: the desktop app's search URI, tried first, and the web player.
pub struct SpotifyPlan {
    pub app_uri: String,
    pub web_url: String,
    pub played: CommandResult,
    pub failed: CommandResult,
}

impl View for SpotifyPlan {
    type V = (Seq<char>, Seq<char>, (bool, Seq<char>), (bool, Seq<char>));

    open spec fn view(&self) -> Self::V {
        (self.app_uri@, self.web_url@, self.played@, self.failed@)
    }
}

/// Playing on Spotify.
pub open spec fn spotify_play_spec(q: Seq<char>) -> (Seq<char>, Seq<char>, (bool, Seq<char>), (bool, Seq<char>)) {
    (
        "spotify:search:"@ + url_query(q),
        "https://open.spotify.com/search/"@ + url_query(q),
        ok("Playing "@ + q + " on Spotify, sir."@),
        fail("I couldn't open Spotify, sir."@),
    )
}

/// Play `query` on Spotify: the desktop app when its URI opens, otherwise the
/// web player.
pub fn spotify_play(query: &str) -> (r: SpotifyPlan)
    ensures
        r@ == spotify_play_spec(query@),
{
    let q = encode(query);
    SpotifyPlan {
        app_uri: concat2("spotify:search:", q.as_str()),
        web_url: concat2("https://open.spotify.com/search/", q.as_str()),
        played: reply(true, concat3("Playing ", query, " on Spotify, sir.")),
        failed: reply(false, "I couldn't open Spotify, sir.".to_string()),
    }
}

/// The reply once the URL of a plan was (or was not) opened.
pub fn url_outcome(plan: UrlPlan, opened: bool) -> (r: CommandResult)
    ensures
        r@ == if opened { plan@.1 } else { plan@.2 },
{
    if opened {
        plan.opened
    } else {
        plan.failed
    }
}


// ───────────────────────── fixed commands ─────────────────────────

/// The reply to muting the volume.
pub fn volume_mute() -> (r: CommandResult)
    ensures
        r@ == ok("Muted, sir."@),
{
    reply(true, "Muted, sir.".to_string())
}

/// The reply to taking a screenshot.
pub fn take_screenshot() -> (r: CommandResult)
    ensures
        r@ == ok("Screenshot taken, sir."@),
{
    reply(true, "Screenshot taken, sir.".to_string())
}

/// The reply to locking the screen.
pub fn lock_screen() -> (r: CommandResult)
    ensures
        r@ == ok("Locking screen, sir."@),
{
    reply(true, "Locking screen, sir.".to_string())
}

// ───────────────────────── browser shortcuts ─────────────────────────

/// The reply to a browser shortcut: the capitalised label and "sir.".
pub fn browser_key_reply(label: &str) -> (r: CommandResult)
    ensures
        r@ == ok(capitalized(label@) + " sir."@),
{
    let cap = capitalize(label);
    reply(true, concat2(cap.as_str(), " sir."))
}

/// The Windows `SendKeys` sequence for a shortcut (empty when unknown).
pub open spec fn sendkeys_of(keys: Seq<char>) -> Seq<char> {
    if keys == "ctrl+t"@ {
        "^t"@
    } else if keys == "ctrl+w"@ {
        "^w"@
    } else if keys == "ctrl+tab"@ {
        "^{TAB}"@
    } else if keys == "alt+left"@ {
        "%{LEFT}"@
    } else {
        Seq::empty()
    }
}

/// Maps `ctrl+t`-style notation to Windows `SendKeys` notation.
pub fn sendkeys_for(keys: &str) -> (r: String)
    ensures
        r@ == sendkeys_of(keys@),
{
    let k = str_chars(keys);
    if eq_str(&k, "ctrl+t") {
        "^t".to_string()
    } else if eq_str(&k, "ctrl+w") {
        "^w".to_string()
    } else if eq_str(&k, "ctrl+tab") {
        "^{TAB}".to_string()
    } else if eq_str(&k, "alt+left") {
        "%{LEFT}".to_string()
    } else {
        String::new()
    }
}

/// The PowerShell script that sends a `SendKeys` sequence.
pub fn sendkeys_script(sequence: &str) -> (r: String)
    ensures
        r@ == "Add-Type -AssemblyName System.Windows.Forms; [System.Windows.Forms.SendKeys]::SendWait('"@
            + sequence@ + "')"@,
{
    concat3(
        "Add-Type -AssemblyName System.Windows.Forms; [System.Windows.Forms.SendKeys]::SendWait('",
        sequence,
        "')",
    )
}

/// The macOS modifier and key for a shortcut (both empty when unknown).
pub open spec fn keystroke_of(keys: Seq<char>) -> (Seq<char>, Seq<char>) {
    if keys == "ctrl+t"@ {
        ("command down"@, "t"@)
    } else if keys == "ctrl+w"@ {
        ("command down"@, "w"@)
    } else if keys == "ctrl+tab"@ {
        ("control down"@, "tab"@)
    } else if keys == "alt+left"@ {
        ("command down"@, "["@)
    } else {
        (Seq::empty(), Seq::empty())
    }
}

/// Maps a shortcut to the macOS `(modifier, key)` pair for System Events.
pub fn keystroke_for(keys: &str) -> (r: (String, String))
    ensures
        (r.0@, r.1@) == keystroke_of(keys@),
{
    let k = str_chars(keys);
    if eq_str(&k, "ctrl+t") {
        ("command down".to_string(), "t".to_string())
    } else if eq_str(&k, "ctrl+w") {
        ("command down".to_string(), "w".to_string())
    } else if eq_str(&k, "ctrl+tab") {
        ("control down".to_string(), "tab".to_string())
    } else if eq_str(&k, "alt+left") {
        ("command down".to_string(), "[".to_string())
    } else {
        (String::new(), String::new())
    }
}

/// The AppleScript that presses a key with a modifier.
pub fn keystroke_script(key: &str, modifier: &str) -> (r: String)
    ensures
        r@ == "tell application \"System Events\" to keystroke \""@ + key@ + "\" using {"@ + modifier@ + "}"@,
{
    let mut r = concat3("tell application \"System Events\" to keystroke \"", key, "\" using {");
    r.append(modifier);
    r.append("}");
    r
}

/// The `wtype` arguments for a shortcut (modifier down, key, modifier up).
pub open spec fn wtype_args_of(keys: Seq<char>) -> Option<Seq<Seq<char>>> {
    if keys == "ctrl+t"@ {
        Some(seq!["-M"@, "ctrl"@, "-k"@, "t"@, "-m"@, "ctrl"@])
    } else if keys == "ctrl+w"@ {
        Some(seq!["-M"@, "ctrl"@, "-k"@, "w"@, "-m"@, "ctrl"@])
    } else if keys == "ctrl+tab"@ {
        Some(seq!["-M"@, "ctrl"@, "-k"@, "Tab"@, "-m"@, "ctrl"@])
    } else if keys == "alt+left"@ {
        Some(seq!["-M"@, "alt"@, "-k"@, "Left"@, "-m"@, "alt"@])
    } else {
        None
    }
}

/// The key presses sent on Wayland for a shortcut press the key the shortcut
/// names, with its modifier: press the modifier, tap the key, release the same
/// modifier; the shortcut reads as the modifier, `+`, and the key's name in
/// lower case. Exactly the four browser shortcuts have key presses.
pub proof fn law_wtype_presses_named_key(keys: Seq<char>)
    ensures
        wtype_args_of(keys) matches Some(a) ==> a.len() == 6 && a[0] == "-M"@ && a[2] == "-k"@ && a[4] == "-m"@
            && a[1] == a[5] && keys == a[1] + "+"@ + a[3].map_values(|c: char| ascii_lower_char(c)),
        (keys == "ctrl+t"@ || keys == "ctrl+w"@ || keys == "ctrl+tab"@ || keys == "alt+left"@)
            <==> wtype_args_of(keys) is Some,
{
    reveal_strlit("ctrl+t");
    reveal_strlit("ctrl+w");
    reveal_strlit("ctrl+tab");
    reveal_strlit("alt+left");
    reveal_strlit("ctrl");
    reveal_strlit("alt");
    reveal_strlit("+");
    reveal_strlit("t");
    reveal_strlit("w");
    reveal_strlit("Tab");
    reveal_strlit("Left");
    if keys == "ctrl+t"@ {
        assert(keys =~= "ctrl"@ + "+"@ + "t"@.map_values(|c: char| ascii_lower_char(c)));
    } else if keys == "ctrl+w"@ {
        assert(keys =~= "ctrl"@ + "+"@ + "w"@.map_values(|c: char| ascii_lower_char(c)));
    } else if keys == "ctrl+tab"@ {
        assert(keys =~= "ctrl"@ + "+"@ + "Tab"@.map_values(|c: char| ascii_lower_char(c)));
    } else if keys == "alt+left"@ {
        assert(keys =~= "alt"@ + "+"@ + "Left"@.map_values(|c: char| ascii_lower_char(c)));
    }
}

fn wtype_combo(modifier: &str, key: &str) -> (r: Vec<String>)
    ensures
        r@.map_values(|s: String| s@) == seq!["-M"@, modifier@, "-k"@, key@, "-m"@, modifier@],
{
    let r = vec![
        "-M".to_string(),
        modifier.to_string(),
        "-k".to_string(),
        key.to_string(),
        "-m".to_string(),
        modifier.to_string(),
    ];
    proof {
        assert(r@.map_values(|s: String| s@) =~= seq!["-M"@, modifier@, "-k"@, key@, "-m"@, modifier@]);
    }
    r
}

/// Maps a shortcut to `wtype` arguments (Wayland); `None` when unknown.
pub fn wtype_args_for(keys: &str) -> (r: Option<Vec<String>>)
    ensures
        match r {
            Some(v) => wtype_args_of(keys@) == Some(v@.map_values(|s: String| s@)),
            None => wtype_args_of(keys@) is None,
        },
{
    let k = str_chars(keys);
    if eq_str(&k, "ctrl+t") {
        Some(wtype_combo("ctrl", "t"))
    } else if eq_str(&k, "ctrl+w") {
        Some(wtype_combo("ctrl", "w"))
    } else if eq_str(&k, "ctrl+tab") {
        Some(wtype_combo("ctrl", "Tab"))
    } else if eq_str(&k, "alt+left") {
        Some(wtype_combo("alt", "Left"))
    } else {
        None
    }
}

// ───────────────────────── media ─────────────────────────

/// The reply once the media player was (or was not) controlled over MPRIS.
pub fn media_outcome(outcome: Result<String, String>) -> (r: CommandResult)
    ensures
        r@ == match outcome {
            Ok(msg) => ok(msg@),
            Err(e) => fail("Couldn't control media: "@ + e@),
        },
{
    match outcome {
        Ok(msg) => reply(true, msg),
        Err(e) => reply(false, concat2("Couldn't control media: ", e.as_str())),
    }
}

/// The reply where media keys are not driven (platforms without MPRIS).
pub fn media_acknowledged(action: &str) -> (r: CommandResult)
    ensures
        r@ == ok("Media "@ + action@ + " executed, sir."@),
{
    reply(true, concat3("Media ", action, " executed, sir."))
}

// ───────────────────────── closing an app ─────────────────────────

/// One way of stopping a running app, tried in order until one succeeds.
pub enum KillAttempt {
    /// `flatpak kill <app_id>`.
    FlatpakKill { app_id: String },
    /// `pkill -f <pattern>`.
    Pkill { pattern: String },
}

/// A kill attempt, as a kind (`true` for Flatpak) and its argument.
pub open spec fn attempt_view(a: KillAttempt) -> (bool, Seq<char>) {
    match a {
        KillAttempt::FlatpakKill { app_id } => (true, app_id@),
        KillAttempt::Pkill { pattern } => (false, pattern@),
    }
}

/// How to close an app on Linux and macOS.
pub struct ClosePlan {
    /// The name used in replies (the registry's display name, else the target).
    pub app_name: String,
    pub attempts: Vec<KillAttempt>,
}

/// The kill attempts for an app: `flatpak kill` of a Flatpak app id, then
/// `pkill -f` of the command's program name, then `pkill -f` of the app name;
/// the first two only when the registry gave a command line they apply to.
pub open spec fn close_attempts_of(app_name: Seq<char>, exec: Option<Seq<char>>) -> Seq<(bool, Seq<char>)> {
    let flatpak: Seq<(bool, Seq<char>)> = match exec {
        Some(e) => match flatpak_id_of(e) {
            Some(id) => seq![(true, id)],
            None => Seq::empty(),
        },
        None => Seq::empty(),
    };
    let base: Seq<(bool, Seq<char>)> = match exec {
        Some(e) => match exec_basename_of(e) {
            Some(b) => seq![(false, b)],
            None => Seq::empty(),
        },
        None => Seq::empty(),
    };
    flatpak + base + seq![(false, app_name)]
}

/// Plans closing `target`. `registry_name` and `exec` are what the app
/// registry knows of it (its display name, and its desktop command line).
pub fn close_app_plan(target: &str, registry_name: Option<&str>, exec: Option<&str>) -> (r: ClosePlan)
    ensures
        r.app_name@ == match registry_name { Some(n) => n@, None => target@ },
        r.attempts@.map_values(|a: KillAttempt| attempt_view(a)) == close_attempts_of(
            r.app_name@,
            match exec { Some(e) => Some(e@), None => None },
        ),
{
    let app_name = match registry_name {
        Some(n) => n.to_string(),
        None => target.to_string(),
    };
    let mut attempts: Vec<KillAttempt> = Vec::new();
    if let Some(e) = exec {
        if let Some(id) = flatpak_app_id(e) {
            attempts.push(KillAttempt::FlatpakKill { app_id: id });
        }
        if let Some(b) = exec_basename(e) {
            attempts.push(KillAttempt::Pkill { pattern: b });
        }
    }
    attempts.push(KillAttempt::Pkill { pattern: app_name.clone() });
    proof {
        assert(attempts@.map_values(|a: KillAttempt| attempt_view(a)) =~= close_attempts_of(
            app_name@,
            match exec { Some(e) => Some(e@), None => None },
        ));
    }
    ClosePlan { app_name, attempts }
}

/// `s` without any number of trailing `.exe` suffixes (what
/// `trim_end_matches(".exe")` leaves).
pub open spec fn trim_exe(s: Seq<char>) -> Seq<char>
    decreases s.len(),
{
    if ends_with(s, ".exe"@) && ".exe"@.len() > 0 {
        trim_exe(s.subrange(0, s.len() - ".exe"@.len()))
    } else {
        s
    }
}

/// How to close an app on Windows: `taskkill /IM <exe_name> /F`, then a
/// `wmic` process query `name like '%<exe without .exe>%'`.
pub struct WindowsClosePlan {
    pub app_name: String,
    pub exe_name: String,
    pub wmic_filter: String,
}

/// Plans closing `target` on Windows. `exe_file_name` is the file name of the
/// executable the registry launches the app from, when it knows one.
pub fn windows_close_plan(target: &str, registry_name: Option<&str>, exe_file_name: Option<&str>) -> (r: WindowsClosePlan)
    ensures
        r.app_name@ == match registry_name { Some(n) => n@, None => target@ },
        r.exe_name@ == match exe_file_name { Some(f) => f@, None => target@ + ".exe"@ },
        r.wmic_filter@ == "name like '%"@ + trim_exe(r.exe_name@) + "%'"@,
{
    proof {
        reveal_strlit(".exe");
    }
    let app_name = match registry_name {
        Some(n) => n.to_string(),
        None => target.to_string(),
    };
    let exe_name = match exe_file_name {
        Some(f) => f.to_string(),
        None => concat2(target, ".exe"),
    };
    let v = str_chars(exe_name.as_str());
    let mut end = v.len();
    let ghost full = v@;
    proof {
        assert(v@.subrange(0, end as int) =~= full);
    }
    while end >= 4 && v[end - 4] == '.' && v[end - 3] == 'e' && v[end - 2] == 'x' && v[end - 1] == 'e'
        invariant
            end <= v@.len(),
            trim_exe(full) == trim_exe(v@.subrange(0, end as int)),
            full == v@,
        decreases end,
    {
        proof {
            reveal_strlit(".exe");
            let cur = v@.subrange(0, end as int);
            assert(cur.subrange(cur.len() - 4, cur.len() as int) =~= ".exe"@);
            assert(cur.subrange(0, cur.len() - 4) =~= v@.subrange(0, end - 4));
        }
        end = end - 4;
    }
    proof {
        reveal_strlit(".exe");
        let cur = v@.subrange(0, end as int);
        if ends_with(cur, ".exe"@) {
            let tail = cur.subrange(cur.len() - 4, cur.len() as int);
            assert(tail[0] == v@[end - 4] && tail[1] == v@[end - 3] && tail[2] == v@[end - 2] && tail[3] == v@[end - 1]);
            assert(tail[0] == '.' && tail[1] == 'e' && tail[2] == 'x' && tail[3] == 'e');
            assert(false);
        }
        assert(v@.subrange(0, v@.len() as int) =~= full);
    }
    let stem = string_of_range(&v, 0, end);
    let wmic_filter = concat3("name like '%", stem.as_str(), "%'");
    WindowsClosePlan { app_name, exe_name, wmic_filter }
}

/// The reply once closing was (or was not) achieved.
pub fn close_outcome(app_name: &str, closed: bool) -> (r: CommandResult)
    ensures
        r@ == if closed {
            ok("Closed "@ + capitalized(app_name@) + ", sir."@)
        } else {
            fail("I couldn't find "@ + capitalized(app_name@) + " running, sir."@)
        },
{
    let cap = capitalize(app_name);
    if closed {
        reply(true, concat3("Closed ", cap.as_str(), ", sir."))
    } else {
        reply(false, concat3("I couldn't find ", cap.as_str(), " running, sir."))
    }
}

// ───────────────────────── WhatsApp ─────────────────────────

/// The ASCII digits of `s`, in order.
pub open spec fn ascii_digits(s: Seq<char>) -> Seq<char>
    decreases s.len(),
{
    if s.len() == 0 {
        Seq::empty()
    } else if '0' <= s.last() && s.last() <= '9' {
        ascii_digits(s.drop_last()).push(s.last())
    } else {
        ascii_digits(s.drop_last())
    }
}

/// A phone number reduced to its digits (spaces, dashes and `+` removed).
pub fn clean_phone(phone: &str) -> (r: String)
    ensures
        r@ == ascii_digits(phone@),
{
    let v = str_chars(phone);
    let mut r = String::new();
    let mut i: usize = 0;
    while i < v.len()
        invariant
            i <= v@.len(),
            r@ == ascii_digits(v@.subrange(0, i as int)),
        decreases v@.len() - i,
    {
        proof {
            assert(v@.subrange(0, i + 1).drop_last() =~= v@.subrange(0, i as int));
        }
        if '0' <= v[i] && v[i] <= '9' {
            push_char(&mut r, v[i]);
        }
        i += 1;
    }
    proof {
        assert(v@.subrange(0, v@.len() as int) =~= v@);
    }
    r
}

/// Opening a WhatsApp chat with a known contact.
pub open spec fn whatsapp_launch_spec(name: Seq<char>, phone: Seq<char>) -> (Seq<char>, (bool, Seq<char>), (bool, Seq<char>)) {
    (
        "whatsapp://send?phone="@ + ascii_digits(phone),
        ok("Opening your chat with "@ + name + ", sir."@),
        fail("I couldn't open WhatsApp, sir. Make sure it's installed."@),
    )
}

/// Opens the WhatsApp chat with `name` at `phone`.
pub fn whatsapp_launch(name: &str, phone: &str) -> (r: UrlPlan)
    ensures
        r@ == whatsapp_launch_spec(name@, phone@),
{
    let digits = clean_phone(phone);
    UrlPlan {
        url: concat2("whatsapp://send?phone=", digits.as_str()),
        opened: reply(true, concat3("Opening your chat with ", name, ", sir.")),
        failed: reply(false, "I couldn't open WhatsApp, sir. Make sure it's installed.".to_string()),
    }
}

/// The contact whose name equals the spoken one, ignoring case; failing
/// that, the first whose name contains it or is contained in it.
pub open spec fn contact_choice(contacts: Seq<(Seq<char>, Seq<char>)>, contact: Seq<char>) -> Option<int> {
    let want = str_lowercase(contact);
    let n = contacts.len() as int;
    let exact = first_where(n, |i: int| str_lowercase(contacts[i].0) == want);
    if exact is Some {
        exact
    } else {
        first_where(
            n,
            |i: int| seq_contains(str_lowercase(contacts[i].0), want) || seq_contains(want, str_lowercase(contacts[i].0)),
        )
    }
}

/// Finds the contact for a spoken name among `(name, number)` pairs.
pub fn find_contact(contacts: &Vec<(String, String)>, contact: &str) -> (r: Option<usize>)
    ensures
        opt_int(r) == contact_choice(pair_views(contacts@), contact@),
        r matches Some(i) ==> i < contacts@.len(),
{
    let ghost cs = pair_views(contacts@);
    let want_s = lowercase(contact);
    let want = str_chars(want_s.as_str());
    let ghost n = cs.len() as int;
    let ghost exact_pred = |i: int| str_lowercase(cs[i].0) == str_lowercase(contact@);
    let ghost fuzzy_pred = |i: int|
        seq_contains(str_lowercase(cs[i].0), str_lowercase(contact@)) || seq_contains(
            str_lowercase(contact@),
            str_lowercase(cs[i].0),
        );
    let mut exact: Option<usize> = None;
    let mut fuzzy: Option<usize> = None;
    let mut i: usize = 0;
    while i < contacts.len()
        invariant
            i <= contacts@.len(),
            cs == pair_views(contacts@),
            want@ == str_lowercase(contact@),
            exact_pred == (|i: int| str_lowercase(cs[i].0) == str_lowercase(contact@)),
            fuzzy_pred == (|i: int|
                seq_contains(str_lowercase(cs[i].0), str_lowercase(contact@)) || seq_contains(
                    str_lowercase(contact@),
                    str_lowercase(cs[i].0),
                )),
            opt_int(exact) == first_where(i as int, exact_pred),
            opt_int(fuzzy) == first_where(i as int, fuzzy_pred),
            exact matches Some(x) ==> x < i,
            fuzzy matches Some(x) ==> x < i,
        decreases contacts@.len() - i,
    {
        let name_s = lowercase(contacts[i].0.as_str());
        let name = str_chars(name_s.as_str());
        let is_exact = crate::text::chars_eq(&name, &want);
        let is_fuzzy = contains_exec(&name, &want) || contains_exec(&want, &name);
        proof {
            assert(cs[i as int].0 == contacts@[i as int].0@);
            assert(exact_pred(i as int) == is_exact);
            assert(fuzzy_pred(i as int) == is_fuzzy);
        }
        if is_exact && exact.is_none() {
            exact = Some(i);
        }
        if is_fuzzy && fuzzy.is_none() {
            fuzzy = Some(i);
        }
        i += 1;
    }
    if exact.is_some() {
        exact
    } else {
        fuzzy
    }
}

/// The contact chosen for a spoken name: its name equals the spoken name
/// ignoring case, or one contains the other (ignoring case); one is chosen
/// whenever some contact matches; and when some contact's name equals the
/// spoken name ignoring case, the chosen one does: an exact match always wins
/// over a partial one.
pub proof fn law_exact_contact_preferred(contacts: Seq<(Seq<char>, Seq<char>)>, contact: Seq<char>)
    ensures
        contact_choice(contacts, contact) matches Some(i) ==> 0 <= i < contacts.len() && (str_lowercase(contacts[i].0)
            == str_lowercase(contact) || seq_contains(str_lowercase(contacts[i].0), str_lowercase(contact))
            || seq_contains(str_lowercase(contact), str_lowercase(contacts[i].0))),
        (exists|j: int| 0 <= j < contacts.len() && (seq_contains(str_lowercase(contacts[j].0), str_lowercase(contact))
            || seq_contains(str_lowercase(contact), str_lowercase(contacts[j].0)))) ==> contact_choice(contacts, contact) is Some,
        (exists|j: int| 0 <= j < contacts.len() && str_lowercase(contacts[j].0) == str_lowercase(contact))
            ==> (contact_choice(contacts, contact) matches Some(i) && str_lowercase(contacts[i].0) == str_lowercase(contact)),
{
    let want = str_lowercase(contact);
    let n = contacts.len() as int;
    let ex = |i: int| str_lowercase(contacts[i].0) == want;
    let fz = |i: int| seq_contains(str_lowercase(contacts[i].0), want) || seq_contains(want, str_lowercase(contacts[i].0));
    lemma_first_where_in_range(n, ex);
    lemma_first_where_in_range(n, fz);
    if exists|j: int| 0 <= j < n && str_lowercase(#[trigger] contacts[j].0) == want {
        let j = choose|j: int| 0 <= j < n && str_lowercase(#[trigger] contacts[j].0) == want;
        lemma_first_where_exists(n, ex, j);
    }
    if exists|j: int| 0 <= j < n && (seq_contains(str_lowercase(#[trigger] contacts[j].0), want) || seq_contains(want, str_lowercase(contacts[j].0))) {
        let j = choose|j: int| 0 <= j < n && (seq_contains(str_lowercase(#[trigger] contacts[j].0), want) || seq_contains(want, str_lowercase(contacts[j].0)));
        lemma_first_where_exists(n, fz, j);
    }
    match first_where(n, ex) {
        Some(i) => {
            assert(ex(i));
        },
        None => {},
    }
    match first_where(n, fz) {
        Some(i) => {
            assert(fz(i));
        },
        None => {},
    }
}

/// The contacts with their numbers, a number that is not a string counting as
/// the empty number.
pub open spec fn numbers_or_empty(cs: Seq<(Seq<char>, Option<Seq<char>>)>) -> Seq<(Seq<char>, Seq<char>)> {
    cs.map_values(|e: (Seq<char>, Option<Seq<char>>)| (e.0, match e.1 { Some(n) => n, None => Seq::empty() }))
}

/// Applies the empty number to contacts whose number is not a string.
fn contacts_with_numbers(cs: Vec<(String, Option<String>)>) -> (r: Vec<(String, String)>)
    ensures
        pair_views(r@) == numbers_or_empty(member_views(cs@)),
{
    let ghost want = numbers_or_empty(member_views(cs@));
    let mut out: Vec<(String, String)> = Vec::new();
    let mut i: usize = 0;
    while i < cs.len()
        invariant
            i <= cs@.len(),
            want == numbers_or_empty(member_views(cs@)),
            pair_views(out@) == want.take(i as int),
        decreases cs@.len() - i,
    {
        let name = cs[i].0.clone();
        let number = match &cs[i].1 {
            Some(n) => n.clone(),
            None => String::new(),
        };
        let ghost before = out@;
        out.push((name, number));
        proof {
            assert(pair_views(out@) =~= pair_views(before).push((cs@[i as int].0@, number@)));
            assert(want.take(i + 1) =~= want.take(i as int).push(want[i as int]));
        }
        i += 1;
    }
    proof {
        assert(want.take(i as int) =~= want);
    }
    out
}

/// Opening WhatsApp for a spoken contact, given the text of the contacts
/// file (a JSON object from names to numbers), if it could be read; a number
/// that is not a JSON string is taken as the empty number.
pub open spec fn whatsapp_chat_spec(contact: Seq<char>, contacts_json: Option<Seq<char>>) -> (
    Seq<char>,
    (bool, Seq<char>),
    (bool, Seq<char>),
) {
    let not_found = (
        "whatsapp://"@,
        ok("I couldn't find "@ + capitalized(contact) + " in your contacts, sir. Opening WhatsApp so you can pick a chat."@),
        ok("I couldn't find "@ + capitalized(contact) + " in your contacts, sir. Opening WhatsApp so you can pick a chat."@),
    );
    match contacts_json {
        Some(text) if json_syntax_error(text) is None => match json_string_members(text) {
            Some(ms) => match contact_choice(numbers_or_empty(ms), contact) {
                Some(i) => whatsapp_launch_spec(numbers_or_empty(ms)[i].0, numbers_or_empty(ms)[i].1),
                None => not_found,
            },
            None => not_found,
        },
        _ => not_found,
    }
}

/// Opens a WhatsApp chat with a contact by name, looked up in the contacts
/// file; when it is not found, opens WhatsApp so the user can pick.
pub fn whatsapp_chat(contact: &str, contacts_json: Option<&str>) -> (r: UrlPlan)
    ensures
        r@ == whatsapp_chat_spec(contact@, match contacts_json { Some(t) => Some(t@), None => None }),
{
    if let Some(text) = contacts_json {
        if let Some(ms) = json_string_member_list(text) {
            let cs = contacts_with_numbers(ms);
            match find_contact(&cs, contact) {
                Some(i) => {
                    proof {
                        assert(pair_views(cs@)[i as int] == (cs@[i as int].0@, cs@[i as int].1@));
                    }
                    return whatsapp_launch(cs[i].0.as_str(), cs[i].1.as_str());
                },
                None => {},
            }
        }
    }
    let cap = capitalize(contact);
    let msg = concat3(
        "I couldn't find ",
        cap.as_str(),
        " in your contacts, sir. Opening WhatsApp so you can pick a chat.",
    );
    UrlPlan {
        url: "whatsapp://".to_string(),
        opened: reply(true, msg.clone()),
        failed: reply(true, msg),
    }
}


// ───────────────────────── dispatch ─────────────────────────

/// What the caller does for an intent.
pub enum CommandPlan {
    /// Reply at once.
    Reply(CommandResult),
    /// Open a URL, then reply according to whether it opened.
    OpenUrl(UrlPlan),
    /// Resolve and open an app (see `resolve::AppResolution`).
    OpenApp { target: String },
    /// Close an app: look it up in the app registry, then follow
    /// `close_app_plan` (or `windows_close_plan`) and reply with `close_outcome`.
    CloseApp { target: String },
    /// Open a WhatsApp chat: read the contacts file, then follow
    /// `whatsapp_chat`.
    WhatsappChat { contact: String },
    /// Play on Spotify: try the app URI, then the web player.
    Spotify(SpotifyPlan),
    /// Mute the system volume, then reply.
    Mute(CommandResult),
    /// Start the screenshot tool, then reply.
    Screenshot(CommandResult),
    /// Lock the screen, then reply.
    Lock(CommandResult),
    /// Send a keyboard shortcut (`ctrl+t` notation) to the active window,
    /// then reply.
    BrowserKey { keys: String, reply: CommandResult },
    /// Control the media player (`play_pause`, `next`, `previous`, `stop`),
    /// replying with `media_outcome` or `media_acknowledged`.
    Media { action: String },
}

/// The shortcut and label of a browser intent.
pub open spec fn browser_shortcut(intent: Intent) -> Option<(Seq<char>, Seq<char>)> {
    match intent {
        Intent::BrowserNewTab => Some(("ctrl+t"@, "new tab"@)),
        Intent::BrowserCloseTab => Some(("ctrl+w"@, "close tab"@)),
        Intent::BrowserNextTab => Some(("ctrl+tab"@, "next tab"@)),
        Intent::BrowserBack => Some(("alt+left"@, "back"@)),
        _ => None,
    }
}

/// The media action of a media intent.
pub open spec fn media_action_of(intent: Intent) -> Option<Seq<char>> {
    match intent {
        Intent::MediaPlayPause => Some("play_pause"@),
        Intent::MediaNext => Some("next"@),
        Intent::MediaPrevious => Some("previous"@),
        Intent::MediaStop => Some("stop"@),
        _ => None,
    }
}

/// The plan for each intent.
pub open spec fn plan_fits(intent: Intent, plan: CommandPlan) -> bool {
    match intent {
        Intent::OpenApp { target } => plan matches CommandPlan::OpenApp { target: t } && t@ == target@,
        Intent::OpenUrl { target, url } => plan matches CommandPlan::OpenUrl(p) && p@ == open_url_spec(target@, url@),
        Intent::CloseApp { target } => plan matches CommandPlan::CloseApp { target: t } && t@ == target@,
        Intent::WhatsappChat { contact } => plan matches CommandPlan::WhatsappChat { contact: c } && c@ == contact@,
        Intent::Search { query } => plan matches CommandPlan::OpenUrl(p) && p@ == open_search_spec(query@),
        Intent::GoogleSearch { query } => plan matches CommandPlan::OpenUrl(p) && p@ == open_search_spec(query@),
        Intent::SpotifyPlay { query } => plan matches CommandPlan::Spotify(p) && p@ == spotify_play_spec(query@),
        Intent::YoutubeSearch { query } => plan matches CommandPlan::OpenUrl(p) && p@ == youtube_search_spec(query@),
        Intent::YoutubePlay { query } => plan matches CommandPlan::OpenUrl(p) && p@ == youtube_play_spec(query@),
        Intent::GithubSearch { query } => plan matches CommandPlan::OpenUrl(p) && p@ == github_search_spec(query@),
        Intent::SendMessage { query } => plan matches CommandPlan::OpenUrl(p) && p@ == send_message_spec(query@),
        Intent::SetTimer { query } => plan matches CommandPlan::Reply(r) && r@ == ok("Timer set for "@ + query@ + ", sir."@),
        Intent::SetAlarm { query } => plan matches CommandPlan::Reply(r) && r@ == ok("Alarm set for "@ + query@ + ", sir."@),
        Intent::CreateEvent { query } => plan matches CommandPlan::OpenUrl(p) && p@ == create_event_spec(query@),
        Intent::VolumeMute => plan matches CommandPlan::Mute(r) && r@ == ok("Muted, sir."@),
        Intent::Screenshot => plan matches CommandPlan::Screenshot(r) && r@ == ok("Screenshot taken, sir."@),
        Intent::Lock => plan matches CommandPlan::Lock(r) && r@ == ok("Locking screen, sir."@),
        Intent::Greeting { reply } => plan matches CommandPlan::Reply(r) && r@ == ok(reply@),
        Intent::Unknown { raw } => plan matches CommandPlan::Reply(r)
            && r@ == fail("I didn't understand: "@ + raw@ + ". Could you rephrase that, sir?"@),
        _ => {
            ||| (browser_shortcut(intent) matches Some((keys, label)) && plan matches CommandPlan::BrowserKey { keys: k, reply: r }
                && k@ == keys && r@ == ok(capitalized(label) + " sir."@))
            ||| (media_action_of(intent) matches Some(a) && plan matches CommandPlan::Media { action: m } && m@ == a)
        },
    }
}

fn browser_plan(keys: &str, label: &str) -> (r: CommandPlan)
    ensures
        r matches CommandPlan::BrowserKey { keys: k, reply: rp } && k@ == keys@ && rp@ == ok(capitalized(label@) + " sir."@),
{
    CommandPlan::BrowserKey { keys: keys.to_string(), reply: browser_key_reply(label) }
}

fn media_plan(action: &str) -> (r: CommandPlan)
    ensures
        r matches CommandPlan::Media { action: a } && a@ == action@,
{
    CommandPlan::Media { action: action.to_string() }
}

/// Decides what to do, and what to say, for an intent from the frontend.
pub fn plan_command(intent: Intent) -> (r: CommandPlan)
    ensures
        plan_fits(intent, r),
{
    match intent {
        Intent::OpenUrl { target, url } => CommandPlan::OpenUrl(open_url(target.as_str(), url.as_str())),
        Intent::OpenApp { target } => CommandPlan::OpenApp { target },
        Intent::CloseApp { target } => CommandPlan::CloseApp { target },
        Intent::WhatsappChat { contact } => CommandPlan::WhatsappChat { contact },
        Intent::Search { query } => CommandPlan::OpenUrl(open_search(query.as_str())),
        Intent::SpotifyPlay { query } => CommandPlan::Spotify(spotify_play(query.as_str())),
        Intent::YoutubeSearch { query } => CommandPlan::OpenUrl(youtube_search(query.as_str())),
        Intent::YoutubePlay { query } => CommandPlan::OpenUrl(youtube_play(query.as_str())),
        Intent::GoogleSearch { query } => CommandPlan::OpenUrl(open_search(query.as_str())),
        Intent::GithubSearch { query } => CommandPlan::OpenUrl(github_search(query.as_str())),
        Intent::SendMessage { query } => CommandPlan::OpenUrl(send_message(query.as_str())),
        Intent::SetTimer { query } => CommandPlan::Reply(set_timer(query.as_str())),
        Intent::SetAlarm { query } => CommandPlan::Reply(set_alarm(query.as_str())),
        Intent::CreateEvent { query } => CommandPlan::OpenUrl(create_event(query.as_str())),
        Intent::VolumeMute => CommandPlan::Mute(volume_mute()),
        Intent::Screenshot => CommandPlan::Screenshot(take_screenshot()),
        Intent::Lock => CommandPlan::Lock(lock_screen()),
        Intent::BrowserNewTab => browser_plan("ctrl+t", "new tab"),
        Intent::BrowserCloseTab => browser_plan("ctrl+w", "close tab"),
        Intent::BrowserNextTab => browser_plan("ctrl+tab", "next tab"),
        Intent::BrowserBack => browser_plan("alt+left", "back"),
        Intent::MediaPlayPause => media_plan("play_pause"),
        Intent::MediaNext => media_plan("next"),
        Intent::MediaPrevious => media_plan("previous"),
        Intent::MediaStop => media_plan("stop"),
        Intent::Greeting { reply: text } => CommandPlan::Reply(reply(true, text)),
        Intent::Unknown { raw } => CommandPlan::Reply(unknown_reply(raw.as_str())),
    }
}

} // verus!

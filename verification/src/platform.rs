//! Reading what the operating system reports back: the microphone probe, and
//! the Windows scheduled task that starts the assistant at log-on.

use vstd::prelude::*;
use crate::exec_line::{is_white, is_white_exec};
use crate::text::{concat2, concat3, contains_exec, eq_str, seq_contains, starts_with, starts_with_str, str_chars, string_of_range};

verus! {

broadcast use vstd::string::group_string_axioms;

// ───────────────────────── microphone ─────────────────────────

/// Whether the microphone can be used.
pub enum MicPermission {
    /// A default input device exists and its configuration can be read.
    Granted,
    /// Devices could not be listed, or the default one could not be read
    /// (the system-wide microphone privacy switch is off).
    Denied,
    /// No input device is connected.
    NoDevice,
}

/// The verdict from the three probes, made in order: listing the input
/// devices (`None` when listing failed, else how many there are), whether a
/// default input device exists, and whether its default configuration could
/// be read. A later probe only counts when the earlier ones passed.
pub open spec fn mic_verdict_of(device_count: Option<usize>, has_default: bool, config_ok: bool) -> MicPermission {
    match device_count {
        None => MicPermission::Denied,
        Some(n) => if n == 0 {
            MicPermission::NoDevice
        } else if !has_default {
            MicPermission::NoDevice
        } else if config_ok {
            MicPermission::Granted
        } else {
            MicPermission::Denied
        },
    }
}

/// Decides the microphone verdict from the probes' results.
pub fn mic_permission_verdict(device_count: Option<usize>, has_default: bool, config_ok: bool) -> (r: MicPermission)
    ensures
        r == mic_verdict_of(device_count, has_default, config_ok),
{
    match device_count {
        None => MicPermission::Denied,
        Some(n) => if n == 0 {
            MicPermission::NoDevice
        } else if !has_default {
            MicPermission::NoDevice
        } else if config_ok {
            MicPermission::Granted
        } else {
            MicPermission::Denied
        },
    }
}

/// The word sent to the frontend for each verdict.
pub open spec fn mic_word(p: MicPermission) -> Seq<char> {
    match p {
        MicPermission::Granted => "granted"@,
        MicPermission::Denied => "denied"@,
        MicPermission::NoDevice => "no_device"@,
    }
}

impl MicPermission {
    /// `"granted"`, `"denied"` or `"no_device"`.
    pub fn as_word(&self) -> (r: String)
        ensures
            r@ == mic_word(*self),
    {
        match self {
            MicPermission::Granted => "granted".to_string(),
            MicPermission::Denied => "denied".to_string(),
            MicPermission::NoDevice => "no_device".to_string(),
        }
    }
}

// ───────────────────────── trimming ─────────────────────────

/// `s` without its leading white space.
pub open spec fn trim_start(s: Seq<char>) -> Seq<char>
    decreases s.len(),
{
    if s.len() > 0 && is_white(s[0]) {
        trim_start(s.drop_first())
    } else {
        s
    }
}

/// `s` without its trailing white space.
pub open spec fn trim_end(s: Seq<char>) -> Seq<char>
    decreases s.len(),
{
    if s.len() > 0 && is_white(s.last()) {
        trim_end(s.drop_last())
    } else {
        s
    }
}

/// `s` without leading and trailing white space (what `str::trim` gives).
pub open spec fn trimmed(s: Seq<char>) -> Seq<char> {
    trim_end(trim_start(s))
}

/// Removes leading and trailing white space.
pub fn trim(s: &str) -> (r: String)
    ensures
        r@ == trimmed(s@),
{
    let v = str_chars(s);
    let len = v.len();
    let mut i: usize = 0;
    proof {
        assert(v@.subrange(0, len as int) =~= v@);
    }
    while i < len && is_white_exec(v[i])
        invariant
            i <= len,
            len == v@.len(),
            v@ == s@,
            trim_start(s@) == trim_start(v@.subrange(i as int, len as int)),
        decreases len - i,
    {
        proof {
            assert(v@.subrange(i as int, len as int).drop_first() =~= v@.subrange(i + 1, len as int));
        }
        i += 1;
    }
    proof {
        let rest = v@.subrange(i as int, len as int);
        if i < len {
            assert(rest[0] == v@[i as int]);
        }
    }
    let mut j: usize = len;
    while j > i && is_white_exec(v[j - 1])
        invariant
            i <= j <= len,
            len == v@.len(),
            v@ == s@,
            trim_start(s@) == v@.subrange(i as int, len as int),
            trim_end(v@.subrange(i as int, len as int)) == trim_end(v@.subrange(i as int, j as int)),
        decreases j,
    {
        proof {
            assert(v@.subrange(i as int, j as int).drop_last() =~= v@.subrange(i as int, j - 1));
        }
        j -= 1;
    }
    string_of_range(&v, i, j)
}

// ───────────────────────── scheduled task ─────────────────────────

/// The PowerShell script up to the executable's path.
pub const AUTOSTART_SCRIPT_HEAD: &'static str = "$exe = '";

/// The PowerShell script after the executable's path: registers the `NEXUS`
/// task to start the assistant with `--background` at log-on, and reports
/// `NEXUS_TASK_OK` or `NEXUS_TASK_FAIL`.
pub const AUTOSTART_SCRIPT_TAIL: &'static str = "';\n                $user = [Security.Principal.WindowsIdentity]::GetCurrent().Name;\n                $action = New-ScheduledTaskAction -Execute $exe -Argument '--background';\n                $trigger = New-ScheduledTaskTrigger -AtLogOn -User $user;\n                $settings = New-ScheduledTaskSettingsSet -AllowStartIfOnBatteries -DontStopIfGoingOnBatteries -ExecutionTimeLimit (New-TimeSpan -Seconds 0);\n                $result = Register-ScheduledTask -TaskName 'NEXUS' -Action $action -Trigger $trigger -Settings $settings -User $user -Force;\n                if ($result) { Write-Output 'NEXUS_TASK_OK' } else { Write-Output 'NEXUS_TASK_FAIL' }";

/// The script that registers the log-on task for the executable at
/// `exe_path`.
pub fn autostart_task_script(exe_path: &str) -> (r: String)
    ensures
        r@ == AUTOSTART_SCRIPT_HEAD@ + exe_path@ + AUTOSTART_SCRIPT_TAIL@,
{
    concat3(AUTOSTART_SCRIPT_HEAD, exe_path, AUTOSTART_SCRIPT_TAIL)
}

/// The task was registered: PowerShell exited successfully and printed the
/// success marker.
pub fn task_registered(exit_success: bool, stdout: &str) -> (r: bool)
    ensures
        r == (exit_success && seq_contains(stdout@, "NEXUS_TASK_OK"@)),
{
    if !exit_success {
        return false;
    }
    let out = str_chars(stdout);
    let marker = str_chars("NEXUS_TASK_OK");
    contains_exec(&out, &marker)
}

/// What turning autostart on or off answers, given how the PowerShell run
/// went: the exit status and output, or the message of the error that kept it
/// from starting. Turning it on succeeds only when the task was registered;
/// turning it off succeeds whatever PowerShell reported (there may have been
/// no task to remove).
pub open spec fn autostart_result_of(enabled: bool, run: Result<(bool, Seq<char>), Seq<char>>) -> Result<bool, Seq<char>> {
    match run {
        Err(e) => Err("PowerShell error: "@ + e),
        Ok((success, out)) => if !enabled {
            Ok(false)
        } else if success && seq_contains(out, "NEXUS_TASK_OK"@) {
            Ok(true)
        } else {
            Err("Failed to create scheduled task"@)
        },
    }
}

/// Answers a request to turn autostart on or off from the PowerShell run.
pub fn autostart_result(enabled: bool, run: Result<(bool, String), String>) -> (r: Result<bool, String>)
    ensures
        match r {
            Ok(b) => autostart_result_of(enabled, match run { Ok((s, o)) => Ok((s, o@)), Err(e) => Err(e@) }) == Ok::<bool, Seq<char>>(b),
            Err(m) => autostart_result_of(enabled, match run { Ok((s, o)) => Ok((s, o@)), Err(e) => Err(e@) }) == Err::<bool, Seq<char>>(m@),
        },
{
    match run {
        Err(e) => Err(concat2("PowerShell error: ", e.as_str())),
        Ok((success, out)) => if !enabled {
            Ok(false)
        } else if task_registered(success, out.as_str()) {
            Ok(true)
        } else {
            Err("Failed to create scheduled task".to_string())
        },
    }
}

/// Autostart is on when the task's reported state is `Ready` or `Running`.
pub fn task_state_enabled(stdout: &str) -> (r: bool)
    ensures
        r == (trimmed(stdout@) == "Ready"@ || trimmed(stdout@) == "Running"@),
{
    let state = trim(stdout);
    let v = str_chars(state.as_str());
    eq_str(&v, "Ready") || eq_str(&v, "Running")
}

// ───────────────────────── web view permissions ─────────────────────────

/// The rest of a URI after its host ends the origin: nothing, or a path.
pub open spec fn path_start(r: Seq<char>) -> bool {
    r.len() == 0 || r[0] == '/'
}

/// The number of ASCII digits at the start of `r`.
pub open spec fn digit_run(r: Seq<char>) -> nat
    decreases r.len(),
{
    if r.len() > 0 && '0' <= r[0] && r[0] <= '9' {
        1 + digit_run(r.drop_first())
    } else {
        0
    }
}

/// After the host: an optional `:port` (one or more digits), then the end of
/// the origin.
pub open spec fn port_then_path(r: Seq<char>) -> bool {
    ||| path_start(r)
    ||| (r.len() > 0 && r[0] == ':' && digit_run(r.drop_first()) > 0 && path_start(
        r.drop_first().skip(digit_run(r.drop_first()) as int),
    ))
}

/// `uri` is at `base` (scheme and host), on any port.
pub open spec fn web_origin(uri: Seq<char>, base: Seq<char>) -> bool {
    starts_with(uri, base) && port_then_path(uri.skip(base.len() as int))
}

/// The page at `uri` is one of the assistant's own: the embedded frontend
/// (`http(s)://tauri.localhost`), the development server
/// (`http(s)://localhost`, any port), or the IPC origin (`ipc://localhost`).
/// The host must match exactly, so `http://localhost.example.com` is foreign.
pub open spec fn own_origin(uri: Seq<char>) -> bool {
    ||| web_origin(uri, "http://tauri.localhost"@)
    ||| web_origin(uri, "https://tauri.localhost"@)
    ||| web_origin(uri, "http://localhost"@)
    ||| web_origin(uri, "https://localhost"@)
    ||| (starts_with(uri, "ipc://localhost"@) && path_start(uri.skip("ipc://localhost"@.len() as int)))
}

/// Whether the characters of `v` from `i` on are an optional port and then
/// the end of the origin.
fn port_then_path_at(v: &Vec<char>, i: usize) -> (r: bool)
    requires
        i <= v@.len(),
    ensures
        r == port_then_path(v@.skip(i as int)),
{
    let len = v.len();
    if i == len || v[i] == '/' {
        return true;
    }
    if v[i] != ':' {
        return false;
    }
    let ghost rest = v@.skip(i + 1);
    proof {
        assert(v@.skip(i as int).drop_first() =~= rest);
        assert(rest.skip(0) =~= rest);
    }
    let mut q: usize = i + 1;
    while q < len && '0' <= v[q] && v[q] <= '9'
        invariant
            i + 1 <= q <= len,
            len == v@.len(),
            rest == v@.skip(i + 1),
            digit_run(rest) == (q - (i + 1)) + digit_run(v@.skip(q as int)),
            rest.skip(q - (i + 1)) =~= v@.skip(q as int),
        decreases len - q,
    {
        proof {
            assert(v@.skip(q as int).drop_first() =~= v@.skip(q + 1));
            assert(rest.skip(q + 1 - (i + 1)) =~= v@.skip(q + 1));
        }
        q += 1;
    }
    proof {
        assert(digit_run(v@.skip(q as int)) == 0);
    }
    q > i + 1 && (q == len || v[q] == '/')
}

/// `v` begins with `base` and continues with an optional port and the end of
/// the origin.
fn web_origin_exec(v: &Vec<char>, base: &str) -> (r: bool)
    ensures
        r == web_origin(v@, base@),
{
    let b = str_chars(base);
    if !starts_with_str(v, base) {
        return false;
    }
    port_then_path_at(v, b.len())
}

/// Whether the page at `uri` is one of the assistant's own.
pub fn is_own_origin(uri: &str) -> (r: bool)
    ensures
        r == own_origin(uri@),
{
    let o = str_chars(uri);
    if web_origin_exec(&o, "http://tauri.localhost") || web_origin_exec(&o, "https://tauri.localhost")
        || web_origin_exec(&o, "http://localhost") || web_origin_exec(&o, "https://localhost") {
        return true;
    }
    let ipc = str_chars("ipc://localhost");
    starts_with_str(&o, "ipc://localhost") && (o.len() == ipc.len() || o[ipc.len()] == '/')
}

/// Whether a permission request is granted without asking: only microphone
/// or camera requests (`is_media`), and only from the assistant's own pages.
/// Anything else is left to the web view's own prompt.
pub fn allow_media_request(is_media: bool, origin: &str) -> (r: bool)
    ensures
        r == (is_media && own_origin(origin@)),
{
    is_media && is_own_origin(origin)
}

} // verus!

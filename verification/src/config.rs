//! The assistant's saved configuration: the server address and the user and
//! device identity kept in `nexus-config.json`, merged with the settings file.

use vstd::prelude::*;
use crate::json::{
    distinct_keys, json_bool_member, json_check, json_member_bool, json_member_str, json_quote, json_str_member,
    json_syntax_error, member_text, members_text, string_member, string_object_text,
};
use crate::text::{find_from, find_from_exec, lemma_find_from, str_chars, string_of_range};

verus! {

broadcast use vstd::string::group_string_axioms;

/// The server the assistant talks to when none is configured.
pub const DEFAULT_SERVER_URL: &'static str = "https://nexus-worker.chitkullakshya.workers.dev";

/// Server address and identity, as returned to the frontend.
#[derive(Debug)]
pub struct ServerConfig {
    pub server_url: String,
    pub user_id: String,
    pub device_id: String,
}

impl View for ServerConfig {
    type V = (Seq<char>, Seq<char>, Seq<char>);

    open spec fn view(&self) -> Self::V {
        (self.server_url@, self.user_id@, self.device_id@)
    }
}

impl Clone for ServerConfig {
    fn clone(&self) -> (r: Self)
        ensures
            r@ == self@,
    {
        ServerConfig {
            server_url: self.server_url.clone(),
            user_id: self.user_id.clone(),
            device_id: self.device_id.clone(),
        }
    }
}

impl Default for ServerConfig {
    /// The default server and an empty identity.
    fn default() -> (r: Self)
        ensures
            r@ == (DEFAULT_SERVER_URL@, Seq::<char>::empty(), Seq::<char>::empty()),
    {
        ServerConfig {
            server_url: DEFAULT_SERVER_URL.to_string(),
            user_id: String::new(),
            device_id: String::new(),
        }
    }
}

/// The value when present, else the default.
pub open spec fn or_default(v: Option<Seq<char>>, d: Seq<char>) -> Seq<char> {
    match v {
        Some(x) => x,
        None => d,
    }
}

/// The string unless it is empty, else the default.
pub open spec fn nonempty_or(v: Seq<char>, d: Seq<char>) -> Seq<char> {
    if v.len() == 0 {
        d
    } else {
        v
    }
}

/// The configuration a valid `nexus-config.json` document holds: its
/// `serverUrl` (the default when missing or empty), `userId` and `deviceId`
/// (empty when missing).
pub open spec fn config_of_doc(text: Seq<char>, default_url: Seq<char>) -> (Seq<char>, Seq<char>, Seq<char>) {
    (
        nonempty_or(or_default(json_member_str(text, "serverUrl"@), default_url), default_url),
        or_default(json_member_str(text, "userId"@), Seq::empty()),
        or_default(json_member_str(text, "deviceId"@), Seq::empty()),
    )
}

/// A string member of the document, or the given default.
fn member_or(text: &str, key: &str, default: &str) -> (r: String)
    requires
        json_syntax_error(text@) is None,
    ensures
        r@ == or_default(json_member_str(text@, key@), default@),
        forall|ms: Seq<(Seq<char>, Seq<char>)>|
            distinct_keys(ms) && #[trigger] string_object_text(ms) == text@
                ==> r@ == or_default(string_member(ms, key@), default@),
{
    match json_str_member(text, key) {
        Some(s) => s,
        None => default.to_string(),
    }
}

/// Reads the saved configuration from the text of `nexus-config.json`. A
/// document that is not valid JSON gives the parser's message as the error.
/// A missing or empty `serverUrl` falls back to `default_url`; a missing
/// `userId` or `deviceId` is empty. Reading back what `render_config` wrote
/// gives the configuration written, an empty address reading as the default.
pub fn server_config_from_json(content: &str, default_url: &str) -> (r: Result<ServerConfig, String>)
    ensures
        match r {
            Ok(c) => json_syntax_error(content@) is None && c@ == config_of_doc(content@, default_url@),
            Err(e) => json_syntax_error(content@) == Some(e@),
        },
        forall|c: (Seq<char>, Seq<char>, Seq<char>)|
            #[trigger] config_document(c) == content@ ==> (r matches Ok(x) && x@ == (
                nonempty_or(c.0, default_url@),
                c.1,
                c.2,
            )),
{
    proof {
        reveal_strlit("");
    }
    match json_check(content) {
        Err(e) => {
            proof {
                assert forall|c: (Seq<char>, Seq<char>, Seq<char>)| #[trigger] config_document(c) == content@ implies false by {
                    lemma_config_members(c);
                    assert(string_object_text(config_members(c)) == content@);
                }
            }
            Err(e)
        },
        Ok(()) => {
            let saved = member_or(content, "serverUrl", default_url);
            let server_url = if saved.as_str().is_empty() { default_url.to_string() } else { saved };
            let user_id = member_or(content, "userId", "");
            let device_id = member_or(content, "deviceId", "");
            let read = ServerConfig { server_url, user_id, device_id };
            proof {
                assert forall|c: (Seq<char>, Seq<char>, Seq<char>)| #[trigger] config_document(c) == content@ implies read@
                    == (nonempty_or(c.0, default_url@), c.1, c.2) by {
                    lemma_config_members(c);
                    assert(string_object_text(config_members(c)) == content@);
                }
            }
            Ok(read)
        },
    }
}

/// What the settings window shows once `nexus-config.json` is merged in: for
/// a valid document, each identity member present as a string replaces the
/// current value (an empty `serverUrl` gives the default); otherwise the
/// current values stay.
pub open spec fn merged_config(
    current: (Seq<char>, Seq<char>, Seq<char>),
    text: Seq<char>,
    default_url: Seq<char>,
) -> (Seq<char>, Seq<char>, Seq<char>) {
    if json_syntax_error(text) is Some {
        current
    } else {
        (
            match json_member_str(text, "serverUrl"@) {
                Some(u) => nonempty_or(u, default_url),
                None => current.0,
            },
            or_default(json_member_str(text, "userId"@), current.1),
            or_default(json_member_str(text, "deviceId"@), current.2),
        )
    }
}

/// Merging the saved configuration: an invalid document changes nothing; in a
/// valid one, a non-empty `serverUrl` string becomes the server address, an
/// empty one gives the default address, and a missing one keeps the current
/// address; a `userId` or `deviceId` string replaces the current value and a
/// missing one keeps it.
pub proof fn law_saved_config_merged(
    current: (Seq<char>, Seq<char>, Seq<char>),
    text: Seq<char>,
    default_url: Seq<char>,
)
    ensures
        json_syntax_error(text) is Some ==> merged_config(current, text, default_url) == current,
        json_syntax_error(text) is None ==> {
            let m = merged_config(current, text, default_url);
            &&& (json_member_str(text, "serverUrl"@) matches Some(u) ==> (u.len() > 0 ==> m.0 == u))
            &&& (json_member_str(text, "serverUrl"@) == Some(Seq::<char>::empty()) ==> m.0 == default_url)
            &&& (json_member_str(text, "serverUrl"@) is None ==> m.0 == current.0)
            &&& (json_member_str(text, "userId"@) matches Some(x) ==> m.1 == x)
            &&& (json_member_str(text, "userId"@) is None ==> m.1 == current.1)
            &&& (json_member_str(text, "deviceId"@) matches Some(x) ==> m.2 == x)
            &&& (json_member_str(text, "deviceId"@) is None ==> m.2 == current.2)
        },
{
}

/// Merges the identity saved in `nexus-config.json` into the settings read
/// from `settings.json`.
pub fn merge_saved_config(current: ServerConfig, config_text: &str, default_url: &str) -> (r: ServerConfig)
    ensures
        r@ == merged_config(current@, config_text@, default_url@),
{
    if json_check(config_text).is_err() {
        return current;
    }
    let server_url = match json_str_member(config_text, "serverUrl") {
        Some(u) => if u.as_str().is_empty() { default_url.to_string() } else { u },
        None => current.server_url,
    };
    let user_id = match json_str_member(config_text, "userId") {
        Some(u) => u,
        None => current.user_id,
    };
    let device_id = match json_str_member(config_text, "deviceId") {
        Some(d) => d,
        None => current.device_id,
    };
    ServerConfig { server_url, user_id, device_id }
}

/// The identity written back when settings are saved. With a valid existing
/// `nexus-config.json`, each empty value in the settings keeps the saved one
/// (the default address, or the empty string, when the saved file lacks it);
/// without one, an empty address becomes the default and the rest is kept.
pub open spec fn preserved_config(
    settings: (Seq<char>, Seq<char>, Seq<char>),
    existing: Option<Seq<char>>,
    default_url: Seq<char>,
) -> (Seq<char>, Seq<char>, Seq<char>) {
    match existing {
        Some(text) if json_syntax_error(text) is None => (
            if settings.0.len() == 0 {
                or_default(json_member_str(text, "serverUrl"@), default_url)
            } else {
                settings.0
            },
            if settings.1.len() == 0 {
                or_default(json_member_str(text, "userId"@), Seq::empty())
            } else {
                settings.1
            },
            if settings.2.len() == 0 {
                or_default(json_member_str(text, "deviceId"@), Seq::empty())
            } else {
                settings.2
            },
        ),
        _ => (nonempty_or(settings.0, default_url), settings.1, settings.2),
    }
}

/// Chooses the identity to save alongside the settings, never replacing a
/// saved identity with empty values. `existing` is the current text of
/// `nexus-config.json`, if it could be read.
pub fn preserve_identity(settings: &ServerConfig, existing: Option<&str>, default_url: &str) -> (r: ServerConfig)
    ensures
        r@ == preserved_config(settings@, match existing { Some(t) => Some(t@), None => None }, default_url@),
{
    proof {
        reveal_strlit("");
    }
    let usable = match existing {
        Some(text) => if json_check(text).is_ok() { Some(text) } else { None },
        None => None,
    };
    match usable {
        Some(text) => {
            let server_url = if settings.server_url.as_str().is_empty() {
                member_or(text, "serverUrl", default_url)
            } else {
                settings.server_url.clone()
            };
            let user_id = if settings.user_id.as_str().is_empty() {
                member_or(text, "userId", "")
            } else {
                settings.user_id.clone()
            };
            let device_id = if settings.device_id.as_str().is_empty() {
                member_or(text, "deviceId", "")
            } else {
                settings.device_id.clone()
            };
            ServerConfig { server_url, user_id, device_id }
        },
        None => ServerConfig {
            server_url: if settings.server_url.as_str().is_empty() {
                default_url.to_string()
            } else {
                settings.server_url.clone()
            },
            user_id: settings.user_id.clone(),
            device_id: settings.device_id.clone(),
        },
    }
}

/// Saving settings never erases a saved identity: when the existing
/// `nexus-config.json` is valid and holds a non-empty `userId` (or
/// `deviceId`), the identity written back has a non-empty one too, and a
/// value the settings do hold is always the one written.
pub proof fn law_identity_never_erased(
    settings: (Seq<char>, Seq<char>, Seq<char>),
    text: Seq<char>,
    default_url: Seq<char>,
)
    requires
        json_syntax_error(text) is None,
    ensures
        (json_member_str(text, "userId"@) matches Some(u) && u.len() > 0)
            ==> preserved_config(settings, Some(text), default_url).1.len() > 0,
        (json_member_str(text, "deviceId"@) matches Some(d) && d.len() > 0)
            ==> preserved_config(settings, Some(text), default_url).2.len() > 0,
        settings.1.len() > 0 ==> preserved_config(settings, Some(text), default_url).1 == settings.1,
        settings.2.len() > 0 ==> preserved_config(settings, Some(text), default_url).2 == settings.2,
{
}

/// The members of `nexus-config.json` for a configuration, in key order.
pub open spec fn config_members(c: (Seq<char>, Seq<char>, Seq<char>)) -> Seq<(Seq<char>, Seq<char>)> {
    seq![("deviceId"@, c.2), ("serverUrl"@, c.0), ("userId"@, c.1)]
}

/// The text of `nexus-config.json` for a configuration: a compact JSON object
/// with the members in key order.
pub open spec fn config_document(c: (Seq<char>, Seq<char>, Seq<char>)) -> Seq<char> {
    string_object_text(config_members(c))
}

/// The keys of `nexus-config.json` are distinct, and each member holds its
/// part of the configuration.
proof fn lemma_config_members(c: (Seq<char>, Seq<char>, Seq<char>))
    ensures
        distinct_keys(config_members(c)),
        string_member(config_members(c), "serverUrl"@) == Some(c.0),
        string_member(config_members(c), "userId"@) == Some(c.1),
        string_member(config_members(c), "deviceId"@) == Some(c.2),
{
    reveal_strlit("deviceId");
    reveal_strlit("serverUrl");
    reveal_strlit("userId");
    let ms = config_members(c);
    assert("deviceId"@.len() == 8 && "serverUrl"@.len() == 9 && "userId"@.len() == 6);
    assert("deviceId"@ != "serverUrl"@ && "deviceId"@ != "userId"@ && "serverUrl"@ != "userId"@);
    assert forall|i: int, j: int| 0 <= i < j < ms.len() implies #[trigger] ms[i].0 != #[trigger] ms[j].0 by {
        if i == 0 && j == 1 {
            assert(ms[i].0 == "deviceId"@ && ms[j].0 == "serverUrl"@);
        } else if i == 0 {
            assert(ms[i].0 == "deviceId"@ && ms[j].0 == "userId"@);
        } else {
            assert(ms[i].0 == "serverUrl"@ && ms[j].0 == "userId"@);
        }
    }
    assert(ms.drop_first() =~= seq![("serverUrl"@, c.0), ("userId"@, c.1)]);
    assert(ms.drop_first().drop_first() =~= seq![("userId"@, c.1)]);
    reveal_with_fuel(string_member, 4);
}

/// Writes a configuration as the JSON text of `nexus-config.json`.
pub fn render_config(c: &ServerConfig) -> (r: String)
    ensures
        r@ == config_document(c@),
{
    let mut r = "{".to_string();
    r.append(json_quote("deviceId").as_str());
    r.append(":");
    r.append(json_quote(c.device_id.as_str()).as_str());
    r.append(",");
    r.append(json_quote("serverUrl").as_str());
    r.append(":");
    r.append(json_quote(c.server_url.as_str()).as_str());
    r.append(",");
    r.append(json_quote("userId").as_str());
    r.append(":");
    r.append(json_quote(c.user_id.as_str()).as_str());
    r.append("}");
    proof {
        reveal_strlit("{");
        reveal_strlit(":");
        reveal_strlit(",");
        reveal_strlit("}");
        let ms = config_members(c@);
        assert(ms.drop_last() =~= seq![("deviceId"@, c@.2), ("serverUrl"@, c@.0)]);
        assert(ms.drop_last().drop_last() =~= seq![("deviceId"@, c@.2)]);
        assert(members_text(ms.drop_last().drop_last()) == member_text(ms[0]));
        assert(members_text(ms.drop_last()) == member_text(ms[0]) + seq![','] + member_text(ms[1]));
        assert(members_text(ms) == member_text(ms[0]) + seq![','] + member_text(ms[1]) + seq![',']
            + member_text(ms[2]));
        assert(r@ =~= config_document(c@));
    }
    r
}

/// Whether the assistant starts at login: the `autostart` member of a valid
/// `settings.json`, and `true` when there is no such file, it is not valid
/// JSON, or it has no boolean `autostart`.
pub open spec fn autostart_of(settings: Option<Seq<char>>) -> bool {
    match settings {
        Some(text) if json_syntax_error(text) is None => match json_member_bool(text, "autostart"@) {
            Some(b) => b,
            None => true,
        },
        _ => true,
    }
}

/// Reads the autostart preference from the text of `settings.json`.
pub fn autostart_setting(settings: Option<&str>) -> (r: bool)
    ensures
        r == autostart_of(match settings { Some(t) => Some(t@), None => None }),
{
    match settings {
        Some(text) => match json_bool_member(text, "autostart") {
            Some(b) => b,
            None => true,
        },
        None => true,
    }
}

/// The session opened at startup from `nexus-config.json`: present only for a
/// valid document with a non-empty `userId`.
pub fn session_config(content: &str, default_url: &str) -> (r: Option<ServerConfig>)
    ensures
        match r {
            Some(c) => json_syntax_error(content@) is None && c@ == config_of_doc(content@, default_url@)
                && c@.1.len() > 0,
            None => json_syntax_error(content@) is Some || config_of_doc(content@, default_url@).1.len() == 0,
        },
{
    match server_config_from_json(content, default_url) {
        Ok(c) => if c.user_id.as_str().is_empty() { None } else { Some(c) },
        Err(_) => None,
    }
}

// ───────────────────────── quick string extraction ─────────────────────────

/// JSON white space: space, tab, line feed, carriage return.
pub open spec fn is_blank(c: char) -> bool {
    c == ' ' || c == '\t' || c == '\n' || c == '\r'
}

/// The first index at or after `i` that does not hold white space (the
/// length of `s` when there is none).
pub open spec fn skip_blanks(s: Seq<char>, i: int) -> int
    decreases s.len() - i,
{
    if 0 <= i < s.len() && is_blank(s[i]) {
        skip_blanks(s, i + 1)
    } else {
        i
    }
}

/// The string value of `"key"` in `json`, found by plain scanning: after the
/// first occurrence of the quoted key, the first colon, then white space; the
/// value is there only when the next character opens a string, and it runs
/// to the next double quote.
pub open spec fn extracted_string(json: Seq<char>, key: Seq<char>) -> Option<Seq<char>> {
    let pattern = seq!['"'] + key + seq!['"'];
    match find_from(json, pattern, 0) {
        None => None,
        Some(i) => match find_from(json, seq![':'], i + pattern.len()) {
            None => None,
            Some(c) => {
                let q1 = skip_blanks(json, c + 1);
                if q1 < json.len() && json[q1] == '"' {
                    match find_from(json, seq!['"'], q1 + 1) {
                        None => None,
                        Some(q2) => Some(json.subrange(q1 + 1, q2)),
                    }
                } else {
                    None
                }
            },
        },
    }
}

/// Extracts one string value from a JSON text without parsing it.
pub fn extract_json_string(json: &str, key: &str) -> (r: Option<String>)
    ensures
        r matches Some(s) ==> extracted_string(json@, key@) == Some(s@),
        r is None ==> extracted_string(json@, key@) is None,
{
    let s = str_chars(json);
    let len = s.len();
    let mut pattern: Vec<char> = vec!['"'];
    let k = str_chars(key);
    let mut i: usize = 0;
    while i < k.len()
        invariant
            i <= k@.len(),
            pattern@ == seq!['"'] + k@.subrange(0, i as int),
        decreases k@.len() - i,
    {
        pattern.push(k[i]);
        proof {
            assert(k@.subrange(0, i + 1) =~= k@.subrange(0, i as int).push(k@[i as int]));
            assert(pattern@ =~= seq!['"'] + k@.subrange(0, i + 1));
        }
        i += 1;
    }
    pattern.push('"');
    let ghost pat = seq!['"'] + key@ + seq!['"'];
    proof {
        assert(k@.subrange(0, k@.len() as int) =~= k@);
        assert(pattern@ =~= pat);
    }
    let quote = vec!['"'];
    let colon = vec![':'];
    proof {
        assert(quote@ =~= seq!['"']);
        assert(colon@ =~= seq![':']);
        lemma_find_from(s@, pat, 0);
    }
    let at = match find_from_exec(&s, &pattern, 0) {
        None => return None,
        Some(at) => at,
    };
    proof {
        lemma_find_from(s@, seq![':'], at + pat.len());
    }
    let c = match find_from_exec(&s, &colon, at + pattern.len()) {
        None => return None,
        Some(c) => c,
    };
    let mut q1: usize = c + 1;
    while q1 < len && (s[q1] == ' ' || s[q1] == '\t' || s[q1] == '\n' || s[q1] == '\r')
        invariant
            c < q1 <= len,
            len == s@.len(),
            skip_blanks(s@, c + 1) == skip_blanks(s@, q1 as int),
        decreases len - q1,
    {
        q1 += 1;
    }
    if q1 >= len || s[q1] != '"' {
        return None;
    }
    proof {
        lemma_find_from(s@, seq!['"'], q1 + 1);
    }
    let q2 = match find_from_exec(&s, &quote, q1 + 1) {
        None => return None,
        Some(q) => q,
    };
    Some(string_of_range(&s, q1 + 1, q2))
}

/// The speech engine used when the settings file names none.
pub fn default_tts_provider() -> (r: String)
    ensures
        r@ == "kokoro"@,
{
    "kokoro".to_string()
}

} // verus!

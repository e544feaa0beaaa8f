//! Tables that turn a spoken app name into what the assistant says back, the
//! process names that show the app is running, the Start-menu names it is
//! searched under, and the web address it falls back to.

use vstd::prelude::*;
use crate::sorted_names::{sorted_list_of, sorted_unique, strictly_sorted, views};
use crate::text::{capitalize, capitalized, eq_str, lowercase, push_char, str_chars, str_lowercase};

verus! {

/// The views of a table of string-slice pairs.
pub open spec fn table_views(t: Seq<(&str, &str)>) -> Seq<(Seq<char>, Seq<char>)> {
    t.map_values(|r: (&str, &str)| (r.0@, r.1@))
}

/// The value of the first row whose key is `key`.
pub open spec fn lookup_first(t: Seq<(Seq<char>, Seq<char>)>, key: Seq<char>) -> Option<Seq<char>>
    decreases t.len(),
{
    if t.len() == 0 {
        None
    } else if t[0].0 == key {
        Some(t[0].1)
    } else {
        lookup_first(t.drop_first(), key)
    }
}

/// The values of every row whose key is `key`.
pub open spec fn values_for(t: Seq<(Seq<char>, Seq<char>)>, key: Seq<char>) -> Set<Seq<char>> {
    Set::new(|v: Seq<char>| exists|i: int| 0 <= i < t.len() && t[i].0 == key && t[i].1 == v)
}

/// `s` with every space removed.
pub open spec fn without_spaces(s: Seq<char>) -> Seq<char>
    decreases s.len(),
{
    if s.len() == 0 {
        Seq::empty()
    } else if s.last() == ' ' {
        without_spaces(s.drop_last())
    } else {
        without_spaces(s.drop_last()).push(s.last())
    }
}

/// What the assistant calls an app: the table name when there is one, else
/// the spoken name capitalised.
pub open spec fn display_name_of(target: Seq<char>) -> Seq<char> {
    match lookup_first(display_name_table(), target) {
        Some(d) => d,
        None => capitalized(target),
    }
}

/// The process-name fragments looked for: the lower-cased name, the name
/// without spaces, and the table entries for it.
pub open spec fn process_names_of(target: Seq<char>) -> Set<Seq<char>> {
    set![str_lowercase(target), without_spaces(target)].union(values_for(process_name_table(), target))
}

/// The Start-menu names searched: the lower-cased name and the table entries.
pub open spec fn search_names_of(target: Seq<char>) -> Set<Seq<char>> {
    set![str_lowercase(target)].union(values_for(search_name_table(), target))
}

/// Spoken app names and the names spoken back for them.
pub open spec fn display_name_table() -> Seq<(Seq<char>, Seq<char>)> {
    seq![
        ("gmail"@, "Gmail"@),
        ("google mail"@, "Gmail"@),
        ("youtube"@, "YouTube"@),
        ("you tube"@, "YouTube"@),
        ("github"@, "GitHub"@),
        ("git hub"@, "GitHub"@),
        ("vs code"@, "VS Code"@),
        ("visual studio code"@, "VS Code"@),
        ("code"@, "VS Code"@),
        ("notepad"@, "Notepad"@),
        ("calculator"@, "Calculator"@),
        ("calc"@, "Calculator"@),
        ("explorer"@, "File Explorer"@),
        ("file explorer"@, "File Explorer"@),
        ("terminal"@, "Terminal"@),
        ("windows terminal"@, "Terminal"@),
        ("wt"@, "Terminal"@),
        ("command prompt"@, "Command Prompt"@),
        ("cmd"@, "Command Prompt"@),
        ("powershell"@, "PowerShell"@),
        ("task manager"@, "Task Manager"@),
        ("control panel"@, "Control Panel"@),
        ("settings"@, "Settings"@),
        ("paint"@, "Paint"@),
        ("mspaint"@, "Paint"@),
        ("spotify"@, "Spotify"@),
        ("discord"@, "Discord"@),
        ("slack"@, "Slack"@),
        ("figma"@, "Figma"@),
        ("notion"@, "Notion"@),
        ("chatgpt"@, "ChatGPT"@),
        ("chat gpt"@, "ChatGPT"@),
        ("whatsapp"@, "WhatsApp"@),
        ("netflix"@, "Netflix"@),
        ("twitter"@, "Twitter"@),
        ("reddit"@, "Reddit"@),
        ("facebook"@, "Facebook"@),
        ("instagram"@, "Instagram"@),
        ("linkedin"@, "LinkedIn"@),
        ("twitch"@, "Twitch"@),
    ]
}

fn display_rows() -> (t: Vec<(&'static str, &'static str)>)
    ensures
        table_views(t@) == display_name_table(),
{
    let t = vec![
        ("gmail", "Gmail"),
        ("google mail", "Gmail"),
        ("youtube", "YouTube"),
        ("you tube", "YouTube"),
        ("github", "GitHub"),
        ("git hub", "GitHub"),
        ("vs code", "VS Code"),
        ("visual studio code", "VS Code"),
        ("code", "VS Code"),
        ("notepad", "Notepad"),
        ("calculator", "Calculator"),
        ("calc", "Calculator"),
        ("explorer", "File Explorer"),
        ("file explorer", "File Explorer"),
        ("terminal", "Terminal"),
        ("windows terminal", "Terminal"),
        ("wt", "Terminal"),
        ("command prompt", "Command Prompt"),
        ("cmd", "Command Prompt"),
        ("powershell", "PowerShell"),
        ("task manager", "Task Manager"),
        ("control panel", "Control Panel"),
        ("settings", "Settings"),
        ("paint", "Paint"),
        ("mspaint", "Paint"),
        ("spotify", "Spotify"),
        ("discord", "Discord"),
        ("slack", "Slack"),
        ("figma", "Figma"),
        ("notion", "Notion"),
        ("chatgpt", "ChatGPT"),
        ("chat gpt", "ChatGPT"),
        ("whatsapp", "WhatsApp"),
        ("netflix", "Netflix"),
        ("twitter", "Twitter"),
        ("reddit", "Reddit"),
        ("facebook", "Facebook"),
        ("instagram", "Instagram"),
        ("linkedin", "LinkedIn"),
        ("twitch", "Twitch"),
    ];
    proof {
        assert(table_views(t@) =~= display_name_table());
    }
    t
}

/// Spoken app names and process-name fragments that identify the running app.
pub open spec fn process_name_table() -> Seq<(Seq<char>, Seq<char>)> {
    seq![
        ("chrome"@, "chrome"@),
        ("google chrome"@, "chrome"@),
        ("browser"@, "chrome"@),
        ("firefox"@, "firefox"@),
        ("brave"@, "brave"@),
        ("vs code"@, "code"@),
        ("visual studio code"@, "code"@),
        ("code"@, "code"@),
        ("notepad"@, "notepad"@),
        ("calculator"@, "calc"@),
        ("calculator"@, "calculator"@),
        ("calc"@, "calc"@),
        ("calc"@, "calculator"@),
        ("spotify"@, "spotify"@),
        ("discord"@, "discord"@),
        ("terminal"@, "windowsterminal"@),
        ("terminal"@, "wt"@),
        ("windows terminal"@, "windowsterminal"@),
        ("windows terminal"@, "wt"@),
        ("wt"@, "windowsterminal"@),
        ("wt"@, "wt"@),
        ("explorer"@, "explorer"@),
        ("file explorer"@, "explorer"@),
        ("figma"@, "figma"@),
        ("slack"@, "slack"@),
        ("notion"@, "notion"@),
        ("whatsapp"@, "whatsapp"@),
    ]
}

fn process_rows() -> (t: Vec<(&'static str, &'static str)>)
    ensures
        table_views(t@) == process_name_table(),
{
    let t = vec![
        ("chrome", "chrome"),
        ("google chrome", "chrome"),
        ("browser", "chrome"),
        ("firefox", "firefox"),
        ("brave", "brave"),
        ("vs code", "code"),
        ("visual studio code", "code"),
        ("code", "code"),
        ("notepad", "notepad"),
        ("calculator", "calc"),
        ("calculator", "calculator"),
        ("calc", "calc"),
        ("calc", "calculator"),
        ("spotify", "spotify"),
        ("discord", "discord"),
        ("terminal", "windowsterminal"),
        ("terminal", "wt"),
        ("windows terminal", "windowsterminal"),
        ("windows terminal", "wt"),
        ("wt", "windowsterminal"),
        ("wt", "wt"),
        ("explorer", "explorer"),
        ("file explorer", "explorer"),
        ("figma", "figma"),
        ("slack", "slack"),
        ("notion", "notion"),
        ("whatsapp", "whatsapp"),
    ];
    proof {
        assert(table_views(t@) =~= process_name_table());
    }
    t
}

/// Spoken app names and the Start-menu names they are searched under.
pub open spec fn search_name_table() -> Seq<(Seq<char>, Seq<char>)> {
    seq![
        ("gmail"@, "gmail"@),
        ("youtube"@, "youtube"@),
        ("you tube"@, "youtube"@),
        ("github"@, "github"@),
        ("git hub"@, "github"@),
        ("vs code"@, "visual studio code"@),
        ("vs code"@, "vs code"@),
        ("visual studio code"@, "visual studio code"@),
        ("visual studio code"@, "vs code"@),
        ("code"@, "visual studio code"@),
        ("code"@, "vs code"@),
        ("calculator"@, "calculator"@),
        ("calc"@, "calculator"@),
        ("terminal"@, "windows terminal"@),
        ("terminal"@, "terminal"@),
        ("windows terminal"@, "windows terminal"@),
        ("windows terminal"@, "terminal"@),
        ("wt"@, "windows terminal"@),
        ("wt"@, "terminal"@),
        ("explorer"@, "file explorer"@),
        ("file explorer"@, "file explorer"@),
        ("command prompt"@, "command prompt"@),
        ("cmd"@, "command prompt"@),
        ("task manager"@, "task manager"@),
        ("control panel"@, "control panel"@),
        ("settings"@, "settings"@),
        ("paint"@, "paint"@),
        ("chatgpt"@, "chatgpt"@),
        ("chat gpt"@, "chatgpt"@),
        ("google drive"@, "google drive"@),
        ("google docs"@, "google docs"@),
        ("google sheets"@, "google sheets"@),
        ("google slides"@, "google slides"@),
        ("google maps"@, "google maps"@),
        ("google maps"@, "maps"@),
        ("maps"@, "google maps"@),
        ("maps"@, "maps"@),
        ("google calendar"@, "google calendar"@),
        ("google calendar"@, "calendar"@),
        ("calendar"@, "google calendar"@),
        ("calendar"@, "calendar"@),
        ("google photos"@, "google photos"@),
        ("google photos"@, "photos"@),
        ("photos"@, "google photos"@),
        ("photos"@, "photos"@),
        ("google meet"@, "google meet"@),
        ("google chat"@, "google chat"@),
        ("google chat"@, "chat"@),
        ("chat"@, "google chat"@),
        ("chat"@, "chat"@),
        ("google translate"@, "google translate"@),
        ("google translate"@, "translate"@),
        ("translate"@, "google translate"@),
        ("translate"@, "translate"@),
        ("google news"@, "google news"@),
        ("google gemini"@, "gemini"@),
        ("gemini"@, "gemini"@),
        ("whatsapp"@, "whatsapp"@),
    ]
}

fn search_rows() -> (t: Vec<(&'static str, &'static str)>)
    ensures
        table_views(t@) == search_name_table(),
{
    let t = vec![
        ("gmail", "gmail"),
        ("youtube", "youtube"),
        ("you tube", "youtube"),
        ("github", "github"),
        ("git hub", "github"),
        ("vs code", "visual studio code"),
        ("vs code", "vs code"),
        ("visual studio code", "visual studio code"),
        ("visual studio code", "vs code"),
        ("code", "visual studio code"),
        ("code", "vs code"),
        ("calculator", "calculator"),
        ("calc", "calculator"),
        ("terminal", "windows terminal"),
        ("terminal", "terminal"),
        ("windows terminal", "windows terminal"),
        ("windows terminal", "terminal"),
        ("wt", "windows terminal"),
        ("wt", "terminal"),
        ("explorer", "file explorer"),
        ("file explorer", "file explorer"),
        ("command prompt", "command prompt"),
        ("cmd", "command prompt"),
        ("task manager", "task manager"),
        ("control panel", "control panel"),
        ("settings", "settings"),
        ("paint", "paint"),
        ("chatgpt", "chatgpt"),
        ("chat gpt", "chatgpt"),
        ("google drive", "google drive"),
        ("google docs", "google docs"),
        ("google sheets", "google sheets"),
        ("google slides", "google slides"),
        ("google maps", "google maps"),
        ("google maps", "maps"),
        ("maps", "google maps"),
        ("maps", "maps"),
        ("google calendar", "google calendar"),
        ("google calendar", "calendar"),
        ("calendar", "google calendar"),
        ("calendar", "calendar"),
        ("google photos", "google photos"),
        ("google photos", "photos"),
        ("photos", "google photos"),
        ("photos", "photos"),
        ("google meet", "google meet"),
        ("google chat", "google chat"),
        ("google chat", "chat"),
        ("chat", "google chat"),
        ("chat", "chat"),
        ("google translate", "google translate"),
        ("google translate", "translate"),
        ("translate", "google translate"),
        ("translate", "translate"),
        ("google news", "google news"),
        ("google gemini", "gemini"),
        ("gemini", "gemini"),
        ("whatsapp", "whatsapp"),
    ];
    proof {
        assert(table_views(t@) =~= search_name_table());
    }
    t
}

/// Web services that open in the browser when no app is found.
pub open spec fn url_table() -> Seq<(Seq<char>, Seq<char>)> {
    seq![
        ("gmail"@, "https://mail.google.com"@),
        ("google mail"@, "https://mail.google.com"@),
        ("youtube"@, "https://www.youtube.com"@),
        ("you tube"@, "https://www.youtube.com"@),
        ("github"@, "https://github.com"@),
        ("git hub"@, "https://github.com"@),
        ("twitter"@, "https://twitter.com"@),
        ("x"@, "https://x.com"@),
        ("facebook"@, "https://facebook.com"@),
        ("instagram"@, "https://instagram.com"@),
        ("reddit"@, "https://reddit.com"@),
        ("linkedin"@, "https://linkedin.com"@),
        ("whatsapp"@, "https://web.whatsapp.com"@),
        ("whatsapp web"@, "https://web.whatsapp.com"@),
        ("spotify"@, "https://open.spotify.com"@),
        ("netflix"@, "https://netflix.com"@),
        ("amazon"@, "https://amazon.com"@),
        ("google drive"@, "https://drive.google.com"@),
        ("google docs"@, "https://docs.google.com"@),
        ("google sheets"@, "https://sheets.google.com"@),
        ("google slides"@, "https://slides.google.com"@),
        ("google maps"@, "https://maps.google.com"@),
        ("google calendar"@, "https://calendar.google.com"@),
        ("google translate"@, "https://translate.google.com"@),
        ("google photos"@, "https://photos.google.com"@),
        ("google news"@, "https://news.google.com"@),
        ("google meet"@, "https://meet.google.com"@),
        ("google chat"@, "https://chat.google.com"@),
        ("google play"@, "https://play.google.com"@),
        ("google play store"@, "https://play.google.com"@),
        ("play store"@, "https://play.google.com"@),
        ("app store"@, "https://apps.apple.com"@),
        ("mac app store"@, "https://apps.apple.com"@),
        ("chatgpt"@, "https://chat.openai.com"@),
        ("chat gpt"@, "https://chat.openai.com"@),
        ("open ai"@, "https://chat.openai.com"@),
        ("openai"@, "https://chat.openai.com"@),
        ("figma"@, "https://figma.com"@),
        ("notion"@, "https://notion.so"@),
        ("slack"@, "https://slack.com"@),
        ("discord"@, "https://discord.com/app"@),
        ("twitch"@, "https://twitch.tv"@),
        ("stack overflow"@, "https://stackoverflow.com"@),
        ("stackoverflow"@, "https://stackoverflow.com"@),
        ("wikipedia"@, "https://wikipedia.org"@),
        ("chat"@, "https://chat.google.com"@),
        ("maps"@, "https://maps.google.com"@),
        ("translate"@, "https://translate.google.com"@),
        ("my drive"@, "https://drive.google.com"@),
        ("calendar"@, "https://calendar.google.com"@),
        ("gemini"@, "https://gemini.google.com"@),
        ("google gemini"@, "https://gemini.google.com"@),
    ]
}

fn url_rows() -> (t: Vec<(&'static str, &'static str)>)
    ensures
        table_views(t@) == url_table(),
{
    let t = vec![
        ("gmail", "https://mail.google.com"),
        ("google mail", "https://mail.google.com"),
        ("youtube", "https://www.youtube.com"),
        ("you tube", "https://www.youtube.com"),
        ("github", "https://github.com"),
        ("git hub", "https://github.com"),
        ("twitter", "https://twitter.com"),
        ("x", "https://x.com"),
        ("facebook", "https://facebook.com"),
        ("instagram", "https://instagram.com"),
        ("reddit", "https://reddit.com"),
        ("linkedin", "https://linkedin.com"),
        ("whatsapp", "https://web.whatsapp.com"),
        ("whatsapp web", "https://web.whatsapp.com"),
        ("spotify", "https://open.spotify.com"),
        ("netflix", "https://netflix.com"),
        ("amazon", "https://amazon.com"),
        ("google drive", "https://drive.google.com"),
        ("google docs", "https://docs.google.com"),
        ("google sheets", "https://sheets.google.com"),
        ("google slides", "https://slides.google.com"),
        ("google maps", "https://maps.google.com"),
        ("google calendar", "https://calendar.google.com"),
        ("google translate", "https://translate.google.com"),
        ("google photos", "https://photos.google.com"),
        ("google news", "https://news.google.com"),
        ("google meet", "https://meet.google.com"),
        ("google chat", "https://chat.google.com"),
        ("google play", "https://play.google.com"),
        ("google play store", "https://play.google.com"),
        ("play store", "https://play.google.com"),
        ("app store", "https://apps.apple.com"),
        ("mac app store", "https://apps.apple.com"),
        ("chatgpt", "https://chat.openai.com"),
        ("chat gpt", "https://chat.openai.com"),
        ("open ai", "https://chat.openai.com"),
        ("openai", "https://chat.openai.com"),
        ("figma", "https://figma.com"),
        ("notion", "https://notion.so"),
        ("slack", "https://slack.com"),
        ("discord", "https://discord.com/app"),
        ("twitch", "https://twitch.tv"),
        ("stack overflow", "https://stackoverflow.com"),
        ("stackoverflow", "https://stackoverflow.com"),
        ("wikipedia", "https://wikipedia.org"),
        ("chat", "https://chat.google.com"),
        ("maps", "https://maps.google.com"),
        ("translate", "https://translate.google.com"),
        ("my drive", "https://drive.google.com"),
        ("calendar", "https://calendar.google.com"),
        ("gemini", "https://gemini.google.com"),
        ("google gemini", "https://gemini.google.com"),
    ];
    proof {
        assert(table_views(t@) =~= url_table());
    }
    t
}

/// The index of the first row whose key is `key`.
fn lookup_row(t: &Vec<(&str, &str)>, key: &Vec<char>) -> (r: Option<usize>)
    ensures
        r matches Some(i) ==> i < t@.len() && lookup_first(table_views(t@), key@) == Some(t@[i as int].1@),
        r is None ==> lookup_first(table_views(t@), key@) is None,
{
    let ghost tv = table_views(t@);
    let mut i: usize = 0;
    proof {
        assert(tv.skip(0) =~= tv);
    }
    while i < t.len()
        invariant
            i <= t@.len(),
            tv == table_views(t@),
            lookup_first(tv, key@) == lookup_first(tv.skip(i as int), key@),
        decreases t@.len() - i,
    {
        if eq_str(key, t[i].0) {
            proof {
                assert(tv.skip(i as int)[0] == tv[i as int]);
            }
            return Some(i);
        }
        proof {
            assert(tv.skip(i as int).drop_first() =~= tv.skip(i + 1));
        }
        i += 1;
    }
    None
}

/// The values of the rows before index `n` whose key is `key`.
pub open spec fn values_before(t: Seq<(Seq<char>, Seq<char>)>, key: Seq<char>, n: int) -> Set<Seq<char>> {
    Set::new(|v: Seq<char>| exists|j: int| 0 <= j < n && t[j].0 == key && t[j].1 == v)
}

proof fn lemma_values_before_step(t: Seq<(Seq<char>, Seq<char>)>, key: Seq<char>, i: int)
    requires
        0 <= i < t.len(),
    ensures
        values_before(t, key, i + 1) == (if t[i].0 == key {
            values_before(t, key, i).insert(t[i].1)
        } else {
            values_before(t, key, i)
        }),
{
    let next = values_before(t, key, i + 1);
    let prev = values_before(t, key, i);
    let expect = if t[i].0 == key { prev.insert(t[i].1) } else { prev };
    assert forall|v: Seq<char>| #[trigger] next.contains(v) <==> expect.contains(v) by {
        if next.contains(v) {
            let j = choose|j: int| 0 <= j < i + 1 && t[j].0 == key && t[j].1 == v;
            if j < i {
                assert(0 <= j < i && t[j].0 == key && t[j].1 == v);
            }
        }
        if prev.contains(v) {
            let j = choose|j: int| 0 <= j < i && t[j].0 == key && t[j].1 == v;
            assert(0 <= j < i + 1 && t[j].0 == key && t[j].1 == v);
        }
        if t[i].0 == key && v == t[i].1 {
            assert(0 <= i < i + 1 && t[i].0 == key && t[i].1 == v);
        }
    }
    assert(next =~= expect);
}

/// Appends, to `out`, the values of every row whose key is `key`.
fn push_values_for(t: &Vec<(&str, &str)>, key: &Vec<char>, out: &mut Vec<String>)
    ensures
        views(final(out)@).to_set() == views(old(out)@).to_set().union(values_for(table_views(t@), key@)),
{
    let ghost tv = table_views(t@);
    let ghost start = views(out@).to_set();
    let mut i: usize = 0;
    proof {
        assert(values_before(tv, key@, 0) =~= Set::empty());
        assert(start.union(Set::empty()) =~= start);
    }
    while i < t.len()
        invariant
            i <= t@.len(),
            tv == table_views(t@),
            views(out@).to_set() == start.union(values_before(tv, key@, i as int)),
        decreases t@.len() - i,
    {
        let ghost before = views(out@);
        proof {
            lemma_values_before_step(tv, key@, i as int);
        }
        if eq_str(key, t[i].0) {
            out.push(t[i].1.to_string());
            proof {
                assert(views(out@) =~= before.push(tv[i as int].1));
                before.lemma_push_to_set_commute(tv[i as int].1);
                assert(start.union(values_before(tv, key@, i as int)).insert(tv[i as int].1)
                    =~= start.union(values_before(tv, key@, i as int).insert(tv[i as int].1)));
            }
        }
        i += 1;
    }
    proof {
        assert(values_before(tv, key@, i as int) =~= values_for(tv, key@));
    }
}

/// The spoken name with every space removed.
pub fn remove_spaces(s: &str) -> (r: String)
    ensures
        r@ == without_spaces(s@),
{
    let v = str_chars(s);
    let mut r = String::new();
    let mut i: usize = 0;
    while i < v.len()
        invariant
            i <= v@.len(),
            r@ == without_spaces(v@.subrange(0, i as int)),
        decreases v@.len() - i,
    {
        proof {
            assert(v@.subrange(0, i + 1).drop_last() =~= v@.subrange(0, i as int));
        }
        if v[i] != ' ' {
            push_char(&mut r, v[i]);
        }
        i += 1;
    }
    proof {
        assert(v@.subrange(0, v@.len() as int) =~= v@);
    }
    r
}

/// Maps an internal target name to the name the assistant speaks back
/// (`"vs code"` → `"VS Code"`); names outside the table are capitalised.
pub fn app_display_name(target: &str) -> (r: String)
    ensures
        r@ == display_name_of(target@),
{
    let key = str_chars(target);
    let rows = display_rows();
    match lookup_row(&rows, &key) {
        Some(i) => rows[i].1.to_string(),
        None => capitalize(target),
    }
}

/// The process-name fragments that show an app is already running, sorted and
/// without duplicates.
pub fn app_to_process_names(target: &str) -> (r: Vec<String>)
    ensures
        strictly_sorted(views(r@)),
        views(r@).to_set() == process_names_of(target@),
        views(r@) == sorted_list_of(process_names_of(target@)),
{
    let key = str_chars(target);
    let mut names: Vec<String> = Vec::new();
    names.push(lowercase(target));
    names.push(remove_spaces(target));
    let ghost base = views(names@).to_set();
    proof {
        assert(base =~= set![str_lowercase(target@), without_spaces(target@)]) by {
            assert(views(names@)[0] == str_lowercase(target@));
            assert(views(names@)[1] == without_spaces(target@));
        }
    }
    let rows = process_rows();
    push_values_for(&rows, &key, &mut names);
    sorted_unique(names)
}

/// The names to look for among the Start-menu entries, sorted and without
/// duplicates.
pub fn app_search_names(target: &str) -> (r: Vec<String>)
    ensures
        strictly_sorted(views(r@)),
        views(r@).to_set() == search_names_of(target@),
        views(r@) == sorted_list_of(search_names_of(target@)),
{
    let key = str_chars(target);
    let mut names: Vec<String> = Vec::new();
    names.push(lowercase(target));
    proof {
        assert(views(names@).to_set() =~= set![str_lowercase(target@)]) by {
            assert(views(names@)[0] == str_lowercase(target@));
        }
    }
    let rows = search_rows();
    push_values_for(&rows, &key, &mut names);
    sorted_unique(names)
}

/// The web address a known service opens at when no app is found.
pub fn url_fallback(target: &str) -> (r: Option<String>)
    ensures
        r matches Some(u) ==> lookup_first(url_table(), target@) == Some(u@),
        r is None ==> lookup_first(url_table(), target@) is None,
{
    let key = str_chars(target);
    let rows = url_rows();
    match lookup_row(&rows, &key) {
        Some(i) => Some(rows[i].1.to_string()),
        None => None,
    }
}

} // verus!

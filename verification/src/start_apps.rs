//! Reading the Windows Start-menu app list (`Get-StartApps | ConvertTo-Json`)
//! and choosing the entry that best matches a spoken app name.

use vstd::prelude::*;
use crate::text::{
    chars_eq, concat2, contains_exec, find_from, find_from_exec, lemma_find_from, lowercase, seq_contains,
    str_chars, str_lowercase, string_of_range,
};

verus! {

/// A one-character sequence holding a double quote.
pub open spec fn quote_seq() -> Seq<char> {
    seq!['"']
}

/// A one-character sequence holding a colon.
pub open spec fn colon_seq() -> Seq<char> {
    seq![':']
}

/// Reading one entry, once the colon after a `"Name"` key has been passed
/// (scanning resumes at `p`): the quoted name, then the `"AppID"` key, its
/// colon and the quoted id. Gives the `(name, app id)` pair when every piece
/// is found, and the position where scanning continues in any case.
pub open spec fn entry_after(s: Seq<char>, p: int) -> (Option<(Seq<char>, Seq<char>)>, int) {
    match find_from(s, quote_seq(), p) {
        None => (None, p),
        Some(q1) => match find_from(s, quote_seq(), q1 + 1) {
            None => (None, q1 + 1),
            Some(q2) => match find_from(s, "\"AppID\""@, q2 + 1) {
                None => (None, q2 + 1),
                Some(a) => match find_from(s, colon_seq(), a) {
                    None => (None, a),
                    Some(c) => match find_from(s, quote_seq(), c + 1) {
                        None => (None, c + 1),
                        Some(q3) => match find_from(s, quote_seq(), q3 + 1) {
                            None => (None, q3 + 1),
                            Some(q4) => (
                                Some((s.subrange(q1 + 1, q2), s.subrange(q3 + 1, q4))),
                                q4 + 1,
                            ),
                        },
                    },
                },
            },
        },
    }
}

/// Scanning resumes strictly after `p - 1` and never past the end.
pub proof fn lemma_entry_after(s: Seq<char>, p: int)
    requires
        0 <= p <= s.len(),
    ensures
        p <= entry_after(s, p).1 <= s.len(),
{
    lemma_find_from(s, quote_seq(), p);
    if let Some(q1) = find_from(s, quote_seq(), p) {
        lemma_find_from(s, quote_seq(), q1 + 1);
        if let Some(q2) = find_from(s, quote_seq(), q1 + 1) {
            lemma_find_from(s, "\"AppID\""@, q2 + 1);
            if let Some(a) = find_from(s, "\"AppID\""@, q2 + 1) {
                lemma_find_from(s, colon_seq(), a);
                if let Some(c) = find_from(s, colon_seq(), a) {
                    lemma_find_from(s, quote_seq(), c + 1);
                    if let Some(q3) = find_from(s, quote_seq(), c + 1) {
                        lemma_find_from(s, quote_seq(), q3 + 1);
                    }
                }
            }
        }
    }
}

/// The `(Name, AppID)` pairs read from `s`, scanning from `pos`: each round
/// finds the next `"Name"` key and the colon after it (stopping when either is
/// missing), reads one entry, and continues where that reading stopped.
pub open spec fn start_apps_entries(s: Seq<char>, pos: int) -> Seq<(Seq<char>, Seq<char>)>
    decreases s.len() - pos,
{
    if pos < 0 || pos > s.len() {
        Seq::empty()
    } else {
        match find_from(s, "\"Name\""@, pos) {
            None => Seq::empty(),
            Some(n) => match find_from(s, colon_seq(), n) {
                None => Seq::empty(),
                Some(c) => {
                    proof {
                        lemma_find_from(s, "\"Name\""@, pos);
                        lemma_find_from(s, colon_seq(), n);
                        lemma_entry_after(s, c + 1);
                    }
                    let next = entry_after(s, c + 1);
                    match next.0 {
                        Some(e) => seq![e] + start_apps_entries(s, next.1),
                        None => start_apps_entries(s, next.1),
                    }
                },
            },
        }
    }
}

/// The views of a list of string pairs.
pub open spec fn pair_views(v: Seq<(String, String)>) -> Seq<(Seq<char>, Seq<char>)> {
    v.map_values(|e: (String, String)| (e.0@, e.1@))
}

/// One round of `entry_after`, on characters.
fn entry_after_exec(
    s: &Vec<char>,
    p: usize,
    quote: &Vec<char>,
    colon: &Vec<char>,
    app_id_key: &Vec<char>,
) -> (r: (Option<(String, String)>, usize))
    requires
        p <= s@.len(),
        quote@ == quote_seq(),
        colon@ == colon_seq(),
        app_id_key@ == "\"AppID\""@,
    ensures
        r.1 == entry_after(s@, p as int).1,
        r.0 matches Some(e) ==> entry_after(s@, p as int).0 == Some((e.0@, e.1@)),
        r.0 is None ==> entry_after(s@, p as int).0 is None,
{
    let len = s.len();
    proof {
        lemma_entry_after(s@, p as int);
        lemma_find_from(s@, quote_seq(), p as int);
    }
    let q1 = match find_from_exec(s, quote, p) {
        None => return (None, p),
        Some(q) => q,
    };
    proof { lemma_find_from(s@, quote_seq(), q1 + 1); }
    let q2 = match find_from_exec(s, quote, q1 + 1) {
        None => return (None, q1 + 1),
        Some(q) => q,
    };
    proof { lemma_find_from(s@, "\"AppID\""@, q2 + 1); }
    let a = match find_from_exec(s, app_id_key, q2 + 1) {
        None => return (None, q2 + 1),
        Some(x) => x,
    };
    proof { lemma_find_from(s@, colon_seq(), a as int); }
    let c = match find_from_exec(s, colon, a) {
        None => return (None, a),
        Some(x) => x,
    };
    proof { lemma_find_from(s@, quote_seq(), c + 1); }
    let q3 = match find_from_exec(s, quote, c + 1) {
        None => return (None, c + 1),
        Some(q) => q,
    };
    proof { lemma_find_from(s@, quote_seq(), q3 + 1); }
    let q4 = match find_from_exec(s, quote, q3 + 1) {
        None => return (None, q3 + 1),
        Some(q) => q,
    };
    let name = string_of_range(s, q1 + 1, q2);
    let app_id = string_of_range(s, q3 + 1, q4);
    (Some((name, app_id)), q4 + 1)
}

/// Reads `(Name, AppID)` pairs from the JSON that `Get-StartApps |
/// ConvertTo-Json -Compress` prints, either a single object or an array of
/// them. A light scanner, not a JSON parser: it looks for the `"Name"` key,
/// the quoted value after its colon, then the `"AppID"` key and its quoted
/// value, and repeats. Pairs whose pieces are not all found are skipped.
pub fn parse_start_apps_json(json: &str) -> (r: Vec<(String, String)>)
    ensures
        pair_views(r@) == start_apps_entries(json@, 0),
{
    let s = str_chars(json);
    let name_key = str_chars("\"Name\"");
    let app_id_key = str_chars("\"AppID\"");
    let quote = vec!['"'];
    let colon = vec![':'];
    assert(quote@ =~= quote_seq());
    assert(colon@ =~= colon_seq());
    let mut entries: Vec<(String, String)> = Vec::new();
    let mut pos: usize = 0;
    let len = s.len();
    loop
        invariant
            len == s@.len(),
            s@ == json@,
            name_key@ == "\"Name\""@,
            app_id_key@ == "\"AppID\""@,
            quote@ == quote_seq(),
            colon@ == colon_seq(),
            pos <= s@.len(),
            pair_views(entries@) + start_apps_entries(s@, pos as int) == start_apps_entries(s@, 0),
        ensures
            pair_views(entries@) == start_apps_entries(s@, 0),
        decreases s@.len() - pos,
    {
        let ghost old_entries = entries@;
        proof {
            lemma_find_from(s@, "\"Name\""@, pos as int);
        }
        let n = match find_from_exec(&s, &name_key, pos) {
            None => {
                assert(pair_views(entries@) + Seq::empty() =~= pair_views(entries@));
                break;
            },
            Some(n) => n,
        };
        proof {
            lemma_find_from(s@, colon_seq(), n as int);
        }
        let c = match find_from_exec(&s, &colon, n) {
            None => {
                assert(pair_views(entries@) + Seq::empty() =~= pair_views(entries@));
                break;
            },
            Some(c) => c,
        };
        proof {
            lemma_entry_after(s@, c + 1);
        }
        let (e, next) = entry_after_exec(&s, c + 1, &quote, &colon, &app_id_key);
        match e {
            Some(pair) => {
                entries.push(pair);
                proof {
                    let x = entry_after(s@, c + 1).0->Some_0;
                    assert(pair_views(entries@) =~= pair_views(old_entries).push(x));
                    assert(pair_views(old_entries).push(x) + start_apps_entries(s@, next as int)
                        =~= pair_views(old_entries) + (seq![x] + start_apps_entries(s@, next as int)));
                }
            },
            None => {},
        }
        pos = next;
    }
    entries
}


// ───────────────────────── choosing an entry ─────────────────────────

/// An app id that is not a browser-installed web app (those carry `_crx_`).
pub open spec fn is_native_app(app_id: Seq<char>) -> bool {
    !seq_contains(app_id, "_crx_"@)
}

/// The lower-cased entry name equals one of the search names.
pub open spec fn exact_hit(name: Seq<char>, names: Seq<Seq<char>>) -> bool {
    exists|k: int| 0 <= k < names.len() && names[k] == str_lowercase(name)
}

/// The lower-cased entry name contains one of the search names without being
/// equal to it.
pub open spec fn partial_hit(name: Seq<char>, names: Seq<Seq<char>>) -> bool {
    exists|k: int|
        0 <= k < names.len() && names[k] != str_lowercase(name) && seq_contains(
            str_lowercase(name),
            names[k],
        )
}

/// The smallest index below `n` that satisfies `pred`.
pub open spec fn first_where(n: int, pred: spec_fn(int) -> bool) -> Option<int>
    decreases n,
{
    if n <= 0 {
        None
    } else {
        match first_where(n - 1, pred) {
            Some(i) => Some(i),
            None => if pred(n - 1) {
                Some(n - 1)
            } else {
                None
            },
        }
    }
}

/// The first of the options that is present.
pub open spec fn first_present(a: Option<int>, b: Option<int>, c: Option<int>, d: Option<int>) -> Option<int> {
    if a is Some {
        a
    } else if b is Some {
        b
    } else if c is Some {
        c
    } else {
        d
    }
}

/// The entry to launch: the first exact match that is a native app, else the
/// first exact match, else the first partial match that is native, else the
/// first partial match; "first" in the order of the list.
pub open spec fn chosen_start_app(entries: Seq<(Seq<char>, Seq<char>)>, names: Seq<Seq<char>>) -> Option<int> {
    let n = entries.len() as int;
    first_present(
        first_where(n, match_category(entries, names, true, true)),
        first_where(n, match_category(entries, names, true, false)),
        first_where(n, match_category(entries, names, false, true)),
        first_where(n, match_category(entries, names, false, false)),
    )
}

/// Entries that match exactly (or partially, when `exact` is false) and are
/// native apps (or web apps, when `native` is false).
pub open spec fn match_category(
    entries: Seq<(Seq<char>, Seq<char>)>,
    names: Seq<Seq<char>>,
    exact: bool,
    native: bool,
) -> spec_fn(int) -> bool {
    |i: int|
        (if exact {
            exact_hit(entries[i].0, names)
        } else {
            partial_hit(entries[i].0, names)
        }) && is_native_app(entries[i].1) == native
}

/// An optional index, as an integer.
pub open spec fn opt_int(o: Option<usize>) -> Option<int> {
    match o {
        Some(x) => Some(x as int),
        None => None,
    }
}

/// The views of a list of strings.
pub open spec fn string_views(v: Seq<String>) -> Seq<Seq<char>> {
    v.map_values(|s: String| s@)
}

/// Whether the lower-cased `name` equals, or strictly contains, one of `names`.
fn hits(lower: &Vec<char>, names: &Vec<String>) -> (r: (bool, bool))
    ensures
        r.0 == exists|k: int| 0 <= k < names@.len() && names@[k]@ == lower@,
        r.1 == exists|k: int|
            0 <= k < names@.len() && names@[k]@ != lower@ && seq_contains(lower@, names@[k]@),
{
    let mut exact = false;
    let mut partial = false;
    let mut j: usize = 0;
    while j < names.len()
        invariant
            j <= names@.len(),
            exact == exists|k: int| 0 <= k < j && names@[k]@ == lower@,
            partial == exists|k: int|
                0 <= k < j && names@[k]@ != lower@ && seq_contains(lower@, names@[k]@),
        decreases names@.len() - j,
    {
        let candidate = str_chars(names[j].as_str());
        if chars_eq(lower, &candidate) {
            exact = true;
        } else if contains_exec(lower, &candidate) {
            partial = true;
        }
        j += 1;
    }
    (exact, partial)
}

/// Picks the Start-menu entry to launch for the given search names (already
/// lower-cased): exact name matches before partial ones, and within each,
/// native apps before browser web apps (app ids holding `_crx_`).
pub fn choose_start_app(entries: &Vec<(String, String)>, search_names: &Vec<String>) -> (r: Option<usize>)
    ensures
        r matches Some(i) ==> chosen_start_app(pair_views(entries@), string_views(search_names@)) == Some(i as int),
        r is None ==> chosen_start_app(pair_views(entries@), string_views(search_names@)) is None,
{
    let ghost es = pair_views(entries@);
    let ghost names = string_views(search_names@);
    let ghost n = es.len() as int;
    let crx = str_chars("_crx_");
    let mut exact_native: Option<usize> = None;
    let mut exact_web: Option<usize> = None;
    let mut partial_native: Option<usize> = None;
    let mut partial_web: Option<usize> = None;
    let mut i: usize = 0;
    while i < entries.len()
        invariant
            i <= entries@.len(),
            es == pair_views(entries@),
            names == string_views(search_names@),
            crx@ == "_crx_"@,
            opt_int(exact_native) == first_where(i as int, match_category(es, names, true, true)),
            opt_int(exact_web) == first_where(i as int, match_category(es, names, true, false)),
            opt_int(partial_native) == first_where(i as int, match_category(es, names, false, true)),
            opt_int(partial_web) == first_where(i as int, match_category(es, names, false, false)),
        decreases entries@.len() - i,
    {
        let lower_name = lowercase(entries[i].0.as_str());
        let lower = str_chars(lower_name.as_str());
        let id = str_chars(entries[i].1.as_str());
        let native = !contains_exec(&id, &crx);
        let (exact, partial) = hits(&lower, search_names);
        proof {
            assert(es[i as int] == (entries@[i as int].0@, entries@[i as int].1@));
            assert(exact == exact_hit(es[i as int].0, names)) by {
                if exact {
                    let k = choose|k: int| 0 <= k < search_names@.len() && search_names@[k]@ == lower@;
                    assert(names[k] == str_lowercase(es[i as int].0));
                }
                if exact_hit(es[i as int].0, names) {
                    let k = choose|k: int| 0 <= k < names.len() && names[k] == str_lowercase(es[i as int].0);
                    assert(search_names@[k]@ == lower@);
                }
            }
            assert(partial == partial_hit(es[i as int].0, names)) by {
                if partial {
                    let k = choose|k: int|
                        0 <= k < search_names@.len() && search_names@[k]@ != lower@ && seq_contains(lower@, search_names@[k]@);
                    assert(names[k] == search_names@[k]@);
                }
                if partial_hit(es[i as int].0, names) {
                    let k = choose|k: int|
                        0 <= k < names.len() && names[k] != str_lowercase(es[i as int].0) && seq_contains(
                            str_lowercase(es[i as int].0),
                            names[k],
                        );
                    assert(search_names@[k]@ == names[k]);
                }
            }
        }
        proof {
            assert(native == is_native_app(es[i as int].1));
            assert(match_category(es, names, true, true)(i as int) == (exact && native));
            assert(match_category(es, names, true, false)(i as int) == (exact && !native));
            assert(match_category(es, names, false, true)(i as int) == (partial && native));
            assert(match_category(es, names, false, false)(i as int) == (partial && !native));
        }
        if exact {
            if native {
                if exact_native.is_none() {
                    exact_native = Some(i);
                }
            } else if exact_web.is_none() {
                exact_web = Some(i);
            }
        }
        if partial {
            if native {
                if partial_native.is_none() {
                    partial_native = Some(i);
                }
            } else if partial_web.is_none() {
                partial_web = Some(i);
            }
        }
        i += 1;
    }
    if exact_native.is_some() {
        exact_native
    } else if exact_web.is_some() {
        exact_web
    } else if partial_native.is_some() {
        partial_native
    } else {
        partial_web
    }
}

/// The `shell:AppsFolder\<AppID>` target that `start` launches an entry by.
pub fn apps_folder_target(app_id: &str) -> (r: String)
    ensures
        r@ == "shell:AppsFolder\\"@ + app_id@,
{
    concat2("shell:AppsFolder\\", app_id)
}


/// Whatever `first_where` returns is an index below the bound.
pub proof fn lemma_first_where_in_range(n: int, pred: spec_fn(int) -> bool)
    ensures
        first_where(n, pred) matches Some(i) ==> 0 <= i < n && pred(i),
    decreases n,
{
    if n > 0 {
        lemma_first_where_in_range(n - 1, pred);
    }
}

/// The chosen entry is an entry of the list.
pub proof fn lemma_first_present_in_range(entries: Seq<(Seq<char>, Seq<char>)>, names: Seq<Seq<char>>)
    ensures
        chosen_start_app(entries, names) matches Some(i) ==> 0 <= i < entries.len(),
{
    let n = entries.len() as int;
    lemma_first_where_in_range(n, match_category(entries, names, true, true));
    lemma_first_where_in_range(n, match_category(entries, names, true, false));
    lemma_first_where_in_range(n, match_category(entries, names, false, true));
    lemma_first_where_in_range(n, match_category(entries, names, false, false));
}

/// When some index below `n` satisfies `pred`, `first_where` finds one.
pub proof fn lemma_first_where_exists(n: int, pred: spec_fn(int) -> bool, j: int)
    requires
        0 <= j < n,
        pred(j),
    ensures
        first_where(n, pred) is Some,
    decreases n,
{
    if j < n - 1 {
        lemma_first_where_exists(n - 1, pred, j);
    }
}

/// The Start-menu entry chosen for the search names: it matches one of them
/// (exactly or partially); one is chosen whenever some entry matches; an exact
/// match wins over every partial one; among exact matches a native app wins
/// over a browser web app; and when nothing matches exactly, a native partial
/// match wins over a web-app partial match.
pub proof fn law_start_app_preference(entries: Seq<(Seq<char>, Seq<char>)>, names: Seq<Seq<char>>)
    ensures
        chosen_start_app(entries, names) matches Some(i) ==> 0 <= i < entries.len() && (exact_hit(entries[i].0, names)
            || partial_hit(entries[i].0, names)),
        (exists|j: int| 0 <= j < entries.len() && (exact_hit(entries[j].0, names) || partial_hit(entries[j].0, names)))
            ==> chosen_start_app(entries, names) is Some,
        (exists|j: int| 0 <= j < entries.len() && exact_hit(entries[j].0, names)) ==> (chosen_start_app(entries, names) matches Some(i)
            && exact_hit(entries[i].0, names)),
        (exists|j: int| 0 <= j < entries.len() && exact_hit(entries[j].0, names) && is_native_app(entries[j].1))
            ==> (chosen_start_app(entries, names) matches Some(i) && exact_hit(entries[i].0, names) && is_native_app(entries[i].1)),
        ((forall|j: int| 0 <= j < entries.len() ==> !exact_hit(#[trigger] entries[j].0, names)) && exists|j: int|
            0 <= j < entries.len() && partial_hit(entries[j].0, names) && is_native_app(entries[j].1))
            ==> (chosen_start_app(entries, names) matches Some(i) && partial_hit(entries[i].0, names) && is_native_app(entries[i].1)),
{
    let n = entries.len() as int;
    let en = match_category(entries, names, true, true);
    let ew = match_category(entries, names, true, false);
    let pn = match_category(entries, names, false, true);
    let pw = match_category(entries, names, false, false);
    lemma_first_where_in_range(n, en);
    lemma_first_where_in_range(n, ew);
    lemma_first_where_in_range(n, pn);
    lemma_first_where_in_range(n, pw);
    if exists|j: int| 0 <= j < n && (exact_hit(entries[j].0, names) || partial_hit(entries[j].0, names)) {
        let j = choose|j: int| 0 <= j < n && (exact_hit(entries[j].0, names) || partial_hit(entries[j].0, names));
        if exact_hit(entries[j].0, names) {
            if is_native_app(entries[j].1) {
                lemma_first_where_exists(n, en, j);
            } else {
                lemma_first_where_exists(n, ew, j);
            }
        } else {
            if is_native_app(entries[j].1) {
                lemma_first_where_exists(n, pn, j);
            } else {
                lemma_first_where_exists(n, pw, j);
            }
        }
    }
    if exists|j: int| 0 <= j < n && exact_hit(entries[j].0, names) {
        let j = choose|j: int| 0 <= j < n && exact_hit(entries[j].0, names);
        if is_native_app(entries[j].1) {
            lemma_first_where_exists(n, en, j);
        } else {
            lemma_first_where_exists(n, ew, j);
        }
    }
    if exists|j: int| 0 <= j < n && exact_hit(entries[j].0, names) && is_native_app(entries[j].1) {
        let j = choose|j: int| 0 <= j < n && exact_hit(entries[j].0, names) && is_native_app(entries[j].1);
        lemma_first_where_exists(n, en, j);
    }
    if exists|j: int| 0 <= j < n && partial_hit(entries[j].0, names) && is_native_app(entries[j].1) {
        let j = choose|j: int| 0 <= j < n && partial_hit(entries[j].0, names) && is_native_app(entries[j].1);
        lemma_first_where_exists(n, pn, j);
    }
    match first_where(n, en) {
        Some(i) => {
            assert(en(i));
        },
        None => {},
    }
    match first_where(n, ew) {
        Some(i) => {
            assert(ew(i));
        },
        None => {},
    }
    match first_where(n, pn) {
        Some(i) => {
            assert(pn(i));
        },
        None => {},
    }
    match first_where(n, pw) {
        Some(i) => {
            assert(pw(i));
        },
        None => {},
    }
}

} // verus!

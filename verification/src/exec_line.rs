//! Reading the command line of a Linux desktop entry (`Exec=` lines), and
//! the pieces of such a command line used to find or stop the app.

use vstd::prelude::*;
use crate::text::{contains_exec, eq_str, lowercase, seq_contains, str_lowercase, find_from, find_from_exec, lemma_find_from, lemma_find_from_skip, push_char, str_chars, starts_with, starts_with_str, string_of, string_of_range};

verus! {

broadcast use vstd::string::group_string_axioms;

/// Unicode `White_Space` (what `char::is_whitespace` tests).
pub open spec fn is_white(c: char) -> bool {
    ||| ('\t' <= c && c <= '\r')
    ||| c == ' '
    ||| c == '\u{85}'
    ||| c == '\u{a0}'
    ||| c == '\u{1680}'
    ||| ('\u{2000}' <= c && c <= '\u{200a}')
    ||| c == '\u{2028}'
    ||| c == '\u{2029}'
    ||| c == '\u{202f}'
    ||| c == '\u{205f}'
    ||| c == '\u{3000}'
}

/// Whether `c` is Unicode white space.
pub fn is_white_exec(c: char) -> (r: bool)
    ensures
        r == is_white(c),
{
    ('\t' <= c && c <= '\r') || c == ' ' || c == '\u{85}' || c == '\u{a0}' || c == '\u{1680}'
        || ('\u{2000}' <= c && c <= '\u{200a}') || c == '\u{2028}' || c == '\u{2029}' || c == '\u{202f}'
        || c == '\u{205f}' || c == '\u{3000}'
}

/// The number of leading characters that are not white space.
pub open spec fn word_len(s: Seq<char>) -> nat
    decreases s.len(),
{
    if s.len() == 0 || is_white(s[0]) {
        0
    } else {
        1 + word_len(s.drop_first())
    }
}

pub proof fn lemma_word_len(s: Seq<char>)
    ensures
        word_len(s) <= s.len(),
        forall|k: int| 0 <= k < word_len(s) ==> !is_white(#[trigger] s[k]),
        word_len(s) < s.len() ==> is_white(s[word_len(s) as int]),
    decreases s.len(),
{
    if s.len() > 0 && !is_white(s[0]) {
        lemma_word_len(s.drop_first());
        assert forall|k: int| 0 <= k < word_len(s) implies !is_white(#[trigger] s[k]) by {
            if k > 0 {
                assert(s[k] == s.drop_first()[k - 1]);
            }
        }
    }
}

/// The maximal runs of non-white-space characters, in order (what
/// `str::split_whitespace` yields).
pub open spec fn words(s: Seq<char>) -> Seq<Seq<char>>
    decreases s.len(),
{
    if s.len() == 0 {
        Seq::empty()
    } else if is_white(s[0]) {
        words(s.drop_first())
    } else {
        proof {
            lemma_word_len(s);
        }
        seq![s.take(word_len(s) as int)] + words(s.skip(word_len(s) as int))
    }
}

/// The views of a list of character vectors.
pub open spec fn vec_views(v: Seq<Vec<char>>) -> Seq<Seq<char>> {
    v.map_values(|w: Vec<char>| w@)
}

/// Splits a character vector at white space, like `str::split_whitespace`.
pub fn split_words(v: &Vec<char>) -> (r: Vec<Vec<char>>)
    ensures
        vec_views(r@) == words(v@),
{
    let mut out: Vec<Vec<char>> = Vec::new();
    let len = v.len();
    let mut p: usize = 0;
    proof {
        assert(v@.skip(0) =~= v@);
    }
    while p < len
        invariant
            len == v@.len(),
            p <= len,
            vec_views(out@) + words(v@.skip(p as int)) == words(v@),
        decreases len - p,
    {
        let ghost rest = v@.skip(p as int);
        if is_white_exec(v[p]) {
            proof {
                assert(rest[0] == v@[p as int]);
                assert(rest.drop_first() =~= v@.skip(p + 1));
            }
            p += 1;
        } else {
            let mut q = p + 1;
            proof {
                assert(rest[0] == v@[p as int]);
                assert(rest.drop_first() =~= v@.skip(p + 1));
            }
            while q < len && !is_white_exec(v[q])
                invariant
                    len == v@.len(),
                    p < q <= len,
                    rest == v@.skip(p as int),
                    word_len(rest) == (q - p) + word_len(v@.skip(q as int)),
                decreases len - q,
            {
                proof {
                    assert(v@.skip(q as int)[0] == v@[q as int]);
                    assert(v@.skip(q as int).drop_first() =~= v@.skip(q + 1));
                }
                q += 1;
            }
            proof {
                if q < len {
                    assert(v@.skip(q as int)[0] == v@[q as int]);
                }
                assert(word_len(rest) == q - p);
                lemma_word_len(rest);
                assert(rest.take(word_len(rest) as int) =~= v@.subrange(p as int, q as int));
                assert(rest.skip(word_len(rest) as int) =~= v@.skip(q as int));
            }
            let mut word: Vec<char> = Vec::new();
            let mut k = p;
            while k < q
                invariant
                    p <= k <= q <= len,
                    len == v@.len(),
                    word@ == v@.subrange(p as int, k as int),
                decreases q - k,
            {
                word.push(v[k]);
                proof {
                    assert(v@.subrange(p as int, k + 1) =~= v@.subrange(p as int, k as int).push(v@[k as int]));
                }
                k += 1;
            }
            let ghost before = vec_views(out@);
            out.push(word);
            proof {
                assert(vec_views(out@) =~= before.push(v@.subrange(p as int, q as int)));
                assert(before.push(v@.subrange(p as int, q as int)) + words(v@.skip(q as int))
                    =~= before + (seq![v@.subrange(p as int, q as int)] + words(v@.skip(q as int))));
            }
            p = q;
        }
    }
    proof {
        assert(v@.skip(len as int) =~= Seq::<char>::empty());
        assert(vec_views(out@) + Seq::<Seq<char>>::empty() =~= vec_views(out@));
    }
    out
}

/// Words joined with single spaces.
pub open spec fn join_spaced(ws: Seq<Seq<char>>) -> Seq<char>
    decreases ws.len(),
{
    if ws.len() == 0 {
        Seq::empty()
    } else if ws.len() == 1 {
        ws[0]
    } else {
        join_spaced(ws.drop_last()) + seq![' '] + ws.last()
    }
}

/// The words that are not desktop-entry field codes (those begin with `%`).
pub open spec fn without_field_codes(ws: Seq<Seq<char>>) -> Seq<Seq<char>>
    decreases ws.len(),
{
    if ws.len() == 0 {
        Seq::empty()
    } else if ws.last().len() > 0 && ws.last()[0] == '%' {
        without_field_codes(ws.drop_last())
    } else {
        without_field_codes(ws.drop_last()).push(ws.last())
    }
}

/// The command of an `Exec=` value: its words without field codes such as
/// `%U`, joined by single spaces.
pub open spec fn cleaned_exec(exec: Seq<char>) -> Seq<char> {
    join_spaced(without_field_codes(words(exec)))
}

/// Drops field codes from an `Exec=` value and normalises its spacing.
pub fn clean_exec(exec: &Vec<char>) -> (r: String)
    ensures
        r@ == cleaned_exec(exec@),
{
    let ws = split_words(exec);
    let mut r = String::new();
    let mut kept: usize = 0;
    let mut i: usize = 0;
    proof {
        assert(vec_views(ws@).take(0) =~= Seq::<Seq<char>>::empty());
    }
    while i < ws.len()
        invariant
            i <= ws@.len(),
            vec_views(ws@) == words(exec@),
            kept <= i,
            kept == without_field_codes(vec_views(ws@).take(i as int)).len(),
            r@ == join_spaced(without_field_codes(vec_views(ws@).take(i as int))),
        decreases ws@.len() - i,
    {
        let ghost prefix = vec_views(ws@).take(i as int);
        let ghost next = vec_views(ws@).take(i + 1);
        proof {
            assert(next.drop_last() =~= prefix);
            assert(next.last() == ws@[i as int]@);
        }
        let w = &ws[i];
        if !(w.len() > 0 && w[0] == '%') {
            if kept > 0 {
                push_char(&mut r, ' ');
            }
            let mut k: usize = 0;
            let ghost base = r@;
            while k < w.len()
                invariant
                    k <= w@.len(),
                    r@ == base + w@.subrange(0, k as int),
                decreases w@.len() - k,
            {
                push_char(&mut r, w[k]);
                proof {
                    assert(w@.subrange(0, k + 1) =~= w@.subrange(0, k as int).push(w@[k as int]));
                    assert(r@ =~= base + w@.subrange(0, k + 1));
                }
                k += 1;
            }
            proof {
                assert(w@.subrange(0, w@.len() as int) =~= w@);
                let kept_words = without_field_codes(prefix);
                assert(without_field_codes(next) == kept_words.push(w@));
                assert(kept_words.push(w@).drop_last() =~= kept_words);
                if kept == 0 {
                    assert(r@ =~= w@);
                } else {
                    assert(r@ =~= join_spaced(kept_words) + seq![' '] + w@);
                }
            }
            kept = kept + 1;
        }
        i += 1;
    }
    proof {
        assert(vec_views(ws@).take(ws@.len() as int) =~= vec_views(ws@));
    }
    r
}

/// The lines of a text as `str::lines` yields them: split at `\n`, a `\r`
/// just before a `\n` dropped, and no empty line after a final `\n`.
pub open spec fn lines(s: Seq<char>) -> Seq<Seq<char>>
    decreases s.len(),
{
    if s.len() == 0 {
        Seq::empty()
    } else {
        match find_from(s, seq!['\n'], 0) {
            None => seq![s],
            Some(i) => {
                proof {
                    lemma_find_from(s, seq!['\n'], 0);
                }
                let line = s.take(i);
                let line = if line.len() > 0 && line.last() == '\r' { line.drop_last() } else { line };
                seq![line] + lines(s.skip(i + 1))
            },
        }
    }
}

/// The first line that begins with `prefix`, without the prefix.
pub open spec fn first_with_prefix(ls: Seq<Seq<char>>, prefix: Seq<char>) -> Option<Seq<char>>
    decreases ls.len(),
{
    if ls.len() == 0 {
        None
    } else if starts_with(ls[0], prefix) {
        Some(ls[0].skip(prefix.len() as int))
    } else {
        first_with_prefix(ls.drop_first(), prefix)
    }
}

/// The command a desktop entry runs: its first `Exec=` line, cleaned.
pub open spec fn desktop_exec_of(content: Seq<char>) -> Option<Seq<char>> {
    match first_with_prefix(lines(content), "Exec="@) {
        Some(e) => Some(cleaned_exec(e)),
        None => None,
    }
}

/// Reads the command of a desktop entry from the entry's text.
pub fn desktop_exec(content: &str) -> (r: Option<String>)
    ensures
        r matches Some(e) ==> desktop_exec_of(content@) == Some(e@),
        r is None ==> desktop_exec_of(content@) is None,
{
    let s = str_chars(content);
    let len = s.len();
    let nl = vec!['\n'];
    let prefix = str_chars("Exec=");
    proof {
        assert(nl@ =~= seq!['\n']);
        assert(s@.skip(0) =~= s@);
    }
    let mut p: usize = 0;
    while p < len
        invariant
            len == s@.len(),
            s@ == content@,
            p <= len,
            nl@ == seq!['\n'],
            prefix@ == "Exec="@,
            first_with_prefix(lines(s@), "Exec="@) == first_with_prefix(lines(s@.skip(p as int)), "Exec="@),
        decreases len - p,
    {
        let ghost rest = s@.skip(p as int);
        proof {
            lemma_find_from(s@, seq!['\n'], p as int);
            lemma_find_from_skip(s@, seq!['\n'], p as int, 0);
        }
        let end = match find_from_exec(&s, &nl, p) {
            Some(i) => i,
            None => len,
        };
        let mut line_end = end;
        if line_end > p && end < len && s[line_end - 1] == '\r' {
            line_end = line_end - 1;
        }
        let line = string_of_range(&s, p, line_end);
        let line_chars = str_chars(line.as_str());
        let ghost tail: Seq<Seq<char>> = if end < len { lines(s@.skip(end + 1)) } else { Seq::empty() };
        proof {
            let raw = rest.take(end - p);
            if end < len {
                assert(find_from(rest, seq!['\n'], 0) == Some(end - p));
                assert(raw =~= s@.subrange(p as int, end as int));
                if end > p && s@[end - 1] == '\r' {
                    assert(raw.last() == '\r');
                    assert(raw.drop_last() =~= s@.subrange(p as int, end - 1));
                }
                assert(rest.skip(end - p + 1) =~= s@.skip(end + 1));
            } else {
                assert(find_from(rest, seq!['\n'], 0) is None);
                assert(rest =~= s@.subrange(p as int, len as int));
            }
            assert(lines(rest) =~= seq![line_chars@] + tail);
            assert(lines(rest)[0] == line_chars@);
            assert(lines(rest).drop_first() =~= tail);
        }
        if starts_with_str(&line_chars, "Exec=") {
            let value = string_of_range(&line_chars, prefix.len(), line_chars.len());
            let value_chars = str_chars(value.as_str());
            proof {
                assert(value_chars@ =~= line_chars@.skip(prefix@.len() as int));
                assert(first_with_prefix(lines(rest), "Exec="@) == Some(line_chars@.skip("Exec="@.len() as int)));
            }
            return Some(clean_exec(&value_chars));
        }
        proof {
            assert(first_with_prefix(lines(rest), "Exec="@) == first_with_prefix(tail, "Exec="@));
        }
        if end >= len {
            return None;
        }
        p = end + 1;
    }
    proof {
        assert(s@.skip(len as int) =~= Seq::<char>::empty());
    }
    None
}


// ───────────────────────── pieces of a command line ─────────────────────────

/// The app id of a `flatpak run <app-id> ...` command line.
pub open spec fn flatpak_id_of(exec: Seq<char>) -> Option<Seq<char>> {
    let w = words(exec);
    if w.len() >= 3 && w[0] == "flatpak"@ && w[1] == "run"@ {
        Some(w[2])
    } else {
        None
    }
}

/// The app id that `flatpak kill` stops, for a Flatpak command line.
pub fn flatpak_app_id(exec: &str) -> (r: Option<String>)
    ensures
        r matches Some(id) ==> flatpak_id_of(exec@) == Some(id@),
        r is None ==> flatpak_id_of(exec@) is None,
{
    let v = str_chars(exec);
    let w = split_words(&v);
    if w.len() >= 3 && eq_str(&w[0], "flatpak") && eq_str(&w[1], "run") {
        proof {
            assert(vec_views(w@)[2] == w@[2]@);
        }
        Some(string_of(&w[2]))
    } else {
        None
    }
}

/// The part of `s` after its last `/` (all of `s` when it has none).
pub open spec fn after_last_slash(s: Seq<char>) -> Seq<char>
    decreases s.len(),
{
    if s.len() == 0 {
        Seq::empty()
    } else if s.last() == '/' {
        Seq::empty()
    } else {
        after_last_slash(s.drop_last()).push(s.last())
    }
}

/// The program name of a command line: its first word, without directories.
pub open spec fn exec_basename_of(exec: Seq<char>) -> Option<Seq<char>> {
    let w = words(exec);
    if w.len() >= 1 {
        Some(after_last_slash(w[0]))
    } else {
        None
    }
}

/// The program name that `pkill -f` looks for, for a command line.
pub fn exec_basename(exec: &str) -> (r: Option<String>)
    ensures
        r matches Some(b) ==> exec_basename_of(exec@) == Some(b@),
        r is None ==> exec_basename_of(exec@) is None,
{
    let v = str_chars(exec);
    let w = split_words(&v);
    if w.len() == 0 {
        return None;
    }
    let first = &w[0];
    let mut start: usize = 0;
    let mut i: usize = 0;
    while i < first.len()
        invariant
            i <= first@.len(),
            start <= i,
            after_last_slash(first@.subrange(0, i as int)) == first@.subrange(start as int, i as int),
        decreases first@.len() - i,
    {
        proof {
            assert(first@.subrange(0, i + 1).drop_last() =~= first@.subrange(0, i as int));
        }
        if first[i] == '/' {
            start = i + 1;
            proof {
                assert(first@.subrange(start as int, i + 1) =~= Seq::<char>::empty());
            }
        } else {
            proof {
                assert(first@.subrange(start as int, i + 1) =~= first@.subrange(start as int, i as int).push(first@[i as int]));
            }
        }
        i += 1;
    }
    proof {
        assert(first@.subrange(0, first@.len() as int) =~= first@);
        assert(vec_views(w@)[0] == first@);
    }
    Some(string_of_range(first, start, first.len()))
}

/// `s` with every space replaced by `-`.
pub open spec fn spaces_to_dashes(s: Seq<char>) -> Seq<char> {
    s.map_values(|c: char| if c == ' ' { '-' } else { c })
}

/// A desktop-entry file name (lower-cased) belongs to an app name when it
/// contains the lower-cased name, or that name with spaces turned into dashes.
pub open spec fn desktop_file_matches_spec(file_name_lower: Seq<char>, name: Seq<char>) -> bool {
    seq_contains(file_name_lower, str_lowercase(name))
        || seq_contains(file_name_lower, spaces_to_dashes(str_lowercase(name)))
}

/// Whether a desktop-entry file (name given lower-cased) is for `name`.
pub fn desktop_file_matches(file_name_lower: &str, name: &str) -> (r: bool)
    ensures
        r == desktop_file_matches_spec(file_name_lower@, name@),
{
    let f = str_chars(file_name_lower);
    let lower = lowercase(name);
    let l = str_chars(lower.as_str());
    let mut dashed: Vec<char> = Vec::new();
    let mut i: usize = 0;
    while i < l.len()
        invariant
            i <= l@.len(),
            dashed@ == spaces_to_dashes(l@.subrange(0, i as int)),
        decreases l@.len() - i,
    {
        if l[i] == ' ' {
            dashed.push('-');
        } else {
            dashed.push(l[i]);
        }
        proof {
            assert(dashed@ =~= spaces_to_dashes(l@.subrange(0, i + 1)));
        }
        i += 1;
    }
    proof {
        assert(l@.subrange(0, l@.len() as int) =~= l@);
    }
    contains_exec(&f, &l) || contains_exec(&f, &dashed)
}

} // verus!

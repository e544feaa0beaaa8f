use nexus::app_names::{app_display_name, app_search_names, app_to_process_names, remove_spaces, url_fallback};
use nexus::sorted_names::{insert_sorted_unique, sorted_unique};
use nexus::text::capitalize;
use nexus::urlencoding::encode;

fn strings(v: &[&str]) -> Vec<String> {
    v.iter().map(|s| s.to_string()).collect()
}

#[test]
fn encode_keeps_unreserved_characters() {
    assert_eq!(encode("AZaz09-_.~"), "AZaz09-_.~");
}

#[test]
fn encode_turns_spaces_into_plus() {
    assert_eq!(encode("a b&c"), "a+b%26c");
}

#[test]
fn encode_percent_encodes_utf8_bytes_in_upper_case_hex() {
    assert_eq!(encode("héllo/?"), "h%C3%A9llo%2F%3F");
}

#[test]
fn encode_empty_string() {
    assert_eq!(encode(""), "");
}

#[test]
fn capitalize_first_letter_only() {
    assert_eq!(capitalize("hello world"), "Hello world");
}

#[test]
fn capitalize_empty_string() {
    assert_eq!(capitalize(""), "");
}

#[test]
fn capitalize_uses_full_unicode_upper_case() {
    assert_eq!(capitalize("ßa"), "SSa");
}

#[test]
fn display_name_from_table() {
    assert_eq!(app_display_name("vs code"), "VS Code");
    assert_eq!(app_display_name("code"), "VS Code");
    assert_eq!(app_display_name("git hub"), "GitHub");
    assert_eq!(app_display_name("wt"), "Terminal");
}

#[test]
fn display_name_outside_table_is_capitalised() {
    assert_eq!(app_display_name("obsidian notes"), "Obsidian notes");
    assert_eq!(app_display_name(""), "");
}

#[test]
fn process_names_sorted_and_deduplicated() {
    assert_eq!(app_to_process_names("calculator"), strings(&["calc", "calculator"]));
    assert_eq!(app_to_process_names("vs code"), strings(&["code", "vs code", "vscode"]));
}

#[test]
fn process_names_for_unknown_app() {
    assert_eq!(app_to_process_names("My App"), strings(&["MyApp", "my app"]));
}

#[test]
fn process_names_for_terminal() {
    assert_eq!(app_to_process_names("terminal"), strings(&["terminal", "windowsterminal", "wt"]));
}

#[test]
fn search_names_sorted_and_deduplicated() {
    assert_eq!(app_search_names("vs code"), strings(&["visual studio code", "vs code"]));
    assert_eq!(app_search_names("gmail"), strings(&["gmail"]));
    assert_eq!(app_search_names("maps"), strings(&["google maps", "maps"]));
}

#[test]
fn search_names_lower_case_the_target() {
    assert_eq!(app_search_names("Notion"), strings(&["notion"]));
}

#[test]
fn url_fallback_known_services() {
    assert_eq!(url_fallback("gmail"), Some("https://mail.google.com".to_string()));
    assert_eq!(url_fallback("x"), Some("https://x.com".to_string()));
    assert_eq!(url_fallback("discord"), Some("https://discord.com/app".to_string()));
    assert_eq!(url_fallback("google gemini"), Some("https://gemini.google.com".to_string()));
}

#[test]
fn url_fallback_unknown_service() {
    assert_eq!(url_fallback("notepad"), None);
    assert_eq!(url_fallback("Gmail"), None);
}

#[test]
fn remove_spaces_drops_every_space() {
    assert_eq!(remove_spaces(" a b  c "), "abc");
}

#[test]
fn sorted_unique_sorts_and_dedups() {
    assert_eq!(sorted_unique(strings(&["b", "a", "b", "ab"])), strings(&["a", "ab", "b"]));
}

#[test]
fn insert_sorted_unique_skips_duplicates() {
    let mut v = strings(&["a", "c"]);
    insert_sorted_unique(&mut v, "b".to_string());
    insert_sorted_unique(&mut v, "c".to_string());
    assert_eq!(v, strings(&["a", "b", "c"]));
}

#[test]
fn encode_output_is_url_safe_and_bounded() {
    let input = "Ünïcödé & spaces / ? # = + % ~ 日本語 \n\t";
    let out = encode(input);
    assert!(out.chars().all(|c| c.is_ascii_alphanumeric() || "-_.~+%".contains(c)));
    assert!(out.len() >= input.len() && out.len() <= 3 * input.len());
}

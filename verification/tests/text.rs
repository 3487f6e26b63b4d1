use properwatcher::pattern::strip_matches;
use properwatcher::text::chars_of;
use properwatcher::text::clone_strings;
use properwatcher::text::concat3;
use properwatcher::text::contains;
use properwatcher::text::find;
use properwatcher::text::join;
use properwatcher::text::occurs;
use properwatcher::text::replace;
use properwatcher::text::same;
use properwatcher::text::split_text;
use properwatcher::text::strip_prefixes;
use properwatcher::text::strip_trailing;
use properwatcher::text::tail_after;
use properwatcher::text::text_of;
use properwatcher::text::trim;

fn strings(items: &[&str]) -> Vec<String> {
    items.iter().map(|s| String::from(*s)).collect()
}

#[test]
fn chars_and_text_convert_back_and_forth() {
    assert_eq!(chars_of("aö€"), vec!['a', 'ö', '€']);
    assert_eq!(text_of(&vec!['a', 'ö', '€']), "aö€");
    assert_eq!(text_of(&chars_of("")), "");
}

#[test]
fn concat_joins_in_order() {
    assert_eq!(properwatcher::text::concat("ab", "cd"), "abcd");
    assert_eq!(concat3("a", "", "c"), "ac");
}

#[test]
fn same_compares_characters() {
    assert!(same("abc", "abc"));
    assert!(!same("abc", "abd"));
    assert!(!same("abc", "ab"));
    assert!(same("", ""));
}

#[test]
fn contains_finds_equal_strings() {
    let list = strings(&["a", "b"]);
    assert!(contains(&list, "b"));
    assert!(!contains(&list, "c"));
    assert!(!contains(&vec![], "a"));
    assert_eq!(clone_strings(&list), list);
}

#[test]
fn occurs_and_find_locate_a_text() {
    let text = chars_of("abcabc");
    let pattern = chars_of("bc");
    assert!(occurs(&text, &pattern, 1));
    assert!(!occurs(&text, &pattern, 0));
    assert!(!occurs(&text, &pattern, 5));
    assert!(!occurs(&text, &pattern, 9));
    assert_eq!(find(&text, &pattern, 0), Some(1));
    assert_eq!(find(&text, &pattern, 2), Some(4));
    assert_eq!(find(&text, &pattern, 5), None);
    assert_eq!(find(&text, &pattern, 7), None);
    assert_eq!(find(&text, &chars_of("x"), 0), None);
    assert_eq!(find(&chars_of("a"), &chars_of("abc"), 0), None);
}

#[test]
fn replace_goes_from_left_to_right() {
    assert_eq!(replace("a\tb\tc", "\t", ""), "abc");
    assert_eq!(replace("aaa", "aa", "b"), "ba");
    assert_eq!(replace("idHitRowList777", "idHitRowList", ""), "777");
    assert_eq!(replace("Ort (Kreis)", "(Kreis)", ""), "Ort ");
    assert_eq!(replace("abc", "x", "y"), "abc");
    assert_eq!(replace("", "x", "y"), "");
    assert_eq!(replace("1&nbsp;€", "&nbsp;", " "), "1 €");
    assert_eq!(replace("abab", "ab", "abab"), "abababab");
}

#[test]
fn split_keeps_empty_pieces() {
    assert_eq!(split_text("a, b, c", ", "), strings(&["a", "b", "c"]));
    assert_eq!(split_text("abc", ", "), strings(&["abc"]));
    assert_eq!(split_text("", ","), strings(&[""]));
    assert_eq!(split_text(",a,,", ","), strings(&["", "a", "", ""]));
    assert_eq!(split_text("a\nb\n", "\n"), strings(&["a", "b", ""]));
}

#[test]
fn trim_removes_white_space_at_both_ends() {
    assert_eq!(trim("  a b \n"), "a b");
    assert_eq!(trim("\u{a0}\ta\u{2003}"), "a");
    assert_eq!(trim("   "), "");
    assert_eq!(trim(""), "");
    assert_eq!(trim("a"), "a");
}

#[test]
fn prefixes_and_suffixes_are_stripped() {
    assert_eq!(strip_prefixes("NEUNEUHaus", "NEU"), "Haus");
    assert_eq!(strip_prefixes("Haus NEU", "NEU"), "Haus NEU");
    assert_eq!(strip_prefixes("NEU", "NEU"), "");
    assert_eq!(strip_prefixes("NE", "NEU"), "NE");
    assert_eq!(strip_trailing("a,b,,", ','), "a,b");
    assert_eq!(strip_trailing(",,", ','), "");
    assert_eq!(strip_trailing("ab", ','), "ab");
}

#[test]
fn tail_after_takes_what_follows_the_last_separator() {
    assert_eq!(tail_after("https://host/immodetail/987", '/'), "987");
    assert_eq!(tail_after("987", '/'), "987");
    assert_eq!(tail_after("a/", '/'), "");
    assert_eq!(tail_after("", '/'), "");
}

#[test]
fn join_puts_the_separator_between_parts() {
    assert_eq!(join(&strings(&["a", "b", "c"]), ", "), "a, b, c");
    assert_eq!(join(&strings(&["a"]), ", "), "a");
    assert_eq!(join(&strings(&[]), ", "), "");
    assert_eq!(join(&strings(&["", ""]), ","), ",");
}

#[test]
fn strip_matches_removes_what_the_pattern_finds() {
    assert_eq!(strip_matches("[^0-9a-zA-Z]+", "this is% some title!"), "thisissometitle");
    assert_eq!(strip_matches("\\s*\\([^)]*\\)", "Ort (Kreis), Weg 3 (Hof)"), "Ort, Weg 3");
    assert_eq!(strip_matches("(", "a(b"), "a(b");
}

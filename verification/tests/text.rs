use zam::order::chars_less;
use zam::text::{
    chars_of, contains_seq, decimal_chars, find_char, find_seq, joined, last_segment_of, lowercase, padded_right, replaced, rfind_char, same_chars, split_lines, split_words, starts_with, string_of, stripped_leading, trimmed, trimmed_end, trimmed_start,
};

fn c(text: &str) -> Vec<char> {
    text.chars().collect()
}

fn strings(v: Vec<Vec<char>>) -> Vec<String> {
    v.iter().map(|x| x.iter().collect()).collect()
}

#[test]
fn strings_and_characters_convert_both_ways() {
    assert_eq!(chars_of("añ✓"), vec!['a', 'ñ', '✓']);
    assert_eq!(string_of(&vec!['a', 'ñ', '✓']), "añ✓");
    assert_eq!(string_of(&chars_of("")), "");
}

#[test]
fn trimming_removes_unicode_white_space() {
    assert_eq!(trimmed(&c(" \t\r\n x y \u{a0}\u{3000}")), c("x y"));
    assert_eq!(trimmed_start(&c("  x ")), c("x "));
    assert_eq!(trimmed_end(&c("  x ")), c("  x"));
    assert_eq!(trimmed(&c(" \n ")), c(""));
    assert_eq!(trimmed(&c("")), c(""));
    assert_eq!(trimmed(&c("\u{200b}x")), c("\u{200b}x"));
}

#[test]
fn finding_characters_and_texts() {
    assert_eq!(find_char(&c("a=b=c"), '='), 1);
    assert_eq!(find_char(&c("abc"), '='), 3);
    assert_eq!(rfind_char(&c("a.b.c"), '.'), Some(3));
    assert_eq!(rfind_char(&c("abc"), '.'), None);
    assert_eq!(find_seq(&c("xx alias alias "), &c("alias "), 0), Some(3));
    assert_eq!(find_seq(&c("xx alias alias "), &c("alias "), 4), Some(9));
    assert_eq!(find_seq(&c("xx alias"), &c("alias "), 0), None);
    assert_eq!(find_seq(&c("abc"), &c(""), 3), Some(3));
    assert_eq!(find_seq(&c("abc"), &c(""), 4), None);
    assert!(contains_seq(&c("git add"), &c("t a")));
    assert!(contains_seq(&c("git add"), &c("")));
    assert!(!contains_seq(&c("git add"), &c("ta")));
    assert!(starts_with(&c("plugins=(a)"), &c("plugins=(")));
    assert!(!starts_with(&c("plug"), &c("plugins=(")));
    assert!(same_chars(&c("abc"), &c("abc")));
    assert!(!same_chars(&c("abc"), &c("abd")));
    assert!(!same_chars(&c("abc"), &c("ab")));
}

#[test]
fn replacing_goes_from_left_to_right() {
    assert_eq!(replaced(&c("it'\\''s"), &c("'\\''"), &c("'")), c("it's"));
    assert_eq!(replaced(&c("aaa"), &c("aa"), &c("b")), c("ba"));
    assert_eq!(replaced(&c("abc"), &c(""), &c("x")), c("abc"));
    assert_eq!(replaced(&c("abc"), &c("abcd"), &c("x")), c("abc"));
}

#[test]
fn lines_end_at_line_feeds() {
    assert_eq!(strings(split_lines(&c("a\nb\r\nc"))), vec!["a", "b", "c"]);
    assert_eq!(strings(split_lines(&c("a\n"))), vec!["a"]);
    assert_eq!(strings(split_lines(&c("\n\na"))), vec!["", "", "a"]);
    assert_eq!(strings(split_lines(&c("a\r"))), vec!["a\r"]);
    assert_eq!(strings(split_lines(&c(""))), Vec::<String>::new());
}

#[test]
fn words_are_runs_without_white_space() {
    assert_eq!(strings(split_words(&c("  git  z\tdocker\n"))), vec!["git", "z", "docker"]);
    assert_eq!(strings(split_words(&c("   "))), Vec::<String>::new());
    assert_eq!(joined(&vec![c("a"), c("b c"), c("d")], &c(" ")), c("a b c d"));
    assert_eq!(joined(&vec![c("a")], &c(", ")), c("a"));
    assert_eq!(joined(&vec![], &c(", ")), c(""));
}

#[test]
fn segments_and_leading_runs() {
    assert_eq!(last_segment_of(&c("ls: command"), &c(": ")), c("command"));
    assert_eq!(last_segment_of(&c("a: b: c"), &c(": ")), c("c"));
    assert_eq!(last_segment_of(&c("nothing"), &c(": ")), c("nothing"));
    assert_eq!(stripped_leading(&c("### note"), '#'), c(" note"));
    assert_eq!(stripped_leading(&c("note"), '#'), c("note"));
}

#[test]
fn numbers_and_padding() {
    assert_eq!(decimal_chars(0), c("0"));
    assert_eq!(decimal_chars(7), c("7"));
    assert_eq!(decimal_chars(10), c("10"));
    assert_eq!(decimal_chars(1234567890), c("1234567890"));
    assert_eq!(padded_right(&c("ga"), 8), c("ga      "));
    assert_eq!(padded_right(&c("longername"), 8), c("longername"));
    assert_eq!(padded_right(&c(""), 0), c(""));
}

#[test]
fn names_are_ordered_by_code_point() {
    assert!(chars_less(&c("a"), &c("b")));
    assert!(chars_less(&c("a"), &c("ab")));
    assert!(chars_less(&c(""), &c("a")));
    assert!(chars_less(&c("Z"), &c("a")));
    assert!(!chars_less(&c("a"), &c("a")));
    assert!(!chars_less(&c("b"), &c("a")));
    assert!(chars_less(&c("z"), &c("é")));
    let mut names = vec!["gst", "ga", "g", "Z", "é", "ll"];
    names.sort();
    for i in 0..names.len() {
        for j in 0..names.len() {
            assert_eq!(chars_less(&c(names[i]), &c(names[j])), i < j);
        }
    }
}

#[test]
fn lower_case_follows_unicode() {
    assert_eq!(lowercase(""), "");
    assert_eq!(lowercase("Git STATUS"), "git status");
    assert_eq!(lowercase("ÀÉ"), "àé");
    assert_eq!(lowercase("ΟΔΟΣ"), "οδος");
    assert_eq!(lowercase("İ").chars().count(), 2);
    assert_eq!(lowercase("a_1 -x"), "a_1 -x");
}

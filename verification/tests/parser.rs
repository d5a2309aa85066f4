use zam::alias::parser::parse_alias_lines;

fn pairs(items: &[(&str, &str)]) -> Vec<(String, String)> {
    items.iter().map(|(n, c)| (n.to_string(), c.to_string())).collect()
}

#[test]
fn test_simple_alias() {
    let input = "ll=ls -la";
    let result = parse_alias_lines(input);
    assert_eq!(result, vec![("ll".into(), "ls -la".into())]);
}

#[test]
fn test_single_quoted() {
    let input = "gst='git status'";
    let result = parse_alias_lines(input);
    assert_eq!(result, vec![("gst".into(), "git status".into())]);
}

#[test]
fn test_ansi_c_quoting() {
    let input = "test=$'hello\\nworld'";
    let result = parse_alias_lines(input);
    assert_eq!(result, vec![("test".into(), "hello\nworld".into())]);
}

#[test]
fn test_double_quoted() {
    let input = r#"foo="bar \"baz\"""#;
    let result = parse_alias_lines(input);
    assert_eq!(result, vec![("foo".into(), "bar \"baz\"".into())]);
}

#[test]
fn test_embedded_equals() {
    let input = "gcmsg='git commit -m'";
    let result = parse_alias_lines(input);
    assert_eq!(result, vec![("gcmsg".into(), "git commit -m".into())]);
}

#[test]
fn test_multiple_lines() {
    let input = "ga='git add'\ngst='git status'\nll='ls -la'";
    let result = parse_alias_lines(input);
    assert_eq!(result.len(), 3);
    assert_eq!(result[0].0, "ga");
    assert_eq!(result[2].1, "ls -la");
}

#[test]
fn test_empty_lines_skipped() {
    let input = "\n\nga='git add'\n\n";
    let result = parse_alias_lines(input);
    assert_eq!(result.len(), 1);
}

#[test]
fn test_single_quote_escape() {
    let input = "test='it'\\''s working'";
    let result = parse_alias_lines(input);
    assert_eq!(result, vec![("test".into(), "it's working".into())]);
}

#[test]
fn ansi_c_escapes_are_all_undone() {
    let input = "x=$'\\n\\t\\r\\\\\\'\\\"\\a\\b\\e\\E\\f\\v'";
    let result = parse_alias_lines(input);
    assert_eq!(result, pairs(&[("x", "\n\t\r\\'\"\x07\x08\x1b\x1b\x0c\x0b")]));
}

#[test]
fn ansi_c_unknown_escape_and_trailing_backslash_are_kept() {
    let result = parse_alias_lines("x=$'a\\qb\\'");
    assert_eq!(result, pairs(&[("x", "a\\qb\\")]));
}

#[test]
fn double_quote_escapes() {
    let result = parse_alias_lines("x=\"a\\$b\\`c\\\\d\\qe\"");
    assert_eq!(result, pairs(&[("x", "a$b`c\\d\\qe")]));
}

#[test]
fn lines_without_a_definition_are_skipped() {
    let result = parse_alias_lines("no equals here\n=value\n  \t \nok=1\r\n  padded = 'v'  ");
    assert_eq!(result, pairs(&[("ok", "1"), ("padded", "v")]));
}

#[test]
fn empty_value_gives_empty_command() {
    assert_eq!(parse_alias_lines("e=\nf=   "), pairs(&[("e", ""), ("f", "")]));
}

#[test]
fn quotes_may_stand_around_nothing() {
    assert_eq!(parse_alias_lines("a=$''\nd=''\ne=\"\""), pairs(&[("a", ""), ("d", ""), ("e", "")]));
}

#[test]
fn lone_quotes_are_taken_as_they_stand() {
    assert_eq!(
        parse_alias_lines("a=$'\nb='\nc=\"\nd=$\ne=$'x"),
        pairs(&[("a", "$'"), ("b", "'"), ("c", "\""), ("d", "$"), ("e", "$'x")])
    );
}

#[test]
fn order_of_lines_is_kept() {
    let result = parse_alias_lines("z=1\n\na=2\nm=3\n");
    assert_eq!(result, pairs(&[("z", "1"), ("a", "2"), ("m", "3")]));
}

#[test]
fn non_ascii_text_survives() {
    let result = parse_alias_lines("grüß='echo ✓ — done'");
    assert_eq!(result, pairs(&[("grüß", "echo ✓ — done")]));
}

#[test]
fn a_text_is_parsed_line_by_line() {
    let first = "ll=ls -la\n\ngst='git status'\n";
    let second = "noequals\nfoo=\"bar\"\r\n  \nlast=$'a\\tb'";
    let mut both = parse_alias_lines(first);
    both.extend(parse_alias_lines(second));
    assert_eq!(parse_alias_lines(&format!("{}{}", first, second)), both);
    assert_eq!(both.len(), 4);
    assert_eq!(parse_alias_lines(&format!("{}{}", second, "\n")), parse_alias_lines(second));
}

use flf::absolute_ignore::add_parent_to_ignore_pattern;
use flf::absolute_ignore::filter_ignore_line;
use flf::absolute_ignore::parse_ignore_pattern;
use flf::absolute_ignore::read_patterns_from_lines;
use flf::absolute_ignore::strip_trailing_whitespaces;
use flf::absolute_ignore::IgnorePattern;
use flf::absolute_ignore::RuleBodyError;

fn assert_pattern(base_path: &str, input: &str, expected_output: &str) {
    assert_eq!(
        &add_parent_to_ignore_pattern(base_path, parse_ignore_pattern(input)),
        expected_output
    );
}

#[test]
fn test_add_parent_to_ignore_pattern() {
    let path = "foo/bar";

    assert_pattern(path, "/foobar", "foo/bar/foobar");
    assert_pattern(path, "/foobar/", "foo/bar/foobar/");
    assert_pattern(path, "foobar", "foo/bar/**/foobar");
    assert_pattern(path, "!/foobar", "!foo/bar/foobar");
    assert_pattern(path, "!foobar", "!foo/bar/**/foobar");

    assert_pattern("/foo/bar", "/foobar", "/foo/bar/foobar");
    assert_pattern("./foo/bar", "/foobar", "./foo/bar/foobar");
}

fn assert_parse(pattern: &str, negated: bool, absolute: bool, body: &str) {
    assert_eq!(
        parse_ignore_pattern(pattern),
        IgnorePattern { negated, absolute, pattern_body: body }
    );
}

#[test]
fn test_parse_ignore_pattern() {
    assert_parse("foo", false, false, "foo");
    assert_parse("!foo", true, false, "foo");
    assert_parse("!/foo", true, true, "foo");
    assert_parse("/foo", false, true, "foo");
    assert_parse("foo/bar", false, true, "foo/bar");
    assert_parse("foo/", false, false, "foo/");
}

fn assert_filter(line: &str, result: bool) {
    assert_eq!(filter_ignore_line(line), result);
}

#[test]
fn test_filter_ignore_line() {
    assert_filter("", false);
    assert_filter("# pattern", false);
    assert_filter("\\#pattern", true);
    assert_filter(" ", false);
    assert_filter(" foo", true);
    assert_filter(" #foo", true);
}

fn assert_strip(line: &str, result: &str) {
    assert_eq!(strip_trailing_whitespaces(line), result);
}

#[test]
fn test_strip_trailing_whitespaces() {
    assert_strip("", "");
    assert_strip(" ", "");
    assert_strip("  ", "");
    assert_strip("\\ ", "\\ ");
    assert_strip("\\ \\ ", "\\ \\ ");
    assert_strip("\\  ", "\\ ");
    assert_strip("\\", "\\");
    assert_strip("foo bar", "foo bar");
    assert_strip(" foo bar", " foo bar");
    assert_strip("foo bar ", "foo bar");
}

#[test]
fn test_strip_is_idempotent_on_examples() {
    let inputs = ["", " ", "\\  ", "\\ \\ ", "foo bar ", "foo  ", "a \\ ", "   \\"];
    for input in inputs {
        let once = strip_trailing_whitespaces(input);
        let twice = strip_trailing_whitespaces(once);
        assert_eq!(once, twice);
    }
}

#[test]
fn test_read_patterns_from_lines() {
    let lines: Vec<String> = ["foo", "/foo", "foo/"].iter().map(|l| l.to_string()).collect();
    let patterns = read_patterns_from_lines(&lines, "dir").unwrap();
    assert_eq!(patterns, ["dir/**/foo", "dir/foo", "dir/**/foo/"]);
}

#[test]
fn test_read_patterns_skips_comments_and_blanks() {
    let lines: Vec<String> = ["# comment", "", "   ", "foo ", "!bar"]
        .iter()
        .map(|l| l.to_string())
        .collect();
    let patterns = read_patterns_from_lines(&lines, "dir").unwrap();
    assert_eq!(patterns, ["dir/**/foo", "!dir/**/bar"]);
}

#[test]
fn test_read_patterns_rejects_bad_rule_body() {
    let lines: Vec<String> = ["foo", "!", "bar"].iter().map(|l| l.to_string()).collect();
    let err = read_patterns_from_lines(&lines, "dir").unwrap_err();
    assert_eq!(err, RuleBodyError { line_index: 1 });

    let lines: Vec<String> = ["/"].iter().map(|l| l.to_string()).collect();
    let err = read_patterns_from_lines(&lines, "dir").unwrap_err();
    assert_eq!(err, RuleBodyError { line_index: 0 });
}

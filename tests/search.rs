use grep::cli::{exit_code, operands, reads_stdin, EXIT_ERROR, EXIT_FOUND, EXIT_NOT_FOUND};
use grep::error::{file_error, read_error, GrepError};
use grep::matcher::{grep_source, search, select_lines, ReadOutcome};
use grep::text::{chars_of, contains, split_lines};

fn found(what: &str, content: &str, icase: bool) -> Result<bool, GrepError> {
    let r = grep_source(what, "tmp", ReadOutcome::Content(content.to_string()), icase);
    r.map(|lines| !lines.is_empty())
}

#[test]
fn test_basic() {
    let res = found("bbb", "aaa\nbbb\nccc\n", false);
    assert!(res.is_ok() && res.unwrap() == true);
}

#[test]
fn test_ignore_case() {
    let res = found("bbb", "aaa\nbbb\nccc\n", true);
    assert!(res.is_ok() && res.unwrap() == true);
}

#[test]
fn basic_containment_reports_the_one_line() {
    let r = grep_source("bbb", "f", ReadOutcome::Content("aaa\nbbb\nccc".to_string()), false);
    assert_eq!(r, Ok(vec!["bbb".to_string()]));
}

#[test]
fn uppercase_pattern_is_lowercased() {
    assert_eq!(search("BBB", "aaa\nbbb\nccc", true), vec!["bbb".to_string()]);
    assert_eq!(search("BBB", "aaa\nbbb\nccc", false), Vec::<String>::new());
}

#[test]
fn lines_are_compared_as_they_stand() {
    assert_eq!(search("bbb", "aaa\nBBB\nccc", true), Vec::<String>::new());
    assert_eq!(search("Bb", "xBBy\nabbc", true), vec!["abbc".to_string()]);
}

#[test]
fn no_match_reports_nothing() {
    let r = grep_source("zzz", "f", ReadOutcome::Content("aaa\nbbb\nccc".to_string()), false);
    assert_eq!(r, Ok(Vec::<String>::new()));
    assert_eq!(found("zzz", "aaa\nbbb\nccc", false), Ok(false));
}

#[test]
fn empty_pattern_reports_every_line() {
    let lines = search("", "aaa\nbbb\nccc\n", false);
    assert_eq!(lines, vec!["aaa", "bbb", "ccc", ""]);
    let lines = search("", "x\n\ny", true);
    assert_eq!(lines, vec!["x", "", "y"]);
}

#[test]
fn open_failure_is_a_file_error() {
    let r = grep_source(
        "bbb",
        "/no/such/file",
        ReadOutcome::OpenFailed("No such file or directory (os error 2)".to_string()),
        false,
    );
    assert_eq!(
        r,
        Err(GrepError::File(
            "couldn't open /no/such/file: No such file or directory (os error 2)".to_string()
        ))
    );
}

#[test]
fn read_failure_is_a_read_error() {
    let r = grep_source("bbb", "f", ReadOutcome::ReadFailed("InvalidData".to_string()), true);
    assert_eq!(r, Err(GrepError::Read("couldn't read: InvalidData".to_string())));
}

#[test]
fn every_match_is_reported_in_order() {
    let lines = search("foo", "foo\nfoobar\nbaz\nfoo", false);
    assert_eq!(lines, vec!["foo", "foobar", "foo"]);
}

#[test]
fn repeated_searches_agree() {
    let content = "Alpha\nbeta\nalphabet\n\ngamma alpha";
    let first = search("ALPHA", content, true);
    let second = search("ALPHA", content, true);
    assert_eq!(first, second);
    assert_eq!(first, vec!["alphabet", "gamma alpha"]);
}

#[test]
fn split_keeps_empty_lines() {
    let text = chars_of("a\n\nbc\n");
    let lines = split_lines(&text);
    assert_eq!(lines, vec![vec!['a'], vec![], vec!['b', 'c'], vec![]]);
    assert_eq!(split_lines(&Vec::new()), vec![Vec::<char>::new()]);
    assert_eq!(split_lines(&vec!['\r', '\n']), vec![vec!['\r'], vec![]]);
}

#[test]
fn containment_checks_every_position() {
    assert!(contains(&chars_of("abcabd"), &chars_of("abd")));
    assert!(contains(&chars_of("abc"), &chars_of("abc")));
    assert!(contains(&chars_of("abc"), &chars_of("")));
    assert!(contains(&chars_of(""), &chars_of("")));
    assert!(!contains(&chars_of("ab"), &chars_of("abc")));
    assert!(!contains(&chars_of("abcab"), &chars_of("ba")));
}

#[test]
fn select_keeps_lines_unchanged() {
    assert_eq!(select_lines("Grüße\nnein\nüber", "ü"), vec!["Grüße", "über"]);
}

#[test]
fn unicode_pattern_is_lowercased() {
    assert_eq!(search("ÜBER", "über alles\nÜBER", true), vec!["über alles"]);
}

#[test]
fn error_messages() {
    assert_eq!(file_error("a.txt", "denied").message(), "couldn't open a.txt: denied");
    assert_eq!(read_error("bad").message(), "couldn't read: bad");
}

#[test]
fn exit_codes() {
    assert_eq!(exit_code(&Ok(true)), EXIT_FOUND);
    assert_eq!(exit_code(&Ok(false)), EXIT_NOT_FOUND);
    assert_eq!(exit_code(&Err(read_error("x"))), EXIT_ERROR);
    assert_eq!((EXIT_FOUND, EXIT_NOT_FOUND, EXIT_ERROR), (0, 1, 2));
}

#[test]
fn operands_default_to_stdin() {
    let one = vec!["pat".to_string()];
    assert_eq!(operands(&one), Some(("pat".to_string(), "-".to_string())));
    let two = vec!["pat".to_string(), "file".to_string()];
    assert_eq!(operands(&two), Some(("pat".to_string(), "file".to_string())));
    assert_eq!(operands(&Vec::new()), None);
    let three = vec!["a".to_string(), "b".to_string(), "c".to_string()];
    assert_eq!(operands(&three), None);
}

#[test]
fn dash_names_stdin() {
    assert!(reads_stdin("-"));
    assert!(!reads_stdin("--"));
    assert!(!reads_stdin(""));
    assert!(!reads_stdin("a"));
}

use binup::matcher::{Matcher, PatternError};

fn matcher(pattern: &str) -> Matcher {
    Matcher::new(pattern).unwrap()
}

#[test]
fn tilde_selects_a_regular_expression() {
    assert!(matches!(matcher("~^tool-.*$"), Matcher::Regex(_)));
    assert!(matches!(matcher("tool-*"), Matcher::Glob(_)));
    assert!(matches!(matcher(""), Matcher::Glob(_)));
    assert!(matches!(matcher("~"), Matcher::Regex(_)));
}

#[test]
fn regex_matches_anywhere() {
    let m = matcher("~linux");
    assert!(m.matches("tool-linux-x64.tar.gz"));
    assert!(!m.matches("tool-macos-x64.tar.gz"));
    let anchored = matcher("~^bin/tool$");
    assert!(anchored.matches("bin/tool"));
    assert!(!anchored.matches("usr/bin/tool"));
    assert!(!matcher("~~").matches("a"));
    assert!(matcher("~~").matches("a~b"));
}

#[test]
fn glob_matches_the_whole_path() {
    let m = matcher("tool-*");
    assert!(m.matches("tool-linux"));
    assert!(!m.matches("a-tool-linux"));
    assert!(!m.matches("tool"));
}

#[test]
fn glob_star_does_not_cross_a_separator() {
    let m = matcher("*.txt");
    assert!(m.matches("b.txt"));
    assert!(!m.matches("a/b.txt"));
    let m = matcher("*/tool");
    assert!(m.matches("bin/tool"));
    assert!(!m.matches("usr/bin/tool"));
    assert!(matcher("**/tool").matches("usr/bin/tool"));
    assert!(!matcher("a?b").matches("a/b"));
}

#[test]
fn glob_backslash_escapes() {
    let m = matcher("a\\*b");
    assert!(m.matches("a*b"));
    assert!(!m.matches("axb"));
    assert!(!m.matches("a\\xb"));
}

#[test]
fn bad_patterns_are_refused_when_compiled() {
    assert!(matches!(Matcher::new("~("), Err(PatternError::Regex(_))));
    assert!(matches!(Matcher::new("~a{2,1}"), Err(PatternError::Regex(_))));
    assert!(matches!(Matcher::new("[abc"), Err(PatternError::Glob(_))));
    assert!(matches!(Matcher::new("{a,b"), Err(PatternError::Glob(_))));
    let message = Matcher::new("~(").unwrap_err().message();
    assert!(!message.is_empty());
    let message = Matcher::new("[abc").unwrap_err().message();
    assert!(message.contains("[abc"), "{message}");
}

#[test]
fn to_string_gives_the_pattern_back() {
    for pattern in ["~^tool-.*$", "tool-*", "", "~", "**/bin/{a,b}", "~a|b", "a\\~", "~~x"] {
        assert_eq!(matcher(pattern).to_string(), pattern);
    }
}

#[test]
fn round_trip_keeps_the_matches() {
    let paths = [
        "tool", "bin/tool", "usr/bin/tool", "tool.txt", "a/b.txt", "tool-linux-x64.tar.gz", "",
        "a*b", "x~y",
    ];
    for pattern in ["~^tool", "~bin/.*\\.txt$", "tool*", "*.txt", "**/tool", "*/tool", "~~", "a\\*b"]
    {
        let first = matcher(pattern);
        let second = matcher(&first.to_string());
        assert!(first.same(&second));
        assert_eq!(first, second);
        for path in paths {
            assert_eq!(first.matches(path), second.matches(path), "{pattern} on {path}");
            assert_eq!(
                first.matches_bytes(path.as_bytes()),
                first.matches(path),
                "{pattern} on {path}"
            );
        }
    }
}

#[test]
fn same_compares_kind_and_pattern() {
    assert!(matcher("tool").same(&matcher("tool")));
    assert!(!matcher("tool").same(&matcher("~tool")));
    assert!(!matcher("~tool").same(&matcher("~tool$")));
    assert!(matcher("~tool").same(&matcher("~tool").clone()));
}

#[test]
fn paths_that_are_no_text() {
    let path = [b'b', b'i', b'n', b'/', 0xff, b'o'];
    assert!(!matcher("~bin").matches_bytes(&path));
    assert!(!matcher("~.*").matches_bytes(&path));
    assert!(matcher("bin/*").matches_bytes(&path));
    assert!(!matcher("*").matches_bytes(&path));
    assert!(matcher("~bin").matches_bytes(b"bin/tool"));
}

fn nested(depth: usize) -> String {
    let mut pattern = String::new();
    for _ in 0..depth {
        pattern.push_str("{a,");
    }
    pattern.push('a');
    for _ in 0..depth {
        pattern.push('}');
    }
    pattern
}

#[test]
fn nested_groups_match() {
    let m = matcher(&nested(3));
    assert!(m.matches("a"));
    assert!(!m.matches("b"));
    assert!(!m.matches("aa"));
    assert!(matcher("{a,b{c,d}}e").matches("bde"));
}

#[test]
fn deeply_nested_globs_are_refused() {
    // Fifty groups nest within what the regex crate lets nest.
    assert!(matcher(&nested(50)).matches("a"));
    for depth in [130, 200, 250, 251, 1_000, 100_000] {
        let result = Matcher::new(&nested(depth));
        assert!(matches!(result, Err(PatternError::Glob(_))), "{depth}");
    }
    assert_eq!(
        Matcher::new(&nested(251)).unwrap_err().message(),
        "The glob opens more than 250 groups in braces"
    );
}

#[test]
fn globs_with_many_groups_are_refused() {
    let groups = |count: usize| "{a,b}".repeat(count);
    assert!(Matcher::new(&groups(250)).is_ok());
    assert!(matches!(Matcher::new(&groups(251)), Err(PatternError::Glob(_))));
    // An escaped brace opens no group, and is counted all the same.
    assert!(Matcher::new(&"\\{".repeat(250)).is_ok());
    assert!(matches!(Matcher::new(&"\\{".repeat(251)), Err(PatternError::Glob(_))));
}

#[test]
fn huge_globs_are_refused() {
    let pattern = "a".repeat(4_000_000);
    assert!(matches!(Matcher::new(&pattern), Err(PatternError::Glob(_))));
}

#[test]
fn glob_dot_and_line_breaks() {
    assert!(matcher("a*b").matches("a\nb"));
    assert!(matcher("**/b").matches("a\n/b"));
    assert!(matcher("a?b").matches("a.b"));
    assert!(!matcher("a.b").matches("axb"));
    assert!(matcher("[a-c]x").matches("bx"));
    assert!(!matcher("[!a-c]x").matches("bx"));
    assert!(matcher("é*").matches("été"));
}

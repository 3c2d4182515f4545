use sshchic::pattern::{effective_pattern, Pattern, PatternError};

#[test]
fn case_insensitive_flag_matches_other_case() {
    let insensitive = Pattern::new("abc", true).unwrap();
    assert!(insensitive.is_match("ABC"));
    let plain = Pattern::new("abc", false).unwrap();
    assert!(!plain.is_match("ABC"));
    assert!(plain.is_match("xabcx"));
}

#[test]
fn effective_pattern_adds_flag_only_when_asked() {
    assert_eq!(effective_pattern("^A", true), "(?i)^A");
    assert_eq!(effective_pattern("^A", false), "^A");
    assert_eq!(Pattern::new("x+", true).unwrap().as_str(), "(?i)x+");
}

#[test]
fn invalid_pattern_is_rejected() {
    match Pattern::new("(unclosed", false) {
        Err(PatternError::Invalid { source, message }) => {
            assert_eq!(source, "(unclosed");
            assert!(!message.is_empty());
        }
        Ok(_) => panic!("an unclosed group must not compile"),
    }
    match Pattern::new("(unclosed", true) {
        Err(PatternError::Invalid { source, .. }) => assert_eq!(source, "(?i)(unclosed"),
        Ok(_) => panic!("an unclosed group must not compile"),
    }
}

#[test]
fn anchored_pattern() {
    let p = Pattern::new("^A", false).unwrap();
    assert!(p.is_match("ABC"));
    assert!(!p.is_match("BAC"));
    assert!(!p.is_match(""));
}

use artlink::text::{split_lines, str_contains, str_eq};

#[test]
fn str_eq_compares_by_characters() {
    assert!(str_eq("twitter.com", "twitter.com"));
    assert!(!str_eq("twitter.com", "twitter.co"));
    assert!(!str_eq("", "a"));
    assert!(str_eq("", ""));
    assert!(str_eq("naïve", "naïve"));
    assert!(!str_eq("naïve", "naive"));
}

#[test]
fn str_contains_finds_runs() {
    assert!(str_contains("pbs.twitter.com.example", "twitter.com"));
    assert!(str_contains("x.com", "x.com"));
    assert!(!str_contains("twitter.co", "twitter.com"));
    assert!(str_contains("anything", ""));
    assert!(!str_contains("", "a"));
}

#[test]
fn split_lines_drops_empties_and_carriage_returns() {
    let lines = split_lines("one\r\n\r\ntwo\nthree\r");
    let texts: Vec<&str> = lines.iter().map(|s| s.as_str()).collect();
    assert_eq!(texts, vec!["one", "two", "three"]);
    assert!(split_lines("").is_empty());
    assert!(split_lines("\n\r\n\n").is_empty());
}

use artlink::error::ParseErrorKind;
use artlink::registry::{Art, ArtKind, Registry};

#[test]
fn parse_counts_lines_and_kinds() {
    let text = "https://twitter.com/artist/status/1\nhttps://safebooru.org/index.php?page=post&s=view&id=5\n";
    let reg = Registry::parse(text).unwrap();
    assert_eq!(reg.len(), 2);
    assert!(matches!(reg.entry(0).kind, ArtKind::Twitter));
    assert!(matches!(reg.entry(1).kind, ArtKind::Safebooru));
    assert_eq!(reg.entry(0).url.host, "twitter.com");
    assert_eq!(reg.entry(1).url.host, "safebooru.org");
}

#[test]
fn parse_skips_blank_lines_and_carriage_returns() {
    let text = "https://twitter.com/a/status/1\r\n\r\n\nhttps://twitter.com/b/status/2";
    let reg = Registry::parse(text).unwrap();
    assert_eq!(reg.len(), 2);
    assert_eq!(reg.entry(0).url.text, "https://twitter.com/a/status/1");
    assert_eq!(reg.entry(1).url.text, "https://twitter.com/b/status/2");
}

#[test]
fn parse_keeps_duplicates() {
    let text = "https://twitter.com/a/status/1\nhttps://twitter.com/a/status/1";
    let reg = Registry::parse(text).unwrap();
    assert_eq!(reg.len(), 2);
}

#[test]
fn parse_rejects_a_line_that_is_no_url() {
    let err = Registry::parse("not a url at all").unwrap_err();
    assert!(matches!(err.kind, ParseErrorKind::InvalidUrl));
    assert_eq!(err.line, "not a url at all");
}

#[test]
fn parse_rejects_a_relative_url() {
    let err = Registry::parse("/just/a/path").unwrap_err();
    assert!(matches!(err.kind, ParseErrorKind::InvalidUrl));
}

#[test]
fn parse_rejects_an_unknown_host() {
    let err = Registry::parse("https://example.com/art/1").unwrap_err();
    assert!(matches!(err.kind, ParseErrorKind::UnknownHost));
    assert_eq!(err.line, "https://example.com/art/1");
    assert_eq!(err.message(), "not support website");
}

#[test]
fn parse_reports_the_first_bad_line() {
    let text = "https://twitter.com/a/status/1\nhttps://example.com/x\nalso not good";
    let err = Registry::parse(text).unwrap_err();
    assert!(matches!(err.kind, ParseErrorKind::UnknownHost));
    assert_eq!(err.line, "https://example.com/x");
}

#[test]
fn from_line_extracts_the_parts() {
    let art = Art::from_line("https://safebooru.org/index.php?page=post&s=view&id=77").unwrap();
    assert_eq!(art.url.scheme, "https");
    assert_eq!(art.url.host, "safebooru.org");
    assert_eq!(art.url.path, "/index.php");
    assert_eq!(art.url.query.as_deref(), Some("page=post&s=view&id=77"));
    assert!(matches!(art.kind, ArtKind::Safebooru));
}

#[test]
fn reload_appends_only_unknown_urls() {
    let mut reg = Registry::parse("https://twitter.com/a/status/1").unwrap();
    reg.reload("https://twitter.com/a/status/1\nhttps://twitter.com/b/status/2").unwrap();
    assert_eq!(reg.len(), 2);
    assert_eq!(reg.entry(0).url.text, "https://twitter.com/a/status/1");
    assert_eq!(reg.entry(1).url.text, "https://twitter.com/b/status/2");
}

#[test]
fn reload_twice_changes_nothing_the_second_time() {
    let text = "https://twitter.com/a/status/1\nhttps://safebooru.org/index.php?page=post&s=view&id=5";
    let mut reg = Registry::parse("https://twitter.com/a/status/1").unwrap();
    reg.reload(text).unwrap();
    let after_first = reg.len();
    reg.reload(text).unwrap();
    assert_eq!(reg.len(), after_first);
    assert_eq!(reg.entry(0).url.text, "https://twitter.com/a/status/1");
    assert_eq!(reg.entry(1).url.text, "https://safebooru.org/index.php?page=post&s=view&id=5");
}

#[test]
fn reload_keeps_what_was_known_before() {
    let mut reg = Registry::parse("https://twitter.com/a/status/1\nhttps://twitter.com/b/status/2")
        .unwrap();
    reg.reload("https://twitter.com/c/status/3").unwrap();
    assert_eq!(reg.len(), 3);
    assert_eq!(reg.entry(0).url.text, "https://twitter.com/a/status/1");
    assert_eq!(reg.entry(1).url.text, "https://twitter.com/b/status/2");
    assert_eq!(reg.entry(2).url.text, "https://twitter.com/c/status/3");
}

#[test]
fn reload_applies_lines_up_to_the_first_bad_one() {
    let mut reg = Registry::parse("https://twitter.com/a/status/1").unwrap();
    let err = reg
        .reload("https://twitter.com/b/status/2\nhttps://example.com/x\nhttps://twitter.com/c/status/3")
        .unwrap_err();
    assert!(matches!(err.kind, ParseErrorKind::UnknownHost));
    assert_eq!(reg.len(), 2);
    assert_eq!(reg.entry(1).url.text, "https://twitter.com/b/status/2");
}

#[test]
fn pick_random_is_roughly_uniform_and_in_range() {
    let text = "https://twitter.com/a/status/1\nhttps://twitter.com/b/status/2\nhttps://twitter.com/c/status/3";
    let reg = Registry::parse(text).unwrap();
    let mut counts = [0usize; 3];
    let rounds = 3000;
    for _ in 0..rounds {
        let art = reg.pick_random();
        let mut found = false;
        for i in 0..reg.len() {
            if reg.entry(i).url.text == art.url.text {
                counts[i] += 1;
                found = true;
                break;
            }
        }
        assert!(found, "picked an entry that is not in the registry");
    }
    for &c in counts.iter() {
        assert!(c > rounds / 3 - rounds / 6, "count {c} too far below uniform");
        assert!(c < rounds / 3 + rounds / 6, "count {c} too far above uniform");
    }
}

use ic_http_lb::text::{decimal, join, join3, same_text};
use ic_http_lb::time::TimeSpan;
use ic_http_lb::uri::{BackendUrl, InvalidUri, InvalidUrl};

#[test]
fn urls_are_normalized() {
    let url = BackendUrl::parse("HTTP://Example.COM:80/a/../b").unwrap();
    assert_eq!(url.as_str(), "http://example.com/b");
    assert_eq!(url.scheme(), "http");
    assert_eq!(url.authority(), "example.com");

    let url = BackendUrl::parse("https://u:p@example.com:444").unwrap();
    assert_eq!(url.as_str(), "https://u:p@example.com:444/");
    assert_eq!(url.authority(), "u:p@example.com:444");
}

#[test]
fn texts_that_are_no_urls_are_refused() {
    assert_eq!(BackendUrl::parse("").unwrap_err(), InvalidUrl);
    assert_eq!(BackendUrl::parse("/relative").unwrap_err(), InvalidUrl);
    assert_eq!(BackendUrl::parse("http://a:b:c").unwrap_err(), InvalidUrl);
}

#[test]
fn paths_replace_that_of_the_url() {
    let url = BackendUrl::parse("http://example.com/base").unwrap();
    let cases = vec![
        ("/", "http://example.com/"),
        ("", "http://example.com/"),
        ("?q=1", "http://example.com/?q=1"),
        ("?", "http://example.com/?"),
        ("/a?b#c", "http://example.com/a?b"),
        ("#c", "http://example.com/"),
        ("/a/b", "http://example.com/a/b"),
        ("*", "http://example.com*"),
    ];
    for (path, uri) in cases {
        assert_eq!(url.with_path(path).unwrap(), uri);
    }
    assert!(matches!(url.with_path("/\n"), Err(InvalidUri(_))));
}

#[test]
fn numbers_are_written_in_decimal() {
    assert_eq!(decimal(0), "0");
    assert_eq!(decimal(9), "9");
    assert_eq!(decimal(10), "10");
    assert_eq!(decimal(1234567890), "1234567890");
    assert_eq!(decimal(u64::MAX), "18446744073709551615");
}

#[test]
fn texts_are_joined_and_compared() {
    assert_eq!(join("a", "b"), "ab");
    assert_eq!(join3("a", "", "c"), "ac");
    assert!(same_text("\u{e9}", "\u{e9}"));
    assert!(!same_text("a", "A"));
}

#[test]
fn spans_are_split_into_seconds_and_the_rest() {
    let span = TimeSpan::from_millis(1_500);
    assert_eq!(span, TimeSpan::new(1, 500_000_000));
    assert_eq!(span.as_secs(), 1);
    assert_eq!(span.subsec_nanos(), 500_000_000);
    assert_eq!(TimeSpan::zero(), TimeSpan::from_secs(0));
}

#[test]
fn spans_are_doubled_until_they_are_too_long() {
    assert_eq!(TimeSpan::new(1, 600_000_000).doubled(), TimeSpan::new(3, 200_000_000));
    assert_eq!(TimeSpan::from_millis(50).doubled(), TimeSpan::from_millis(100));
    let long = TimeSpan::new(u64::MAX / 2, 999_999_999);
    assert!(long.can_double());
    assert_eq!(long.doubled(), TimeSpan::new(u64::MAX, 999_999_998));
    assert!(!TimeSpan::from_secs(u64::MAX / 2 + 1).can_double());
}

#[test]
fn spans_are_compared() {
    assert!(TimeSpan::new(1, 1).exceeds(&TimeSpan::from_secs(1)));
    assert!(!TimeSpan::from_secs(1).exceeds(&TimeSpan::from_millis(1_000)));
    assert!(!TimeSpan::new(1, 1).exceeds(&TimeSpan::new(2, 0)));
}

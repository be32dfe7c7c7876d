use std::collections::HashMap;

use urltemplate::sanity::{accepts_scheme, check_url};
use urltemplate::scan::scan;
use urltemplate::text::{same_text, utf8_width};
use urltemplate::{UrlTemplateError, UrlTemplateErrorKind};

#[test]
fn widths_of_characters() {
    assert_eq!(utf8_width('\0'), 1);
    assert_eq!(utf8_width('{'), 1);
    assert_eq!(utf8_width('\u{7f}'), 1);
    assert_eq!(utf8_width('\u{80}'), 2);
    assert_eq!(utf8_width('\u{e9}'), 2);
    assert_eq!(utf8_width('\u{7ff}'), 2);
    assert_eq!(utf8_width('\u{800}'), 3);
    assert_eq!(utf8_width('\u{20ac}'), 3);
    assert_eq!(utf8_width('\u{d7ff}'), 3);
    assert_eq!(utf8_width('\u{e000}'), 3);
    assert_eq!(utf8_width('\u{ffff}'), 3);
    assert_eq!(utf8_width('\u{10000}'), 4);
    assert_eq!(utf8_width('\u{1F600}'), 4);
    assert_eq!(utf8_width('\u{10ffff}'), 4);
    for c in ['a', '\u{e9}', '\u{20ac}', '\u{1F600}'] {
        assert_eq!(utf8_width(c), c.len_utf8());
    }
}

#[test]
fn texts_are_the_same_when_their_characters_are() {
    assert!(same_text("", ""));
    assert!(same_text("http", "http"));
    assert!(same_text("caf\u{e9}", "caf\u{e9}"));
    assert!(!same_text("http", "https"));
    assert!(!same_text("https", "http"));
    assert!(!same_text("http", "httq"));
    assert!(!same_text("http", "HTTP"));
    assert!(!same_text("", "a"));
    assert!(!same_text("cafe\u{301}", "caf\u{e9}"));
}

#[test]
fn the_two_web_schemes() {
    assert!(accepts_scheme("http"));
    assert!(accepts_scheme("https"));
    for scheme in ["", "h", "htt", "httpx", "httpss", "HTTP", "Https", "ftp", "file", "data", "ws", "wss", " http", "http "] {
        assert!(!accepts_scheme(scheme), "{}", scheme);
    }
}

#[test]
fn the_sanity_check() {
    assert_eq!(check_url("http://google.com"), Ok(()));
    assert_eq!(check_url("https://google.com/?a={b}&c={d"), Ok(()));
    assert_eq!(check_url("  http://google.com  "), Ok(()));
    assert_eq!(check_url("hTTps://google.com"), Ok(()));
    assert_eq!(
        check_url("data:text/plain,Hello?World#"),
        Err(UrlTemplateError::from((UrlTemplateErrorKind::InvalidScheme, 0)))
    );
    assert_eq!(
        check_url("Ôunfortunately"),
        Err(UrlTemplateError::from((UrlTemplateErrorKind::IsNotAnUrl, 0)))
    );
    assert_eq!(check_url(""), Err(UrlTemplateError::from(UrlTemplateErrorKind::IsNotAnUrl)));
    assert_eq!(
        check_url("http://example.com:port/"),
        Err(UrlTemplateError::from(UrlTemplateErrorKind::IsNotAnUrl))
    );
}

#[test]
fn the_scan_reads_any_text() {
    let mut params = HashMap::new();
    params.insert("who".to_string(), "world".to_string());
    assert_eq!(scan("", &params), Ok(String::new()));
    assert_eq!(scan("hello, {who}!", &params), Ok("hello, world!".to_string()));
    assert_eq!(scan("{who}{who}", &params), Ok("worldworld".to_string()));
    assert_eq!(scan("{whom}", &params), Ok(String::new()));
    assert_eq!(scan("no braces", &params), Ok("no braces".to_string()));
    assert_eq!(
        scan("{", &params),
        Err(UrlTemplateError::from((UrlTemplateErrorKind::InvalidPattern, 0)))
    );
    assert_eq!(
        scan("}", &params),
        Err(UrlTemplateError::from((UrlTemplateErrorKind::InvalidPattern, 0)))
    );
    assert_eq!(
        scan("\u{e9}{a{", &params),
        Err(UrlTemplateError::from((UrlTemplateErrorKind::InvalidPattern, 4)))
    );
    assert_eq!(
        scan("{who}{\u{20ac}", &params),
        Err(UrlTemplateError::from((UrlTemplateErrorKind::InvalidPattern, 8)))
    );
}

#[test]
fn scans_of_joined_texts() {
    let mut params = HashMap::new();
    params.insert("a".to_string(), "1".to_string());
    let head = "x\u{e9}{a}y";
    let head_out = scan(head, &params).expect("whole");
    assert_eq!(head_out, "x\u{e9}1y");
    for tail in ["", "z", "{a}", "{b}", "{a}{a}z"] {
        let joined = format!("{}{}", head, tail);
        let tail_out = scan(tail, &params).expect("whole");
        assert_eq!(scan(&joined, &params), Ok(format!("{}{}", head_out, tail_out)));
    }
    for tail in ["}", "{a", "z{a{", "{a}}"] {
        let joined = format!("{}{}", head, tail);
        let failure = scan(tail, &params).unwrap_err();
        assert_eq!(
            scan(&joined, &params),
            Err(UrlTemplateError::from((failure.kind, head.len() + failure.position)))
        );
    }
}

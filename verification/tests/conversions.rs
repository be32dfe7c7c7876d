use urltemplate::{UrlTemplate, UrlTemplateError, UrlTemplateErrorKind};

#[test]
fn a_template_keeps_its_text() {
    for text in ["", "http://google.com/?utm_source={key1}", "}{ not a url \u{e9}\u{1F600}", "  spaced  "] {
        let from_slice = UrlTemplate::from(text);
        assert_eq!(from_slice.0, text);
        assert_eq!(from_slice.to_string(), text);
        assert_eq!(String::from(&from_slice), text);
        let back: String = from_slice.into();
        assert_eq!(back, text);

        let from_string = UrlTemplate::from(text.to_string());
        assert_eq!(from_string.to_string().as_bytes(), text.as_bytes());
        let made: UrlTemplate = text.to_string().into();
        assert_eq!(made, from_string);
    }
}

#[test]
fn templates_are_equal_when_their_texts_are() {
    let a = UrlTemplate::from("http://google.com/?utm_source={key1}");
    let b = UrlTemplate::from(String::from("http://google.com/?utm_source={key1}"));
    let c = UrlTemplate::from("http://google.com/?utm_source={key2}");
    let d = UrlTemplate::from("HTTP://google.com/?utm_source={key1}");
    assert!(a == b);
    assert!(b == a);
    assert!(a != c);
    assert!(a != d);
    assert_eq!(a.clone(), a);
}

#[test]
fn a_failure_is_its_kind_and_its_offset() {
    let error = UrlTemplateError::from((UrlTemplateErrorKind::InvalidPattern, 35));
    assert_eq!(error.kind, UrlTemplateErrorKind::InvalidPattern);
    assert_eq!(error.position, 35);
    assert_eq!(error, UrlTemplateError { position: 35, kind: UrlTemplateErrorKind::InvalidPattern });
    assert_ne!(error, UrlTemplateError::from((UrlTemplateErrorKind::InvalidPattern, 34)));
    assert_ne!(error, UrlTemplateError::from((UrlTemplateErrorKind::InvalidScheme, 35)));

    let whole = UrlTemplateError::from(UrlTemplateErrorKind::IsNotAnUrl);
    assert_eq!(whole.kind, UrlTemplateErrorKind::IsNotAnUrl);
    assert_eq!(whole.position, 0);
    assert_eq!(whole, UrlTemplateError::from((UrlTemplateErrorKind::IsNotAnUrl, 0)));
}

#[test]
fn a_failure_in_words() {
    assert_eq!(
        UrlTemplateError::from(UrlTemplateErrorKind::IsNotAnUrl).to_string(),
        "Provided pattern is not a valid URL."
    );
    assert_eq!(
        UrlTemplateError::from(UrlTemplateErrorKind::InvalidScheme).to_string(),
        "URL scheme is differ from expected `http` or `https`."
    );
    assert_eq!(
        UrlTemplateError::from((UrlTemplateErrorKind::InvalidPattern, 35)).to_string(),
        "The pattern has invalid syntax."
    );
    assert_eq!(
        UrlTemplateError::from((UrlTemplateErrorKind::InvalidPattern, 34)).to_string(),
        UrlTemplateError::from((UrlTemplateErrorKind::InvalidPattern, 0)).to_string()
    );
}

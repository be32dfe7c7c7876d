//! The sanity check before the scan: a template has to be a URL whose
//! scheme is `http` or `https`.
//!
//! Whether a text is a URL, and which scheme it has, is the `url` crate's
//! to say. The template is handed to it as it stands, braces included.

use crate::error::{UrlTemplateError, UrlTemplateErrorKind};
use crate::text::same_text;
use url::{ParseError, Url};
use vstd::prelude::*;

verus! {

/// `url::Url`, a parsed URL. Nothing inside it is seen here: it is handed
/// on as the parser made it.
#[verifier::external_type_specification]
#[verifier::external_body]
pub struct ExUrl(Url);

/// `url::ParseError`, the parser's reason for a refusal. No reason is told
/// from another here.
#[verifier::external_type_specification]
#[verifier::external_body]
pub struct ExParseError(ParseError);

/// What `Url::parse` makes of a text: the URL, or the reason why the text
/// is none.
pub uninterp spec fn parsed(text: Seq<char>) -> Result<Url, ParseError>;

/// The scheme of a URL, as `Url::scheme` gives it: without the colon, in
/// lower case.
pub uninterp spec fn scheme_of(url: Url) -> Seq<char>;

/// `Url::parse`.
///
/// Trusted: what it returns is decided by the characters of the text alone,
/// so that it can go by the name [`parsed`]. Nothing is claimed of which
/// texts are URLs.
pub assume_specification[ Url::parse ](input: &str) -> (result: Result<Url, ParseError>)
    ensures
        result == parsed(input@),
;

/// `Url::scheme`.
///
/// Trusted: what it returns is decided by the URL alone, so that it can go
/// by the name [`scheme_of`]. Nothing is claimed of which scheme a URL has.
pub assume_specification<'a>[ Url::scheme ](url: &'a Url) -> (scheme: &'a str)
    ensures
        scheme@ == scheme_of(*url),
;

/// The schemes that a template may have: `http` and `https`.
pub open spec fn is_web_scheme(scheme: Seq<char>) -> bool {
    scheme == seq!['h', 't', 't', 'p'] || scheme == seq!['h', 't', 't', 'p', 's']
}

/// What is wrong with a text of which the parser made `made`, if anything:
/// that it is no URL, or that its scheme is not a web scheme.
pub open spec fn objection(made: Result<Url, ParseError>) -> Option<UrlTemplateErrorKind> {
    match made {
        Err(_) => Some(UrlTemplateErrorKind::IsNotAnUrl),
        Ok(url) => if is_web_scheme(scheme_of(url)) {
            None
        } else {
            Some(UrlTemplateErrorKind::InvalidScheme)
        },
    }
}

/// Whether `scheme` is `http` or `https`, letter for letter.
pub fn accepts_scheme(scheme: &str) -> (accepted: bool)
    ensures
        accepted == is_web_scheme(scheme@),
{
    proof {
        reveal_strlit("http");
        reveal_strlit("https");
        assert("http"@ =~= seq!['h', 't', 't', 'p']);
        assert("https"@ =~= seq!['h', 't', 't', 'p', 's']);
    }
    same_text(scheme, "http") || same_text(scheme, "https")
}

/// Passes a text that is a URL with a web scheme, and says what is wrong
/// with any other. An objection concerns the text as a whole and is
/// reported at offset 0.
pub fn check_url(text: &str) -> (result: Result<(), UrlTemplateError>)
    ensures
        match objection(parsed(text@)) {
            None => result is Ok,
            Some(kind) => result == Err::<(), UrlTemplateError>(UrlTemplateError::at(kind, 0)),
        },
{
    match Url::parse(text) {
        Ok(url) => {
            if accepts_scheme(url.scheme()) {
                Ok(())
            } else {
                Err(UrlTemplateError::from(UrlTemplateErrorKind::InvalidScheme))
            }
        },
        Err(_) => Err(UrlTemplateError::from(UrlTemplateErrorKind::IsNotAnUrl)),
    }
}

} // verus!

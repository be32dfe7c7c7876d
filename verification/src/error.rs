//! The failures of a substitution: what went wrong, and where in the template.

use vstd::prelude::*;
use vstd::std_specs::convert::FromSpecImpl;

verus! {

/// What a substitution can object to.
#[derive(Debug, Clone, Copy, PartialEq, Eq, Structural)]
pub enum UrlTemplateErrorKind {
    /// The template is not a URL.
    IsNotAnUrl,
    /// The template is a URL, but its scheme is neither `http` nor `https`.
    InvalidScheme,
    /// The braces of the template do not pair up.
    InvalidPattern,
}

/// A failed substitution: the kind of failure and the byte offset into the
/// template at which it was noticed. Failures that concern the template as a
/// whole are reported at offset 0.
#[derive(Debug, Clone, Copy, PartialEq, Eq, Structural)]
pub struct UrlTemplateError {
    /// The byte offset into the template at which the failure was noticed.
    pub position: usize,
    /// What went wrong.
    pub kind: UrlTemplateErrorKind,
}

impl View for UrlTemplateError {
    type V = (UrlTemplateErrorKind, int);

    /// The failure as its kind and its byte offset.
    open spec fn view(&self) -> (UrlTemplateErrorKind, int) {
        (self.kind, self.position as int)
    }
}

/// What a substitution handed back, as characters: the text that it made,
/// or the kind and the byte offset of its failure.
pub open spec fn outcome(result: Result<String, UrlTemplateError>) -> Result<
    Seq<char>,
    (UrlTemplateErrorKind, int),
> {
    match result {
        Ok(text) => Ok(text@),
        Err(error) => Err(error@),
    }
}

/// What a failure of the given kind says to a reader.
pub open spec fn message(kind: UrlTemplateErrorKind) -> Seq<char> {
    match kind {
        UrlTemplateErrorKind::IsNotAnUrl => "Provided pattern is not a valid URL."@,
        UrlTemplateErrorKind::InvalidScheme =>
            "URL scheme is differ from expected `http` or `https`."@,
        UrlTemplateErrorKind::InvalidPattern => "The pattern has invalid syntax."@,
    }
}

impl ToString for UrlTemplateError {
    /// The failure in words. The words go by the kind alone: the offset is
    /// not among them.
    fn to_string(&self) -> (text: String)
        ensures
            text@ == message(self.kind),
    {
        match self.kind {
            UrlTemplateErrorKind::IsNotAnUrl => "Provided pattern is not a valid URL.".to_owned(),
            UrlTemplateErrorKind::InvalidScheme => {
                "URL scheme is differ from expected `http` or `https`.".to_owned()
            },
            UrlTemplateErrorKind::InvalidPattern => "The pattern has invalid syntax.".to_owned(),
        }
    }
}

impl UrlTemplateError {
    /// The failure of the given kind at the given byte offset.
    pub open spec fn at(kind: UrlTemplateErrorKind, position: usize) -> UrlTemplateError {
        UrlTemplateError { position, kind }
    }
}

impl FromSpecImpl<(UrlTemplateErrorKind, usize)> for UrlTemplateError {
    open spec fn obeys_from_spec() -> bool {
        true
    }

    open spec fn from_spec(v: (UrlTemplateErrorKind, usize)) -> UrlTemplateError {
        UrlTemplateError::at(v.0, v.1)
    }
}

impl From<(UrlTemplateErrorKind, usize)> for UrlTemplateError {
    /// A failure of a kind at a byte offset.
    fn from(v: (UrlTemplateErrorKind, usize)) -> (error: UrlTemplateError) {
        UrlTemplateError { position: v.1, kind: v.0 }
    }
}

impl FromSpecImpl<UrlTemplateErrorKind> for UrlTemplateError {
    open spec fn obeys_from_spec() -> bool {
        true
    }

    open spec fn from_spec(v: UrlTemplateErrorKind) -> UrlTemplateError {
        UrlTemplateError::at(v, 0)
    }
}

impl From<UrlTemplateErrorKind> for UrlTemplateError {
    /// A failure that concerns the template as a whole: it is reported at
    /// offset 0.
    fn from(kind: UrlTemplateErrorKind) -> (error: UrlTemplateError) {
        UrlTemplateError { position: 0, kind }
    }
}

} // verus!

//! The template: a text that is kept as it was given, and what
//! substitution makes of it.

use crate::error::{outcome, UrlTemplateError, UrlTemplateErrorKind};
use crate::facts::{
    brace_free, lemma_absent_name_is_empty, lemma_failure_ignores_params, lemma_pass_through,
};
use crate::params::params_of;
use crate::sanity::{check_url, objection, parsed};
use crate::scan::{scan, scanned};
use std::collections::HashMap;
use url::{ParseError, Url};
use vstd::prelude::*;
use vstd::std_specs::cmp::PartialEqSpecImpl;
use vstd::std_specs::convert::{FromSpec, FromSpecImpl, IntoSpec, IntoSpecImpl};

verus! {

/// A URL with placeholders, such as
/// `https://www.mozilla.org/?utm_source={source}`.
///
/// Any text can be made a template: nothing is checked before a
/// substitution is asked for, and a substitution leaves the template as it
/// was. Two templates are equal when their texts are.
#[derive(Debug)]
pub struct UrlTemplate(pub String);

impl View for UrlTemplate {
    type V = Seq<char>;

    /// The characters of the template.
    open spec fn view(&self) -> Seq<char> {
        self.0@
    }
}

impl Clone for UrlTemplate {
    /// A template with the same text.
    fn clone(&self) -> (copy: UrlTemplate)
        ensures
            copy == *self,
    {
        UrlTemplate(self.0.clone())
    }
}

impl PartialEqSpecImpl for UrlTemplate {
    open spec fn obeys_eq_spec() -> bool {
        true
    }

    open spec fn eq_spec(&self, other: &UrlTemplate) -> bool {
        self@ == other@
    }
}

impl PartialEq for UrlTemplate {
    /// Whether the two templates hold the same text.
    fn eq(&self, other: &UrlTemplate) -> (same: bool) {
        self.0 == other.0
    }
}

impl FromSpecImpl<String> for UrlTemplate {
    open spec fn obeys_from_spec() -> bool {
        true
    }

    open spec fn from_spec(text: String) -> UrlTemplate {
        UrlTemplate(text)
    }
}

impl From<String> for UrlTemplate {
    /// The template that holds `text`.
    fn from(text: String) -> (template: UrlTemplate) {
        UrlTemplate(text)
    }
}

// No function of ghost code makes a `String` of a string slice, so this
// conversion follows no such function: `from` itself says what the template
// holds.
impl<'a> FromSpecImpl<&'a str> for UrlTemplate {
    open spec fn obeys_from_spec() -> bool {
        false
    }

    open spec fn from_spec(text: &'a str) -> UrlTemplate {
        arbitrary()
    }
}

impl<'a> From<&'a str> for UrlTemplate {
    /// The template that holds a copy of `text`.
    fn from(text: &'a str) -> (template: UrlTemplate)
        ensures
            template@ == text@,
    {
        UrlTemplate(text.to_owned())
    }
}

impl IntoSpecImpl<String> for UrlTemplate {
    open spec fn obeys_into_spec() -> bool {
        true
    }

    open spec fn into_spec(self) -> String {
        self.0
    }
}

impl Into<String> for UrlTemplate {
    /// The text of the template.
    fn into(self) -> (text: String) {
        self.0
    }
}

impl<'a> FromSpecImpl<&'a UrlTemplate> for String {
    open spec fn obeys_from_spec() -> bool {
        true
    }

    open spec fn from_spec(template: &'a UrlTemplate) -> String {
        template.0
    }
}

impl<'a> From<&'a UrlTemplate> for String {
    /// A copy of the text of the template.
    fn from(template: &'a UrlTemplate) -> (text: String) {
        template.0.clone()
    }
}

impl ToString for UrlTemplate {
    /// A copy of the text of the template.
    fn to_string(&self) -> (text: String)
        ensures
            text@ == self@,
    {
        self.0.clone()
    }
}

/// What the substitution of `params` into the template `text` gives: the
/// objection of the sanity check at offset 0 where it has one, and else
/// what the scan gives.
pub open spec fn substituted(text: Seq<char>, params: Map<Seq<char>, Seq<char>>) -> Result<
    Seq<char>,
    (UrlTemplateErrorKind, int),
> {
    match objection(parsed(text)) {
        Some(kind) => Err((kind, 0)),
        None => scanned(text, params),
    }
}

impl UrlTemplate {
    /// Checks that the template is a URL with the scheme `http` or `https`,
    /// then replaces its placeholders by their values in `values`; a
    /// placeholder whose name has no entry is replaced by nothing.
    ///
    /// The template is judged as it stands, braces included, and as a whole
    /// before any brace is looked at.
    pub fn substitute_str(&self, values: &HashMap<String, String>) -> (result: Result<
        String,
        UrlTemplateError,
    >)
        ensures
            outcome(result) == substituted(self@, params_of(*values)),
    {
        match check_url(self.0.as_str()) {
            Ok(_) => scan(self.0.as_str(), values),
            Err(error) => Err(error),
        }
    }

    /// As [`UrlTemplate::substitute_str`], with the text that it made parsed
    /// as a URL.
    ///
    /// The values decide whether that text is a URL: a value with a space
    /// in it, put where the host stands, makes none. This function is for
    /// values that are known to make one; [`UrlTemplate::try_substitute`]
    /// takes any.
    pub fn substitute(&self, values: &HashMap<String, String>) -> (result: Result<
        Url,
        UrlTemplateError,
    >)
        requires
            substituted(self@, params_of(*values)) matches Ok(text) ==> parsed(text) is Ok,
        ensures
            match substituted(self@, params_of(*values)) {
                Ok(text) => result matches Ok(url) && parsed(text) == Ok::<Url, ParseError>(url),
                Err(failure) => result matches Err(error) && error@ == failure,
            },
    {
        match self.substitute_str(values) {
            Ok(text) => match Url::parse(text.as_str()) {
                Ok(url) => Ok(url),
                Err(_) => vstd::pervasive::unreached(),
            },
            Err(error) => Err(error),
        }
    }

    /// As [`UrlTemplate::substitute`], for any values: `None` where the
    /// text that the substitution made is not a URL.
    ///
    /// The values are tried first, so the substitution is made twice.
    pub fn try_substitute(&self, values: &HashMap<String, String>) -> (result: Option<
        Result<Url, UrlTemplateError>,
    >)
        ensures
            match substituted(self@, params_of(*values)) {
                Ok(text) => match parsed(text) {
                    Ok(url) => result == Some(Ok::<Url, UrlTemplateError>(url)),
                    Err(_) => result is None,
                },
                Err(failure) => result matches Some(Err(error)) && error@ == failure,
            },
    {
        match self.substitute_str(values) {
            Ok(text) => {
                if Url::parse(text.as_str()).is_ok() {
                    Some(self.substitute(values))
                } else {
                    None
                }
            },
            Err(error) => Some(Err(error)),
        }
    }
}

/// Substitution is a function of the template's text and of what the map
/// holds: whatever two calls hand back for templates of the same text and
/// maps that hold the same, it is the same text or the same failure.
pub proof fn lemma_substitute_str_repeats(
    template: &UrlTemplate,
    values: &HashMap<String, String>,
    first: Result<String, UrlTemplateError>,
    again: &UrlTemplate,
    others: &HashMap<String, String>,
    second: Result<String, UrlTemplateError>,
)
    requires
        template@ == again@,
        params_of(*values) == params_of(*others),
        call_ensures(UrlTemplate::substitute_str, (template, values), first),
        call_ensures(UrlTemplate::substitute_str, (again, others), second),
    ensures
        outcome(first) == outcome(second),
{
}

/// As [`lemma_substitute_str_repeats`], of [`UrlTemplate::substitute`]:
/// the same URL or the same failure.
pub proof fn lemma_substitute_repeats(
    template: &UrlTemplate,
    values: &HashMap<String, String>,
    first: Result<Url, UrlTemplateError>,
    again: &UrlTemplate,
    others: &HashMap<String, String>,
    second: Result<Url, UrlTemplateError>,
)
    requires
        template@ == again@,
        params_of(*values) == params_of(*others),
        call_ensures(UrlTemplate::substitute, (template, values), first),
        call_ensures(UrlTemplate::substitute, (again, others), second),
    ensures
        first == second,
{
}

/// As [`lemma_substitute_str_repeats`], of [`UrlTemplate::try_substitute`]:
/// the same URL, the same failure, or twice none.
pub proof fn lemma_try_substitute_repeats(
    template: &UrlTemplate,
    values: &HashMap<String, String>,
    first: Option<Result<Url, UrlTemplateError>>,
    again: &UrlTemplate,
    others: &HashMap<String, String>,
    second: Option<Result<Url, UrlTemplateError>>,
)
    requires
        template@ == again@,
        params_of(*values) == params_of(*others),
        call_ensures(UrlTemplate::try_substitute, (template, values), first),
        call_ensures(UrlTemplate::try_substitute, (again, others), second),
    ensures
        first == second,
{
}

/// A template without braces that passes the sanity check is handed back
/// as it is, whatever the parameters.
pub proof fn lemma_plain_url_unchanged(text: Seq<char>, params: Map<Seq<char>, Seq<char>>)
    requires
        objection(parsed(text)) is None,
        brace_free(text),
    ensures
        substituted(text, params) == Ok::<Seq<char>, (UrlTemplateErrorKind, int)>(text),
{
    lemma_pass_through(text, params);
}

/// A name without an entry is replaced as if its entry were the empty
/// text, and never makes a substitution fail: whether and where one fails
/// is the same under every map.
pub proof fn lemma_absent_name_is_no_failure(
    text: Seq<char>,
    params: Map<Seq<char>, Seq<char>>,
    name: Seq<char>,
    others: Map<Seq<char>, Seq<char>>,
)
    requires
        !params.contains_key(name),
    ensures
        substituted(text, params) == substituted(text, params.insert(name, Seq::empty())),
        substituted(text, params) is Err ==> substituted(text, others) == substituted(
            text,
            params,
        ),
{
    lemma_absent_name_is_empty(text, params, name);
    lemma_failure_ignores_params(text, params, others);
}

/// A text that is made a template and taken out again is the text that
/// went in, by each of the ways out.
pub proof fn lemma_template_keeps_text(text: String)
    ensures
        <UrlTemplate as FromSpec<String>>::from_spec(text)@ == text@,
        <UrlTemplate as IntoSpec<String>>::into_spec(
            <UrlTemplate as FromSpec<String>>::from_spec(text),
        ) == text,
        <String as FromSpec<&UrlTemplate>>::from_spec(
            &<UrlTemplate as FromSpec<String>>::from_spec(text),
        ) == text,
{
}

/// As [`lemma_template_keeps_text`], of a template that was made of a
/// string slice: what a copy of its text holds is what the slice held.
pub proof fn lemma_template_keeps_copied_text(text: &str, template: UrlTemplate, back: String)
    requires
        call_ensures(<UrlTemplate as From<&str>>::from, (text,), template),
        call_ensures(<String as From<&UrlTemplate>>::from, (&template,), back),
    ensures
        back@ == text@,
{
}

} // verus!

//! The scan that replaces placeholders.
//!
//! A template is read once, from left to right. Outside a placeholder every
//! character but a brace is copied to the output; `{` opens a placeholder,
//! the characters up to the next `}` are its name, and `}` puts the name's
//! replacement into the output. Placeholders do not nest and there is no way
//! to escape a brace: a `{` inside a placeholder, a `}` outside one, and a
//! placeholder that is still open at the end of the template are reported.

use crate::error::{outcome, UrlTemplateError, UrlTemplateErrorKind};
use crate::params::{lookup, params_of, replacement};
use crate::text::{byte_len, byte_offset, lemma_byte_offset_step, push_char, utf8_width};
use std::collections::HashMap;
use vstd::prelude::*;
use vstd::std_specs::iter::IteratorSpec;

verus! {

/// Where a scan stands between two characters.
pub struct ScanState {
    /// The output so far.
    pub output: Seq<char>,
    /// Whether a placeholder is open.
    pub inside: bool,
    /// The name of the open placeholder as far as it was read; empty while
    /// none is open.
    pub name: Seq<char>,
}

/// The state before the first character.
pub open spec fn start() -> ScanState {
    ScanState { output: Seq::empty(), inside: false, name: Seq::empty() }
}

/// The state after `c` was read in `state`, or `None` where `c` is a brace
/// that `state` does not admit.
pub open spec fn step(state: ScanState, c: char, params: Map<Seq<char>, Seq<char>>) -> Option<
    ScanState,
> {
    if c == '{' {
        if state.inside {
            None
        } else {
            Some(ScanState { output: state.output, inside: true, name: Seq::empty() })
        }
    } else if c == '}' {
        if state.inside {
            Some(
                ScanState {
                    output: state.output + replacement(params, state.name),
                    inside: false,
                    name: Seq::empty(),
                },
            )
        } else {
            None
        }
    } else if state.inside {
        Some(ScanState { output: state.output, inside: true, name: state.name.push(c) })
    } else {
        Some(ScanState { output: state.output.push(c), inside: false, name: Seq::empty() })
    }
}

/// The scan of the first `count` characters of `text`: the state that it
/// reaches, or the index of the first brace that was not admitted.
pub open spec fn scan_prefix(
    text: Seq<char>,
    params: Map<Seq<char>, Seq<char>>,
    count: nat,
) -> Result<ScanState, int>
    decreases count,
{
    if count == 0 {
        Ok(start())
    } else {
        match scan_prefix(text, params, (count - 1) as nat) {
            Err(index) => Err(index),
            Ok(state) => match step(state, text[count - 1], params) {
                Some(next) => Ok(next),
                None => Err(count - 1),
            },
        }
    }
}

/// What the scan of all of `text` gives: the output, or a failure of the
/// pattern with its byte offset. A brace that is not admitted is reported
/// where it stands; a placeholder left open is reported at the last byte of
/// the template.
pub open spec fn scanned(text: Seq<char>, params: Map<Seq<char>, Seq<char>>) -> Result<
    Seq<char>,
    (UrlTemplateErrorKind, int),
> {
    match scan_prefix(text, params, text.len()) {
        Err(index) => Err((UrlTemplateErrorKind::InvalidPattern, byte_offset(text, index) as int)),
        Ok(state) => if state.inside {
            Err((UrlTemplateErrorKind::InvalidPattern, byte_len(text) - 1))
        } else {
            Ok(state.output)
        },
    }
}

/// Once a brace was not admitted, reading on changes nothing.
pub proof fn lemma_failure_stays(
    text: Seq<char>,
    params: Map<Seq<char>, Seq<char>>,
    count: nat,
    more: nat,
)
    requires
        count <= more,
        scan_prefix(text, params, count) is Err,
    ensures
        scan_prefix(text, params, more) == scan_prefix(text, params, count),
    decreases more,
{
    if count < more {
        lemma_failure_stays(text, params, count, (more - 1) as nat);
    }
}

/// Replaces the placeholders of `template` by their values in `values`; a
/// placeholder whose name has no entry is replaced by nothing.
///
/// The braces have to pair up: the first one that does not is reported with
/// the byte offset at which it stands, and a placeholder that is never
/// closed with the offset of the last byte of `template`.
pub fn scan(template: &str, values: &HashMap<String, String>) -> (result: Result<
    String,
    UrlTemplateError,
>)
    ensures
        outcome(result) == scanned(template@, params_of(*values)),
{
    let ghost text = template@;
    let ghost params = params_of(*values);
    let total: usize = template.as_bytes().len();
    let mut chars = template.chars();
    let mut output = String::new();
    let mut name = String::new();
    let mut inside = false;
    let mut offset: usize = 0;
    let ghost mut index: int = 0;
    loop
        invariant_except_break
            chars.remaining() == text.skip(index),
        invariant
            text == template@,
            params == params_of(*values),
            total == byte_len(text),
            chars.obeys_prophetic_iter_laws(),
            0 <= index <= text.len(),
            offset == byte_offset(text, index),
            scan_prefix(text, params, index as nat) == Ok::<ScanState, int>(
                ScanState {
                    output: output@,
                    inside,
                    name: if inside {
                        name@
                    } else {
                        Seq::empty()
                    },
                },
            ),
        ensures
            index == text.len(),
        decreases text.len() - index,
    {
        let next = chars.next();
        match next {
            None => {
                break ;
            },
            Some(c) => {
                proof {
                    lemma_byte_offset_step(text, index);
                }
                if c == '{' {
                    if inside {
                        proof {
                            lemma_failure_stays(text, params, (index + 1) as nat, text.len());
                        }
                        return Err(
                            UrlTemplateError::from((UrlTemplateErrorKind::InvalidPattern, offset)),
                        );
                    }
                    name = String::new();
                    inside = true;
                } else if c == '}' {
                    if !inside {
                        proof {
                            lemma_failure_stays(text, params, (index + 1) as nat, text.len());
                        }
                        return Err(
                            UrlTemplateError::from((UrlTemplateErrorKind::InvalidPattern, offset)),
                        );
                    }
                    match lookup(values, name.as_str()) {
                        Some(value) => {
                            output.append(value.as_str());
                        },
                        None => {},
                    }
                    inside = false;
                } else if inside {
                    push_char(&mut name, c);
                } else {
                    push_char(&mut output, c);
                }
                offset = offset + utf8_width(c);
                proof {
                    index = index + 1;
                }
            },
        }
    }
    if inside {
        return Err(UrlTemplateError::from((UrlTemplateErrorKind::InvalidPattern, total - 1)));
    }
    Ok(output)
}

} // verus!

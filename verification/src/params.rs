//! The caller's parameters: a hash map from placeholder names to values.
//!
//! A placeholder's name is read character by character, so a map is taken
//! here for what it holds character by character. vstd's account of
//! `HashMap` speaks of keys as values of the key type and rests on a model
//! of the key that it does not give for `String`; the one call that the
//! scan makes, a lookup, is therefore stated here.

use std::collections::HashMap;
use vstd::prelude::*;

verus! {

/// What a parameter map holds: for each name that has an entry, its value,
/// both as sequences of characters. Names are told apart character by
/// character, with no trimming and no folding of case.
pub uninterp spec fn params_of(values: HashMap<String, String>) -> Map<Seq<char>, Seq<char>>;

/// The text that stands for the placeholder `name`: its value under
/// `params`, and nothing where `params` has no entry for it.
pub open spec fn replacement(params: Map<Seq<char>, Seq<char>>, name: Seq<char>) -> Seq<char> {
    if params.contains_key(name) {
        params[name]
    } else {
        Seq::empty()
    }
}

/// `HashMap::get` on a map keyed by strings, asked with a string slice.
///
/// Trusted: the map returns the value stored under the key that equals
/// `name` character by character, and `None` where no key does. The map is
/// left as it was.
#[verifier::external_body]
pub(crate) fn lookup<'a>(values: &'a HashMap<String, String>, name: &str) -> (found: Option<
    &'a String,
>)
    ensures
        match found {
            Some(value) => params_of(*values).contains_key(name@) && params_of(*values)[name@]
                == value@,
            None => !params_of(*values).contains_key(name@),
        },
{
    values.get(name)
}

} // verus!

//! What holds of every scan.
//!
//! Together the first three facts say what a scan makes of a template whose
//! braces pair up: text without braces is copied, a placeholder is replaced
//! by what stands for its name, and the outputs of two texts that follow
//! each other are joined. The others say what the parameters can and cannot
//! change.

use crate::error::UrlTemplateErrorKind;
use crate::params::replacement;
use crate::scan::{scan_prefix, scanned, start, ScanState};
use crate::text::{byte_len, lemma_byte_len_concat};
use vstd::prelude::*;

verus! {

/// Whether `text` holds no brace.
pub open spec fn brace_free(text: Seq<char>) -> bool {
    forall|i: int| 0 <= i < text.len() ==> text[i] != '{' && text[i] != '}'
}

/// The placeholder for `name`: the name between braces.
pub open spec fn placeholder(name: Seq<char>) -> Seq<char> {
    seq!['{'] + name + seq!['}']
}

/// A text without braces is its own output, whatever the parameters.
pub proof fn lemma_pass_through(text: Seq<char>, params: Map<Seq<char>, Seq<char>>)
    requires
        brace_free(text),
    ensures
        scanned(text, params) == Ok::<Seq<char>, (UrlTemplateErrorKind, int)>(text),
{
    lemma_copies_plain_text(text, params, text.len());
    assert(text.take(text.len() as int) =~= text);
}

proof fn lemma_copies_plain_text(
    text: Seq<char>,
    params: Map<Seq<char>, Seq<char>>,
    count: nat,
)
    requires
        brace_free(text),
        count <= text.len(),
    ensures
        scan_prefix(text, params, count) == Ok::<ScanState, int>(
            ScanState { output: text.take(count as int), inside: false, name: Seq::empty() },
        ),
    decreases count,
{
    if count == 0 {
        assert(text.take(0) =~= Seq::<char>::empty());
    } else {
        lemma_copies_plain_text(text, params, (count - 1) as nat);
        assert(text.take(count as int) =~= text.take(count - 1).push(text[count - 1]));
    }
}

/// A placeholder alone is replaced by what stands for its name: the value
/// of the name's entry, and nothing where it has none.
pub proof fn lemma_scan_placeholder(name: Seq<char>, params: Map<Seq<char>, Seq<char>>)
    requires
        brace_free(name),
    ensures
        scanned(placeholder(name), params) == Ok::<Seq<char>, (UrlTemplateErrorKind, int)>(
            replacement(params, name),
        ),
{
    let text = placeholder(name);
    lemma_reads_name(name, params, name.len());
    assert(name.take(name.len() as int) =~= name);
    assert(text[text.len() - 1] == '}');
}

proof fn lemma_reads_name(name: Seq<char>, params: Map<Seq<char>, Seq<char>>, count: nat)
    requires
        brace_free(name),
        count <= name.len(),
    ensures
        scan_prefix(placeholder(name), params, 1 + count) == Ok::<ScanState, int>(
            ScanState { output: Seq::empty(), inside: true, name: name.take(count as int) },
        ),
    decreases count,
{
    let text = placeholder(name);
    if count == 0 {
        assert(text[0] == '{');
        assert(scan_prefix(text, params, 0) == Ok::<ScanState, int>(start()));
        assert(name.take(0) =~= Seq::<char>::empty());
    } else {
        lemma_reads_name(name, params, (count - 1) as nat);
        assert(name.take(count as int) =~= name.take(count - 1).push(name[count - 1]));
    }
}

/// After a text whose scan succeeded, a scan goes on as if it started
/// anew: the outputs are joined, and a failure in what follows is reported
/// behind the bytes of what came before.
pub proof fn lemma_scan_concat(
    head: Seq<char>,
    tail: Seq<char>,
    params: Map<Seq<char>, Seq<char>>,
)
    requires
        scanned(head, params) is Ok,
    ensures
        scanned(head, params) matches Ok(first) && scanned(head + tail, params) == (match scanned(
            tail,
            params,
        ) {
            Ok(second) => Ok::<Seq<char>, (UrlTemplateErrorKind, int)>(first + second),
            Err(failure) => Err((failure.0, byte_len(head) + failure.1)),
        }),
{
    let whole = head + tail;
    lemma_goes_on(head, tail, params, tail.len());
    lemma_byte_len_concat(head, tail);
    match scan_prefix(tail, params, tail.len()) {
        Ok(state) => {},
        Err(index) => {
            lemma_failure_was_read(tail, params, tail.len());
            assert(whole.take(head.len() + index) =~= head + tail.take(index));
            lemma_byte_len_concat(head, tail.take(index));
        },
    }
}

proof fn lemma_goes_on(
    head: Seq<char>,
    tail: Seq<char>,
    params: Map<Seq<char>, Seq<char>>,
    count: nat,
)
    requires
        scanned(head, params) is Ok,
        count <= tail.len(),
    ensures
        scanned(head, params) matches Ok(first) && (match scan_prefix(tail, params, count) {
            Ok(state) => scan_prefix(head + tail, params, head.len() + count) == Ok::<
                ScanState,
                int,
            >(ScanState { output: first + state.output, inside: state.inside, name: state.name }),
            Err(index) => scan_prefix(head + tail, params, head.len() + count) == Err::<
                ScanState,
                int,
            >(head.len() + index),
        }),
    decreases count,
{
    let whole = head + tail;
    let first = scanned(head, params)->Ok_0;
    if count == 0 {
        assert(whole.take(head.len() as int) =~= head);
        assert(head.take(head.len() as int) =~= head);
        lemma_prefix_only(whole, head, params, head.len());
    } else {
        lemma_goes_on(head, tail, params, (count - 1) as nat);
        match scan_prefix(tail, params, (count - 1) as nat) {
            Ok(state) => {
                assert((first + state.output) + replacement(params, state.name) =~= first + (
                state.output + replacement(params, state.name)));
            },
            Err(index) => {},
        }
    }
}

/// A placeholder after a text whose scan succeeded is replaced by what
/// stands for its name, and the scan goes on behind it.
pub proof fn lemma_scan_around_placeholder(
    head: Seq<char>,
    name: Seq<char>,
    tail: Seq<char>,
    params: Map<Seq<char>, Seq<char>>,
)
    requires
        scanned(head, params) is Ok,
        brace_free(name),
    ensures
        scanned(head, params) matches Ok(first) && scanned(
            head + placeholder(name) + tail,
            params,
        ) == (match scanned(tail, params) {
            Ok(rest) => Ok::<Seq<char>, (UrlTemplateErrorKind, int)>(
                first + replacement(params, name) + rest,
            ),
            Err(failure) => Err(
                (failure.0, byte_len(head) + byte_len(placeholder(name)) + failure.1),
            ),
        }),
{
    lemma_scan_placeholder(name, params);
    lemma_scan_concat(head, placeholder(name), params);
    lemma_scan_concat(head + placeholder(name), tail, params);
    lemma_byte_len_concat(head, placeholder(name));
}

/// A placeholder whose name has no entry is replaced by nothing: where the
/// braces around it pair up, the output is that of the template without
/// the placeholder.
pub proof fn lemma_absent_placeholder_vanishes(
    head: Seq<char>,
    name: Seq<char>,
    tail: Seq<char>,
    params: Map<Seq<char>, Seq<char>>,
)
    requires
        scanned(head, params) is Ok,
        scanned(tail, params) is Ok,
        brace_free(name),
        !params.contains_key(name),
    ensures
        scanned(head + placeholder(name) + tail, params) == scanned(head + tail, params),
{
    lemma_scan_around_placeholder(head, name, tail, params);
    lemma_scan_concat(head, tail, params);
}

/// A scan reads its text from the left: the scan of the first `count`
/// characters is the same in every text that starts with them.
pub proof fn lemma_prefix_only(
    text: Seq<char>,
    other: Seq<char>,
    params: Map<Seq<char>, Seq<char>>,
    count: nat,
)
    requires
        count <= text.len(),
        count <= other.len(),
        text.take(count as int) == other.take(count as int),
    ensures
        scan_prefix(text, params, count) == scan_prefix(other, params, count),
    decreases count,
{
    if count > 0 {
        let less = (count - 1) as nat;
        assert(text.take(less as int) =~= text.take(count as int).take(less as int));
        assert(other.take(less as int) =~= other.take(count as int).take(less as int));
        assert(text[count - 1] == text.take(count as int)[count - 1]);
        assert(other[count - 1] == other.take(count as int)[count - 1]);
        lemma_prefix_only(text, other, params, less);
    }
}

/// A brace that was not admitted stands among the characters that were
/// read.
pub proof fn lemma_failure_was_read(
    text: Seq<char>,
    params: Map<Seq<char>, Seq<char>>,
    count: nat,
)
    ensures
        scan_prefix(text, params, count) matches Err(index) ==> 0 <= index < count,
    decreases count,
{
    if count > 0 {
        lemma_failure_was_read(text, params, (count - 1) as nat);
    }
}

/// Two parameter maps that give every name the same replacement give every
/// text the same scan.
pub proof fn lemma_same_replacements(
    text: Seq<char>,
    params: Map<Seq<char>, Seq<char>>,
    others: Map<Seq<char>, Seq<char>>,
)
    requires
        forall|name: Seq<char>| replacement(params, name) == replacement(others, name),
    ensures
        scanned(text, params) == scanned(text, others),
{
    lemma_same_replacements_prefix(text, params, others, text.len());
}

proof fn lemma_same_replacements_prefix(
    text: Seq<char>,
    params: Map<Seq<char>, Seq<char>>,
    others: Map<Seq<char>, Seq<char>>,
    count: nat,
)
    requires
        forall|name: Seq<char>| replacement(params, name) == replacement(others, name),
    ensures
        scan_prefix(text, params, count) == scan_prefix(text, others, count),
    decreases count,
{
    if count > 0 {
        lemma_same_replacements_prefix(text, params, others, (count - 1) as nat);
    }
}

/// A name that has no entry is replaced by nothing, as if its entry were
/// the empty text.
pub proof fn lemma_absent_name_is_empty(
    text: Seq<char>,
    params: Map<Seq<char>, Seq<char>>,
    name: Seq<char>,
)
    requires
        !params.contains_key(name),
    ensures
        replacement(params, name) == Seq::<char>::empty(),
        scanned(text, params) == scanned(text, params.insert(name, Seq::empty())),
{
    lemma_same_replacements(text, params, params.insert(name, Seq::empty()));
}

/// Whether a scan fails, and where, is decided by the text alone: no
/// parameter map, and no lack of an entry, makes or mends a failure.
pub proof fn lemma_failure_ignores_params(
    text: Seq<char>,
    params: Map<Seq<char>, Seq<char>>,
    others: Map<Seq<char>, Seq<char>>,
)
    ensures
        scanned(text, params) is Err ==> scanned(text, others) == scanned(text, params),
{
    lemma_braces_ignore_params(text, params, others, text.len());
}

proof fn lemma_braces_ignore_params(
    text: Seq<char>,
    params: Map<Seq<char>, Seq<char>>,
    others: Map<Seq<char>, Seq<char>>,
    count: nat,
)
    ensures
        match scan_prefix(text, params, count) {
            Ok(state) => scan_prefix(text, others, count) matches Ok(other) && other.inside
                == state.inside && other.name == state.name,
            Err(index) => scan_prefix(text, others, count) == Err::<ScanState, int>(index),
        },
    decreases count,
{
    if count > 0 {
        lemma_braces_ignore_params(text, params, others, (count - 1) as nat);
    }
}

} // verus!

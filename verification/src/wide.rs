//! Text in the interpreter's native string form: wide characters behind a
//! terminating nul, as its embedding interface takes them.

use vstd::prelude::*;
use widestring::error::ContainsNul;
use widestring::{WideCString, WideChar};

verus! {

/// `widestring::WideCString`: an owned, nul-terminated buffer of wide
/// characters. Opaque here; what it holds is named by `wide_text`.
#[verifier::external_type_specification]
#[verifier::external_body]
pub struct ExWideCString(WideCString);

/// `widestring::error::ContainsNul`: the error of a conversion that met a nul
/// before the end of its input.
#[verifier::external_type_specification]
#[verifier::external_body]
#[verifier::reject_recursive_types(C)]
pub struct ExContainsNul<C>(ContainsNul<C>);

/// The text that a wide string holds in front of its terminating nul, as
/// `to_string_lossy` renders it.
pub uninterp spec fn wide_text(wide: WideCString) -> Seq<char>;

/// Whether `text` can be handed over as a wide string: a nul may stand at its
/// very end and nowhere else.
pub open spec fn spec_representable(text: Seq<char>) -> bool {
    forall|i: int| 0 <= i < text.len() - 1 ==> text[i] != '\0'
}

/// What a wide string made from `text` holds: `text` without a nul at its end,
/// which becomes the terminator.
pub open spec fn spec_payload(text: Seq<char>) -> Seq<char> {
    if text.len() > 0 && text.last() == '\0' {
        text.drop_last()
    } else {
        text
    }
}

/// Whether every one of `texts` can be handed over as a wide string.
pub open spec fn spec_all_representable(texts: Seq<Seq<char>>) -> bool {
    forall|i: int| 0 <= i < texts.len() ==> spec_representable(#[trigger] texts[i])
}

/// Calls `widestring::WideCString::from_str`. Believed of it: the conversion
/// succeeds exactly when no nul stands before the last character of `text`,
/// and the buffer then holds `text`, a final nul of `text` serving as the
/// terminator.
#[verifier::external_body]
fn wide_from_str(text: &str) -> (converted: Result<WideCString, ContainsNul<WideChar>>)
    ensures
        converted is Ok <==> spec_representable(text@),
        converted matches Ok(wide) ==> wide_text(wide) == spec_payload(text@),
{
    WideCString::from_str(text)
}

/// Converts `text` to a wide string, or tells that it holds a nul before its
/// end.
pub fn encode_wide(text: &str) -> (wide: Option<WideCString>)
    ensures
        wide is Some <==> spec_representable(text@),
        wide matches Some(w) ==> wide_text(w) == spec_payload(text@),
{
    match wide_from_str(text) {
        Ok(w) => Some(w),
        Err(_) => None,
    }
}

/// Whether `text` can be handed over as a wide string.
pub fn is_representable(text: &str) -> (yes: bool)
    ensures
        yes == spec_representable(text@),
{
    encode_wide(text).is_some()
}

/// The index of the first text at or after `start` that cannot be handed
/// over, or the length of `texts` if there is none.
pub open spec fn spec_first_unrepresentable(texts: Seq<Seq<char>>, start: int) -> int
    decreases texts.len() - start,
{
    if start < 0 || start >= texts.len() {
        texts.len() as int
    } else if !spec_representable(texts[start]) {
        start
    } else {
        spec_first_unrepresentable(texts, start + 1)
    }
}

/// Converts a whole argument vector, one buffer per argument and in order, or
/// gives the index of the first argument that holds a nul before its end.
pub fn marshal_arguments(args: &Vec<String>) -> (buffers: Result<Vec<WideCString>, usize>)
    ensures
        buffers is Ok <==> spec_all_representable(args.deep_view()),
        buffers matches Ok(b) ==> {
            &&& b.len() == args.len()
            &&& forall|i: int|
                0 <= i < args.len() ==> wide_text(#[trigger] b@[i]) == spec_payload(args@[i]@)
        },
        buffers matches Err(at) ==> {
            &&& at < args.len()
            &&& at == spec_first_unrepresentable(args.deep_view(), 0)
        },
{
    let mut buffers: Vec<WideCString> = Vec::new();
    let mut i: usize = 0;
    while i < args.len()
        invariant
            i <= args.len(),
            buffers.len() == i,
            forall|k: int| 0 <= k < i ==> spec_representable(#[trigger] args.deep_view()[k]),
            forall|k: int|
                0 <= k < i ==> wide_text(#[trigger] buffers@[k]) == spec_payload(args@[k]@),
            spec_first_unrepresentable(args.deep_view(), 0) == spec_first_unrepresentable(
                args.deep_view(),
                i as int,
            ),
        decreases args.len() - i,
    {
        match encode_wide(args[i].as_str()) {
            Some(w) => {
                buffers.push(w);
            },
            None => {
                assert(!spec_representable(args.deep_view()[i as int]));
                return Err(i);
            },
        }
        assert(spec_representable(args.deep_view()[i as int]));
        i += 1;
    }
    Ok(buffers)
}

/// The first text that cannot be handed over is one of the texts, cannot
/// itself be handed over, and has only representable texts before it.
pub proof fn lemma_first_unrepresentable(texts: Seq<Seq<char>>, start: int)
    requires
        0 <= start <= texts.len(),
    ensures
        start <= spec_first_unrepresentable(texts, start) <= texts.len(),
        spec_first_unrepresentable(texts, start) < texts.len() ==> !spec_representable(
            texts[spec_first_unrepresentable(texts, start)],
        ),
        forall|k: int|
            start <= k < spec_first_unrepresentable(texts, start) ==> spec_representable(
                #[trigger] texts[k],
            ),
    decreases texts.len() - start,
{
    if start < texts.len() && spec_representable(texts[start]) {
        lemma_first_unrepresentable(texts, start + 1);
    }
}

} // verus!

//! The argument vector handed to the interpreter: the user's arguments with
//! the script replaced by its rewritten copy, behind the launcher's own path.

use vstd::prelude::*;

verus! {

/// `args` with every element equal to `script` replaced by `replacement`.
pub open spec fn spec_substitute(
    args: Seq<Seq<char>>,
    script: Seq<char>,
    replacement: Seq<char>,
) -> Seq<Seq<char>> {
    Seq::new(
        args.len(),
        |i: int|
            if args[i] == script {
                replacement
            } else {
                args[i]
            },
    )
}

/// The interpreter's argument vector: the launcher's path, then the
/// substituted arguments.
pub open spec fn spec_final_arguments(
    launcher: Seq<char>,
    args: Seq<Seq<char>>,
    script: Seq<char>,
    replacement: Seq<char>,
) -> Seq<Seq<char>> {
    seq![launcher] + spec_substitute(args, script, replacement)
}

/// Replaces every argument that equals `script` by `replacement`. Arguments
/// are compared as whole strings; all others pass through in place.
pub fn substitute_script(args: Vec<String>, script: &str, replacement: &str) -> (out: Vec<String>)
    ensures
        out.deep_view() == spec_substitute(args.deep_view(), script@, replacement@),
{
    let script_text = script.to_owned();
    let mut out: Vec<String> = Vec::new();
    let mut i: usize = 0;
    while i < args.len()
        invariant
            i <= args.len(),
            out.len() == i,
            script_text@ == script@,
            forall|k: int|
                0 <= k < i ==> (#[trigger] out@[k])@ == spec_substitute(
                    args.deep_view(),
                    script@,
                    replacement@,
                )[k],
        decreases args.len() - i,
    {
        if args[i] == script_text {
            out.push(replacement.to_owned());
        } else {
            out.push(args[i].clone());
        }
        i += 1;
    }
    assert(out.deep_view() =~= spec_substitute(args.deep_view(), script@, replacement@));
    out
}

/// Builds the interpreter's argument vector: `launcher` first, then `args`
/// with the script replaced by its rewritten copy.
pub fn final_arguments(launcher: &str, args: Vec<String>, script: &str, replacement: &str) -> (out:
    Vec<String>)
    ensures
        out.deep_view() == spec_final_arguments(
            launcher@,
            args.deep_view(),
            script@,
            replacement@,
        ),
{
    let mut substituted = substitute_script(args, script, replacement);
    let ghost tail = substituted.deep_view();
    let mut out: Vec<String> = Vec::new();
    out.push(launcher.to_owned());
    out.append(&mut substituted);
    assert(out.deep_view() =~= seq![launcher@] + tail);
    out
}

/// Substitution goes by exact match and nothing else: the result is as long
/// as the input, holds the replacement exactly where the input held the
/// script, and holds the input's own argument everywhere else.
pub proof fn lemma_substitution_exact(
    args: Seq<Seq<char>>,
    script: Seq<char>,
    replacement: Seq<char>,
)
    ensures
        spec_substitute(args, script, replacement).len() == args.len(),
        forall|i: int|
            0 <= i < args.len() && args[i] == script ==> #[trigger] spec_substitute(
                args,
                script,
                replacement,
            )[i] == replacement,
        forall|i: int|
            0 <= i < args.len() && args[i] != script ==> #[trigger] spec_substitute(
                args,
                script,
                replacement,
            )[i] == args[i],
{
}

/// An argument vector that nowhere holds the script is left as it is.
pub proof fn lemma_substitution_without_script(
    args: Seq<Seq<char>>,
    script: Seq<char>,
    replacement: Seq<char>,
)
    requires
        forall|i: int| 0 <= i < args.len() ==> args[i] != script,
    ensures
        spec_substitute(args, script, replacement) == args,
{
    assert(spec_substitute(args, script, replacement) =~= args);
}

/// The final argument vector is one longer than the user's, and starts with
/// the launcher.
pub proof fn lemma_final_arguments_shape(
    launcher: Seq<char>,
    args: Seq<Seq<char>>,
    script: Seq<char>,
    replacement: Seq<char>,
)
    ensures
        spec_final_arguments(launcher, args, script, replacement).len() == args.len() + 1,
        spec_final_arguments(launcher, args, script, replacement)[0] == launcher,
        forall|i: int|
            0 <= i < args.len() ==> #[trigger] spec_final_arguments(
                launcher,
                args,
                script,
                replacement,
            )[i + 1] == spec_substitute(args, script, replacement)[i],
{
}

} // verus!

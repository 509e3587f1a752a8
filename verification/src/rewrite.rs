//! The rewrite a script goes through before it is run: it is parsed as a
//! Python module and printed again in a uniform style.

use crate::error::{ErrorView, PythonPlusPlusError};
use ruff_python_formatter::{format_module_source, PyFormatOptions};
use vstd::prelude::*;
use vstd::utf8::encode_utf8;

verus! {

/// What the formatter makes of a module's source under its default options:
/// the formatted code, or the error that stopped it, rendered layer by layer
/// with the error itself first and each cause beneath it after.
pub uninterp spec fn formatted_module(source: Seq<char>) -> Result<Seq<char>, Seq<Seq<char>>>;

/// Whether a source is short enough for the formatter: the parser addresses
/// its input by 32-bit byte offsets.
pub open spec fn spec_fits_formatter(source: Seq<char>) -> bool {
    encode_utf8(source).len() <= u32::MAX
}

/// The outcome of the rewrite in the launcher's own terms.
pub open spec fn spec_rewrite(source: Seq<char>) -> Result<Seq<char>, ErrorView> {
    match formatted_module(source) {
        Ok(code) => Ok(code),
        Err(causes) => Err(ErrorView::FormatModule(causes)),
    }
}

/// A formatter outcome as plain values.
pub open spec fn formatted_view(formatted: Result<String, Vec<String>>) -> Result<
    Seq<char>,
    Seq<Seq<char>>,
> {
    match formatted {
        Ok(code) => Ok(code@),
        Err(causes) => Err(causes.deep_view()),
    }
}

/// The outcome of a rewrite as plain values.
pub open spec fn rewrite_view(outcome: Result<String, PythonPlusPlusError>) -> Result<
    Seq<char>,
    ErrorView,
> {
    match outcome {
        Ok(code) => Ok(code@),
        Err(error) => Err(error@),
    }
}

/// Calls `ruff_python_formatter::format_module_source` with
/// `PyFormatOptions::default()`. Believed of it: what it returns depends on
/// `source` alone. The code is taken from the printed result; an error is
/// rendered as it prints, followed by each `source()` beneath it. The parser
/// refuses input of 4 GiB and more by a panic, so such input is kept out.
#[verifier::external_body]
fn format_module(source: &str) -> (formatted: Result<String, Vec<String>>)
    requires
        spec_fits_formatter(source@),
    ensures
        formatted_view(formatted) == formatted_module(source@),
{
    match format_module_source(source, PyFormatOptions::default()) {
        Ok(printed) => Ok(printed.into_code()),
        Err(error) => {
            let mut layers = vec![error.to_string()];
            let mut layer = std::error::Error::source(&error);
            while let Some(cause) = layer {
                layers.push(cause.to_string());
                layer = cause.source();
            }
            Err(layers)
        },
    }
}

/// Whether `source` is short enough for the formatter.
pub fn fits_formatter(source: &str) -> (yes: bool)
    ensures
        yes == spec_fits_formatter(source@),
{
    source.as_bytes().len() <= u32::MAX as usize
}

/// Turns the formatter's outcome into the launcher's: the code as it is, a
/// failure as the error for invalid Python with the formatter's error and
/// its causes beneath it.
pub fn rewritten(formatted: Result<String, Vec<String>>) -> (outcome: Result<
    String,
    PythonPlusPlusError,
>)
    ensures
        outcome is Ok <==> formatted is Ok,
        outcome matches Ok(code) ==> code == formatted->Ok_0,
        outcome matches Err(error) ==> error@ == ErrorView::FormatModule(
            formatted->Err_0.deep_view(),
        ),
{
    match formatted {
        Ok(code) => Ok(code),
        Err(causes) => Err(PythonPlusPlusError::FormatModule(causes)),
    }
}

/// Rewrites a script: formats `source` as a Python module, or reports that it
/// is no valid Python. The formatter takes sources below 4 GiB.
pub fn rewrite_source(source: &str) -> (outcome: Result<String, PythonPlusPlusError>)
    requires
        spec_fits_formatter(source@),
    ensures
        rewrite_view(outcome) == spec_rewrite(source@),
{
    rewritten(format_module(source))
}

} // verus!

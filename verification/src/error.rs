//! What can go wrong before the interpreter takes over, and how a failure is
//! reported: a message per error, its causes beneath it, and the exit code.

use crate::abi::Symbol;
use vstd::prelude::*;

verus! {

/// Exit status of the process when the launcher itself fails.
pub const FAILURE_EXIT_CODE: i32 = 1;

/// The launcher's errors. Underlying causes are kept as the text they render
/// to, outermost first.
#[derive(Clone, Debug)]
pub enum PythonPlusPlusError {
    /// Reading, writing or finding a file failed; holds the failure's own
    /// message, and the causes beneath it.
    Io(String, Vec<String>),
    /// The interpreter's library could not be opened; holds the loader's
    /// diagnostic and the causes beneath it.
    LibLoading(Vec<String>),
    /// The library was opened but lacks an entry point; holds which one, and
    /// the loader's diagnostic with the causes beneath it.
    MissingSymbol(Symbol, Vec<String>),
    /// A path is not valid UTF-8; holds its lossy rendering.
    InvalidPath(String),
    /// The path to report as the running program is no file.
    NoSuchExecutable(String),
    /// No interpreter could be provided; holds the chain of causes.
    ProvisionPython(Vec<String>),
    /// The version to run could not be determined; holds the chain of causes.
    DeterminePythonVersion(Vec<String>),
    /// The interpreter's own arguments could not be parsed.
    CpythonArgs(String),
    /// The arguments name no script.
    MissingScript,
    /// The script is no valid Python; holds the formatter's error and the
    /// causes beneath it.
    FormatModule(Vec<String>),
}

/// An error as plain values.
pub enum ErrorView {
    Io(Seq<char>, Seq<Seq<char>>),
    LibLoading(Seq<Seq<char>>),
    MissingSymbol(Symbol, Seq<Seq<char>>),
    InvalidPath(Seq<char>),
    NoSuchExecutable(Seq<char>),
    ProvisionPython(Seq<Seq<char>>),
    DeterminePythonVersion(Seq<Seq<char>>),
    CpythonArgs(Seq<char>),
    MissingScript,
    FormatModule(Seq<Seq<char>>),
}

impl View for PythonPlusPlusError {
    type V = ErrorView;

    open spec fn view(&self) -> ErrorView {
        match self {
            PythonPlusPlusError::Io(m, c) => ErrorView::Io(m@, c.deep_view()),
            PythonPlusPlusError::LibLoading(c) => ErrorView::LibLoading(c.deep_view()),
            PythonPlusPlusError::MissingSymbol(s, c) => ErrorView::MissingSymbol(
                *s,
                c.deep_view(),
            ),
            PythonPlusPlusError::InvalidPath(p) => ErrorView::InvalidPath(p@),
            PythonPlusPlusError::NoSuchExecutable(p) => ErrorView::NoSuchExecutable(p@),
            PythonPlusPlusError::ProvisionPython(c) => ErrorView::ProvisionPython(c.deep_view()),
            PythonPlusPlusError::DeterminePythonVersion(c) => ErrorView::DeterminePythonVersion(
                c.deep_view(),
            ),
            PythonPlusPlusError::CpythonArgs(m) => ErrorView::CpythonArgs(m@),
            PythonPlusPlusError::MissingScript => ErrorView::MissingScript,
            PythonPlusPlusError::FormatModule(c) => ErrorView::FormatModule(c.deep_view()),
        }
    }
}

impl ErrorView {
    /// The error's own message.
    pub open spec fn message(self) -> Seq<char> {
        match self {
            ErrorView::Io(m, _) => m,
            ErrorView::LibLoading(_) => "Failed to load libpython"@,
            ErrorView::MissingSymbol(_, _) =>
                "Failed to load symbol from libpython (libpython should contain those symbols)"@,
            ErrorView::InvalidPath(p) => "Path contains non-utf8 characters: "@ + p,
            ErrorView::NoSuchExecutable(p) => "Can't launch python, "@ + p
                + " does not exist even though it should have been just created"@,
            ErrorView::ProvisionPython(_) => "Failed to provision python"@,
            ErrorView::DeterminePythonVersion(_) => "Failed to determine python version"@,
            ErrorView::CpythonArgs(m) => "Failed to parse cpython arguments: "@ + m,
            ErrorView::MissingScript => "You need to pass a python script for this to work"@,
            ErrorView::FormatModule(_) => "Invalid python code"@,
        }
    }

    /// The causes beneath the error, outermost first.
    pub open spec fn sources(self) -> Seq<Seq<char>> {
        match self {
            ErrorView::Io(_, c) => c,
            ErrorView::LibLoading(c) => c,
            ErrorView::MissingSymbol(_, c) => c,
            ErrorView::ProvisionPython(c) => c,
            ErrorView::DeterminePythonVersion(c) => c,
            ErrorView::FormatModule(c) => c,
            _ => Seq::empty(),
        }
    }

    /// The error's message followed by its causes: one entry per layer.
    pub open spec fn chain(self) -> Seq<Seq<char>> {
        seq![self.message()] + self.sources()
    }

    /// The report of the failure: one "Caused by" line per layer.
    pub open spec fn diagnostic_lines(self) -> Seq<Seq<char>> {
        Seq::new(self.chain().len(), |i: int| "  Caused by: "@ + self.chain()[i])
    }
}

/// The exit status for the outcome of a run: the interpreter's own code when
/// it ran, the failure code otherwise.
pub open spec fn spec_exit_code(outcome: Result<i32, PythonPlusPlusError>) -> i32 {
    match outcome {
        Ok(code) => code,
        Err(_) => FAILURE_EXIT_CODE,
    }
}

impl PythonPlusPlusError {
    /// The error's own message.
    pub fn message(&self) -> (text: String)
        ensures
            text@ == self@.message(),
    {
        match self {
            PythonPlusPlusError::Io(m, _) => m.clone(),
            PythonPlusPlusError::LibLoading(_) => String::from_str("Failed to load libpython"),
            PythonPlusPlusError::MissingSymbol(_, _) => String::from_str(
                "Failed to load symbol from libpython (libpython should contain those symbols)",
            ),
            PythonPlusPlusError::InvalidPath(p) => {
                let mut text = String::from_str("Path contains non-utf8 characters: ");
                text.append(p.as_str());
                text
            },
            PythonPlusPlusError::NoSuchExecutable(p) => {
                let mut text = String::from_str("Can't launch python, ");
                text.append(p.as_str());
                text.append(" does not exist even though it should have been just created");
                text
            },
            PythonPlusPlusError::ProvisionPython(_) => String::from_str(
                "Failed to provision python",
            ),
            PythonPlusPlusError::DeterminePythonVersion(_) => String::from_str(
                "Failed to determine python version",
            ),
            PythonPlusPlusError::CpythonArgs(m) => {
                let mut text = String::from_str("Failed to parse cpython arguments: ");
                text.append(m.as_str());
                text
            },
            PythonPlusPlusError::MissingScript => String::from_str(
                "You need to pass a python script for this to work",
            ),
            PythonPlusPlusError::FormatModule(_) => String::from_str("Invalid python code"),
        }
    }

    /// The error's message followed by its causes, outermost first.
    pub fn chain(&self) -> (layers: Vec<String>)
        ensures
            layers.deep_view() == self@.chain(),
    {
        let mut layers: Vec<String> = Vec::new();
        layers.push(self.message());
        match self {
            PythonPlusPlusError::Io(_, c) => {
                push_all(&mut layers, c);
            },
            PythonPlusPlusError::LibLoading(c) => {
                push_all(&mut layers, c);
            },
            PythonPlusPlusError::MissingSymbol(_, c) => {
                push_all(&mut layers, c);
            },
            PythonPlusPlusError::FormatModule(c) => {
                push_all(&mut layers, c);
            },
            PythonPlusPlusError::ProvisionPython(c) => {
                push_all(&mut layers, c);
            },
            PythonPlusPlusError::DeterminePythonVersion(c) => {
                push_all(&mut layers, c);
            },
            _ => {},
        }
        assert(layers.deep_view() =~= self@.chain());
        layers
    }

    /// The report of the failure, ready to print: one "Caused by" line for
    /// the error and one for each cause beneath it.
    pub fn diagnostic_lines(&self) -> (lines: Vec<String>)
        ensures
            lines.deep_view() == self@.diagnostic_lines(),
    {
        let layers = self.chain();
        let mut lines: Vec<String> = Vec::new();
        let mut i: usize = 0;
        while i < layers.len()
            invariant
                i <= layers.len(),
                lines.len() == i,
                layers.deep_view() == self@.chain(),
                forall|k: int|
                    0 <= k < i ==> (#[trigger] lines@[k])@ == "  Caused by: "@
                        + self@.chain()[k],
            decreases layers.len() - i,
        {
            let mut line = String::from_str("  Caused by: ");
            line.append(layers[i].as_str());
            assert(layers.deep_view()[i as int] == layers@[i as int]@);
            lines.push(line);
            i += 1;
        }
        assert(lines.deep_view() =~= self@.diagnostic_lines());
        lines
    }
}

/// Appends copies of `more` to `layers`.
fn push_all(layers: &mut Vec<String>, more: &Vec<String>)
    ensures
        final(layers).deep_view() == old(layers).deep_view() + more.deep_view(),
{
    let ghost before = layers.deep_view();
    let mut i: usize = 0;
    while i < more.len()
        invariant
            i <= more.len(),
            layers.deep_view() == before + more.deep_view().take(i as int),
        decreases more.len() - i,
    {
        let ghost prior = layers.deep_view();
        layers.push(more[i].clone());
        assert(layers.deep_view() =~= prior.push(more@[i as int]@));
        assert(more.deep_view().take(i + 1) =~= more.deep_view().take(i as int).push(
            more@[i as int]@,
        ));
        i += 1;
    }
    assert(more.deep_view().take(more.len() as int) =~= more.deep_view());
}

/// The exit status for the outcome of a run: the interpreter's own code when
/// it ran, the failure code when the launcher failed before.
pub fn exit_code_of(outcome: &Result<i32, PythonPlusPlusError>) -> (code: i32)
    ensures
        code == spec_exit_code(*outcome),
{
    match outcome {
        Ok(code) => *code,
        Err(_) => FAILURE_EXIT_CODE,
    }
}

/// A failed run reports at least its own message, first, and exits with the
/// failure code.
pub proof fn lemma_failure_report(error: PythonPlusPlusError)
    ensures
        spec_exit_code(Err(error)) == 1,
        error@.diagnostic_lines().len() == 1 + error@.sources().len(),
        error@.diagnostic_lines()[0] == "  Caused by: "@ + error@.message(),
{
}

} // verus!

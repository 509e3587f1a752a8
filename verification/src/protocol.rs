//! The vocabulary between the launcher and whoever drives it: what the
//! launcher is asked to start, the actions it hands out one at a time, and the
//! events in which their results come back.

use crate::abi::{PyPreConfig, PyStatus, PyStatusView, Symbol};
use crate::error::{ErrorView, PythonPlusPlusError};
use crate::resolver::{LoadMode, Platform};
use crate::wide::wide_text;
use vstd::prelude::*;
use widestring::WideCString;

verus! {

/// A file-system path as text. `text` is the path rendered as UTF-8, lossily
/// where it is none; `exact` tells whether the rendering lost nothing.
#[derive(Clone, Debug)]
pub struct PathText {
    pub text: String,
    pub exact: bool,
}

/// A path as plain values.
pub struct PathTextView {
    pub text: Seq<char>,
    pub exact: bool,
}

impl View for PathText {
    type V = PathTextView;

    open spec fn view(&self) -> PathTextView {
        PathTextView { text: self.text@, exact: self.exact }
    }
}

/// What the launcher is asked to start.
#[derive(Debug)]
pub struct LaunchRequest {
    /// The platform whose conventions apply.
    pub platform: Platform,
    /// The installation root of the interpreter.
    pub python_home: String,
    /// The interpreter's version, major and minor.
    pub python_version: (u8, u8),
    /// The path to report as the running program.
    pub sys_executable: PathText,
    /// The interpreter's argument vector, the program first.
    pub args: Vec<String>,
}

/// A request as plain values.
pub struct LaunchRequestView {
    pub platform: Platform,
    pub python_home: Seq<char>,
    pub major: nat,
    pub minor: nat,
    pub sys_executable: PathTextView,
    pub args: Seq<Seq<char>>,
}

impl View for LaunchRequest {
    type V = LaunchRequestView;

    open spec fn view(&self) -> LaunchRequestView {
        LaunchRequestView {
            platform: self.platform,
            python_home: self.python_home@,
            major: self.python_version.0 as nat,
            minor: self.python_version.1 as nat,
            sys_executable: self.sys_executable@,
            args: self.args.deep_view(),
        }
    }
}

/// What the driver is to do next. Each action but the last three is answered
/// by one event.
#[derive(Debug)]
pub enum Action {
    /// Open the shared library found under the installation root by
    /// `segments`, in the given mode.
    OpenLibrary { segments: Vec<String>, mode: LoadMode },
    /// Set an environment variable of the process.
    SetEnvironment { name: String, value: String },
    /// Look an entry point up in the library.
    Bind(Symbol),
    /// Have the interpreter fill a fresh pre-initialisation record with its
    /// defaults, and report the record.
    InitPreConfig,
    /// Pre-initialise the interpreter from this record, and report the status.
    PreInitialize(PyPreConfig),
    /// Ask the interpreter whether this status is an exception.
    CheckStatus(PyStatus),
    /// Hand this status to the interpreter's exit handler, which ends the
    /// process. No event answers it.
    ExitOnStatus(PyStatus),
    /// Register the installation root.
    SetPythonHome(WideCString),
    /// Tell whether a file exists at this path.
    CheckExecutable(String),
    /// Register the path reported as the running program.
    SetProgramName(WideCString),
    /// Initialise the interpreter.
    Initialize,
    /// Run the interpreter's command line on this argument vector, and report
    /// what it returns. The call may end the process instead.
    RunMain(Vec<WideCString>),
    /// The text cannot be handed to the interpreter: it holds a nul before its
    /// end. The launch is broken off; no event answers it.
    Unrepresentable(String),
    /// The launch is over, with the interpreter's exit code or the error that
    /// stopped it. No event answers it.
    Finish(Result<i32, PythonPlusPlusError>),
}

/// An action as plain values; a wide string stands as the text it holds.
pub enum ActionView {
    OpenLibrary { segments: Seq<Seq<char>>, mode: LoadMode },
    SetEnvironment { name: Seq<char>, value: Seq<char> },
    Bind(Symbol),
    InitPreConfig,
    PreInitialize(PyPreConfig),
    CheckStatus(PyStatusView),
    ExitOnStatus(PyStatusView),
    SetPythonHome(Seq<char>),
    CheckExecutable(Seq<char>),
    SetProgramName(Seq<char>),
    Initialize,
    RunMain(Seq<Seq<char>>),
    Unrepresentable(Seq<char>),
    Finish(Result<i32, ErrorView>),
}

/// The texts that a vector of wide strings holds, in order.
pub open spec fn wide_texts(buffers: Seq<WideCString>) -> Seq<Seq<char>> {
    Seq::new(buffers.len(), |i: int| wide_text(buffers[i]))
}

/// The outcome of a launch as plain values.
pub open spec fn outcome_view(outcome: Result<i32, PythonPlusPlusError>) -> Result<i32, ErrorView> {
    match outcome {
        Ok(code) => Ok(code),
        Err(error) => Err(error@),
    }
}

impl View for Action {
    type V = ActionView;

    open spec fn view(&self) -> ActionView {
        match self {
            Action::OpenLibrary { segments, mode } => ActionView::OpenLibrary {
                segments: segments.deep_view(),
                mode: *mode,
            },
            Action::SetEnvironment { name, value } => ActionView::SetEnvironment {
                name: name@,
                value: value@,
            },
            Action::Bind(symbol) => ActionView::Bind(*symbol),
            Action::InitPreConfig => ActionView::InitPreConfig,
            Action::PreInitialize(config) => ActionView::PreInitialize(*config),
            Action::CheckStatus(status) => ActionView::CheckStatus(status@),
            Action::ExitOnStatus(status) => ActionView::ExitOnStatus(status@),
            Action::SetPythonHome(home) => ActionView::SetPythonHome(wide_text(*home)),
            Action::CheckExecutable(path) => ActionView::CheckExecutable(path@),
            Action::SetProgramName(name) => ActionView::SetProgramName(wide_text(*name)),
            Action::Initialize => ActionView::Initialize,
            Action::RunMain(argv) => ActionView::RunMain(wide_texts(argv@)),
            Action::Unrepresentable(text) => ActionView::Unrepresentable(text@),
            Action::Finish(outcome) => ActionView::Finish(outcome_view(*outcome)),
        }
    }
}

/// What came of the action that the launcher handed out last.
#[derive(Clone, Debug)]
pub enum Event {
    /// The library is open.
    LibraryOpened,
    /// The library could not be opened; holds the loader's diagnostic and
    /// the causes beneath it.
    LibraryFailed(Vec<String>),
    /// The action is done and has nothing to report.
    Completed,
    /// The entry point was found.
    SymbolBound,
    /// The entry point is not in the library; holds the loader's diagnostic
    /// and the causes beneath it.
    SymbolMissing(Vec<String>),
    /// The record that the interpreter filled with its defaults.
    PreConfig(PyPreConfig),
    /// The status that pre-initialisation returned.
    Status(PyStatus),
    /// What the interpreter answered when asked whether the status is an
    /// exception: zero for no.
    StatusException(i32),
    /// Whether a file exists at the path.
    ExecutableChecked(bool),
    /// The interpreter's command line returned this code.
    MainReturned(i32),
}

/// An event as plain values.
pub enum EventView {
    LibraryOpened,
    LibraryFailed(Seq<Seq<char>>),
    Completed,
    SymbolBound,
    SymbolMissing(Seq<Seq<char>>),
    PreConfig(PyPreConfig),
    Status(PyStatusView),
    StatusException(i32),
    ExecutableChecked(bool),
    MainReturned(i32),
}

impl View for Event {
    type V = EventView;

    open spec fn view(&self) -> EventView {
        match self {
            Event::LibraryOpened => EventView::LibraryOpened,
            Event::LibraryFailed(causes) => EventView::LibraryFailed(causes.deep_view()),
            Event::Completed => EventView::Completed,
            Event::SymbolBound => EventView::SymbolBound,
            Event::SymbolMissing(causes) => EventView::SymbolMissing(causes.deep_view()),
            Event::PreConfig(config) => EventView::PreConfig(*config),
            Event::Status(status) => EventView::Status(status@),
            Event::StatusException(code) => EventView::StatusException(*code),
            Event::ExecutableChecked(found) => EventView::ExecutableChecked(*found),
            Event::MainReturned(code) => EventView::MainReturned(*code),
        }
    }
}

} // verus!

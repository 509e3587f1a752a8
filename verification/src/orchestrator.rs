//! A whole run, from the process's arguments to its exit status, as a
//! sequence of decisions. The orchestrator hands out one task at a time; the
//! driver does the outside work (finding directories, providing an
//! interpreter, reading and writing files, launching) and reports back. The
//! rewrite of the script happens here, between reading it and writing it out.

use crate::args::{final_arguments, spec_final_arguments};
use crate::error::{ErrorView, PythonPlusPlusError};
use crate::protocol::{outcome_view, LaunchRequest, LaunchRequestView, PathText, PathTextView};
use crate::resolver::Platform;
use crate::rewrite::{rewrite_source, rewrite_view, spec_fits_formatter, spec_rewrite};
use vstd::prelude::*;

verus! {

/// Major version of the interpreter that is run when none is asked for.
pub const DEFAULT_PYTHON_MAJOR: u8 = 3;

/// Minor version of the interpreter that is run when none is asked for.
pub const DEFAULT_PYTHON_MINOR: u8 = 10;

/// What the driver is to do next. Each task but the last is answered by one
/// report.
#[derive(Debug)]
pub enum Task {
    /// Find the per-user cache directory.
    FindCacheDir,
    /// Take the version selection off the arguments; `default_version` holds
    /// when they select none.
    DetermineVersion { args: Vec<String>, default_version: (u8, u8) },
    /// Make sure an interpreter of this version is installed below the cache
    /// directory.
    Provision { version: (u8, u8) },
    /// Find the script among the interpreter's arguments.
    ExtractScript { args: Vec<String> },
    /// Read the script's text.
    ReadScript { path: String },
    /// Create a fresh temporary file.
    CreateTempFile,
    /// Write this text to the temporary file.
    WriteTempFile { content: String },
    /// Launch the interpreter.
    Launch(LaunchRequest),
    /// Leave: with the interpreter's exit code, or with the error to report.
    Exit(Result<i32, PythonPlusPlusError>),
}

/// A task as plain values.
pub enum TaskView {
    FindCacheDir,
    DetermineVersion { args: Seq<Seq<char>>, major: nat, minor: nat },
    Provision { major: nat, minor: nat },
    ExtractScript { args: Seq<Seq<char>> },
    ReadScript { path: Seq<char> },
    CreateTempFile,
    WriteTempFile { content: Seq<char> },
    Launch(LaunchRequestView),
    Exit(Result<i32, ErrorView>),
}

impl View for Task {
    type V = TaskView;

    open spec fn view(&self) -> TaskView {
        match self {
            Task::FindCacheDir => TaskView::FindCacheDir,
            Task::DetermineVersion { args, default_version } => TaskView::DetermineVersion {
                args: args.deep_view(),
                major: default_version.0 as nat,
                minor: default_version.1 as nat,
            },
            Task::Provision { version } => TaskView::Provision {
                major: version.0 as nat,
                minor: version.1 as nat,
            },
            Task::ExtractScript { args } => TaskView::ExtractScript { args: args.deep_view() },
            Task::ReadScript { path } => TaskView::ReadScript { path: path@ },
            Task::CreateTempFile => TaskView::CreateTempFile,
            Task::WriteTempFile { content } => TaskView::WriteTempFile { content: content@ },
            Task::Launch(request) => TaskView::Launch(request@),
            Task::Exit(outcome) => TaskView::Exit(outcome_view(*outcome)),
        }
    }
}

/// What came of the task that the orchestrator handed out last.
#[derive(Debug)]
pub enum Report {
    /// There is a cache directory.
    CacheDirFound,
    /// The system has no cache directory.
    CacheDirMissing,
    /// The version to run, and the arguments left for the interpreter.
    VersionDetermined { args: Vec<String>, version: (u8, u8) },
    /// The version could not be determined; holds the chain of causes.
    VersionFailed(Vec<String>),
    /// The interpreter is installed: its launcher and its installation root.
    Provisioned { python_binary: PathText, python_home: String },
    /// No interpreter could be provided; holds the chain of causes.
    ProvisionFailed(Vec<String>),
    /// The arguments name this script.
    ScriptFound(String),
    /// The arguments name no script.
    ScriptAbsent,
    /// The arguments are no valid command line of the interpreter.
    ArgumentsRejected(String),
    /// The script's text.
    SourceRead(String),
    /// The temporary file, by its path.
    TempFileCreated(PathText),
    /// The text is written.
    Written,
    /// Reading, creating or writing a file failed; holds the failure's own
    /// message and the causes beneath it.
    IoFailed { message: String, causes: Vec<String> },
    /// The launch ended with this outcome.
    Launched(Result<i32, PythonPlusPlusError>),
}

/// A report as plain values.
pub enum ReportView {
    CacheDirFound,
    CacheDirMissing,
    VersionDetermined { args: Seq<Seq<char>>, major: nat, minor: nat },
    VersionFailed(Seq<Seq<char>>),
    Provisioned { python_binary: PathTextView, python_home: Seq<char> },
    ProvisionFailed(Seq<Seq<char>>),
    ScriptFound(Seq<char>),
    ScriptAbsent,
    ArgumentsRejected(Seq<char>),
    SourceRead(Seq<char>),
    TempFileCreated(PathTextView),
    Written,
    IoFailed { message: Seq<char>, causes: Seq<Seq<char>> },
    Launched(Result<i32, ErrorView>),
}

impl View for Report {
    type V = ReportView;

    open spec fn view(&self) -> ReportView {
        match self {
            Report::CacheDirFound => ReportView::CacheDirFound,
            Report::CacheDirMissing => ReportView::CacheDirMissing,
            Report::VersionDetermined { args, version } => ReportView::VersionDetermined {
                args: args.deep_view(),
                major: version.0 as nat,
                minor: version.1 as nat,
            },
            Report::VersionFailed(causes) => ReportView::VersionFailed(causes.deep_view()),
            Report::Provisioned { python_binary, python_home } => ReportView::Provisioned {
                python_binary: python_binary@,
                python_home: python_home@,
            },
            Report::ProvisionFailed(causes) => ReportView::ProvisionFailed(causes.deep_view()),
            Report::ScriptFound(path) => ReportView::ScriptFound(path@),
            Report::ScriptAbsent => ReportView::ScriptAbsent,
            Report::ArgumentsRejected(message) => ReportView::ArgumentsRejected(message@),
            Report::SourceRead(text) => ReportView::SourceRead(text@),
            Report::TempFileCreated(path) => ReportView::TempFileCreated(path@),
            Report::Written => ReportView::Written,
            Report::IoFailed { message, causes } => ReportView::IoFailed {
                message: message@,
                causes: causes.deep_view(),
            },
            Report::Launched(outcome) => ReportView::Launched(outcome_view(*outcome)),
        }
    }
}

/// Where a run stands: which report the orchestrator is waiting for.
#[derive(Clone, Copy, Debug, PartialEq, Eq, Structural)]
pub enum Phase {
    FindingCacheDir,
    DeterminingVersion,
    Provisioning,
    ExtractingScript,
    ReadingScript,
    CreatingTempFile,
    WritingTempFile,
    Launching,
    /// The run is over.
    Done,
}

impl Phase {
    /// Whether `report` is an answer to the task that led to this phase.
    pub open spec fn answered_by(self, report: ReportView) -> bool {
        match self {
            Phase::FindingCacheDir => report is CacheDirFound || report is CacheDirMissing,
            Phase::DeterminingVersion => report is VersionDetermined || report is VersionFailed,
            Phase::Provisioning => report is Provisioned || report is ProvisionFailed,
            Phase::ExtractingScript => report is ScriptFound || report is ScriptAbsent
                || report is ArgumentsRejected,
            Phase::ReadingScript => report is SourceRead || report is IoFailed,
            Phase::CreatingTempFile => report is TempFileCreated || report is IoFailed,
            Phase::WritingTempFile => report is Written || report is IoFailed,
            Phase::Launching => report is Launched,
            Phase::Done => false,
        }
    }
}

/// A run in progress: the phase, and what has been learnt so far. A field
/// holds an empty value until the phase that learns it is past.
#[derive(Debug)]
pub struct Orchestrator {
    platform: Platform,
    phase: Phase,
    args: Vec<String>,
    version: (u8, u8),
    python_binary: PathText,
    python_home: String,
    script: String,
    rewritten: String,
    temp_file: PathText,
}

/// A run in progress as plain values.
pub struct OrchestratorView {
    pub platform: Platform,
    pub phase: Phase,
    /// The arguments still to be handed on: the process's own without the
    /// first at the start, the interpreter's once the version is determined.
    pub args: Seq<Seq<char>>,
    pub major: nat,
    pub minor: nat,
    pub python_binary: PathTextView,
    pub python_home: Seq<char>,
    pub script: Seq<char>,
    /// The script's text after the rewrite.
    pub rewritten: Seq<char>,
    pub temp_file: PathTextView,
}

impl View for Orchestrator {
    type V = OrchestratorView;

    closed spec fn view(&self) -> OrchestratorView {
        OrchestratorView {
            platform: self.platform,
            phase: self.phase,
            args: self.args.deep_view(),
            major: self.version.0 as nat,
            minor: self.version.1 as nat,
            python_binary: self.python_binary@,
            python_home: self.python_home@,
            script: self.script@,
            rewritten: self.rewritten@,
            temp_file: self.temp_file@,
        }
    }
}

/// The message of the error for a system without a cache directory.
pub open spec fn spec_no_cache_dir() -> Seq<char> {
    "System needs to have a cache dir"@
}

/// The process arguments without the program's own name, which comes first.
/// An empty vector has nothing to leave out.
pub open spec fn spec_without_program(args: Seq<Seq<char>>) -> Seq<Seq<char>> {
    if args.len() > 0 {
        args.skip(1)
    } else {
        args
    }
}

/// A run as it begins for the process arguments `args`.
pub open spec fn spec_begin(platform: Platform, args: Seq<Seq<char>>) -> OrchestratorView {
    OrchestratorView {
        platform,
        phase: Phase::FindingCacheDir,
        args: spec_without_program(args),
        major: DEFAULT_PYTHON_MAJOR as nat,
        minor: DEFAULT_PYTHON_MINOR as nat,
        python_binary: PathTextView { text: Seq::empty(), exact: true },
        python_home: Seq::empty(),
        script: Seq::empty(),
        rewritten: Seq::empty(),
        temp_file: PathTextView { text: Seq::empty(), exact: true },
    }
}

/// The run brought to its end with `outcome`.
pub open spec fn spec_leave(run: OrchestratorView, outcome: Result<i32, ErrorView>) -> (
    OrchestratorView,
    TaskView,
) {
    (OrchestratorView { phase: Phase::Done, ..run }, TaskView::Exit(outcome))
}

/// The request that launches the interpreter once the rewritten script is
/// written out: the interpreter's launcher as the running program, and its
/// arguments with the script replaced by the temporary file.
pub open spec fn spec_launch_request(run: OrchestratorView) -> LaunchRequestView {
    LaunchRequestView {
        platform: run.platform,
        python_home: run.python_home,
        major: run.major,
        minor: run.minor,
        sys_executable: run.python_binary,
        args: spec_final_arguments(
            run.python_binary.text,
            run.args,
            run.script,
            run.temp_file.text,
        ),
    }
}

/// What follows once the script has gone through the rewrite with
/// `rewritten`: the temporary file is asked for, or the run ends with the
/// error for invalid Python.
pub open spec fn spec_after_rewrite(
    run: OrchestratorView,
    rewritten: Result<Seq<char>, ErrorView>,
) -> (OrchestratorView, TaskView) {
    match rewritten {
        Ok(code) => (
            OrchestratorView { phase: Phase::CreatingTempFile, rewritten: code, ..run },
            TaskView::CreateTempFile,
        ),
        Err(error) => spec_leave(run, Err(error)),
    }
}

/// What follows once the rewritten script is written out: the launch, or
/// the error for a path that is not valid UTF-8, the temporary file's before
/// the launcher's.
pub open spec fn spec_after_written(run: OrchestratorView) -> (OrchestratorView, TaskView) {
    if !run.temp_file.exact {
        spec_leave(run, Err(ErrorView::InvalidPath(run.temp_file.text)))
    } else if !run.python_binary.exact {
        spec_leave(run, Err(ErrorView::InvalidPath(run.python_binary.text)))
    } else {
        (
            OrchestratorView { phase: Phase::Launching, ..run },
            TaskView::Launch(spec_launch_request(run)),
        )
    }
}

/// The orchestrator's decision: the run and the task that follow when
/// `report` answers the pending task. Meant for the reports that do answer
/// it.
pub open spec fn spec_step(run: OrchestratorView, report: ReportView) -> (
    OrchestratorView,
    TaskView,
)
    recommends
        run.phase.answered_by(report),
{
    match report {
        ReportView::CacheDirFound => (
            OrchestratorView { phase: Phase::DeterminingVersion, ..run },
            TaskView::DetermineVersion { args: run.args, major: run.major, minor: run.minor },
        ),
        ReportView::CacheDirMissing => spec_leave(
            run,
            Err(ErrorView::Io(spec_no_cache_dir(), Seq::empty())),
        ),
        ReportView::VersionDetermined { args, major, minor } => (
            OrchestratorView { phase: Phase::Provisioning, args, major, minor, ..run },
            TaskView::Provision { major, minor },
        ),
        ReportView::VersionFailed(causes) => spec_leave(
            run,
            Err(ErrorView::DeterminePythonVersion(causes)),
        ),
        ReportView::Provisioned { python_binary, python_home } => (
            OrchestratorView { phase: Phase::ExtractingScript, python_binary, python_home, ..run },
            TaskView::ExtractScript { args: run.args },
        ),
        ReportView::ProvisionFailed(causes) => spec_leave(
            run,
            Err(ErrorView::ProvisionPython(causes)),
        ),
        ReportView::ScriptFound(path) => (
            OrchestratorView { phase: Phase::ReadingScript, script: path, ..run },
            TaskView::ReadScript { path },
        ),
        ReportView::ScriptAbsent => spec_leave(run, Err(ErrorView::MissingScript)),
        ReportView::ArgumentsRejected(message) => spec_leave(
            run,
            Err(ErrorView::CpythonArgs(message)),
        ),
        ReportView::SourceRead(text) => spec_after_rewrite(run, spec_rewrite(text)),
        ReportView::TempFileCreated(path) => (
            OrchestratorView { phase: Phase::WritingTempFile, temp_file: path, ..run },
            TaskView::WriteTempFile { content: run.rewritten },
        ),
        ReportView::Written => spec_after_written(run),
        ReportView::IoFailed { message, causes } => spec_leave(
            run,
            Err(ErrorView::Io(message, causes)),
        ),
        ReportView::Launched(outcome) => spec_leave(run, outcome),
    }
}

/// A copy of `texts`.
fn copy_texts(texts: &Vec<String>) -> (copy: Vec<String>)
    ensures
        copy.deep_view() == texts.deep_view(),
{
    let mut copy: Vec<String> = Vec::new();
    let mut i: usize = 0;
    while i < texts.len()
        invariant
            i <= texts.len(),
            copy.len() == i,
            forall|k: int| 0 <= k < i ==> (#[trigger] copy@[k])@ == texts@[k]@,
        decreases texts.len() - i,
    {
        copy.push(texts[i].clone());
        i += 1;
    }
    assert(copy.deep_view() =~= texts.deep_view());
    copy
}

/// A copy of `path`.
fn copy_path(path: &PathText) -> (copy: PathText)
    ensures
        copy@ == path@,
{
    PathText { text: path.text.clone(), exact: path.exact }
}

impl Orchestrator {
    /// Begins a run for the process arguments `args`, the program's own name
    /// first: that name is left out, the default version is assumed until
    /// another is determined, and the first task asks for the cache directory.
    pub fn new(platform: Platform, args: Vec<String>) -> (begun: (Orchestrator, Task))
        ensures
            begun.0@ == spec_begin(platform, args.deep_view()),
            begun.1@ == TaskView::FindCacheDir,
    {
        let ghost given = args.deep_view();
        let mut rest = args;
        if rest.len() > 0 {
            rest.remove(0);
        }
        assert(rest.deep_view() =~= spec_without_program(given));
        (
            Orchestrator {
                platform,
                phase: Phase::FindingCacheDir,
                args: rest,
                version: (DEFAULT_PYTHON_MAJOR, DEFAULT_PYTHON_MINOR),
                python_binary: PathText { text: String::new(), exact: true },
                python_home: String::new(),
                script: String::new(),
                rewritten: String::new(),
                temp_file: PathText { text: String::new(), exact: true },
            },
            Task::FindCacheDir,
        )
    }

    /// Whether the run is over.
    pub fn is_done(&self) -> (done: bool)
        ensures
            done == (self@.phase == Phase::Done),
    {
        self.phase == Phase::Done
    }

    /// Whether `report` is an answer that the orchestrator is waiting for.
    pub fn answered_by(&self, report: &Report) -> (yes: bool)
        ensures
            yes == self@.phase.answered_by(report@),
    {
        match self.phase {
            Phase::FindingCacheDir => match report {
                Report::CacheDirFound => true,
                Report::CacheDirMissing => true,
                _ => false,
            },
            Phase::DeterminingVersion => match report {
                Report::VersionDetermined { .. } => true,
                Report::VersionFailed(_) => true,
                _ => false,
            },
            Phase::Provisioning => match report {
                Report::Provisioned { .. } => true,
                Report::ProvisionFailed(_) => true,
                _ => false,
            },
            Phase::ExtractingScript => match report {
                Report::ScriptFound(_) => true,
                Report::ScriptAbsent => true,
                Report::ArgumentsRejected(_) => true,
                _ => false,
            },
            Phase::ReadingScript => match report {
                Report::SourceRead(_) => true,
                Report::IoFailed { .. } => true,
                _ => false,
            },
            Phase::CreatingTempFile => match report {
                Report::TempFileCreated(_) => true,
                Report::IoFailed { .. } => true,
                _ => false,
            },
            Phase::WritingTempFile => match report {
                Report::Written => true,
                Report::IoFailed { .. } => true,
                _ => false,
            },
            Phase::Launching => match report {
                Report::Launched(_) => true,
                _ => false,
            },
            Phase::Done => false,
        }
    }

    /// Ends the run with `outcome`.
    fn leave(self, outcome: Result<i32, PythonPlusPlusError>) -> (next: (Orchestrator, Task))
        ensures
            (next.0@, next.1@) == spec_leave(self@, outcome_view(outcome)),
    {
        let mut run = self;
        run.phase = Phase::Done;
        (run, Task::Exit(outcome))
    }

    /// Decides what follows the rewrite of the script, given its outcome:
    /// the rewritten text is kept and a temporary file asked for, or the run
    /// ends with the error for invalid Python.
    pub fn after_rewrite(self, rewritten: Result<String, PythonPlusPlusError>) -> (next: (
        Orchestrator,
        Task,
    ))
        ensures
            (next.0@, next.1@) == spec_after_rewrite(self@, rewrite_view(rewritten)),
    {
        match rewritten {
            Ok(code) => {
                let mut run = self;
                run.phase = Phase::CreatingTempFile;
                run.rewritten = code;
                (run, Task::CreateTempFile)
            },
            Err(error) => self.leave(Err(error)),
        }
    }

    /// Decides what follows once the rewritten script is written out.
    fn after_written(self) -> (next: (Orchestrator, Task))
        ensures
            (next.0@, next.1@) == spec_after_written(self@),
    {
        if !self.temp_file.exact {
            let path = self.temp_file.text.clone();
            self.leave(Err(PythonPlusPlusError::InvalidPath(path)))
        } else if !self.python_binary.exact {
            let path = self.python_binary.text.clone();
            self.leave(Err(PythonPlusPlusError::InvalidPath(path)))
        } else {
            let request = LaunchRequest {
                platform: self.platform,
                python_home: self.python_home.clone(),
                python_version: self.version,
                sys_executable: copy_path(&self.python_binary),
                args: final_arguments(
                    self.python_binary.text.as_str(),
                    copy_texts(&self.args),
                    self.script.as_str(),
                    self.temp_file.text.as_str(),
                ),
            };
            let mut run = self;
            run.phase = Phase::Launching;
            (run, Task::Launch(request))
        }
    }

    /// Takes the answer to the last task and decides what is next: the run
    /// in its new phase, and the task to carry out. The script's text is
    /// rewritten here, as soon as it is reported; it has to be short enough
    /// for the formatter.
    pub fn step(self, report: Report) -> (next: (Orchestrator, Task))
        requires
            self@.phase.answered_by(report@),
            report@ matches ReportView::SourceRead(text) ==> spec_fits_formatter(text),
        ensures
            (next.0@, next.1@) == spec_step(self@, report@),
    {
        match report {
            Report::CacheDirFound => {
                let task = Task::DetermineVersion {
                    args: copy_texts(&self.args),
                    default_version: self.version,
                };
                let mut run = self;
                run.phase = Phase::DeterminingVersion;
                (run, task)
            },
            Report::CacheDirMissing => {
                let causes: Vec<String> = Vec::new();
                assert(causes.deep_view() =~= Seq::<Seq<char>>::empty());
                let message = String::from_str("System needs to have a cache dir");
                self.leave(Err(PythonPlusPlusError::Io(message, causes)))
            },
            Report::VersionDetermined { args, version } => {
                let mut run = self;
                run.phase = Phase::Provisioning;
                run.args = args;
                run.version = version;
                (run, Task::Provision { version })
            },
            Report::VersionFailed(causes) => self.leave(
                Err(PythonPlusPlusError::DeterminePythonVersion(causes)),
            ),
            Report::Provisioned { python_binary, python_home } => {
                let task = Task::ExtractScript { args: copy_texts(&self.args) };
                let mut run = self;
                run.phase = Phase::ExtractingScript;
                run.python_binary = python_binary;
                run.python_home = python_home;
                (run, task)
            },
            Report::ProvisionFailed(causes) => self.leave(
                Err(PythonPlusPlusError::ProvisionPython(causes)),
            ),
            Report::ScriptFound(path) => {
                let task = Task::ReadScript { path: path.clone() };
                let mut run = self;
                run.phase = Phase::ReadingScript;
                run.script = path;
                (run, task)
            },
            Report::ScriptAbsent => self.leave(Err(PythonPlusPlusError::MissingScript)),
            Report::ArgumentsRejected(message) => self.leave(
                Err(PythonPlusPlusError::CpythonArgs(message)),
            ),
            Report::SourceRead(text) => {
                let rewritten = rewrite_source(text.as_str());
                self.after_rewrite(rewritten)
            },
            Report::TempFileCreated(path) => {
                let task = Task::WriteTempFile { content: self.rewritten.clone() };
                let mut run = self;
                run.phase = Phase::WritingTempFile;
                run.temp_file = path;
                (run, task)
            },
            Report::Written => self.after_written(),
            Report::IoFailed { message, causes } => self.leave(
                Err(PythonPlusPlusError::Io(message, causes)),
            ),
            Report::Launched(outcome) => self.leave(outcome),
        }
    }
}

} // verus!

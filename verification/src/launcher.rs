//! The launch of the interpreter as a sequence of decisions. The launcher
//! hands out one action at a time; the driver carries it out against the real
//! library and reports what came of it; the launcher decides what is next.
//! Nothing here touches the library itself.

use crate::abi::{PyPreConfig, PyStatus, PyStatusView, Symbol};
use crate::error::{ErrorView, PythonPlusPlusError};
use crate::protocol::{
    wide_texts, Action, ActionView, Event, EventView, LaunchRequest, LaunchRequestView,
};
use crate::resolver::{library_segments, load_mode, spec_library_segments, spec_load_mode};
use crate::wide::{
    encode_wide, marshal_arguments, spec_all_representable, spec_first_unrepresentable,
    spec_payload, spec_representable,
};
use vstd::pervasive::unreached;
use vstd::prelude::*;

verus! {

/// Where a launch stands: which answer the launcher is waiting for.
#[derive(Debug)]
pub enum Stage {
    OpeningLibrary,
    SettingEnvironment,
    BindingInitConfig,
    InitializingConfig,
    BindingPreInitialize(PyPreConfig),
    PreInitializing,
    BindingStatusException(PyStatus),
    BindingExitStatusException(PyStatus),
    CheckingStatus(PyStatus),
    /// The interpreter's exit handler has the status; the process ends there.
    ExitingOnStatus,
    BindingSetPythonHome,
    SettingHome,
    CheckingExecutable,
    BindingSetProgramName,
    SettingProgramName,
    BindingInitialize,
    Initializing,
    BindingMain,
    Running,
    /// The launch is over.
    Finished,
}

/// A stage as plain values.
pub enum StageView {
    OpeningLibrary,
    SettingEnvironment,
    BindingInitConfig,
    InitializingConfig,
    BindingPreInitialize(PyPreConfig),
    PreInitializing,
    BindingStatusException(PyStatusView),
    BindingExitStatusException(PyStatusView),
    CheckingStatus(PyStatusView),
    ExitingOnStatus,
    BindingSetPythonHome,
    SettingHome,
    CheckingExecutable,
    BindingSetProgramName,
    SettingProgramName,
    BindingInitialize,
    Initializing,
    BindingMain,
    Running,
    Finished,
}

impl View for Stage {
    type V = StageView;

    open spec fn view(&self) -> StageView {
        match self {
            Stage::OpeningLibrary => StageView::OpeningLibrary,
            Stage::SettingEnvironment => StageView::SettingEnvironment,
            Stage::BindingInitConfig => StageView::BindingInitConfig,
            Stage::InitializingConfig => StageView::InitializingConfig,
            Stage::BindingPreInitialize(c) => StageView::BindingPreInitialize(*c),
            Stage::PreInitializing => StageView::PreInitializing,
            Stage::BindingStatusException(s) => StageView::BindingStatusException(s@),
            Stage::BindingExitStatusException(s) => StageView::BindingExitStatusException(s@),
            Stage::CheckingStatus(s) => StageView::CheckingStatus(s@),
            Stage::ExitingOnStatus => StageView::ExitingOnStatus,
            Stage::BindingSetPythonHome => StageView::BindingSetPythonHome,
            Stage::SettingHome => StageView::SettingHome,
            Stage::CheckingExecutable => StageView::CheckingExecutable,
            Stage::BindingSetProgramName => StageView::BindingSetProgramName,
            Stage::SettingProgramName => StageView::SettingProgramName,
            Stage::BindingInitialize => StageView::BindingInitialize,
            Stage::Initializing => StageView::Initializing,
            Stage::BindingMain => StageView::BindingMain,
            Stage::Running => StageView::Running,
            Stage::Finished => StageView::Finished,
        }
    }
}

impl StageView {
    /// The entry point that a stage is looking up, if it is looking one up.
    pub open spec fn binding(self) -> Option<Symbol> {
        match self {
            StageView::BindingInitConfig => Some(Symbol::PreConfigInitPythonConfig),
            StageView::BindingPreInitialize(_) => Some(Symbol::PreInitialize),
            StageView::BindingStatusException(_) => Some(Symbol::StatusException),
            StageView::BindingExitStatusException(_) => Some(Symbol::ExitStatusException),
            StageView::BindingSetPythonHome => Some(Symbol::SetPythonHome),
            StageView::BindingSetProgramName => Some(Symbol::SetProgramName),
            StageView::BindingInitialize => Some(Symbol::Initialize),
            StageView::BindingMain => Some(Symbol::Main),
            _ => None,
        }
    }

    /// Whether the launch has come to its end: no event is waited for.
    pub open spec fn is_over(self) -> bool {
        self is Finished || self is ExitingOnStatus
    }

    /// Whether `event` is an answer to the action that led to this stage.
    pub open spec fn answered_by(self, event: EventView) -> bool {
        match self {
            StageView::OpeningLibrary => event is LibraryOpened || event is LibraryFailed,
            StageView::SettingEnvironment => event is Completed,
            StageView::InitializingConfig => event is PreConfig,
            StageView::PreInitializing => event is Status,
            StageView::CheckingStatus(_) => event is StatusException,
            StageView::SettingHome => event is Completed,
            StageView::CheckingExecutable => event is ExecutableChecked,
            StageView::SettingProgramName => event is Completed,
            StageView::Initializing => event is Completed,
            StageView::Running => event is MainReturned,
            StageView::ExitingOnStatus => false,
            StageView::Finished => false,
            _ => event is SymbolBound || event is SymbolMissing,
        }
    }
}

/// The name of the environment variable that keeps the user's site
/// directory out of the interpreter's import path.
pub open spec fn spec_no_user_site() -> Seq<char> {
    "PYTHONNOUSERSITE"@
}

/// The action that opens a launch.
pub open spec fn spec_first_action(request: LaunchRequestView) -> ActionView {
    ActionView::OpenLibrary {
        segments: spec_library_segments(request.platform, request.major, request.minor),
        mode: spec_load_mode(request.platform),
    }
}

/// What follows when the entry point that `stage` was looking up is there.
pub open spec fn spec_after_bound(request: LaunchRequestView, stage: StageView) -> (
    StageView,
    ActionView,
) {
    match stage {
        StageView::BindingInitConfig => (StageView::InitializingConfig, ActionView::InitPreConfig),
        StageView::BindingPreInitialize(c) => (
            StageView::PreInitializing,
            ActionView::PreInitialize(c),
        ),
        StageView::BindingStatusException(s) => (
            StageView::BindingExitStatusException(s),
            ActionView::Bind(Symbol::ExitStatusException),
        ),
        StageView::BindingExitStatusException(s) => (
            StageView::CheckingStatus(s),
            ActionView::CheckStatus(s),
        ),
        StageView::BindingSetPythonHome => if spec_representable(request.python_home) {
            (
                StageView::SettingHome,
                ActionView::SetPythonHome(spec_payload(request.python_home)),
            )
        } else {
            (StageView::Finished, ActionView::Unrepresentable(request.python_home))
        },
        StageView::BindingSetProgramName => if spec_representable(request.sys_executable.text) {
            (
                StageView::SettingProgramName,
                ActionView::SetProgramName(spec_payload(request.sys_executable.text)),
            )
        } else {
            (StageView::Finished, ActionView::Unrepresentable(request.sys_executable.text))
        },
        StageView::BindingInitialize => (StageView::Initializing, ActionView::Initialize),
        StageView::BindingMain => if spec_all_representable(request.args) {
            (StageView::Running, ActionView::RunMain(request.args.map_values(|t| spec_payload(t))))
        } else {
            (
                StageView::Finished,
                ActionView::Unrepresentable(
                    request.args[spec_first_unrepresentable(request.args, 0)],
                ),
            )
        },
        _ => arbitrary(),
    }
}

/// The launcher's decision: the stage and the action that follow when
/// `event` answers `stage`. Meant for the events that do answer it.
pub open spec fn spec_step(request: LaunchRequestView, stage: StageView, event: EventView) -> (
    StageView,
    ActionView,
)
    recommends
        stage.answered_by(event),
{
    match event {
        EventView::LibraryOpened => (
            StageView::SettingEnvironment,
            ActionView::SetEnvironment { name: spec_no_user_site(), value: "1"@ },
        ),
        EventView::LibraryFailed(causes) => (
            StageView::Finished,
            ActionView::Finish(Err(ErrorView::LibLoading(causes))),
        ),
        EventView::Completed => match stage {
            StageView::SettingEnvironment => (
                StageView::BindingInitConfig,
                ActionView::Bind(Symbol::PreConfigInitPythonConfig),
            ),
            StageView::SettingHome => if request.sys_executable.exact {
                (
                    StageView::CheckingExecutable,
                    ActionView::CheckExecutable(request.sys_executable.text),
                )
            } else {
                (
                    StageView::Finished,
                    ActionView::Finish(Err(ErrorView::InvalidPath(request.sys_executable.text))),
                )
            },
            StageView::SettingProgramName => (
                StageView::BindingInitialize,
                ActionView::Bind(Symbol::Initialize),
            ),
            StageView::Initializing => (StageView::BindingMain, ActionView::Bind(Symbol::Main)),
            _ => arbitrary(),
        },
        EventView::SymbolBound => spec_after_bound(request, stage),
        EventView::SymbolMissing(causes) => (
            StageView::Finished,
            ActionView::Finish(Err(ErrorView::MissingSymbol(stage.binding().unwrap(), causes))),
        ),
        EventView::PreConfig(config) => (
            StageView::BindingPreInitialize(config.spec_force_utf8()),
            ActionView::Bind(Symbol::PreInitialize),
        ),
        EventView::Status(status) => (
            StageView::BindingStatusException(status),
            ActionView::Bind(Symbol::StatusException),
        ),
        EventView::StatusException(code) => if code != 0 {
            (StageView::ExitingOnStatus, ActionView::ExitOnStatus(stage->CheckingStatus_0))
        } else {
            (StageView::BindingSetPythonHome, ActionView::Bind(Symbol::SetPythonHome))
        },
        EventView::ExecutableChecked(found) => if found {
            (StageView::BindingSetProgramName, ActionView::Bind(Symbol::SetProgramName))
        } else {
            (
                StageView::Finished,
                ActionView::Finish(Err(ErrorView::NoSuchExecutable(request.sys_executable.text))),
            )
        },
        EventView::MainReturned(code) => (StageView::Finished, ActionView::Finish(Ok(code))),
    }
}

/// A launch in progress.
#[derive(Debug)]
pub struct Launcher {
    request: LaunchRequest,
    stage: Stage,
}

/// A launch in progress as plain values.
pub struct LauncherView {
    pub request: LaunchRequestView,
    pub stage: StageView,
}

impl View for Launcher {
    type V = LauncherView;

    closed spec fn view(&self) -> LauncherView {
        LauncherView { request: self.request@, stage: self.stage@ }
    }
}

fn copy_text(text: &Option<String>) -> (copy: Option<String>)
    ensures
        copy is Some <==> text is Some,
        copy matches Some(c) ==> c@ == text->Some_0@,
{
    match text {
        Some(t) => Some(t.clone()),
        None => None,
    }
}

fn copy_status(status: &PyStatus) -> (copy: PyStatus)
    ensures
        copy@ == status@,
{
    PyStatus {
        _type: status._type,
        func: copy_text(&status.func),
        err_msg: copy_text(&status.err_msg),
        exitcode: status.exitcode,
    }
}

impl Launcher {
    /// Begins a launch: the launcher waits for the library to be opened, and
    /// the first action asks for just that.
    pub fn new(request: LaunchRequest) -> (begun: (Launcher, Action))
        ensures
            begun.0@.request == request@,
            begun.0@.stage == StageView::OpeningLibrary,
            begun.1@ == spec_first_action(request@),
    {
        let segments = library_segments(request.platform, request.python_version);
        let mode = load_mode(request.platform);
        (
            Launcher { request, stage: Stage::OpeningLibrary },
            Action::OpenLibrary { segments, mode },
        )
    }

    /// Whether the launch has come to its end.
    pub fn is_over(&self) -> (over: bool)
        ensures
            over == self@.stage.is_over(),
    {
        match self.stage {
            Stage::Finished => true,
            Stage::ExitingOnStatus => true,
            _ => false,
        }
    }

    /// Whether `event` is an answer that the launcher is waiting for.
    pub fn answered_by(&self, event: &Event) -> (yes: bool)
        ensures
            yes == self@.stage.answered_by(event@),
    {
        match self.stage {
            Stage::OpeningLibrary => match event {
                Event::LibraryOpened => true,
                Event::LibraryFailed(_) => true,
                _ => false,
            },
            Stage::SettingEnvironment => matches!(event, Event::Completed),
            Stage::InitializingConfig => matches!(event, Event::PreConfig(_)),
            Stage::PreInitializing => matches!(event, Event::Status(_)),
            Stage::CheckingStatus(_) => matches!(event, Event::StatusException(_)),
            Stage::SettingHome => matches!(event, Event::Completed),
            Stage::CheckingExecutable => matches!(event, Event::ExecutableChecked(_)),
            Stage::SettingProgramName => matches!(event, Event::Completed),
            Stage::Initializing => matches!(event, Event::Completed),
            Stage::Running => matches!(event, Event::MainReturned(_)),
            Stage::ExitingOnStatus => false,
            Stage::Finished => false,
            _ => match event {
                Event::SymbolBound => true,
                Event::SymbolMissing(_) => true,
                _ => false,
            },
        }
    }

    /// Takes the answer to the last action and decides what is next: the
    /// launcher in its new stage, and the action to carry out.
    pub fn step(self, event: Event) -> (next: (Launcher, Action))
        requires
            self@.stage.answered_by(event@),
        ensures
            next.0@.request == self@.request,
            (next.0@.stage, next.1@) == spec_step(self@.request, self@.stage, event@),
    {
        let Launcher { request, stage } = self;
        let (stage, action) = match event {
            Event::LibraryOpened => (
                Stage::SettingEnvironment,
                Action::SetEnvironment {
                    name: String::from_str("PYTHONNOUSERSITE"),
                    value: String::from_str("1"),
                },
            ),
            Event::LibraryFailed(causes) => (
                Stage::Finished,
                Action::Finish(Err(PythonPlusPlusError::LibLoading(causes))),
            ),
            Event::Completed => match stage {
                Stage::SettingEnvironment => (
                    Stage::BindingInitConfig,
                    Action::Bind(Symbol::PreConfigInitPythonConfig),
                ),
                Stage::SettingHome => if request.sys_executable.exact {
                    (
                        Stage::CheckingExecutable,
                        Action::CheckExecutable(request.sys_executable.text.clone()),
                    )
                } else {
                    (
                        Stage::Finished,
                        Action::Finish(
                            Err(
                                PythonPlusPlusError::InvalidPath(
                                    request.sys_executable.text.clone(),
                                ),
                            ),
                        ),
                    )
                },
                Stage::SettingProgramName => (
                    Stage::BindingInitialize,
                    Action::Bind(Symbol::Initialize),
                ),
                Stage::Initializing => (Stage::BindingMain, Action::Bind(Symbol::Main)),
                _ => unreached(),
            },
            Event::SymbolBound => after_bound(&request, stage),
            Event::SymbolMissing(causes) => {
                let symbol = match stage {
                    Stage::BindingInitConfig => Symbol::PreConfigInitPythonConfig,
                    Stage::BindingPreInitialize(_) => Symbol::PreInitialize,
                    Stage::BindingStatusException(_) => Symbol::StatusException,
                    Stage::BindingExitStatusException(_) => Symbol::ExitStatusException,
                    Stage::BindingSetPythonHome => Symbol::SetPythonHome,
                    Stage::BindingSetProgramName => Symbol::SetProgramName,
                    Stage::BindingInitialize => Symbol::Initialize,
                    Stage::BindingMain => Symbol::Main,
                    _ => unreached(),
                };
                (
                    Stage::Finished,
                    Action::Finish(Err(PythonPlusPlusError::MissingSymbol(symbol, causes))),
                )
            },
            Event::PreConfig(config) => (
                Stage::BindingPreInitialize(config.force_utf8()),
                Action::Bind(Symbol::PreInitialize),
            ),
            Event::Status(status) => (
                Stage::BindingStatusException(status),
                Action::Bind(Symbol::StatusException),
            ),
            Event::StatusException(code) => if code != 0 {
                match stage {
                    Stage::CheckingStatus(status) => (
                        Stage::ExitingOnStatus,
                        Action::ExitOnStatus(status),
                    ),
                    _ => unreached(),
                }
            } else {
                (Stage::BindingSetPythonHome, Action::Bind(Symbol::SetPythonHome))
            },
            Event::ExecutableChecked(found) => if found {
                (Stage::BindingSetProgramName, Action::Bind(Symbol::SetProgramName))
            } else {
                (
                    Stage::Finished,
                    Action::Finish(
                        Err(
                            PythonPlusPlusError::NoSuchExecutable(
                                request.sys_executable.text.clone(),
                            ),
                        ),
                    ),
                )
            },
            Event::MainReturned(code) => (Stage::Finished, Action::Finish(Ok(code))),
        };
        (Launcher { request, stage }, action)
    }
}

/// Decides what follows when the entry point that `stage` was looking up is
/// there. Where the next call takes text, the text is converted here.
fn after_bound(request: &LaunchRequest, stage: Stage) -> (next: (Stage, Action))
    requires
        stage@.binding() is Some,
    ensures
        (next.0@, next.1@) == spec_after_bound(request@, stage@),
{
    match stage {
        Stage::BindingInitConfig => (Stage::InitializingConfig, Action::InitPreConfig),
        Stage::BindingPreInitialize(c) => (Stage::PreInitializing, Action::PreInitialize(c)),
        Stage::BindingStatusException(s) => (
            Stage::BindingExitStatusException(s),
            Action::Bind(Symbol::ExitStatusException),
        ),
        Stage::BindingExitStatusException(s) => {
            let asked = copy_status(&s);
            (Stage::CheckingStatus(s), Action::CheckStatus(asked))
        },
        Stage::BindingSetPythonHome => match encode_wide(request.python_home.as_str()) {
            Some(home) => (Stage::SettingHome, Action::SetPythonHome(home)),
            None => (Stage::Finished, Action::Unrepresentable(request.python_home.clone())),
        },
        Stage::BindingSetProgramName => match encode_wide(request.sys_executable.text.as_str()) {
            Some(name) => (Stage::SettingProgramName, Action::SetProgramName(name)),
            None => (
                Stage::Finished,
                Action::Unrepresentable(request.sys_executable.text.clone()),
            ),
        },
        Stage::BindingInitialize => (Stage::Initializing, Action::Initialize),
        Stage::BindingMain => match marshal_arguments(&request.args) {
            Ok(argv) => {
                assert(wide_texts(argv@) =~= request@.args.map_values(|t| spec_payload(t)));
                (Stage::Running, Action::RunMain(argv))
            },
            Err(at) => {
                assert(request.args.deep_view()[at as int] == request.args@[at as int]@);
                (Stage::Finished, Action::Unrepresentable(request.args[at].clone()))
            },
        },
        _ => unreached(),
    }
}

} // verus!

//! The part of the interpreter's embedding interface that the launcher
//! touches: the entry points it looks up, and plain-value pictures of the two
//! records that cross the boundary before initialisation.

use vstd::prelude::*;

verus! {

/// The entry points the launcher looks up in the interpreter's library.
#[derive(Clone, Copy, Debug, PartialEq, Eq, Structural)]
pub enum Symbol {
    /// Fills a pre-initialisation record with the defaults of a regular
    /// Python.
    PreConfigInitPythonConfig,
    /// Pre-initialises the interpreter from such a record.
    PreInitialize,
    /// Tells whether a status reports an error or an exit.
    StatusException,
    /// Ends the process as a status asks; does not return.
    ExitStatusException,
    /// Registers the installation root.
    SetPythonHome,
    /// Registers the path reported as the running program.
    SetProgramName,
    /// Initialises the interpreter.
    Initialize,
    /// Runs the interpreter's own command line.
    Main,
}

impl Symbol {
    /// The name under which the entry point is exported.
    pub open spec fn spec_name(self) -> Seq<char> {
        match self {
            Symbol::PreConfigInitPythonConfig => "PyPreConfig_InitPythonConfig"@,
            Symbol::PreInitialize => "Py_PreInitialize"@,
            Symbol::StatusException => "PyStatus_Exception"@,
            Symbol::ExitStatusException => "Py_ExitStatusException"@,
            Symbol::SetPythonHome => "Py_SetPythonHome"@,
            Symbol::SetProgramName => "Py_SetProgramName"@,
            Symbol::Initialize => "Py_Initialize"@,
            Symbol::Main => "Py_Main"@,
        }
    }

    /// The name under which the entry point is exported.
    pub fn name(self) -> (name: &'static str)
        ensures
            name@ == self.spec_name(),
    {
        match self {
            Symbol::PreConfigInitPythonConfig => "PyPreConfig_InitPythonConfig",
            Symbol::PreInitialize => "Py_PreInitialize",
            Symbol::StatusException => "PyStatus_Exception",
            Symbol::ExitStatusException => "Py_ExitStatusException",
            Symbol::SetPythonHome => "Py_SetPythonHome",
            Symbol::SetProgramName => "Py_SetProgramName",
            Symbol::Initialize => "Py_Initialize",
            Symbol::Main => "Py_Main",
        }
    }
}

/// The interpreter's pre-initialisation record, field for field. The field
/// for the legacy file-system encoding exists on Windows alone and is `None`
/// elsewhere.
#[derive(Clone, Copy, Debug, PartialEq, Eq, Structural)]
pub struct PyPreConfig {
    pub _config_init: i32,
    pub parse_argv: i32,
    pub isolated: i32,
    pub use_environment: i32,
    pub configure_locale: i32,
    pub coerce_c_locale: i32,
    pub coerce_c_locale_warn: i32,
    pub legacy_windows_fs_encoding: Option<i32>,
    pub utf8_mode: i32,
    pub dev_mode: i32,
    pub allocator: i32,
}

impl PyPreConfig {
    /// The record with UTF-8 mode switched on and nothing else touched.
    pub open spec fn spec_force_utf8(self) -> PyPreConfig {
        PyPreConfig { utf8_mode: 1, ..self }
    }

    /// Switches UTF-8 mode on, as the environment setting `PYTHONUTF8=1`
    /// would, and leaves every other field as it is.
    pub fn force_utf8(self) -> (forced: PyPreConfig)
        ensures
            forced == self.spec_force_utf8(),
    {
        PyPreConfig { utf8_mode: 1, ..self }
    }
}

/// The three outcomes a status can report.
#[derive(Clone, Copy, Debug, PartialEq, Eq, Structural)]
pub enum PyStatusType {
    /// Success.
    StatusOk,
    /// A failure, with a message.
    StatusError,
    /// A request to leave the process with an exit code.
    StatusExit,
}

/// The status that the interpreter hands back from pre-initialisation.
#[derive(Clone, Debug)]
pub struct PyStatus {
    pub _type: PyStatusType,
    pub func: Option<String>,
    pub err_msg: Option<String>,
    pub exitcode: i32,
}

/// A status as plain values.
pub struct PyStatusView {
    pub _type: PyStatusType,
    pub func: Option<Seq<char>>,
    pub err_msg: Option<Seq<char>>,
    pub exitcode: int,
}

impl View for PyStatus {
    type V = PyStatusView;

    open spec fn view(&self) -> PyStatusView {
        PyStatusView {
            _type: self._type,
            func: match self.func {
                Some(f) => Some(f@),
                None => None,
            },
            err_msg: match self.err_msg {
                Some(m) => Some(m@),
                None => None,
            },
            exitcode: self.exitcode as int,
        }
    }
}

impl PyStatus {
    /// Whether the status reports an error or an exit.
    pub open spec fn spec_is_exception(self) -> bool {
        self._type != PyStatusType::StatusOk
    }

    /// Whether the status reports an error or an exit, read off the record
    /// itself.
    pub fn is_exception(&self) -> (yes: bool)
        ensures
            yes == self.spec_is_exception(),
    {
        match self._type {
            PyStatusType::StatusOk => false,
            PyStatusType::StatusError => true,
            PyStatusType::StatusExit => true,
        }
    }
}

} // verus!

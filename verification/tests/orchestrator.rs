use python_plusplus::error::{exit_code_of, PythonPlusPlusError};
use python_plusplus::orchestrator::{
    Orchestrator, Report, Task, DEFAULT_PYTHON_MAJOR, DEFAULT_PYTHON_MINOR,
};
use python_plusplus::protocol::PathText;
use python_plusplus::resolver::Platform;

/// A stand-in for everything outside: directories, provisioning, files, and
/// the launch itself.
struct MockWorld {
    cache_dir: bool,
    version: Result<(u8, u8), Vec<String>>,
    provision: Result<(PathText, String), Vec<String>>,
    script: Result<Option<String>, String>,
    source: Result<String, String>,
    temp_file: Result<PathText, String>,
    write: Result<(), String>,
    launch: Result<i32, PythonPlusPlusError>,
}

fn exact(text: &str) -> PathText {
    PathText { text: text.to_string(), exact: true }
}

fn world(script: Option<&str>, source: &str) -> MockWorld {
    MockWorld {
        cache_dir: true,
        version: Ok((3, 10)),
        provision: Ok((exact("/cache/py/bin/python3"), "/cache/py".to_string())),
        script: Ok(script.map(|s| s.to_string())),
        source: Ok(source.to_string()),
        temp_file: Ok(exact("/tmp/.tmpAbC123")),
        write: Ok(()),
        launch: Ok(0),
    }
}

impl MockWorld {
    fn answer(&self, task: &Task) -> Option<Report> {
        match task {
            Task::FindCacheDir => {
                Some(if self.cache_dir { Report::CacheDirFound } else { Report::CacheDirMissing })
            }
            Task::DetermineVersion { args, .. } => Some(match &self.version {
                Ok(version) => Report::VersionDetermined { args: args.clone(), version: *version },
                Err(causes) => Report::VersionFailed(causes.clone()),
            }),
            Task::Provision { .. } => Some(match &self.provision {
                Ok((binary, home)) => Report::Provisioned {
                    python_binary: binary.clone(),
                    python_home: home.clone(),
                },
                Err(causes) => Report::ProvisionFailed(causes.clone()),
            }),
            Task::ExtractScript { .. } => Some(match &self.script {
                Ok(Some(path)) => Report::ScriptFound(path.clone()),
                Ok(None) => Report::ScriptAbsent,
                Err(message) => Report::ArgumentsRejected(message.clone()),
            }),
            Task::ReadScript { .. } => Some(match &self.source {
                Ok(text) => Report::SourceRead(text.clone()),
                Err(message) => Report::IoFailed {
                    message: message.clone(),
                    causes: vec!["os error".to_string()],
                },
            }),
            Task::CreateTempFile => Some(match &self.temp_file {
                Ok(path) => Report::TempFileCreated(path.clone()),
                Err(message) => Report::IoFailed {
                    message: message.clone(),
                    causes: vec!["os error".to_string()],
                },
            }),
            Task::WriteTempFile { .. } => Some(match &self.write {
                Ok(()) => Report::Written,
                Err(message) => Report::IoFailed {
                    message: message.clone(),
                    causes: vec!["os error".to_string()],
                },
            }),
            Task::Launch(_) => Some(Report::Launched(self.launch.clone())),
            Task::Exit(_) => None,
        }
    }
}

fn label(task: &Task) -> &'static str {
    match task {
        Task::FindCacheDir => "cache-dir",
        Task::DetermineVersion { .. } => "version",
        Task::Provision { .. } => "provision",
        Task::ExtractScript { .. } => "script",
        Task::ReadScript { .. } => "read",
        Task::CreateTempFile => "temp-file",
        Task::WriteTempFile { .. } => "write",
        Task::Launch(_) => "launch",
        Task::Exit(_) => "exit",
    }
}

/// Runs the orchestrator against the mock; gives every task in order.
fn run(args: &[&str], world: &MockWorld) -> Vec<Task> {
    let args: Vec<String> = args.iter().map(|s| s.to_string()).collect();
    let (mut orchestrator, first) = Orchestrator::new(Platform::Unix, args);
    let mut tasks = vec![first];
    while let Some(report) = world.answer(tasks.last().unwrap()) {
        assert!(orchestrator.answered_by(&report));
        assert!(!orchestrator.is_done());
        let next = orchestrator.step(report);
        orchestrator = next.0;
        tasks.push(next.1);
        assert!(tasks.len() <= 9);
    }
    assert!(orchestrator.is_done());
    tasks
}

fn labels(tasks: &[Task]) -> Vec<&'static str> {
    tasks.iter().map(label).collect()
}

fn exit_of(tasks: &[Task]) -> &Result<i32, PythonPlusPlusError> {
    match tasks.last() {
        Some(Task::Exit(outcome)) => outcome,
        other => panic!("expected an exit, got {:?}", other),
    }
}

fn strings(items: &[&str]) -> Vec<String> {
    items.iter().map(|s| s.to_string()).collect()
}

#[test]
fn scenario_script_runs_with_two_final_arguments() {
    let mut world = world(Some("script.py"), "print( 'hi' )\n");
    world.launch = Ok(7);
    let tasks = run(&["python-plusplus", "script.py"], &world);
    assert_eq!(
        labels(&tasks),
        vec![
            "cache-dir",
            "version",
            "provision",
            "script",
            "read",
            "temp-file",
            "write",
            "launch",
            "exit"
        ]
    );
    match &tasks[7] {
        Task::Launch(request) => {
            assert_eq!(request.args.len(), 2);
            assert_eq!(request.args, strings(&["/cache/py/bin/python3", "/tmp/.tmpAbC123"]));
            assert_eq!(request.python_home, "/cache/py");
            assert_eq!(request.python_version, (3, 10));
            assert_eq!(request.sys_executable.text, "/cache/py/bin/python3");
            assert!(request.sys_executable.exact);
            assert_eq!(request.platform, Platform::Unix);
        }
        other => panic!("expected a launch, got {:?}", other),
    }
    assert!(matches!(exit_of(&tasks), Ok(7)));
    assert_eq!(exit_code_of(exit_of(&tasks)), 7);
}

#[test]
fn scenario_no_script_is_a_missing_script_error() {
    let tasks = run(&["python-plusplus"], &world(None, ""));
    assert_eq!(labels(&tasks), vec!["cache-dir", "version", "provision", "script", "exit"]);
    let outcome = exit_of(&tasks);
    assert!(matches!(outcome, Err(PythonPlusPlusError::MissingScript)));
    assert_eq!(exit_code_of(outcome), 1);
    let lines = outcome.as_ref().err().unwrap().diagnostic_lines();
    assert_eq!(
        lines.last().map(|l| l.as_str()),
        Some("  Caused by: You need to pass a python script for this to work")
    );
    assert!(tasks.iter().all(|task| !matches!(task, Task::CreateTempFile)));
}

#[test]
fn scenario_invalid_source_fails_before_anything_is_written() {
    let tasks = run(
        &["python-plusplus", "script.py"],
        &world(Some("script.py"), "def broken(:\n    pass\n"),
    );
    assert_eq!(
        labels(&tasks),
        vec!["cache-dir", "version", "provision", "script", "read", "exit"]
    );
    let outcome = exit_of(&tasks);
    match outcome {
        Err(error @ PythonPlusPlusError::FormatModule(_)) => {
            assert_eq!(error.message(), "Invalid python code");
            assert_eq!(error.diagnostic_lines().len(), 3);
        }
        other => panic!("expected a format error, got {:?}", other),
    }
    assert_eq!(exit_code_of(outcome), 1);
    assert!(tasks.iter().all(|task| !matches!(
        task,
        Task::CreateTempFile | Task::WriteTempFile { .. } | Task::Launch(_)
    )));
}

#[test]
fn program_name_is_left_out_and_default_version_offered() {
    let (_, first) = Orchestrator::new(Platform::Unix, strings(&["prog", "+3.9", "a.py"]));
    assert!(matches!(first, Task::FindCacheDir));
    let tasks = run(&["prog", "+3.9", "a.py"], &world(Some("a.py"), ""));
    match &tasks[1] {
        Task::DetermineVersion { args, default_version } => {
            assert_eq!(args, &strings(&["+3.9", "a.py"]));
            assert_eq!(*default_version, (3, 10));
            assert_eq!((DEFAULT_PYTHON_MAJOR, DEFAULT_PYTHON_MINOR), (3, 10));
        }
        other => panic!("expected version detection, got {:?}", other),
    }
}

#[test]
fn empty_process_arguments_leave_nothing_to_hand_on() {
    let tasks = run(&[], &world(None, ""));
    match &tasks[1] {
        Task::DetermineVersion { args, .. } => assert!(args.is_empty()),
        other => panic!("expected version detection, got {:?}", other),
    }
}

#[test]
fn determined_version_and_arguments_are_used_from_then_on() {
    let (orchestrator, _) = Orchestrator::new(Platform::MacOs, strings(&["prog", "+3.8", "a.py"]));
    let (orchestrator, _) = orchestrator.step(Report::CacheDirFound);
    let (orchestrator, task) = orchestrator
        .step(Report::VersionDetermined { args: strings(&["-u", "a.py"]), version: (3, 8) });
    assert!(matches!(task, Task::Provision { version: (3, 8) }));
    let (orchestrator, task) = orchestrator.step(Report::Provisioned {
        python_binary: exact("/c/python"),
        python_home: "/c".to_string(),
    });
    match task {
        Task::ExtractScript { args } => assert_eq!(args, strings(&["-u", "a.py"])),
        other => panic!("expected script extraction, got {:?}", other),
    }
    let (orchestrator, task) = orchestrator.step(Report::ScriptFound("a.py".to_string()));
    assert!(matches!(task, Task::ReadScript { path } if path == "a.py"));
    let (orchestrator, task) = orchestrator.step(Report::SourceRead("x=1".to_string()));
    assert!(matches!(task, Task::CreateTempFile));
    let (orchestrator, task) = orchestrator.step(Report::TempFileCreated(exact("/tmp/t")));
    assert!(matches!(task, Task::WriteTempFile { content } if content == "x = 1\n"));
    let (orchestrator, task) = orchestrator.step(Report::Written);
    match task {
        Task::Launch(request) => {
            assert_eq!(request.args, strings(&["/c/python", "-u", "/tmp/t"]));
            assert_eq!(request.python_version, (3, 8));
            assert_eq!(request.platform, Platform::MacOs);
        }
        other => panic!("expected a launch, got {:?}", other),
    }
    assert!(!orchestrator.is_done());
}

#[test]
fn rewritten_text_is_what_gets_written() {
    let tasks = run(&["prog", "s.py"], &world(Some("s.py"), "import os,sys\nx = {  'a':1 }\n"));
    match &tasks[6] {
        Task::WriteTempFile { content } => {
            assert_eq!(content, "import os, sys\n\nx = {\"a\": 1}\n")
        }
        other => panic!("expected a write, got {:?}", other),
    }
}

#[test]
fn missing_cache_dir_is_an_io_error() {
    let mut world = world(Some("s.py"), "");
    world.cache_dir = false;
    let tasks = run(&["prog", "s.py"], &world);
    assert_eq!(labels(&tasks), vec!["cache-dir", "exit"]);
    match exit_of(&tasks) {
        Err(PythonPlusPlusError::Io(message, causes)) => {
            assert_eq!(message, "System needs to have a cache dir");
            assert!(causes.is_empty());
        }
        other => panic!("expected an io error, got {:?}", other),
    }
}

#[test]
fn version_failure_keeps_its_causes() {
    let mut world = world(Some("s.py"), "");
    world.version = Err(strings(&["invalid version +x"]));
    let tasks = run(&["prog", "+x"], &world);
    assert_eq!(labels(&tasks), vec!["cache-dir", "version", "exit"]);
    match exit_of(&tasks) {
        Err(error @ PythonPlusPlusError::DeterminePythonVersion(_)) => assert_eq!(
            error.chain(),
            strings(&["Failed to determine python version", "invalid version +x"])
        ),
        other => panic!("expected a version error, got {:?}", other),
    }
}

#[test]
fn provisioning_failure_keeps_its_causes() {
    let mut world = world(Some("s.py"), "");
    world.provision = Err(strings(&["download failed", "connection reset"]));
    let tasks = run(&["prog", "s.py"], &world);
    assert_eq!(labels(&tasks), vec!["cache-dir", "version", "provision", "exit"]);
    match exit_of(&tasks) {
        Err(error @ PythonPlusPlusError::ProvisionPython(_)) => assert_eq!(
            error.diagnostic_lines(),
            strings(&[
                "  Caused by: Failed to provision python",
                "  Caused by: download failed",
                "  Caused by: connection reset",
            ])
        ),
        other => panic!("expected a provisioning error, got {:?}", other),
    }
}

#[test]
fn rejected_arguments_are_a_cpython_args_error() {
    let mut world = world(None, "");
    world.script = Err("unknown option -Z".to_string());
    let tasks = run(&["prog", "-Z"], &world);
    assert_eq!(labels(&tasks), vec!["cache-dir", "version", "provision", "script", "exit"]);
    assert!(matches!(
        exit_of(&tasks),
        Err(PythonPlusPlusError::CpythonArgs(message)) if message == "unknown option -Z"
    ));
}

#[test]
fn unreadable_script_is_an_io_error() {
    let mut world = world(Some("s.py"), "");
    world.source = Err("failed to open file `s.py`".to_string());
    let tasks = run(&["prog", "s.py"], &world);
    assert_eq!(
        labels(&tasks),
        vec!["cache-dir", "version", "provision", "script", "read", "exit"]
    );
    match exit_of(&tasks) {
        Err(error @ PythonPlusPlusError::Io(_, _)) => assert_eq!(
            error.diagnostic_lines(),
            strings(&["  Caused by: failed to open file `s.py`", "  Caused by: os error"])
        ),
        other => panic!("expected an io error, got {:?}", other),
    }
}

#[test]
fn temp_file_failures_are_io_errors() {
    let mut failing = world(Some("s.py"), "x = 1\n");
    failing.temp_file = Err("no space left on device".to_string());
    let tasks = run(&["prog", "s.py"], &failing);
    assert_eq!(labels(&tasks).last(), Some(&"exit"));
    assert_eq!(tasks.len(), 7);
    assert!(matches!(exit_of(&tasks), Err(PythonPlusPlusError::Io(_, _))));

    let mut failing = world(Some("s.py"), "x = 1\n");
    failing.write = Err("disk quota exceeded".to_string());
    let tasks = run(&["prog", "s.py"], &failing);
    assert_eq!(tasks.len(), 8);
    assert!(matches!(
        exit_of(&tasks),
        Err(PythonPlusPlusError::Io(message, _)) if message == "disk quota exceeded"
    ));
    assert!(tasks.iter().all(|task| !matches!(task, Task::Launch(_))));
}

#[test]
fn non_utf8_temp_file_is_an_invalid_path() {
    let mut odd = world(Some("s.py"), "x = 1\n");
    odd.temp_file = Ok(PathText { text: "/tmp/\u{fffd}".to_string(), exact: false });
    let tasks = run(&["prog", "s.py"], &odd);
    assert_eq!(tasks.len(), 8);
    assert!(matches!(
        exit_of(&tasks),
        Err(PythonPlusPlusError::InvalidPath(path)) if path == "/tmp/\u{fffd}"
    ));
}

#[test]
fn non_utf8_launcher_is_an_invalid_path() {
    let mut odd = world(Some("s.py"), "x = 1\n");
    odd.provision =
        Ok((PathText { text: "/c/\u{fffd}/python".to_string(), exact: false }, "/c".to_string()));
    let tasks = run(&["prog", "s.py"], &odd);
    assert_eq!(tasks.len(), 8);
    assert!(matches!(
        exit_of(&tasks),
        Err(PythonPlusPlusError::InvalidPath(path)) if path == "/c/\u{fffd}/python"
    ));
}

#[test]
fn temp_file_path_is_checked_before_the_launchers() {
    let mut odd = world(Some("s.py"), "x = 1\n");
    odd.temp_file = Ok(PathText { text: "/tmp/t\u{fffd}".to_string(), exact: false });
    odd.provision =
        Ok((PathText { text: "/c/\u{fffd}/python".to_string(), exact: false }, "/c".to_string()));
    let tasks = run(&["prog", "s.py"], &odd);
    assert!(matches!(
        exit_of(&tasks),
        Err(PythonPlusPlusError::InvalidPath(path)) if path == "/tmp/t\u{fffd}"
    ));
}

#[test]
fn failed_launch_leaves_with_its_error() {
    let mut failing = world(Some("s.py"), "x = 1\n");
    failing.launch = Err(PythonPlusPlusError::LibLoading(strings(&["cannot open"])));
    let tasks = run(&["prog", "s.py"], &failing);
    assert_eq!(tasks.len(), 9);
    let outcome = exit_of(&tasks);
    assert!(matches!(
        outcome,
        Err(PythonPlusPlusError::LibLoading(d)) if d == &strings(&["cannot open"])
    ));
    assert_eq!(exit_code_of(outcome), 1);
}

#[test]
fn every_equal_argument_is_replaced_in_the_launch() {
    let mut twice = world(Some("s.py"), "x = 1\n");
    twice.version = Ok((3, 11));
    let tasks = run(&["prog", "s.py", "--", "s.py", "t.py"], &twice);
    match &tasks[7] {
        Task::Launch(request) => assert_eq!(
            request.args,
            strings(&[
                "/cache/py/bin/python3",
                "/tmp/.tmpAbC123",
                "--",
                "/tmp/.tmpAbC123",
                "t.py"
            ])
        ),
        other => panic!("expected a launch, got {:?}", other),
    }
}

#[test]
fn after_rewrite_decides_on_the_given_outcome() {
    let (orchestrator, _) = Orchestrator::new(Platform::Unix, strings(&["prog", "s.py"]));
    let (orchestrator, task) = orchestrator.after_rewrite(Ok("pass\n".to_string()));
    assert!(matches!(task, Task::CreateTempFile));
    assert!(!orchestrator.is_done());
    let (orchestrator, task) = orchestrator.step(Report::TempFileCreated(exact("/tmp/t")));
    assert!(matches!(task, Task::WriteTempFile { content } if content == "pass\n"));
    assert!(!orchestrator.is_done());

    let (orchestrator, _) = Orchestrator::new(Platform::Unix, strings(&["prog", "s.py"]));
    let (orchestrator, task) =
        orchestrator.after_rewrite(Err(PythonPlusPlusError::FormatModule(strings(&["bad"]))));
    assert!(matches!(
        task,
        Task::Exit(Err(PythonPlusPlusError::FormatModule(m))) if m == strings(&["bad"])
    ));
    assert!(orchestrator.is_done());
}

#[test]
fn nothing_answers_a_run_that_is_done() {
    let (orchestrator, _) = Orchestrator::new(Platform::Unix, strings(&["prog"]));
    let (orchestrator, _) = orchestrator.step(Report::CacheDirMissing);
    assert!(orchestrator.is_done());
    assert!(!orchestrator.answered_by(&Report::CacheDirFound));
    assert!(!orchestrator.answered_by(&Report::Written));
    assert!(!orchestrator.answered_by(&Report::Launched(Ok(0))));
    assert!(!orchestrator.answered_by(&Report::IoFailed {
        message: "x".to_string(),
        causes: Vec::new(),
    }));
}

#[test]
fn only_the_pending_report_is_accepted() {
    let (orchestrator, _) = Orchestrator::new(Platform::Unix, strings(&["prog"]));
    assert!(orchestrator.answered_by(&Report::CacheDirFound));
    assert!(orchestrator.answered_by(&Report::CacheDirMissing));
    assert!(!orchestrator.answered_by(&Report::ScriptAbsent));
    assert!(!orchestrator.answered_by(&Report::IoFailed {
        message: "x".to_string(),
        causes: Vec::new(),
    }));
    let (orchestrator, _) = orchestrator.step(Report::CacheDirFound);
    assert!(orchestrator.answered_by(&Report::VersionFailed(Vec::new())));
    assert!(!orchestrator.answered_by(&Report::CacheDirFound));
}

use python_plusplus::abi::Symbol;
use python_plusplus::error::{exit_code_of, PythonPlusPlusError, FAILURE_EXIT_CODE};

fn texts(items: &[&str]) -> Vec<String> {
    items.iter().map(|s| s.to_string()).collect()
}

#[test]
fn io_error_shows_the_systems_message() {
    let error =
        PythonPlusPlusError::Io("No such file or directory (os error 2)".to_string(), Vec::new());
    assert_eq!(error.message(), "No such file or directory (os error 2)");
    assert_eq!(error.chain(), texts(&["No such file or directory (os error 2)"]));
}

#[test]
fn load_error_carries_the_loader_diagnostic() {
    let error = PythonPlusPlusError::LibLoading(texts(&["libpython3.so: cannot open"]));
    assert_eq!(error.message(), "Failed to load libpython");
    assert_eq!(error.chain(), texts(&["Failed to load libpython", "libpython3.so: cannot open"]));
}

#[test]
fn missing_symbol_error_is_distinct_from_load_error() {
    let missing =
        PythonPlusPlusError::MissingSymbol(Symbol::Main, texts(&["undefined symbol: Py_Main"]));
    let load = PythonPlusPlusError::LibLoading(texts(&["undefined symbol: Py_Main"]));
    assert_eq!(
        missing.message(),
        "Failed to load symbol from libpython (libpython should contain those symbols)"
    );
    assert_ne!(missing.message(), load.message());
    assert_eq!(
        missing.chain(),
        texts(&[
            "Failed to load symbol from libpython (libpython should contain those symbols)",
            "undefined symbol: Py_Main",
        ])
    );
}

#[test]
fn invalid_path_error_names_the_path() {
    let error = PythonPlusPlusError::InvalidPath("/tmp/\u{fffd}x".to_string());
    assert_eq!(error.message(), "Path contains non-utf8 characters: /tmp/\u{fffd}x");
    assert_eq!(error.chain().len(), 1);
}

#[test]
fn no_such_executable_error_names_the_path() {
    let error = PythonPlusPlusError::NoSuchExecutable("/cache/bin/python".to_string());
    assert_eq!(
        error.message(),
        "Can't launch python, /cache/bin/python does not exist even though it should have been \
         just created"
    );
}

#[test]
fn provisioning_error_keeps_the_chain_of_causes() {
    let error = PythonPlusPlusError::ProvisionPython(texts(&["download failed", "timed out"]));
    assert_eq!(error.message(), "Failed to provision python");
    assert_eq!(
        error.chain(),
        texts(&["Failed to provision python", "download failed", "timed out"])
    );
}

#[test]
fn version_error_keeps_the_chain_of_causes() {
    let error = PythonPlusPlusError::DeterminePythonVersion(texts(&["bad version"]));
    assert_eq!(error.message(), "Failed to determine python version");
    assert_eq!(error.chain(), texts(&["Failed to determine python version", "bad version"]));
}

#[test]
fn argument_error_shows_the_parsers_message() {
    let error = PythonPlusPlusError::CpythonArgs("unknown option -Z".to_string());
    assert_eq!(error.message(), "Failed to parse cpython arguments: unknown option -Z");
    assert_eq!(error.chain().len(), 1);
}

#[test]
fn missing_script_error_message() {
    let error = PythonPlusPlusError::MissingScript;
    assert_eq!(error.message(), "You need to pass a python script for this to work");
    assert_eq!(
        error.diagnostic_lines(),
        texts(&["  Caused by: You need to pass a python script for this to work"])
    );
}

#[test]
fn format_error_carries_the_formatters_message() {
    let error = PythonPlusPlusError::FormatModule(texts(&[
        "Expected an expression at byte range 4..5",
        "Expected an expression",
    ]));
    assert_eq!(error.message(), "Invalid python code");
    assert_eq!(
        error.chain(),
        texts(&[
            "Invalid python code",
            "Expected an expression at byte range 4..5",
            "Expected an expression",
        ])
    );
}

#[test]
fn diagnostic_has_one_line_per_layer() {
    let error = PythonPlusPlusError::ProvisionPython(texts(&["a", "b", "c"]));
    assert_eq!(
        error.diagnostic_lines(),
        texts(&[
            "  Caused by: Failed to provision python",
            "  Caused by: a",
            "  Caused by: b",
            "  Caused by: c",
        ])
    );
}

#[test]
fn diagnostic_of_empty_chain_is_the_message_alone() {
    let error = PythonPlusPlusError::DeterminePythonVersion(Vec::new());
    assert_eq!(
        error.diagnostic_lines(),
        texts(&["  Caused by: Failed to determine python version"])
    );
}

#[test]
fn exit_code_is_the_interpreters_on_success() {
    assert_eq!(exit_code_of(&Ok(0)), 0);
    assert_eq!(exit_code_of(&Ok(1)), 1);
    assert_eq!(exit_code_of(&Ok(2)), 2);
    assert_eq!(exit_code_of(&Ok(-7)), -7);
    assert_eq!(exit_code_of(&Ok(i32::MAX)), i32::MAX);
}

#[test]
fn exit_code_is_one_on_failure() {
    assert_eq!(FAILURE_EXIT_CODE, 1);
    assert_eq!(exit_code_of(&Err(PythonPlusPlusError::MissingScript)), 1);
    assert_eq!(exit_code_of(&Err(PythonPlusPlusError::Io("x".to_string(), Vec::new()))), 1);
}

#[test]
fn io_error_keeps_the_reason_beneath_it() {
    let error = PythonPlusPlusError::Io(
        "failed to read file `script.py`".to_string(),
        texts(&["No such file or directory (os error 2)"]),
    );
    assert_eq!(error.message(), "failed to read file `script.py`");
    assert_eq!(
        error.diagnostic_lines(),
        texts(&[
            "  Caused by: failed to read file `script.py`",
            "  Caused by: No such file or directory (os error 2)",
        ])
    );
}

#[test]
fn load_error_keeps_every_layer_of_the_loader() {
    let error =
        PythonPlusPlusError::LibLoading(texts(&["LoadLibraryExW failed", "module not found"]));
    assert_eq!(
        error.chain(),
        texts(&["Failed to load libpython", "LoadLibraryExW failed", "module not found"])
    );
}

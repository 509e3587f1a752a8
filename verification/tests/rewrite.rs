use python_plusplus::error::PythonPlusPlusError;
use python_plusplus::rewrite::{fits_formatter, rewrite_source, rewritten};

#[test]
fn valid_source_is_formatted() {
    let outcome = rewrite_source("x=1\n");
    assert_eq!(outcome.ok(), Some("x = 1\n".to_string()));
}

#[test]
fn formatting_normalises_quotes_and_spacing() {
    let outcome = rewrite_source("def f( a,b ):\n  return 'x'+a\n");
    assert_eq!(outcome.ok(), Some("def f(a, b):\n    return \"x\" + a\n".to_string()));
}

#[test]
fn formatted_source_is_left_as_it_is() {
    let outcome = rewrite_source("print(\"hello\")\n");
    assert_eq!(outcome.ok(), Some("print(\"hello\")\n".to_string()));
}

#[test]
fn empty_source_is_valid() {
    assert_eq!(rewrite_source("").ok(), Some(String::new()));
}

#[test]
fn invalid_source_is_rejected() {
    let outcome = rewrite_source("def (:\n");
    match outcome {
        Err(PythonPlusPlusError::FormatModule(causes)) => {
            assert!(!causes.is_empty());
            assert!(causes.iter().all(|cause| !cause.is_empty()));
        }
        other => panic!("expected a format error, got {:?}", other),
    }
}

#[test]
fn invalid_source_reports_invalid_python() {
    let error = rewrite_source("x = = 1\n").err().unwrap();
    assert_eq!(error.message(), "Invalid python code");
    let chain = error.chain();
    assert_eq!(chain.len(), 3);
    assert_eq!(chain[0], "Invalid python code");
    assert!(chain[1].starts_with(chain[2].as_str()));
    assert!(chain[1].contains(" at byte range "));
}

#[test]
fn rewritten_passes_code_through() {
    let outcome = rewritten(Ok("x = 1\n".to_string()));
    assert_eq!(outcome.ok(), Some("x = 1\n".to_string()));
}

#[test]
fn rewritten_wraps_the_formatters_message() {
    let layers = vec!["unexpected token at byte range 0..1".to_string(), "unexpected".to_string()];
    match rewritten(Err(layers.clone())) {
        Err(PythonPlusPlusError::FormatModule(causes)) => assert_eq!(causes, layers),
        other => panic!("expected a format error, got {:?}", other),
    }
}

#[test]
fn ordinary_sources_fit_the_formatter() {
    assert!(fits_formatter(""));
    assert!(fits_formatter("x = 1\n"));
    assert!(fits_formatter("# \u{1f40d}\n"));
}

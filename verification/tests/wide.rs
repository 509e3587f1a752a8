use python_plusplus::wide::{encode_wide, is_representable, marshal_arguments};
use widestring::WideCString;

fn texts(items: &[&str]) -> Vec<String> {
    items.iter().map(|s| s.to_string()).collect()
}

#[test]
fn plain_text_is_encoded_and_terminated() {
    let wide = encode_wide("python").unwrap();
    assert_eq!(wide.to_string_lossy(), "python");
    assert_eq!(wide.len(), 6);
    assert_eq!(wide.as_slice_with_nul().last().copied(), Some(0));
    assert_eq!(wide, WideCString::from_str("python").unwrap());
}

#[test]
fn non_ascii_text_round_trips() {
    let wide = encode_wide("/home/zo\u{eb}/\u{1f40d}.py").unwrap();
    assert_eq!(wide.to_string_lossy(), "/home/zo\u{eb}/\u{1f40d}.py");
}

#[test]
fn empty_text_is_representable() {
    let wide = encode_wide("").unwrap();
    assert_eq!(wide.to_string_lossy(), "");
    assert_eq!(wide.as_slice_with_nul().len(), 1);
    assert!(is_representable(""));
}

#[test]
fn interior_nul_is_not_representable() {
    assert!(encode_wide("a\0b").is_none());
    assert!(encode_wide("\0b").is_none());
    assert!(encode_wide("a\0\0").is_none());
    assert!(!is_representable("a\0b"));
}

#[test]
fn final_nul_becomes_the_terminator() {
    let wide = encode_wide("abc\0").unwrap();
    assert_eq!(wide.to_string_lossy(), "abc");
    assert_eq!(wide.len(), 3);
    assert!(is_representable("abc\0"));
    assert!(is_representable("\0"));
}

#[test]
fn arguments_are_marshalled_in_order() {
    let buffers = marshal_arguments(&texts(&["/cache/python", "-u", "/tmp/x.py"])).unwrap();
    let back: Vec<String> = buffers.iter().map(|b| b.to_string_lossy()).collect();
    assert_eq!(back, texts(&["/cache/python", "-u", "/tmp/x.py"]));
}

#[test]
fn empty_argument_vector_marshals_to_nothing() {
    let buffers = marshal_arguments(&Vec::new()).unwrap();
    assert!(buffers.is_empty());
}

#[test]
fn marshalling_reports_the_first_bad_argument() {
    let outcome = marshal_arguments(&texts(&["ok", "fine\0", "bad\0here", "worse\0too"]));
    assert_eq!(outcome.err(), Some(2));
    let outcome = marshal_arguments(&texts(&["\0x"]));
    assert_eq!(outcome.err(), Some(0));
}

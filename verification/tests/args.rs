use python_plusplus::args::{final_arguments, substitute_script};

fn texts(items: &[&str]) -> Vec<String> {
    items.iter().map(|s| s.to_string()).collect()
}

#[test]
fn substitution_replaces_every_exact_match() {
    let args = texts(&["-u", "script.py", "--flag", "script.py", "other.py"]);
    let out = substitute_script(args, "script.py", "/tmp/x.py");
    assert_eq!(out, texts(&["-u", "/tmp/x.py", "--flag", "/tmp/x.py", "other.py"]));
}

#[test]
fn substitution_leaves_near_matches_alone() {
    let args = texts(&["script.py ", "./script.py", "SCRIPT.PY", "script.pyc", "script", ""]);
    let out = substitute_script(args.clone(), "script.py", "/tmp/x.py");
    assert_eq!(out, args);
}

#[test]
fn substitution_keeps_order_and_count() {
    let args = texts(&["a", "b", "a", "c", "a"]);
    let out = substitute_script(args, "a", "z");
    assert_eq!(out, texts(&["z", "b", "z", "c", "z"]));
    assert_eq!(out.len(), 5);
}

#[test]
fn substitution_of_empty_vector_is_empty() {
    let out = substitute_script(Vec::new(), "script.py", "/tmp/x.py");
    assert!(out.is_empty());
}

#[test]
fn substitution_also_rewrites_an_incidental_equal_argument() {
    let args = texts(&["-c", "run.py", "run.py"]);
    let out = substitute_script(args, "run.py", "/tmp/t");
    assert_eq!(out, texts(&["-c", "/tmp/t", "/tmp/t"]));
}

#[test]
fn substitution_with_replacement_equal_to_script_changes_nothing() {
    let args = texts(&["a.py", "b"]);
    let out = substitute_script(args.clone(), "a.py", "a.py");
    assert_eq!(out, args);
}

#[test]
fn final_arguments_put_the_launcher_first() {
    let out = final_arguments("/cache/python", texts(&["script.py"]), "script.py", "/tmp/abc");
    assert_eq!(out, texts(&["/cache/python", "/tmp/abc"]));
    assert_eq!(out.len(), 2);
}

#[test]
fn final_arguments_keep_the_other_arguments() {
    let out = final_arguments(
        "/cache/python",
        texts(&["-O", "script.py", "--name", "value"]),
        "script.py",
        "/tmp/abc",
    );
    assert_eq!(out, texts(&["/cache/python", "-O", "/tmp/abc", "--name", "value"]));
}

#[test]
fn final_arguments_do_not_rewrite_the_launcher() {
    let out = final_arguments("script.py", texts(&["script.py"]), "script.py", "/tmp/abc");
    assert_eq!(out, texts(&["script.py", "/tmp/abc"]));
}

#[test]
fn final_arguments_without_user_arguments() {
    let out = final_arguments("/cache/python", Vec::new(), "script.py", "/tmp/abc");
    assert_eq!(out, texts(&["/cache/python"]));
}

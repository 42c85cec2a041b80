use pre_commit_rs::git::{classify_diff, invocation, DiffOutcome, Plumbing, SKIP_POST_CHECKOUT};

fn strings(v: &[&str]) -> Vec<String> {
    v.iter().map(|s| s.to_string()).collect()
}

#[test]
fn guard_variable_name() {
    assert_eq!(SKIP_POST_CHECKOUT, "_PRE_COMMIT_SKIP_POST_CHECKOUT");
}

#[test]
fn write_tree_invocation() {
    let inv = invocation(&Plumbing::WriteTree);
    assert_eq!(inv.args, strings(&["write-tree"]));
    assert!(inv.env.is_empty());
}

#[test]
fn diff_index_invocation() {
    let inv = invocation(&Plumbing::DiffIndex { tree: "4b825dc642cb6eb9a060e54bf8d69288fbee4904".to_string() });
    assert_eq!(
        inv.args,
        strings(&[
            "diff-index",
            "--ignore-submodules",
            "--binary",
            "--exit-code",
            "--no-color",
            "--no-ext-diff",
            "4b825dc642cb6eb9a060e54bf8d69288fbee4904",
            "--",
        ])
    );
    assert!(inv.env.is_empty());
}

#[test]
fn discard_invocation_sets_the_guard() {
    let inv = invocation(&Plumbing::Discard);
    assert_eq!(inv.args, strings(&["-c", "submodule.recurse=0", "checkout", "--", "."]));
    assert_eq!(inv.env, vec![("_PRE_COMMIT_SKIP_POST_CHECKOUT".to_string(), "1".to_string())]);
}

#[test]
fn apply_invocation() {
    let inv = invocation(&Plumbing::Apply { patch: "/cache/patch1-2".to_string(), autocrlf_off: false });
    assert_eq!(inv.args, strings(&["apply", "--whitespace=nowarn", "/cache/patch1-2"]));
    assert!(inv.env.is_empty());
}

#[test]
fn apply_retry_invocation_switches_autocrlf_off() {
    let inv = invocation(&Plumbing::Apply { patch: "/cache/patch1-2".to_string(), autocrlf_off: true });
    assert_eq!(
        inv.args,
        strings(&["-c", "core.autocrlf=false", "apply", "--whitespace=nowarn", "/cache/patch1-2"])
    );
    assert!(inv.env.is_empty());
}

#[test]
fn diff_exit_zero_is_no_diff() {
    assert_eq!(classify_diff(Some(0), b""), DiffOutcome::NoDiff);
    assert_eq!(classify_diff(Some(0), b"diff --git"), DiffOutcome::NoDiff);
}

#[test]
fn diff_exit_one_without_output_is_no_diff() {
    assert_eq!(classify_diff(Some(1), b""), DiffOutcome::NoDiff);
}

#[test]
fn diff_exit_one_with_output_differs() {
    assert_eq!(classify_diff(Some(1), b"d"), DiffOutcome::Differs);
}

#[test]
fn diff_other_exit_fails() {
    assert_eq!(classify_diff(Some(2), b""), DiffOutcome::Failed);
    assert_eq!(classify_diff(Some(128), b"fatal"), DiffOutcome::Failed);
    assert_eq!(classify_diff(Some(-1), b""), DiffOutcome::Failed);
    assert_eq!(classify_diff(None, b""), DiffOutcome::Failed);
    assert_eq!(classify_diff(None, b"x"), DiffOutcome::Failed);
}

use gix::index::entry::{Flags, Mode, Stat};
use gix::index::State;
use pre_commit_rs::git::Plumbing;
use pre_commit_rs::intent_to_add::{IntentToAdd, RecordedIntentEntry};
use pre_commit_rs::staged_files_only::{
    exited_ok, Action, Event, Failure, FailureKind, Notice, Phase, StagedFilesOnly, Step,
};

const NOW: u128 = 1_700_000_000_000;
const PID: u32 = 31337;
const TREE: &str = "4b825dc642cb6eb9a060e54bf8d69288fbee4904";
const PATCH: &str = "/cache/patch1700000000000-31337";

fn exited(code: i32, stdout: &[u8]) -> Event {
    Event::Exited { code: Some(code), stdout: stdout.to_vec(), stderr: Vec::new() }
}

fn quiet(action: Action) -> Step {
    Step { say: Notice::Quiet, action }
}

fn run(op: Plumbing) -> Step {
    quiet(Action::Run { op })
}

fn apply(autocrlf_off: bool) -> Step {
    run(Plumbing::Apply { patch: PATCH.to_string(), autocrlf_off })
}

fn one_placeholder() -> IntentToAdd {
    IntentToAdd { info: vec![RecordedIntentEntry { mode: 0o100644, path: b"a.txt".to_vec() }] }
}

/// Drives a session up to the comparison of tree and working tree.
fn until_diff(taken: Option<IntentToAdd>) -> StagedFilesOnly {
    let s = StagedFilesOnly::new(false, Some(NOW), PID);
    let (s, step) = s.step(Event::Go);
    assert_eq!(step, quiet(Action::NormalizeIndex));
    let (s, step) = s.step(Event::Normalized { taken });
    assert_eq!(step, run(Plumbing::WriteTree));
    let (s, step) = s.step(exited(0, format!("{TREE}\n").as_bytes()));
    assert_eq!(step, run(Plumbing::DiffIndex { tree: TREE.to_string() }));
    assert_eq!(s.phase, Phase::Diffing);
    s
}

/// Drives a session until it is held with a stash.
fn until_held_with_stash(taken: Option<IntentToAdd>) -> StagedFilesOnly {
    let s = until_diff(taken);
    let (s, step) = s.step(exited(1, b"diff --git a/b.txt b/b.txt\n"));
    assert_eq!(
        step,
        quiet(Action::SavePatch {
            file_name: "patch1700000000000-31337".to_string(),
            payload: b"diff --git a/b.txt b/b.txt\n".to_vec(),
        })
    );
    let (s, step) = s.step(Event::Saved { path: PATCH.to_string() });
    assert_eq!(step, run(Plumbing::Discard));
    let (s, step) = s.step(exited(0, b""));
    assert_eq!(step, quiet(Action::Hold));
    assert_eq!(s.phase, Phase::Held);
    s
}

#[test]
fn new_session_is_idle() {
    let s = StagedFilesOnly::new(false, Some(5), 6);
    assert_eq!(s.phase, Phase::Idle);
    assert!(!s.readonly);
    assert_eq!(s.now_ms, Some(5));
    assert_eq!(s.pid, 6);
    assert!(s.unstaged_cleared.is_none());
    assert!(s.intent_to_add.is_none());
    assert!(!s.rolled_back);
    assert!(s.error.is_none());
}

#[test]
fn clean_repository_is_a_no_op() {
    let s = until_diff(None);
    let (s, step) = s.step(exited(0, b""));
    assert_eq!(step, quiet(Action::Hold));
    assert!(s.unstaged_cleared.is_none());
    assert!(s.intent_to_add.is_none());
    let (s, step) = s.step(Event::Go);
    assert_eq!(step, quiet(Action::Close));
    assert_eq!(s.phase, Phase::Closed);
    assert!(s.error.is_none());
    assert!(!s.rolled_back);
}

#[test]
fn diff_exit_one_with_empty_payload_makes_no_patch() {
    let s = until_diff(None);
    let (s, step) = s.step(exited(1, b""));
    assert_eq!(step, quiet(Action::Hold));
    assert!(s.unstaged_cleared.is_none());
    let (s, step) = s.step(Event::Go);
    assert_eq!(step, quiet(Action::Close));
    assert!(s.error.is_none());
}

#[test]
fn stash_and_restore() {
    let s = until_held_with_stash(None);
    assert_eq!(s.unstaged_cleared.as_ref().map(|u| u.patch.as_str()), Some(PATCH));
    let (s, step) = s.step(Event::Go);
    assert_eq!(step, apply(false));
    let (s, step) = s.step(exited(0, b""));
    assert_eq!(step, Step { say: Notice::Restored { patch: PATCH.to_string() }, action: Action::Close });
    assert_eq!(s.phase, Phase::Closed);
    assert!(s.error.is_none());
    assert!(!s.rolled_back);
}

#[test]
fn apply_is_retried_without_autocrlf() {
    let s = until_held_with_stash(None);
    let (s, _) = s.step(Event::Go);
    let (s, step) = s.step(exited(1, b"error: patch failed"));
    assert_eq!(step, apply(true));
    assert_eq!(s.phase, Phase::Retrying);
    let (s, step) = s.step(exited(0, b""));
    assert_eq!(step, Step { say: Notice::Restored { patch: PATCH.to_string() }, action: Action::Close });
    assert!(s.error.is_none());
    assert!(!s.rolled_back);
}

#[test]
fn conflict_with_hooks_is_rolled_back() {
    let s = until_held_with_stash(Some(one_placeholder()));
    let (s, step) = s.step(Event::Go);
    assert_eq!(step, apply(false));
    let (s, step) = s.step(exited(1, b""));
    assert_eq!(step, apply(true));
    let (s, step) = s.step(exited(1, b""));
    assert_eq!(step, Step { say: Notice::RollingBack, action: Action::Run { op: Plumbing::Discard } });
    assert_eq!(s.phase, Phase::RollingBack);
    let (s, step) = s.step(exited(0, b""));
    assert_eq!(step, apply(false));
    let (s, step) = s.step(exited(0, b""));
    assert_eq!(
        step,
        Step { say: Notice::Restored { patch: PATCH.to_string() }, action: Action::RestoreIndex }
    );
    let (s, step) = s.step(Event::IndexRestored);
    assert_eq!(step, quiet(Action::Close));
    assert!(s.rolled_back);
    assert!(s.error.is_none());
    assert_eq!(s.phase, Phase::Closed);
}

#[test]
fn second_conflict_is_fatal_and_the_index_is_still_restored() {
    let s = until_held_with_stash(Some(one_placeholder()));
    let (s, _) = s.step(Event::Go);
    let (s, _) = s.step(exited(1, b""));
    let (s, _) = s.step(exited(1, b""));
    let (s, _) = s.step(exited(0, b""));
    let (s, step) = s.step(Event::Exited {
        code: Some(1),
        stdout: b"first out".to_vec(),
        stderr: b"first err".to_vec(),
    });
    assert_eq!(step, apply(true));
    let (s, step) = s.step(Event::Exited {
        code: Some(1),
        stdout: b"second out".to_vec(),
        stderr: b"second err".to_vec(),
    });
    assert_eq!(step, quiet(Action::RestoreIndex));
    let (s, step) = s.step(Event::IndexRestored);
    assert_eq!(step, quiet(Action::Close));
    assert_eq!(
        s.error,
        Some(Failure {
            kind: FailureKind::Apply,
            stdout: b"first out".to_vec(),
            stderr: b"first err".to_vec(),
            detail: String::new(),
        })
    );
    assert!(s.rolled_back);
}

#[test]
fn failed_rollback_checkout_is_fatal() {
    let s = until_held_with_stash(None);
    let (s, _) = s.step(Event::Go);
    let (s, _) = s.step(exited(1, b""));
    let (s, _) = s.step(exited(1, b""));
    let (s, step) = s.step(Event::Exited { code: Some(1), stdout: b"o".to_vec(), stderr: b"e".to_vec() });
    assert_eq!(step, quiet(Action::Close));
    assert_eq!(s.error, Some(Failure::printed(FailureKind::Checkout, b"o".to_vec(), b"e".to_vec())));
}

#[test]
fn diff_failure_aborts_and_unwinds_the_index() {
    let s = until_diff(Some(one_placeholder()));
    let (s, step) = s.step(Event::Exited { code: Some(128), stdout: Vec::new(), stderr: b"fatal".to_vec() });
    assert_eq!(step, quiet(Action::RestoreIndex));
    assert_eq!(s.phase, Phase::Restoring);
    assert_eq!(s.intent_to_add, Some(one_placeholder()));
    let (s, step) = s.step(Event::IndexRestored);
    assert_eq!(step, quiet(Action::Close));
    assert_eq!(s.error, Some(Failure::printed(FailureKind::Diff, Vec::new(), b"fatal".to_vec())));
}

#[test]
fn diff_failure_without_placeholders_closes_at_once() {
    let s = until_diff(None);
    let (s, step) = s.step(exited(2, b""));
    assert_eq!(step, quiet(Action::Close));
    assert_eq!(s.error.map(|f| f.kind), Some(FailureKind::Diff));
}

#[test]
fn diff_killed_by_signal_is_a_failure() {
    let s = until_diff(None);
    let (s, step) = s.step(Event::Exited { code: None, stdout: b"x".to_vec(), stderr: Vec::new() });
    assert_eq!(step, quiet(Action::Close));
    assert_eq!(s.error.map(|f| f.kind), Some(FailureKind::Diff));
}

#[test]
fn clock_before_epoch_fails_only_when_a_patch_is_needed() {
    let s = StagedFilesOnly::new(false, None, PID);
    let (s, _) = s.step(Event::Go);
    let (s, _) = s.step(Event::Normalized { taken: None });
    let (s, _) = s.step(exited(0, b"t\n"));
    let (held, step) = s.step(exited(0, b""));
    assert_eq!(step, quiet(Action::Hold));
    assert!(held.error.is_none());

    let s = StagedFilesOnly::new(false, None, PID);
    let (s, _) = s.step(Event::Go);
    let (s, _) = s.step(Event::Normalized { taken: None });
    let (s, _) = s.step(exited(0, b"t\n"));
    let (s, step) = s.step(exited(1, b"diff"));
    assert_eq!(step, quiet(Action::Close));
    assert_eq!(s.error, Some(Failure::bare(FailureKind::Clock)));
}

#[test]
fn tree_name_that_is_not_utf8_fails() {
    let s = StagedFilesOnly::new(false, Some(NOW), PID);
    let (s, _) = s.step(Event::Go);
    let (s, _) = s.step(Event::Normalized { taken: Some(one_placeholder()) });
    let (s, step) = s.step(exited(0, &[0xff, 0xfe]));
    assert_eq!(step, quiet(Action::RestoreIndex));
    assert_eq!(s.error.as_ref().map(|f| f.kind), Some(FailureKind::TreeName));
}

#[test]
fn write_tree_exit_status_is_not_read() {
    let s = StagedFilesOnly::new(false, Some(NOW), PID);
    let (s, _) = s.step(Event::Go);
    let (s, _) = s.step(Event::Normalized { taken: None });
    let (s, step) = s.step(exited(128, b""));
    assert_eq!(step, run(Plumbing::DiffIndex { tree: String::new() }));
    assert!(s.error.is_none());
}

#[test]
fn process_that_cannot_start_fails() {
    let s = until_diff(None);
    let (s, step) = s.step(Event::Failed { detail: "No such file or directory".to_string() });
    assert_eq!(step, quiet(Action::Close));
    assert_eq!(
        s.error,
        Some(Failure::told(FailureKind::Launch, "No such file or directory".to_string()))
    );
}

#[test]
fn patch_that_cannot_be_saved_fails() {
    let s = until_diff(Some(one_placeholder()));
    let (s, _) = s.step(exited(1, b"diff"));
    let (s, step) = s.step(Event::Failed { detail: "read-only file system".to_string() });
    assert_eq!(step, quiet(Action::RestoreIndex));
    assert_eq!(s.error, Some(Failure::told(FailureKind::Save, "read-only file system".to_string())));
    assert!(s.unstaged_cleared.is_none());
}

#[test]
fn failed_checkout_on_acquire_drops_the_stash() {
    let s = until_diff(Some(one_placeholder()));
    let (s, _) = s.step(exited(1, b"diff"));
    let (s, _) = s.step(Event::Saved { path: PATCH.to_string() });
    let (s, step) = s.step(Event::Exited { code: Some(1), stdout: b"o".to_vec(), stderr: b"e".to_vec() });
    assert_eq!(step, quiet(Action::RestoreIndex));
    assert!(s.unstaged_cleared.is_none());
    assert_eq!(s.error, Some(Failure::printed(FailureKind::Checkout, b"o".to_vec(), b"e".to_vec())));
    let (s, step) = s.step(Event::IndexRestored);
    assert_eq!(step, quiet(Action::Close));
    assert_eq!(s.phase, Phase::Closed);
}

#[test]
fn index_that_cannot_be_normalized_fails() {
    let s = StagedFilesOnly::new(false, Some(NOW), PID);
    let (s, _) = s.step(Event::Go);
    let (s, step) = s.step(Event::Failed { detail: "index.lock exists".to_string() });
    assert_eq!(step, quiet(Action::Close));
    assert_eq!(s.error, Some(Failure::told(FailureKind::Index, "index.lock exists".to_string())));
}

#[test]
fn index_that_cannot_be_restored_fails() {
    let s = until_diff(Some(one_placeholder()));
    let (s, _) = s.step(exited(0, b""));
    let (s, step) = s.step(Event::Go);
    assert_eq!(step, quiet(Action::RestoreIndex));
    let (s, step) = s.step(Event::Failed { detail: "malformed".to_string() });
    assert_eq!(step, quiet(Action::Close));
    assert_eq!(s.error, Some(Failure::told(FailureKind::Index, "malformed".to_string())));
}

#[test]
fn first_error_is_kept() {
    let s = until_diff(Some(one_placeholder()));
    let (s, _) = s.step(exited(3, b""));
    let (s, _) = s.step(Event::Failed { detail: "later".to_string() });
    assert_eq!(s.error.map(|f| f.kind), Some(FailureKind::Diff));
}

#[test]
fn readonly_store_is_a_pass_through() {
    let s = StagedFilesOnly::new(true, Some(NOW), PID);
    let (s, step) = s.step(Event::Go);
    assert_eq!(step, quiet(Action::Hold));
    assert_eq!(s.phase, Phase::Held);
    let (s, step) = s.step(Event::Go);
    assert_eq!(step, quiet(Action::Close));
    assert!(s.error.is_none());
}

#[test]
fn closed_session_stays_closed() {
    let s = StagedFilesOnly::new(true, Some(NOW), PID);
    let (s, _) = s.step(Event::Go);
    let (s, _) = s.step(Event::Go);
    let (s, step) = s.step(Event::Go);
    assert_eq!(step, quiet(Action::Close));
    let (s, step) = s.step(exited(0, b""));
    assert_eq!(step, quiet(Action::Close));
    assert_eq!(s.phase, Phase::Closed);
    assert!(s.error.is_none());
}

#[test]
fn unexpected_event_is_a_protocol_failure() {
    let s = StagedFilesOnly::new(false, Some(NOW), PID);
    let (s, step) = s.step(Event::IndexRestored);
    assert_eq!(step, quiet(Action::Close));
    assert_eq!(s.error, Some(Failure::bare(FailureKind::Protocol)));

    let s = until_diff(Some(one_placeholder()));
    let (s, step) = s.step(Event::Saved { path: "x".to_string() });
    assert_eq!(step, quiet(Action::RestoreIndex));
    assert_eq!(s.error, Some(Failure::bare(FailureKind::Protocol)));
}

#[test]
fn unexpected_event_while_held_still_releases() {
    let s = until_held_with_stash(None);
    let (s, step) = s.step(Event::IndexRestored);
    assert_eq!(step, apply(false));
    let (s, step) = s.step(exited(0, b""));
    assert_eq!(step.action, Action::Close);
    assert_eq!(s.error, Some(Failure::bare(FailureKind::Protocol)));
}

#[test]
fn only_exit_status_zero_is_success() {
    assert!(exited_ok(Some(0)));
    assert!(!exited_ok(Some(1)));
    assert!(!exited_ok(Some(-1)));
    assert!(!exited_ok(None));
}

#[test]
fn failure_constructors() {
    assert_eq!(
        Failure::bare(FailureKind::Clock),
        Failure { kind: FailureKind::Clock, stdout: Vec::new(), stderr: Vec::new(), detail: String::new() }
    );
    assert_eq!(
        Failure::told(FailureKind::Save, "why".to_string()),
        Failure { kind: FailureKind::Save, stdout: Vec::new(), stderr: Vec::new(), detail: "why".to_string() }
    );
    assert_eq!(
        Failure::printed(FailureKind::Diff, b"o".to_vec(), b"e".to_vec()),
        Failure { kind: FailureKind::Diff, stdout: b"o".to_vec(), stderr: b"e".to_vec(), detail: String::new() }
    );
}

/// File `a.txt` is staged as intent-to-add, file `b.txt` has an unstaged
/// one-line edit.
#[test]
fn intent_to_add_and_unstaged_edit_together() {
    let mut index = State::new(gix::hash::Kind::Sha1);
    let blob = gix::ObjectId::from_hex(b"0123456789abcdef0123456789abcdef01234567").unwrap();
    index.dangerously_push_entry(
        Stat::default(),
        gix::ObjectId::empty_blob(gix::hash::Kind::Sha1),
        Flags::EXTENDED | Flags::INTENT_TO_ADD,
        Mode::FILE,
        "a.txt".into(),
    );
    index.dangerously_push_entry(Stat::default(), blob, Flags::empty(), Mode::FILE, "b.txt".into());
    let patch = b"--- a/b.txt\n+++ b/b.txt\n@@ -1 +1,2 @@\n one\n+two\n".to_vec();

    let s = StagedFilesOnly::new(false, Some(NOW), PID);
    let (s, step) = s.step(Event::Go);
    assert_eq!(step.action, Action::NormalizeIndex);
    let taken = IntentToAdd::new(&mut index);
    let (s, step) = s.step(Event::Normalized { taken });
    assert_eq!(step.action, Action::Run { op: Plumbing::WriteTree });
    let (s, step) = s.step(exited(0, format!("{TREE}\n").as_bytes()));
    assert_eq!(step.action, Action::Run { op: Plumbing::DiffIndex { tree: TREE.to_string() } });
    let (s, step) = s.step(exited(1, &patch));
    assert_eq!(
        step.action,
        Action::SavePatch { file_name: "patch1700000000000-31337".to_string(), payload: patch.clone() }
    );
    let (s, step) = s.step(Event::Saved { path: PATCH.to_string() });
    assert_eq!(step.action, Action::Run { op: Plumbing::Discard });
    let (s, step) = s.step(exited(0, b""));
    assert_eq!(step.action, Action::Hold);

    // The index shows a.txt as an ordinary empty stage-0 entry.
    let a = &index.entries()[0];
    assert_eq!(a.path(&index), "a.txt");
    assert!(!a.flags.contains(Flags::INTENT_TO_ADD));
    assert_eq!(a.stage_raw(), 0);
    assert_eq!(a.id, gix::ObjectId::empty_blob(gix::hash::Kind::Sha1));
    index.remove_entries(|_, _, e| e.flags.contains(Flags::REMOVE));

    let (s, step) = s.step(Event::Go);
    assert_eq!(step.action, Action::Run { op: Plumbing::Apply { patch: PATCH.to_string(), autocrlf_off: false } });
    let (s, step) = s.step(exited(0, b""));
    assert_eq!(
        step,
        Step { say: Notice::Restored { patch: PATCH.to_string() }, action: Action::RestoreIndex }
    );
    assert!(s.intent_to_add.as_ref().unwrap().restore(&mut index).is_ok());
    let (s, step) = s.step(Event::IndexRestored);
    assert_eq!(step.action, Action::Close);
    assert!(s.error.is_none());

    // a.txt is an intent-to-add placeholder again, b.txt is untouched.
    assert_eq!(index.entries().len(), 2);
    let a = &index.entries()[0];
    assert_eq!(a.path(&index), "a.txt");
    assert_eq!(a.flags, Flags::EXTENDED | Flags::INTENT_TO_ADD);
    assert_eq!(a.mode, Mode::FILE);
    let b = &index.entries()[1];
    assert_eq!(b.path(&index), "b.txt");
    assert_eq!(b.id, blob);
    assert_eq!(b.flags, Flags::empty());
}

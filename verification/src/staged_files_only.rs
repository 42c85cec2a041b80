//! The isolation session: hooks see the working tree as it is staged, and
//! afterwards the tree is as the developer left it.
//!
//! Two things are done, in this order: the intent-to-add placeholders are
//! taken out of the index, and the unstaged changes are saved as a patch
//! and thrown away.  They are undone in the opposite order.  Nothing here
//! touches a repository: the session says what is to be done next
//! ([`Action`]), the caller does it and reports what came of it
//! ([`Event`]).

use vstd::prelude::*;
use vstd::string::StringExecFns;
use crate::git::{classify_diff, diff_outcome, succeeded, DiffOutcome, Plumbing, PlumbingView};
use crate::intent_to_add::IntentToAdd;
use crate::text::{patch_file_name, patch_name, tree_name, tree_name_of};

verus! {

/// Where a session stands: which answer it is waiting for.
#[derive(Clone, Copy, Debug, PartialEq, Eq, Structural)]
pub enum Phase {
    /// Nothing has been done.
    Idle,
    /// The placeholders are being taken out of the index.
    Normalizing,
    /// The index is being written as a tree.
    WritingTree,
    /// The tree is being compared with the working tree.
    Diffing,
    /// The patch is being saved.
    Saving,
    /// The unstaged changes are being thrown away.
    Discarding,
    /// The working tree is isolated; hooks may run.
    Held,
    /// The patch is being applied.
    Applying,
    /// The patch is being applied once more, without line-ending conversion.
    Retrying,
    /// What the hooks changed is being thrown away, to apply the patch again.
    RollingBack,
    /// The placeholders are being put back.
    Restoring,
    /// The session is over.
    Closed,
}

/// What went wrong.
#[derive(Clone, Copy, Debug, PartialEq, Eq, Structural)]
pub enum FailureKind {
    /// The index could not be read, was malformed, or could not be written.
    Index,
    /// A process could not be started.
    Launch,
    /// `write-tree` printed something that is not UTF-8.
    TreeName,
    /// `diff-index` ended with a status other than 0 or 1.
    Diff,
    /// The clock stands before the epoch, so the patch has no name.
    Clock,
    /// The patch could not be saved.
    Save,
    /// The checkout that throws changes away failed.
    Checkout,
    /// The patch did not apply, even after the rollback.
    Apply,
    /// The event reported does not answer the action asked for.
    Protocol,
}

/// An error of the session, with what the failed process printed.
#[derive(Debug, PartialEq, Eq)]
pub struct Failure {
    pub kind: FailureKind,
    pub stdout: Vec<u8>,
    pub stderr: Vec<u8>,
    pub detail: String,
}

/// The mathematical value of a [`Failure`].
pub struct FailureView {
    pub kind: FailureKind,
    pub stdout: Seq<u8>,
    pub stderr: Seq<u8>,
    pub detail: Seq<char>,
}

impl View for Failure {
    type V = FailureView;

    open spec fn view(&self) -> FailureView {
        FailureView {
            kind: self.kind,
            stdout: self.stdout@,
            stderr: self.stderr@,
            detail: self.detail@,
        }
    }
}

/// The unstaged changes, saved as a patch and gone from the working tree.
#[derive(Debug, PartialEq, Eq)]
pub struct UnstagedCleared {
    /// Where the patch is.
    pub patch: String,
}

/// What the caller reports.
#[derive(Debug, PartialEq, Eq)]
pub enum Event {
    /// Go on: acquire the session, or release it.
    Go,
    /// The placeholders were taken out of the index, and the index was
    /// written if there were any.
    Normalized { taken: Option<IntentToAdd> },
    /// The process ran and ended; `code` is none if a signal ended it.
    Exited { code: Option<i32>, stdout: Vec<u8>, stderr: Vec<u8> },
    /// The patch was saved at `path`.
    Saved { path: String },
    /// The placeholders are back and the index is written.
    IndexRestored,
    /// What was asked for could not be done.
    Failed { detail: String },
}

/// The mathematical value of an [`Event`].
pub enum EventView {
    Go,
    Normalized { taken: Option<Seq<(u32, Seq<u8>)>> },
    Exited { code: Option<i32>, stdout: Seq<u8>, stderr: Seq<u8> },
    Saved { path: Seq<char> },
    IndexRestored,
    Failed { detail: Seq<char> },
}

impl View for Event {
    type V = EventView;

    open spec fn view(&self) -> EventView {
        match self {
            Event::Go => EventView::Go,
            Event::Normalized { taken } => EventView::Normalized {
                taken: match taken {
                    Some(t) => Some(t@),
                    None => None,
                },
            },
            Event::Exited { code, stdout, stderr } => EventView::Exited {
                code: *code,
                stdout: stdout@,
                stderr: stderr@,
            },
            Event::Saved { path } => EventView::Saved { path: path@ },
            Event::IndexRestored => EventView::IndexRestored,
            Event::Failed { detail } => EventView::Failed { detail: detail@ },
        }
    }
}

/// What the caller is to do next.
#[derive(Debug, PartialEq, Eq)]
pub enum Action {
    /// Open the index, take the placeholders out with [`IntentToAdd::new`],
    /// write the index if any were taken; report [`Event::Normalized`].
    NormalizeIndex,
    /// Run git; report [`Event::Exited`].
    Run { op: Plumbing },
    /// Tell that unstaged changes are stashed, create the scratch directory
    /// and write `payload` to `file_name` in it; report [`Event::Saved`].
    SavePatch { file_name: String, payload: Vec<u8> },
    /// The session is acquired.  Run the hooks, then report [`Event::Go`].
    Hold,
    /// Open the index, put the placeholders of the session back with
    /// [`IntentToAdd::restore`], write the index; report
    /// [`Event::IndexRestored`].
    RestoreIndex,
    /// The session is over; its `error` tells how it went.
    Close,
}

/// The mathematical value of an [`Action`].
pub enum ActionView {
    NormalizeIndex,
    Run { op: PlumbingView },
    SavePatch { file_name: Seq<char>, payload: Seq<u8> },
    Hold,
    RestoreIndex,
    Close,
}

impl View for Action {
    type V = ActionView;

    open spec fn view(&self) -> ActionView {
        match self {
            Action::NormalizeIndex => ActionView::NormalizeIndex,
            Action::Run { op } => ActionView::Run { op: op@ },
            Action::SavePatch { file_name, payload } => ActionView::SavePatch {
                file_name: file_name@,
                payload: payload@,
            },
            Action::Hold => ActionView::Hold,
            Action::RestoreIndex => ActionView::RestoreIndex,
            Action::Close => ActionView::Close,
        }
    }
}

/// What the caller is to tell the user before it acts.
#[derive(Debug, PartialEq, Eq)]
pub enum Notice {
    /// Nothing.
    Quiet,
    /// The stashed changes did not apply over what the hooks changed; the
    /// hooks' changes are thrown away.
    RollingBack,
    /// The stashed changes are back in the working tree.
    Restored { patch: String },
}

/// The mathematical value of a [`Notice`].
pub enum NoticeView {
    Quiet,
    RollingBack,
    Restored { patch: Seq<char> },
}

impl View for Notice {
    type V = NoticeView;

    open spec fn view(&self) -> NoticeView {
        match self {
            Notice::Quiet => NoticeView::Quiet,
            Notice::RollingBack => NoticeView::RollingBack,
            Notice::Restored { patch } => NoticeView::Restored { patch: patch@ },
        }
    }
}

/// One answer of the session.
#[derive(Debug, PartialEq, Eq)]
pub struct Step {
    pub say: Notice,
    pub action: Action,
}

/// The mathematical value of a [`Step`].
pub struct StepView {
    pub say: NoticeView,
    pub action: ActionView,
}

impl View for Step {
    type V = StepView;

    open spec fn view(&self) -> StepView {
        StepView { say: self.say@, action: self.action@ }
    }
}

/// An isolation session.
#[derive(Debug, PartialEq, Eq)]
pub struct StagedFilesOnly {
    pub phase: Phase,
    /// The store cannot be written: nothing is to be changed.
    pub readonly: bool,
    /// Milliseconds since the epoch when the session began; none if the
    /// clock stands before the epoch.
    pub now_ms: Option<u128>,
    /// The id of this process.
    pub pid: u32,
    /// The patch that holds the unstaged changes, once it is saved.
    pub unstaged_cleared: Option<UnstagedCleared>,
    /// The placeholders that were taken out of the index.
    pub intent_to_add: Option<IntentToAdd>,
    /// The hooks' changes were thrown away to get the patch applied.
    pub rolled_back: bool,
    /// How the last try to apply the patch failed.
    pub apply_failure: Option<Failure>,
    /// The first error met.
    pub error: Option<Failure>,
}

/// The mathematical value of a [`StagedFilesOnly`].
pub struct SessionView {
    pub phase: Phase,
    pub readonly: bool,
    pub now_ms: Option<u128>,
    pub pid: u32,
    pub patch: Option<Seq<char>>,
    pub taken: Option<Seq<(u32, Seq<u8>)>>,
    pub rolled_back: bool,
    pub apply_failure: Option<FailureView>,
    pub error: Option<FailureView>,
}

impl View for StagedFilesOnly {
    type V = SessionView;

    open spec fn view(&self) -> SessionView {
        SessionView {
            phase: self.phase,
            readonly: self.readonly,
            now_ms: self.now_ms,
            pid: self.pid,
            patch: match self.unstaged_cleared {
                Some(u) => Some(u.patch@),
                None => None,
            },
            taken: match self.intent_to_add {
                Some(t) => Some(t@),
                None => None,
            },
            rolled_back: self.rolled_back,
            apply_failure: match self.apply_failure {
                Some(f) => Some(f@),
                None => None,
            },
            error: match self.error {
                Some(f) => Some(f@),
                None => None,
            },
        }
    }
}

/// A failure that carries nothing but its kind.
pub open spec fn bare(kind: FailureKind) -> FailureView {
    FailureView { kind, stdout: Seq::empty(), stderr: Seq::empty(), detail: Seq::empty() }
}

/// A failure told in words.
pub open spec fn told(kind: FailureKind, detail: Seq<char>) -> FailureView {
    FailureView { kind, stdout: Seq::empty(), stderr: Seq::empty(), detail }
}

/// A failure of a process, with what it printed.
pub open spec fn printed(kind: FailureKind, stdout: Seq<u8>, stderr: Seq<u8>) -> FailureView {
    FailureView { kind, stdout, stderr, detail: Seq::empty() }
}

/// The failure that an event stands for when it reports one, and the
/// breach of protocol that any other unexpected event is.
pub open spec fn failure_of(e: EventView) -> FailureView {
    match e {
        EventView::Failed { detail } => told(FailureKind::Launch, detail),
        _ => bare(FailureKind::Protocol),
    }
}

/// `s` with `f` noted, unless an earlier error is noted already.
pub open spec fn fail(s: SessionView, f: FailureView) -> SessionView {
    if s.error is Some {
        s
    } else {
        SessionView { error: Some(f), ..s }
    }
}

/// A step without a notice.
pub open spec fn quietly(action: ActionView) -> StepView {
    StepView { say: NoticeView::Quiet, action }
}

/// The session is acquired.
pub open spec fn hold(s: SessionView) -> (SessionView, StepView) {
    (SessionView { phase: Phase::Held, ..s }, quietly(ActionView::Hold))
}

/// The last part of every way out: the placeholders go back if any were
/// taken, then the session is closed.
pub open spec fn release_index(s: SessionView, say: NoticeView) -> (SessionView, StepView) {
    if s.taken is Some {
        (
            SessionView { phase: Phase::Restoring, ..s },
            StepView { say, action: ActionView::RestoreIndex },
        )
    } else {
        (SessionView { phase: Phase::Closed, ..s }, StepView { say, action: ActionView::Close })
    }
}

/// Acquisition failed: the stash does not hold, so only the index is undone.
pub open spec fn unwind(s: SessionView) -> (SessionView, StepView) {
    release_index(SessionView { patch: None, ..s }, NoticeView::Quiet)
}

/// The patch of the session; empty where there is none.
pub open spec fn patch_of(s: SessionView) -> Seq<char> {
    match s.patch {
        Some(p) => p,
        None => Seq::empty(),
    }
}

/// The session asks for the patch to be applied.
pub open spec fn apply(s: SessionView, autocrlf_off: bool) -> (SessionView, StepView) {
    (
        SessionView { phase: if autocrlf_off { Phase::Retrying } else { Phase::Applying }, ..s },
        quietly(ActionView::Run { op: PlumbingView::Apply { patch: patch_of(s), autocrlf_off } }),
    )
}

/// Release begins: the stash is undone first, if there is one.
pub open spec fn begin_release(s: SessionView) -> (SessionView, StepView) {
    if s.patch is Some {
        apply(s, false)
    } else {
        release_index(s, NoticeView::Quiet)
    }
}

/// The patch applied.
pub open spec fn applied(s: SessionView) -> (SessionView, StepView) {
    release_index(s, NoticeView::Restored { patch: patch_of(s) })
}

/// The patch did not apply, `why` being the reason.  The first time, what
/// the hooks changed is thrown away to try again; the second time the
/// session gives up.
pub open spec fn apply_failed(s: SessionView, why: FailureView) -> (SessionView, StepView) {
    if !s.rolled_back {
        (
            SessionView { phase: Phase::RollingBack, rolled_back: true, ..s },
            StepView {
                say: NoticeView::RollingBack,
                action: ActionView::Run { op: PlumbingView::Discard },
            },
        )
    } else {
        release_index(fail(s, why), NoticeView::Quiet)
    }
}

/// The reason kept from the first try, or a bare one.
pub open spec fn kept_failure(s: SessionView) -> FailureView {
    match s.apply_failure {
        Some(f) => f,
        None => bare(FailureKind::Apply),
    }
}

/// What a session in state `s` does when `e` is reported: its next state
/// and its answer.
pub open spec fn next(s: SessionView, e: EventView) -> (SessionView, StepView) {
    match s.phase {
        Phase::Idle => match e {
            EventView::Go => if s.readonly {
                hold(s)
            } else {
                (
                    SessionView { phase: Phase::Normalizing, ..s },
                    quietly(ActionView::NormalizeIndex),
                )
            },
            _ => release_index(fail(s, bare(FailureKind::Protocol)), NoticeView::Quiet),
        },
        Phase::Normalizing => match e {
            EventView::Normalized { taken } => (
                SessionView { phase: Phase::WritingTree, taken, ..s },
                quietly(ActionView::Run { op: PlumbingView::WriteTree }),
            ),
            EventView::Failed { detail } => release_index(
                fail(s, told(FailureKind::Index, detail)),
                NoticeView::Quiet,
            ),
            _ => release_index(fail(s, bare(FailureKind::Protocol)), NoticeView::Quiet),
        },
        Phase::WritingTree => match e {
            EventView::Exited { code, stdout, stderr } => match tree_name_of(stdout) {
                Some(tree) => (
                    SessionView { phase: Phase::Diffing, ..s },
                    quietly(ActionView::Run { op: PlumbingView::DiffIndex { tree } }),
                ),
                None => unwind(fail(s, printed(FailureKind::TreeName, stdout, stderr))),
            },
            _ => unwind(fail(s, failure_of(e))),
        },
        Phase::Diffing => match e {
            EventView::Exited { code, stdout, stderr } => match diff_outcome(code, stdout.len()) {
                DiffOutcome::NoDiff => hold(s),
                DiffOutcome::Differs => match s.now_ms {
                    Some(now) => (
                        SessionView { phase: Phase::Saving, ..s },
                        quietly(
                            ActionView::SavePatch {
                                file_name: patch_name(now as nat, s.pid as nat),
                                payload: stdout,
                            },
                        ),
                    ),
                    None => unwind(fail(s, bare(FailureKind::Clock))),
                },
                DiffOutcome::Failed => unwind(fail(s, printed(FailureKind::Diff, stdout, stderr))),
            },
            _ => unwind(fail(s, failure_of(e))),
        },
        Phase::Saving => match e {
            EventView::Saved { path } => (
                SessionView { phase: Phase::Discarding, patch: Some(path), ..s },
                quietly(ActionView::Run { op: PlumbingView::Discard }),
            ),
            EventView::Failed { detail } => unwind(fail(s, told(FailureKind::Save, detail))),
            _ => unwind(fail(s, bare(FailureKind::Protocol))),
        },
        Phase::Discarding => match e {
            EventView::Exited { code, stdout, stderr } => if succeeded(code) {
                hold(s)
            } else {
                unwind(fail(s, printed(FailureKind::Checkout, stdout, stderr)))
            },
            _ => unwind(fail(s, failure_of(e))),
        },
        Phase::Held => match e {
            EventView::Go => begin_release(s),
            _ => begin_release(fail(s, bare(FailureKind::Protocol))),
        },
        Phase::Applying => match e {
            EventView::Exited { code, stdout, stderr } => if succeeded(code) {
                applied(s)
            } else {
                apply(
                    SessionView {
                        apply_failure: Some(printed(FailureKind::Apply, stdout, stderr)),
                        ..s
                    },
                    true,
                )
            },
            _ => apply_failed(s, failure_of(e)),
        },
        Phase::Retrying => match e {
            EventView::Exited { code, stdout, stderr } => if succeeded(code) {
                applied(s)
            } else {
                apply_failed(SessionView { apply_failure: None, ..s }, kept_failure(s))
            },
            _ => apply_failed(s, failure_of(e)),
        },
        Phase::RollingBack => match e {
            EventView::Exited { code, stdout, stderr } => if succeeded(code) {
                apply(SessionView { rolled_back: true, ..s }, false)
            } else {
                release_index(
                    fail(s, printed(FailureKind::Checkout, stdout, stderr)),
                    NoticeView::Quiet,
                )
            },
            _ => release_index(fail(s, failure_of(e)), NoticeView::Quiet),
        },
        Phase::Restoring => match e {
            EventView::IndexRestored => (
                SessionView { phase: Phase::Closed, ..s },
                quietly(ActionView::Close),
            ),
            EventView::Failed { detail } => (
                SessionView { phase: Phase::Closed, ..fail(s, told(FailureKind::Index, detail)) },
                quietly(ActionView::Close),
            ),
            _ => (
                SessionView { phase: Phase::Closed, ..fail(s, bare(FailureKind::Protocol)) },
                quietly(ActionView::Close),
            ),
        },
        Phase::Closed => (s, quietly(ActionView::Close)),
    }
}

/// A session on which nothing has been done.
pub open spec fn initial(readonly: bool, now_ms: Option<u128>, pid: u32) -> SessionView {
    SessionView {
        phase: Phase::Idle,
        readonly,
        now_ms,
        pid,
        patch: None,
        taken: None,
        rolled_back: false,
        apply_failure: None,
        error: None,
    }
}

impl Failure {
    /// A failure that carries nothing but its kind.
    pub fn bare(kind: FailureKind) -> (f: Failure)
        ensures
            f@ == bare(kind),
    {
        Failure { kind, stdout: Vec::new(), stderr: Vec::new(), detail: String::new() }
    }

    /// A failure told in words.
    pub fn told(kind: FailureKind, detail: String) -> (f: Failure)
        ensures
            f@ == told(kind, detail@),
    {
        Failure { kind, stdout: Vec::new(), stderr: Vec::new(), detail }
    }

    /// A failure of a process, with what it printed.
    pub fn printed(kind: FailureKind, stdout: Vec<u8>, stderr: Vec<u8>) -> (f: Failure)
        ensures
            f@ == printed(kind, stdout@, stderr@),
    {
        Failure { kind, stdout, stderr, detail: String::new() }
    }

    fn of(event: Event) -> (f: Failure)
        ensures
            f@ == failure_of(event@),
    {
        match event {
            Event::Failed { detail } => Failure::told(FailureKind::Launch, detail),
            _ => Failure::bare(FailureKind::Protocol),
        }
    }
}

impl Step {
    fn quietly(action: Action) -> (r: Step)
        ensures
            r@ == quietly(action@),
    {
        Step { say: Notice::Quiet, action }
    }
}

impl StagedFilesOnly {
    /// A session on which nothing has been done.  With `readonly` set it
    /// will change nothing.
    pub fn new(readonly: bool, now_ms: Option<u128>, pid: u32) -> (s: StagedFilesOnly)
        ensures
            s@ == initial(readonly, now_ms, pid),
    {
        StagedFilesOnly {
            phase: Phase::Idle,
            readonly,
            now_ms,
            pid,
            unstaged_cleared: None,
            intent_to_add: None,
            rolled_back: false,
            apply_failure: None,
            error: None,
        }
    }

    fn fail(self, f: Failure) -> (r: StagedFilesOnly)
        ensures
            r@ == fail(self@, f@),
    {
        if self.error.is_some() {
            self
        } else {
            StagedFilesOnly { error: Some(f), ..self }
        }
    }

    fn hold(self) -> (r: (StagedFilesOnly, Step))
        ensures
            (r.0@, r.1@) == hold(self@),
    {
        (StagedFilesOnly { phase: Phase::Held, ..self }, Step::quietly(Action::Hold))
    }

    fn release_index(self, say: Notice) -> (r: (StagedFilesOnly, Step))
        ensures
            (r.0@, r.1@) == release_index(self@, say@),
    {
        if self.intent_to_add.is_some() {
            (
                StagedFilesOnly { phase: Phase::Restoring, ..self },
                Step { say, action: Action::RestoreIndex },
            )
        } else {
            (StagedFilesOnly { phase: Phase::Closed, ..self }, Step { say, action: Action::Close })
        }
    }

    fn unwind(self) -> (r: (StagedFilesOnly, Step))
        ensures
            (r.0@, r.1@) == unwind(self@),
    {
        StagedFilesOnly { unstaged_cleared: None, ..self }.release_index(Notice::Quiet)
    }

    fn patch(&self) -> (p: String)
        ensures
            p@ == patch_of(self@),
    {
        match &self.unstaged_cleared {
            Some(u) => u.patch.clone(),
            None => String::new(),
        }
    }

    fn apply(self, autocrlf_off: bool) -> (r: (StagedFilesOnly, Step))
        ensures
            (r.0@, r.1@) == apply(self@, autocrlf_off),
    {
        let patch = self.patch();
        let phase = if autocrlf_off {
            Phase::Retrying
        } else {
            Phase::Applying
        };
        (
            StagedFilesOnly { phase, ..self },
            Step::quietly(Action::Run { op: Plumbing::Apply { patch, autocrlf_off } }),
        )
    }

    fn begin_release(self) -> (r: (StagedFilesOnly, Step))
        ensures
            (r.0@, r.1@) == begin_release(self@),
    {
        if self.unstaged_cleared.is_some() {
            self.apply(false)
        } else {
            self.release_index(Notice::Quiet)
        }
    }

    fn applied(self) -> (r: (StagedFilesOnly, Step))
        ensures
            (r.0@, r.1@) == applied(self@),
    {
        let patch = self.patch();
        self.release_index(Notice::Restored { patch })
    }

    fn apply_failed(self, why: Failure) -> (r: (StagedFilesOnly, Step))
        ensures
            (r.0@, r.1@) == apply_failed(self@, why@),
    {
        if !self.rolled_back {
            (
                StagedFilesOnly { phase: Phase::RollingBack, rolled_back: true, ..self },
                Step { say: Notice::RollingBack, action: Action::Run { op: Plumbing::Discard } },
            )
        } else {
            self.fail(why).release_index(Notice::Quiet)
        }
    }

    /// Takes what the caller reports and says what is to be done next.
    pub fn step(self, event: Event) -> (r: (StagedFilesOnly, Step))
        ensures
            (r.0@, r.1@) == next(self@, event@),
    {
        match self.phase {
            Phase::Idle => match event {
                Event::Go => if self.readonly {
                    self.hold()
                } else {
                    (
                        StagedFilesOnly { phase: Phase::Normalizing, ..self },
                        Step::quietly(Action::NormalizeIndex),
                    )
                },
                _ => self.fail(Failure::bare(FailureKind::Protocol)).release_index(Notice::Quiet),
            },
            Phase::Normalizing => match event {
                Event::Normalized { taken } => (
                    StagedFilesOnly { phase: Phase::WritingTree, intent_to_add: taken, ..self },
                    Step::quietly(Action::Run { op: Plumbing::WriteTree }),
                ),
                Event::Failed { detail } => self.fail(
                    Failure::told(FailureKind::Index, detail),
                ).release_index(Notice::Quiet),
                _ => self.fail(Failure::bare(FailureKind::Protocol)).release_index(Notice::Quiet),
            },
            Phase::WritingTree => match event {
                Event::Exited { code, stdout, stderr } => {
                    match tree_name(stdout.clone()) {
                        Some(tree) => (
                            StagedFilesOnly { phase: Phase::Diffing, ..self },
                            Step::quietly(Action::Run { op: Plumbing::DiffIndex { tree } }),
                        ),
                        None => self.fail(
                            Failure::printed(FailureKind::TreeName, stdout, stderr),
                        ).unwind(),
                    }
                },
                other => self.fail(Failure::of(other)).unwind(),
            },
            Phase::Diffing => match event {
                Event::Exited { code, stdout, stderr } => match classify_diff(
                    code,
                    stdout.as_slice(),
                ) {
                    DiffOutcome::NoDiff => self.hold(),
                    DiffOutcome::Differs => match self.now_ms {
                        Some(now) => {
                            let file_name = patch_file_name(now, self.pid);
                            (
                                StagedFilesOnly { phase: Phase::Saving, ..self },
                                Step::quietly(Action::SavePatch { file_name, payload: stdout }),
                            )
                        },
                        None => self.fail(Failure::bare(FailureKind::Clock)).unwind(),
                    },
                    DiffOutcome::Failed => self.fail(
                        Failure::printed(FailureKind::Diff, stdout, stderr),
                    ).unwind(),
                },
                other => self.fail(Failure::of(other)).unwind(),
            },
            Phase::Saving => match event {
                Event::Saved { path } => (
                    StagedFilesOnly {
                        phase: Phase::Discarding,
                        unstaged_cleared: Some(UnstagedCleared { patch: path }),
                        ..self
                    },
                    Step::quietly(Action::Run { op: Plumbing::Discard }),
                ),
                Event::Failed { detail } => self.fail(
                    Failure::told(FailureKind::Save, detail),
                ).unwind(),
                _ => self.fail(Failure::bare(FailureKind::Protocol)).unwind(),
            },
            Phase::Discarding => match event {
                Event::Exited { code, stdout, stderr } => if exited_ok(code) {
                    self.hold()
                } else {
                    self.fail(Failure::printed(FailureKind::Checkout, stdout, stderr)).unwind()
                },
                other => self.fail(Failure::of(other)).unwind(),
            },
            Phase::Held => match event {
                Event::Go => self.begin_release(),
                _ => self.fail(Failure::bare(FailureKind::Protocol)).begin_release(),
            },
            Phase::Applying => match event {
                Event::Exited { code, stdout, stderr } => if exited_ok(code) {
                    self.applied()
                } else {
                    StagedFilesOnly {
                        apply_failure: Some(Failure::printed(FailureKind::Apply, stdout, stderr)),
                        ..self
                    }.apply(true)
                },
                other => self.apply_failed(Failure::of(other)),
            },
            Phase::Retrying => match event {
                Event::Exited { code, stdout, stderr } => if exited_ok(code) {
                    self.applied()
                } else {
                    let StagedFilesOnly {
                        phase,
                        readonly,
                        now_ms,
                        pid,
                        unstaged_cleared,
                        intent_to_add,
                        rolled_back,
                        apply_failure,
                        error,
                    } = self;
                    let why = match apply_failure {
                        Some(f) => f,
                        None => Failure::bare(FailureKind::Apply),
                    };
                    StagedFilesOnly {
                        phase,
                        readonly,
                        now_ms,
                        pid,
                        unstaged_cleared,
                        intent_to_add,
                        rolled_back,
                        apply_failure: None,
                        error,
                    }.apply_failed(why)
                },
                other => self.apply_failed(Failure::of(other)),
            },
            Phase::RollingBack => match event {
                Event::Exited { code, stdout, stderr } => if exited_ok(code) {
                    StagedFilesOnly { rolled_back: true, ..self }.apply(false)
                } else {
                    self.fail(
                        Failure::printed(FailureKind::Checkout, stdout, stderr),
                    ).release_index(Notice::Quiet)
                },
                other => self.fail(Failure::of(other)).release_index(Notice::Quiet),
            },
            Phase::Restoring => match event {
                Event::IndexRestored => (
                    StagedFilesOnly { phase: Phase::Closed, ..self },
                    Step::quietly(Action::Close),
                ),
                Event::Failed { detail } => {
                    let failed = self.fail(Failure::told(FailureKind::Index, detail));
                    (StagedFilesOnly { phase: Phase::Closed, ..failed }, Step::quietly(Action::Close))
                },
                _ => {
                    let failed = self.fail(Failure::bare(FailureKind::Protocol));
                    (StagedFilesOnly { phase: Phase::Closed, ..failed }, Step::quietly(Action::Close))
                },
            },
            Phase::Closed => (self, Step::quietly(Action::Close)),
        }
    }
}

/// Whether a process ended with exit status 0.
pub fn exited_ok(code: Option<i32>) -> (r: bool)
    ensures
        r == succeeded(code),
{
    match code {
        Some(0) => true,
        _ => false,
    }
}

} // verus!

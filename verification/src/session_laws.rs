//! What holds of every isolation session, proved from its transitions.

use vstd::prelude::*;
use crate::git::{diff_outcome, succeeded, DiffOutcome, PlumbingView};
use crate::staged_files_only::{
    initial, next, quietly, ActionView, EventView, FailureKind, NoticeView, Phase, SessionView,
    StepView,
};
use crate::text::{patch_name, tree_name_of};

verus! {

/// How many answers a session may still give, at most.
pub open spec fn steps_left(s: SessionView) -> nat {
    match s.phase {
        Phase::Idle => 13,
        Phase::Normalizing => 12,
        Phase::WritingTree => 11,
        Phase::Diffing => 10,
        Phase::Saving => 9,
        Phase::Discarding => 8,
        Phase::Held => 7,
        Phase::Applying => if s.rolled_back {
            3
        } else {
            6
        },
        Phase::Retrying => if s.rolled_back {
            2
        } else {
            5
        },
        Phase::RollingBack => 4,
        Phase::Restoring => 1,
        Phase::Closed => 0,
    }
}

/// The action undoes or does part of the stash: it runs git or saves the
/// patch.
pub open spec fn is_stash_work(a: ActionView) -> bool {
    a is Run || a is SavePatch
}

/// What must hold of a session for its fields to fit its phase.
pub open spec fn consistent(s: SessionView) -> bool {
    &&& (s.phase == Phase::Idle || s.phase == Phase::Normalizing) ==> s.taken is None
    &&& (s.phase == Phase::Idle || s.phase == Phase::Normalizing || s.phase == Phase::WritingTree
        || s.phase == Phase::Diffing || s.phase == Phase::Saving) ==> s.patch is None
    &&& (s.phase == Phase::Idle || s.phase == Phase::Normalizing || s.phase == Phase::WritingTree
        || s.phase == Phase::Diffing || s.phase == Phase::Saving || s.phase == Phase::Discarding
        || s.phase == Phase::Held) ==> s.error is None && !s.rolled_back
    &&& (s.phase == Phase::Discarding || s.phase == Phase::Applying || s.phase == Phase::Retrying
        || s.phase == Phase::RollingBack) ==> s.patch is Some
    &&& s.phase == Phase::RollingBack ==> s.rolled_back
    &&& s.phase == Phase::Restoring ==> s.taken is Some
    &&& s.readonly ==> s.taken is None && s.patch is None && (s.phase == Phase::Idle || s.phase
        == Phase::Held || s.phase == Phase::Closed)
}

/// A new session is consistent, and every step keeps it so.
pub proof fn lemma_sessions_stay_consistent(s: SessionView, e: EventView)
    requires
        consistent(s),
    ensures
        consistent(next(s, e).0),
        forall|readonly: bool, now_ms: Option<u128>, pid: u32|
            consistent(#[trigger] initial(readonly, now_ms, pid)),
{
}

/// A session ends: every step of an open session brings it nearer to its
/// close, which is at most thirteen steps away, and a closed session stays
/// closed and asks for nothing.
pub proof fn lemma_every_step_progresses(s: SessionView, e: EventView)
    ensures
        s.phase != Phase::Closed ==> steps_left(next(s, e).0) < steps_left(s),
        s.phase == Phase::Closed ==> next(s, e) == (s, quietly(ActionView::Close)),
        steps_left(s) == 0 <==> s.phase == Phase::Closed,
        steps_left(s) <= 13,
{
}

/// The session is closed only by the action `Close`, and that action always
/// closes it.
pub proof fn lemma_close_is_the_last_action(s: SessionView, e: EventView)
    ensures
        next(s, e).1.action is Close <==> next(s, e).0.phase == Phase::Closed,
{
}

/// Teardown goes stash first, index second.  Once the index is asked to be
/// restored nothing is left but to close: no patch is applied and nothing
/// is thrown away after it.  And a release that has a stash to undo starts
/// with that.  This holds of every state, so also after an acquisition that
/// failed half-way.
pub proof fn lemma_stash_is_undone_before_the_index(s: SessionView, e: EventView)
    ensures
        next(s, e).1.action is RestoreIndex ==> next(s, e).0.phase == Phase::Restoring,
        s.phase == Phase::Restoring ==> next(s, e).1.action is Close,
        s.phase == Phase::Held && s.patch is Some ==> next(s, e).1.action == (ActionView::Run {
            op: PlumbingView::Apply { patch: s.patch->0, autocrlf_off: false },
        }),
        next(s, e).1.action is RestoreIndex ==> next(s, e).0.taken is Some,
{
}

/// Acquisition goes index first, stash second: the index is normalized as
/// the very first thing, and never again.
pub proof fn lemma_index_is_normalized_first(s: SessionView, e: EventView)
    ensures
        next(s, e).1.action is NormalizeIndex <==> s.phase == Phase::Idle && e is Go
            && !s.readonly,
{
}

/// Nothing leaks from an acquisition that fails: whatever goes wrong
/// between normalizing the index and holding the session, the error is
/// kept, the stash is not held, and the placeholders are put back before
/// the session closes.
pub proof fn lemma_failed_acquisition_unwinds(s: SessionView, e: EventView)
    requires
        consistent(s),
        s.phase == Phase::WritingTree || s.phase == Phase::Diffing || s.phase == Phase::Saving
            || s.phase == Phase::Discarding,
        next(s, e).0.phase == Phase::Restoring || next(s, e).0.phase == Phase::Closed,
    ensures
        next(s, e).0.error is Some,
        next(s, e).0.patch is None,
        next(s, e).0.taken == s.taken,
        s.taken is Some ==> next(s, e).1.action is RestoreIndex,
        s.taken is None ==> next(s, e).1.action is Close,
{
}

/// While a session is being acquired or held, each step either goes on or
/// fails into the unwinding; it never closes in silence.
pub proof fn lemma_errors_are_never_swallowed(s: SessionView, e: EventView)
    requires
        consistent(s),
    ensures
        s.error is Some ==> next(s, e).0.error == s.error,
        next(s, e).0.phase == Phase::Closed && s.phase != Phase::Closed && s.phase
            != Phase::Restoring && s.phase != Phase::Held && s.phase != Phase::Applying
            && s.phase != Phase::Retrying ==> next(s, e).0.error is Some,
{
}

/// A read-only store makes the session a pass-through: it is held at once
/// and closed at once, and asks for nothing in between.
pub proof fn lemma_readonly_session_changes_nothing(now_ms: Option<u128>, pid: u32)
    ensures
        ({
            let s0 = initial(true, now_ms, pid);
            let (s1, a1) = next(s0, EventView::Go);
            let (s2, a2) = next(s1, EventView::Go);
            &&& a1 == quietly(ActionView::Hold)
            &&& a2 == quietly(ActionView::Close)
            &&& s2.phase == Phase::Closed
            &&& s2.error is None
        }),
{
}

/// A repository with no placeholder and no unstaged change is left alone:
/// from acquiring to closing the session asks only to look (normalize,
/// which finds nothing; write the tree; compare), never to save a patch, to
/// throw anything away, to apply anything or to restore the index.  The
/// comparison may end with status 0, or with status 1 and no output.
pub proof fn lemma_clean_repository_is_left_alone(
    now_ms: Option<u128>,
    pid: u32,
    tree_exit: Option<i32>,
    tree_out: Seq<u8>,
    tree_err: Seq<u8>,
    diff_exit: Option<i32>,
    diff_out: Seq<u8>,
    diff_err: Seq<u8>,
)
    requires
        tree_name_of(tree_out) is Some,
        diff_outcome(diff_exit, diff_out.len()) == DiffOutcome::NoDiff,
    ensures
        ({
            let s0 = initial(false, now_ms, pid);
            let (s1, a1) = next(s0, EventView::Go);
            let (s2, a2) = next(s1, EventView::Normalized { taken: None });
            let (s3, a3) = next(
                s2,
                EventView::Exited { code: tree_exit, stdout: tree_out, stderr: tree_err },
            );
            let (s4, a4) = next(
                s3,
                EventView::Exited { code: diff_exit, stdout: diff_out, stderr: diff_err },
            );
            let (s5, a5) = next(s4, EventView::Go);
            &&& a1 == quietly(ActionView::NormalizeIndex)
            &&& a2 == quietly(ActionView::Run { op: PlumbingView::WriteTree })
            &&& a3 == quietly(
                ActionView::Run { op: PlumbingView::DiffIndex { tree: tree_name_of(tree_out)->0 } },
            )
            &&& a4 == quietly(ActionView::Hold)
            &&& s4.patch is None
            &&& a5 == quietly(ActionView::Close)
            &&& s5.phase == Phase::Closed
            &&& s5.error is None
        }),
{
}

/// The state of a session that holds a stash: acquired without error, the
/// unstaged changes saved at `patch`.
pub open spec fn holding(s: SessionView, patch: Seq<char>) -> bool {
    consistent(s) && s.phase == Phase::Held && s.patch == Some(patch)
}

/// Unstaged changes are stashed whole and the working tree is reset: when
/// the comparison prints a difference, the patch that is saved is that
/// output, byte for byte, under a name made of the time and the process;
/// then the working tree is checked out, and once that succeeds the session
/// is held with the saved patch.
pub proof fn lemma_unstaged_changes_are_stashed(
    s: SessionView,
    now: u128,
    diff_out: Seq<u8>,
    diff_err: Seq<u8>,
    path: Seq<char>,
    out: Seq<u8>,
    err: Seq<u8>,
)
    requires
        consistent(s),
        s.phase == Phase::Diffing,
        s.now_ms == Some(now),
        diff_out.len() > 0,
    ensures
        ({
            let (s1, a1) = next(
                s,
                EventView::Exited { code: Some(1i32), stdout: diff_out, stderr: diff_err },
            );
            let (s2, a2) = next(s1, EventView::Saved { path });
            let (s3, a3) = next(s2, EventView::Exited { code: Some(0i32), stdout: out, stderr: err });
            &&& a1 == quietly(
                ActionView::SavePatch {
                    file_name: patch_name(now as nat, s.pid as nat),
                    payload: diff_out,
                },
            )
            &&& a2 == quietly(ActionView::Run { op: PlumbingView::Discard })
            &&& a3 == quietly(ActionView::Hold)
            &&& holding(s3, path)
            &&& s3.taken == s.taken
        }),
{
}

/// The stash comes back as it was saved: if the hooks left the stashed
/// files alone, so that the patch applies, release asks for exactly that
/// patch to be applied, tells that it is restored, and goes on to the
/// index, without throwing anything away and without error.  It makes no
/// difference whether the first try succeeds or only the second, without
/// line-ending conversion.
pub proof fn lemma_stash_round_trip(
    s: SessionView,
    patch: Seq<char>,
    first_exit: Option<i32>,
    out: Seq<u8>,
    err: Seq<u8>,
)
    requires
        holding(s, patch),
    ensures
        ({
            let (s1, a1) = next(s, EventView::Go);
            let (s2, a2) = next(
                s1,
                EventView::Exited { code: Some(0i32), stdout: out, stderr: err },
            );
            let (r1, b1) = next(s1, EventView::Exited { code: first_exit, stdout: out, stderr: err });
            let (r2, b2) = next(r1, EventView::Exited { code: Some(0i32), stdout: out, stderr: err });
            &&& a1 == quietly(
                ActionView::Run { op: PlumbingView::Apply { patch, autocrlf_off: false } },
            )
            &&& a2.say == (NoticeView::Restored { patch })
            &&& a2.action is RestoreIndex || a2.action is Close
            &&& s2.error is None && !s2.rolled_back
            &&& !succeeded(first_exit) ==> {
                &&& b1 == quietly(
                    ActionView::Run { op: PlumbingView::Apply { patch, autocrlf_off: true } },
                )
                &&& b2.say == (NoticeView::Restored { patch })
                &&& b2.action is RestoreIndex || b2.action is Close
                &&& r2.error is None && !r2.rolled_back
            }
        }),
{
}

/// A conflict with the hooks is settled by rolling back, once: if the patch
/// does not apply in either way, the session tells so and asks for the
/// working tree to be checked out; after that it asks for the patch again,
/// and when it applies the stash is told restored and the session goes on
/// to the index without error, noting that it rolled back.
pub proof fn lemma_conflict_is_rolled_back(
    s: SessionView,
    patch: Seq<char>,
    exit1: Option<i32>,
    exit2: Option<i32>,
    out: Seq<u8>,
    err: Seq<u8>,
)
    requires
        holding(s, patch),
        !succeeded(exit1),
        !succeeded(exit2),
    ensures
        ({
            let (s1, a1) = next(s, EventView::Go);
            let (s2, a2) = next(s1, EventView::Exited { code: exit1, stdout: out, stderr: err });
            let (s3, a3) = next(s2, EventView::Exited { code: exit2, stdout: out, stderr: err });
            let (s4, a4) = next(
                s3,
                EventView::Exited { code: Some(0i32), stdout: out, stderr: err },
            );
            let (s5, a5) = next(
                s4,
                EventView::Exited { code: Some(0i32), stdout: out, stderr: err },
            );
            &&& a3 == (StepView {
                say: NoticeView::RollingBack,
                action: ActionView::Run { op: PlumbingView::Discard },
            })
            &&& a4 == quietly(
                ActionView::Run { op: PlumbingView::Apply { patch, autocrlf_off: false } },
            )
            &&& a5.say == (NoticeView::Restored { patch })
            &&& a5.action is RestoreIndex || a5.action is Close
            &&& s5.rolled_back
            &&& s5.error is None
        }),
{
}

/// There is no third round: if the patch does not apply after the rollback
/// either, the session gives up with the error `Apply`, which holds what
/// the failed try printed, and still goes on to put the index back.
pub proof fn lemma_second_conflict_is_fatal(
    s: SessionView,
    exit1: Option<i32>,
    exit2: Option<i32>,
    out1: Seq<u8>,
    err1: Seq<u8>,
    out2: Seq<u8>,
    err2: Seq<u8>,
)
    requires
        consistent(s),
        s.phase == Phase::Applying,
        s.rolled_back,
        s.error is None,
        !succeeded(exit1),
        !succeeded(exit2),
    ensures
        ({
            let (s1, a1) = next(s, EventView::Exited { code: exit1, stdout: out1, stderr: err1 });
            let (s2, a2) = next(s1, EventView::Exited { code: exit2, stdout: out2, stderr: err2 });
            &&& a1.action == (ActionView::Run {
                op: PlumbingView::Apply { patch: s.patch->0, autocrlf_off: true },
            })
            &&& s2.error is Some
            &&& s2.error->0.kind == FailureKind::Apply
            &&& s2.error->0.stdout == out1
            &&& s2.error->0.stderr == err1
            &&& a2.say == NoticeView::Quiet
            &&& s.taken is Some ==> a2.action is RestoreIndex
            &&& s.taken is None ==> a2.action is Close
        }),
{
}

/// The working tree is thrown away at most twice in a session: once to
/// isolate it and once to roll back.  After a rollback no step asks for it
/// again.
pub proof fn lemma_rollback_happens_once(s: SessionView, e: EventView)
    requires
        consistent(s),
        s.rolled_back,
    ensures
        next(s, e).0.rolled_back,
        s.phase != Phase::RollingBack ==> next(s, e).1.action != (ActionView::Run {
            op: PlumbingView::Discard,
        }),
        next(s, e).1.say != NoticeView::RollingBack,
{
}

/// Placeholders never leak: a session that took placeholders out of the
/// index does not close before it has asked for them to be put back.
pub proof fn lemma_placeholders_are_put_back(s: SessionView, e: EventView)
    requires
        consistent(s),
        s.taken is Some,
        s.phase != Phase::Closed,
        next(s, e).0.phase == Phase::Closed,
    ensures
        s.phase == Phase::Restoring,
{
}

} // verus!

//! What running hooks decides before any hook runs: whether to run at all,
//! whether the working tree is to be isolated, what forbids a run, and
//! which variables the hooks are given.

use vstd::prelude::*;
use vstd::string::StringExecFns;

verus! {

/// The stage at which hooks are fired.
#[derive(Clone, Copy, Debug, PartialEq, Eq, Structural)]
pub enum Stage {
    Commit,
    MergeCommit,
    Push,
    PrepareCommitMsg,
    CommitMsg,
    PostCommit,
    PostCheckout,
    PostMerge,
    PostRewrite,
    Manual,
}

/// What the user asked of a run.
#[derive(Debug, PartialEq, Eq)]
pub struct Run {
    /// A single hook to run.
    pub hook: Option<String>,
    pub verbose: bool,
    /// Run on all the files in the repository.
    pub all_files: bool,
    /// Run on these files.
    pub files: Vec<String>,
    pub show_diff_on_failure: bool,
    pub from_ref: Option<String>,
    pub to_ref: Option<String>,
    pub hook_stage: Stage,
    pub remote_branch: Option<String>,
    pub local_branch: Option<String>,
    pub commit_msg_filename: Option<String>,
    pub prepare_commit_message_source: Option<String>,
    pub commit_object_name: Option<String>,
    pub remote_name: Option<String>,
    pub remote_url: Option<String>,
    pub checkout_type: Option<String>,
    pub is_squash_merge: Option<String>,
    pub rewrite_command: Option<String>,
}

/// Whether the re-entry guard is up: the variable is set, and not to the
/// empty string.
pub open spec fn guard_is_up(guard: Option<String>) -> bool {
    guard matches Some(g) && g@.len() > 0
}

/// Whether a run returns at once: it was started by the checkout that the
/// engine itself made to throw changes away.
pub open spec fn skips(stage: Stage, guard: Option<String>) -> bool {
    stage == Stage::PostCheckout && guard_is_up(guard)
}

/// Whether the working tree is to be isolated: the run is neither on all
/// files nor on files that were named.
pub open spec fn isolates(all_files: bool, files: Seq<String>) -> bool {
    !all_files && files.len() == 0
}

/// How a run proceeds.
#[derive(Clone, Copy, Debug, PartialEq, Eq, Structural)]
pub enum RunPlan {
    /// Return success without running anything.
    Skip,
    /// Run the hooks, in an isolation session if `stash` is set.
    Hooks { stash: bool },
}

/// Decides how the run proceeds; `guard` is the value of the re-entry
/// guard in the environment, if it is set.
pub fn plan(run: &Run, guard: &Option<String>) -> (r: RunPlan)
    ensures
        r == if skips(run.hook_stage, *guard) {
            RunPlan::Skip
        } else {
            RunPlan::Hooks { stash: isolates(run.all_files, run.files@) }
        },
{
    let up = match guard {
        Some(g) => !g.as_str().is_empty(),
        None => false,
    };
    let post_checkout = match run.hook_stage {
        Stage::PostCheckout => true,
        _ => false,
    };
    if post_checkout && up {
        RunPlan::Skip
    } else {
        RunPlan::Hooks { stash: !run.all_files && run.files.len() == 0 }
    }
}

/// What forbids a run that would isolate the working tree.
#[derive(Debug, PartialEq, Eq)]
pub enum RunError {
    /// A merge is in conflict.
    UnmergedFiles,
    /// The configuration has changes that are not staged.
    UnstagedConfig { config: String },
}

/// The words of a [`RunError`].
pub open spec fn run_error_text(e: RunError) -> Seq<char> {
    match e {
        RunError::UnmergedFiles => "Unmerged files.  Resolve before committing."@,
        RunError::UnstagedConfig { config } => "Your pre-commit configuration is unstaged.\n`git add "@
            + config@ + "` to fix this."@,
    }
}

impl RunError {
    /// The error in words.
    pub fn message(&self) -> (r: String)
        ensures
            r@ == run_error_text(*self),
    {
        match self {
            RunError::UnmergedFiles => String::from_str(
                "Unmerged files.  Resolve before committing.",
            ),
            RunError::UnstagedConfig { config } => {
                let mut r = String::from_str("Your pre-commit configuration is unstaged.\n`git add ");
                r.append(config.as_str());
                r.append("` to fix this.");
                r
            },
        }
    }
}

/// Whether `git diff --quiet` found the configuration changed: it ended
/// with status 1.
pub open spec fn config_changed(code: Option<i32>) -> bool {
    code == Some(1i32)
}

/// Refuses a run that isolates the working tree while a merge is in
/// conflict.
pub fn check_merge(stash: bool, unmerged: bool) -> (r: Result<(), RunError>)
    ensures
        r == if stash && unmerged {
            Err::<(), RunError>(RunError::UnmergedFiles)
        } else {
            Ok(())
        },
{
    if stash && unmerged {
        Err(RunError::UnmergedFiles)
    } else {
        Ok(())
    }
}

/// Refuses a run that isolates the working tree while the configuration
/// has unstaged changes; `code` is the exit status of `git diff --quiet`
/// on it, none if a signal ended it.
pub fn check_config(stash: bool, code: Option<i32>, config: &str) -> (r: Result<(), RunError>)
    ensures
        match r {
            Ok(()) => !(stash && config_changed(code)),
            Err(e) => stash && config_changed(code) && e is UnstagedConfig && e->config@
                == config@,
        },
{
    let changed = match code {
        Some(1) => true,
        _ => false,
    };
    if stash && changed {
        Err(RunError::UnstagedConfig { config: String::from_str(config) })
    } else {
        Ok(())
    }
}

/// A list of variables, each as its characters.
pub open spec fn pairs(v: Seq<(String, String)>) -> Seq<(Seq<char>, Seq<char>)> {
    Seq::new(v.len(), |i: int| (v[i].0@, v[i].1@))
}

/// The variable `name`, if there is a value for it.
pub open spec fn var(name: Seq<char>, value: Option<String>) -> Seq<(Seq<char>, Seq<char>)> {
    match value {
        Some(v) => seq![(name, v@)],
        None => Seq::empty(),
    }
}

/// The variables that tell the hooks of the run: `PRE_COMMIT` always, the
/// others where the run has a value for them.
pub open spec fn env_of(run: Run) -> Seq<(Seq<char>, Seq<char>)> {
    seq![("PRE_COMMIT"@, "1"@)]
        + var("PRE_COMMIT_ORIGIN"@, run.from_ref)
        + var("PRE_COMMIT_FROM_REF"@, run.from_ref)
        + var("PRE_COMMIT_SOURCE"@, run.to_ref)
        + var("PRE_COMMIT_TO_REF"@, run.to_ref)
        + var("PRE_COMMIT_REMOTE_BRANCH"@, run.remote_branch)
        + var("PRE_COMMIT_LOCAL_BRANCH"@, run.local_branch)
        + var("PRE_COMMIT_COMMIT_MSG_SOURCE"@, run.prepare_commit_message_source)
        + var("PRE_COMMIT_COMMIT_OBJECT_NAME"@, run.commit_object_name)
        + var("PRE_COMMIT_REMOTE_NAME"@, run.remote_name)
        + var("PRE_COMMIT_REMOTE_URL"@, run.remote_url)
        + var("PRE_COMMIT_CHECKOUT_TYPE"@, run.checkout_type)
        + var("PRE_COMMIT_IS_SQUASH_MERGE"@, run.is_squash_merge)
        + var("PRE_COMMIT_REWRITE_COMMAND"@, run.rewrite_command)
}

fn push_var(out: &mut Vec<(String, String)>, name: &str, value: &Option<String>)
    ensures
        pairs(final(out)@) == pairs(old(out)@) + var(name@, *value),
{
    match value {
        Some(v) => {
            out.push((String::from_str(name), v.clone()));
            assert(pairs(out@) =~= pairs(old(out)@) + var(name@, *value));
        },
        None => {
            assert(pairs(out@) =~= pairs(old(out)@) + var(name@, *value));
        },
    }
}

/// Lists the variables to set before the hooks run.
pub fn pre_commit_env(run: &Run) -> (r: Vec<(String, String)>)
    ensures
        pairs(r@) == env_of(*run),
{
    let mut out: Vec<(String, String)> = Vec::new();
    out.push((String::from_str("PRE_COMMIT"), String::from_str("1")));
    assert(pairs(out@) =~= seq![("PRE_COMMIT"@, "1"@)]);
    push_var(&mut out, "PRE_COMMIT_ORIGIN", &run.from_ref);
    push_var(&mut out, "PRE_COMMIT_FROM_REF", &run.from_ref);
    push_var(&mut out, "PRE_COMMIT_SOURCE", &run.to_ref);
    push_var(&mut out, "PRE_COMMIT_TO_REF", &run.to_ref);
    push_var(&mut out, "PRE_COMMIT_REMOTE_BRANCH", &run.remote_branch);
    push_var(&mut out, "PRE_COMMIT_LOCAL_BRANCH", &run.local_branch);
    push_var(&mut out, "PRE_COMMIT_COMMIT_MSG_SOURCE", &run.prepare_commit_message_source);
    push_var(&mut out, "PRE_COMMIT_COMMIT_OBJECT_NAME", &run.commit_object_name);
    push_var(&mut out, "PRE_COMMIT_REMOTE_NAME", &run.remote_name);
    push_var(&mut out, "PRE_COMMIT_REMOTE_URL", &run.remote_url);
    push_var(&mut out, "PRE_COMMIT_CHECKOUT_TYPE", &run.checkout_type);
    push_var(&mut out, "PRE_COMMIT_IS_SQUASH_MERGE", &run.is_squash_merge);
    push_var(&mut out, "PRE_COMMIT_REWRITE_COMMAND", &run.rewrite_command);
    out
}

} // verus!

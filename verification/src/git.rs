//! The four calls to git that the isolation engine makes, as data: what is
//! run, with which arguments and environment, and what its exit means.
//! Running them is left to the caller.

use vstd::prelude::*;
use vstd::string::StringExecFns;
use crate::index::{entry_count, flags_at, index_entries, EntryView};

verus! {

/// Set to `"1"` while the working tree is checked out again, so that a
/// post-checkout hook started by that checkout returns at once.
pub const SKIP_POST_CHECKOUT: &'static str = "_PRE_COMMIT_SKIP_POST_CHECKOUT";

/// A call to git that the engine asks for.
#[derive(Debug, PartialEq, Eq)]
pub enum Plumbing {
    /// Write the index as a tree; its name comes back on stdout.
    WriteTree,
    /// Compare the tree with the working tree.
    DiffIndex { tree: String },
    /// Throw away every change of the working tree against the index.
    Discard,
    /// Apply a patch file to the working tree, with line-ending conversion
    /// switched off on the second try.
    Apply { patch: String, autocrlf_off: bool },
}

/// The mathematical value of a [`Plumbing`].
pub enum PlumbingView {
    WriteTree,
    DiffIndex { tree: Seq<char> },
    Discard,
    Apply { patch: Seq<char>, autocrlf_off: bool },
}

impl View for Plumbing {
    type V = PlumbingView;

    open spec fn view(&self) -> PlumbingView {
        match self {
            Plumbing::WriteTree => PlumbingView::WriteTree,
            Plumbing::DiffIndex { tree } => PlumbingView::DiffIndex { tree: tree@ },
            Plumbing::Discard => PlumbingView::Discard,
            Plumbing::Apply { patch, autocrlf_off } => PlumbingView::Apply {
                patch: patch@,
                autocrlf_off: *autocrlf_off,
            },
        }
    }
}

/// Arguments and environment of one run of git.
#[derive(Debug, PartialEq, Eq)]
pub struct Invocation {
    pub args: Vec<String>,
    pub env: Vec<(String, String)>,
}

/// The arguments that git is given for `op`.
pub open spec fn command_line(op: PlumbingView) -> Seq<Seq<char>> {
    match op {
        PlumbingView::WriteTree => seq!["write-tree"@],
        PlumbingView::DiffIndex { tree } => seq![
            "diff-index"@,
            "--ignore-submodules"@,
            "--binary"@,
            "--exit-code"@,
            "--no-color"@,
            "--no-ext-diff"@,
            tree,
            "--"@,
        ],
        PlumbingView::Discard => seq![
            "-c"@,
            "submodule.recurse=0"@,
            "checkout"@,
            "--"@,
            "."@,
        ],
        PlumbingView::Apply { patch, autocrlf_off } => if autocrlf_off {
            seq!["-c"@, "core.autocrlf=false"@, "apply"@, "--whitespace=nowarn"@, patch]
        } else {
            seq!["apply"@, "--whitespace=nowarn"@, patch]
        },
    }
}

/// The variables that are set for the run of `op`: the re-entry guard
/// around the checkout, nothing otherwise.
pub open spec fn environment(op: PlumbingView) -> Seq<(Seq<char>, Seq<char>)> {
    match op {
        PlumbingView::Discard => seq![(SKIP_POST_CHECKOUT@, "1"@)],
        _ => Seq::empty(),
    }
}

impl Invocation {
    /// The arguments, each as its characters.
    pub open spec fn args_view(&self) -> Seq<Seq<char>> {
        Seq::new(self.args@.len(), |i: int| self.args@[i]@)
    }

    /// The environment, each pair as its characters.
    pub open spec fn env_view(&self) -> Seq<(Seq<char>, Seq<char>)> {
        Seq::new(self.env@.len(), |i: int| (self.env@[i].0@, self.env@[i].1@))
    }
}

/// How git is to be run for `op`.
pub fn invocation(op: &Plumbing) -> (r: Invocation)
    ensures
        r.args_view() == command_line(op@),
        r.env_view() == environment(op@),
{
    let mut args: Vec<String> = Vec::new();
    let mut env: Vec<(String, String)> = Vec::new();
    match op {
        Plumbing::WriteTree => {
            args.push(String::from_str("write-tree"));
        },
        Plumbing::DiffIndex { tree } => {
            args.push(String::from_str("diff-index"));
            args.push(String::from_str("--ignore-submodules"));
            args.push(String::from_str("--binary"));
            args.push(String::from_str("--exit-code"));
            args.push(String::from_str("--no-color"));
            args.push(String::from_str("--no-ext-diff"));
            args.push(tree.clone());
            args.push(String::from_str("--"));
        },
        Plumbing::Discard => {
            args.push(String::from_str("-c"));
            args.push(String::from_str("submodule.recurse=0"));
            args.push(String::from_str("checkout"));
            args.push(String::from_str("--"));
            args.push(String::from_str("."));
            env.push((String::from_str(SKIP_POST_CHECKOUT), String::from_str("1")));
        },
        Plumbing::Apply { patch, autocrlf_off } => {
            if *autocrlf_off {
                args.push(String::from_str("-c"));
                args.push(String::from_str("core.autocrlf=false"));
            }
            args.push(String::from_str("apply"));
            args.push(String::from_str("--whitespace=nowarn"));
            args.push(patch.clone());
        },
    }
    let r = Invocation { args, env };
    assert(r.args_view() =~= command_line(op@));
    assert(r.env_view() =~= environment(op@));
    r
}

/// Whether a process ended with exit status 0.
pub open spec fn succeeded(code: Option<i32>) -> bool {
    code == Some(0i32)
}

/// What the comparison of index and working tree found.
#[derive(Clone, Copy, Debug, PartialEq, Eq, Structural)]
pub enum DiffOutcome {
    /// Nothing to stash.
    NoDiff,
    /// The working tree differs; the output is the patch.
    Differs,
    /// The comparison itself failed.
    Failed,
}

/// The meaning of an exit of `diff-index --exit-code`: 0 is "no
/// difference"; 1 is "difference", unless nothing was printed, which is
/// taken as "no difference" too; anything else is a failure.
pub open spec fn diff_outcome(code: Option<i32>, output_len: nat) -> DiffOutcome {
    if code == Some(0i32) {
        DiffOutcome::NoDiff
    } else if code == Some(1i32) {
        if output_len == 0 {
            DiffOutcome::NoDiff
        } else {
            DiffOutcome::Differs
        }
    } else {
        DiffOutcome::Failed
    }
}

/// Reads the exit of `diff-index`.
pub fn classify_diff(code: Option<i32>, output: &[u8]) -> (r: DiffOutcome)
    ensures
        r == diff_outcome(code, output@.len()),
{
    match code {
        Some(0) => DiffOutcome::NoDiff,
        Some(1) => if output.len() == 0 {
            DiffOutcome::NoDiff
        } else {
            DiffOutcome::Differs
        },
        _ => DiffOutcome::Failed,
    }
}

/// Whether the index holds an entry of a merge in conflict: one whose stage
/// is not 0.
pub open spec fn unmerged(s: Seq<EntryView>) -> bool {
    exists|i: int| 0 <= i < s.len() && (#[trigger] s[i]).flags.stage != 0
}

/// Whether `idx` holds unmerged paths.
pub fn has_unmerged_paths(idx: &gix::index::State) -> (r: bool)
    ensures
        r == unmerged(index_entries(*idx)),
{
    let n = entry_count(idx);
    let mut i: usize = 0;
    while i < n
        invariant
            i <= n,
            n == index_entries(*idx).len(),
            forall|k: int| 0 <= k < i ==> (#[trigger] index_entries(*idx)[k]).flags.stage == 0,
        decreases n - i,
    {
        if flags_at(idx, i).stage != 0 {
            return true;
        }
        i += 1;
    }
    false
}

/// The arguments of the call that asks git whether `config` has unstaged
/// changes in the working tree at `work_dir`.
pub open spec fn unstaged_config_line(work_dir: Seq<char>, config: Seq<char>) -> Seq<Seq<char>> {
    seq!["-C"@, work_dir, "diff"@, "--quiet"@, "--no-ext-diff"@, config]
}

/// The characters of each string of a list.
pub open spec fn words(v: Seq<String>) -> Seq<Seq<char>> {
    Seq::new(v.len(), |i: int| v[i]@)
}

/// How git is asked whether `config` has unstaged changes.  Exit status 1
/// says that it has.
pub fn unstaged_config_command(work_dir: &str, config: &str) -> (args: Vec<String>)
    ensures
        words(args@) == unstaged_config_line(work_dir@, config@),
{
    let mut args: Vec<String> = Vec::new();
    args.push(String::from_str("-C"));
    args.push(String::from_str(work_dir));
    args.push(String::from_str("diff"));
    args.push(String::from_str("--quiet"));
    args.push(String::from_str("--no-ext-diff"));
    args.push(String::from_str(config));
    assert(words(args@) =~= unstaged_config_line(work_dir@, config@));
    args
}

/// The variables by which git is told of a repository; a git that is to
/// work on another repository must not see them.
pub open spec fn local_env_names() -> Seq<Seq<char>> {
    seq![
        "GIT_ALTERNATE_OBJECT_DIRECTORIES"@,
        "GIT_COMMON_DIR"@,
        "GIT_CONFIG"@,
        "GIT_CONFIG_COUNT"@,
        "GIT_CONFIG_PARAMETERS"@,
        "GIT_DIR"@,
        "GIT_GRAFT_FILE"@,
        "GIT_IMPLICIT_WORK_TREE"@,
        "GIT_INDEX_FILE"@,
        "GIT_INTERNAL_SUPER_PREFIX"@,
        "GIT_NO_REPLACE_OBJECTS"@,
        "GIT_OBJECT_DIRECTORY"@,
        "GIT_PREFIX"@,
        "GIT_REPLACE_REF_BASE"@,
        "GIT_SHALLOW_FILE"@,
        "GIT_WORK_TREE"@,
    ]
}

/// Lists the variables to take out of the environment of a git that works
/// on another repository.
pub fn git_no_local_env() -> (names: Vec<String>)
    ensures
        words(names@) == local_env_names(),
{
    let mut names: Vec<String> = Vec::new();
    names.push(String::from_str("GIT_ALTERNATE_OBJECT_DIRECTORIES"));
    names.push(String::from_str("GIT_COMMON_DIR"));
    names.push(String::from_str("GIT_CONFIG"));
    names.push(String::from_str("GIT_CONFIG_COUNT"));
    names.push(String::from_str("GIT_CONFIG_PARAMETERS"));
    names.push(String::from_str("GIT_DIR"));
    names.push(String::from_str("GIT_GRAFT_FILE"));
    names.push(String::from_str("GIT_IMPLICIT_WORK_TREE"));
    names.push(String::from_str("GIT_INDEX_FILE"));
    names.push(String::from_str("GIT_INTERNAL_SUPER_PREFIX"));
    names.push(String::from_str("GIT_NO_REPLACE_OBJECTS"));
    names.push(String::from_str("GIT_OBJECT_DIRECTORY"));
    names.push(String::from_str("GIT_PREFIX"));
    names.push(String::from_str("GIT_REPLACE_REF_BASE"));
    names.push(String::from_str("GIT_SHALLOW_FILE"));
    names.push(String::from_str("GIT_WORK_TREE"));
    assert(words(names@) =~= local_env_names());
    names
}

/// The arguments that switch the built-in file-system monitor off.
pub open spec fn no_fs_monitor() -> Seq<Seq<char>> {
    seq!["-c"@, "core.useBuiltinFSMonitor=false"@]
}

/// Begins the arguments of a git that runs without the file-system monitor.
pub fn git_no_fs_monitor() -> (args: Vec<String>)
    ensures
        words(args@) == no_fs_monitor(),
{
    let mut args: Vec<String> = Vec::new();
    args.push(String::from_str("-c"));
    args.push(String::from_str("core.useBuiltinFSMonitor=false"));
    assert(words(args@) =~= no_fs_monitor());
    args
}

/// One run of git on a repository other than the one at hand.
#[derive(Debug, PartialEq, Eq)]
pub struct RepoCommand {
    pub args: Vec<String>,
    /// The variables to take out of the environment.
    pub unset: Vec<String>,
    /// The directory to run in; none for the current one.
    pub dir: Option<String>,
}

/// Lists the runs of git that make an empty repository at `path` with
/// `remote` as its origin: `init` without a template, so that no hook of
/// the user is installed, then `remote add origin` inside it.
pub fn init_repo(path: &str, remote: &str) -> (r: Vec<RepoCommand>)
    ensures
        r@.len() == 2,
        words(r@[0].args@) == no_fs_monitor() + seq!["init"@, "--template="@, path@],
        words(r@[0].unset@) == local_env_names(),
        r@[0].dir is None,
        words(r@[1].args@) == no_fs_monitor() + seq!["remote"@, "add"@, "origin"@, remote@],
        words(r@[1].unset@) == local_env_names(),
        r@[1].dir is Some && r@[1].dir->0@ == path@,
{
    let mut init = git_no_fs_monitor();
    init.push(String::from_str("init"));
    init.push(String::from_str("--template="));
    init.push(String::from_str(path));
    assert(words(init@) =~= no_fs_monitor() + seq!["init"@, "--template="@, path@]);
    let mut add = git_no_fs_monitor();
    add.push(String::from_str("remote"));
    add.push(String::from_str("add"));
    add.push(String::from_str("origin"));
    add.push(String::from_str(remote));
    assert(words(add@) =~= no_fs_monitor() + seq!["remote"@, "add"@, "origin"@, remote@]);
    let mut r: Vec<RepoCommand> = Vec::new();
    r.push(RepoCommand { args: init, unset: git_no_local_env(), dir: None });
    r.push(RepoCommand { args: add, unset: git_no_local_env(), dir: Some(String::from_str(path)) });
    r
}

} // verus!

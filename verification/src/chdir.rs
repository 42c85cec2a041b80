//! Paths that the user gave relative to the directory the program was
//! started in, told anew relative to the root of the working tree.

use vstd::prelude::*;
use crate::run::Run;

verus! {

/// `std::path::PathBuf`, carried through verified code as an opaque value.
#[verifier::external_type_specification]
#[verifier::external_body]
pub struct ExPathBuf(std::path::PathBuf);

/// A change of directory: from where the program was started to the root
/// of the working tree.
#[derive(Debug)]
pub struct Chdir {
    pub orig: std::path::PathBuf,
    pub new: std::path::PathBuf,
}

/// A path was given that cannot be told relative to the working tree.
#[derive(Debug, PartialEq, Eq)]
pub struct NotBelow {
    /// The path as it was given.
    pub path: String,
}

/// `p` seen from `base`.
///
/// Trusted, of `Path::join`: nothing is claimed of the path it returns,
/// whose form depends on the platform.
#[verifier::external_body]
pub(crate) fn join(base: &std::path::PathBuf, p: &str) -> std::path::PathBuf {
    base.join(p)
}

/// The way from `base` to `path`.
///
/// Trusted, of `pathdiff::diff_paths`: nothing is claimed of its result,
/// which depends on how the platform splits paths.
#[verifier::external_body]
pub(crate) fn diff_paths(path: &std::path::PathBuf, base: &std::path::PathBuf) -> Option<
    std::path::PathBuf,
> {
    pathdiff::diff_paths(path, base)
}

/// A path as text.
///
/// Trusted, of `Path::to_string_lossy`: nothing is claimed of the text.
#[verifier::external_body]
pub(crate) fn lossy(p: &std::path::PathBuf) -> String {
    p.to_string_lossy().into()
}

/// Tells `p`, given relative to where the program was started, relative to
/// the root of the working tree; none if there is no way from the one to
/// the other.
pub fn chdir_path(p: &str, chdir: &Chdir) -> Option<String> {
    match diff_paths(&join(&chdir.orig, p), &chdir.new) {
        Some(d) => Some(lossy(&d)),
        None => None,
    }
}

/// What of a run does not depend on where the program was started.
pub open spec fn same_request(a: Run, b: Run) -> bool {
    &&& a.hook == b.hook
    &&& a.verbose == b.verbose
    &&& a.all_files == b.all_files
    &&& a.files@.len() == b.files@.len()
    &&& a.show_diff_on_failure == b.show_diff_on_failure
    &&& a.from_ref == b.from_ref
    &&& a.to_ref == b.to_ref
    &&& a.hook_stage == b.hook_stage
    &&& a.remote_branch == b.remote_branch
    &&& a.local_branch == b.local_branch
    &&& a.commit_msg_filename is Some <==> b.commit_msg_filename is Some
    &&& a.prepare_commit_message_source == b.prepare_commit_message_source
    &&& a.commit_object_name == b.commit_object_name
    &&& a.remote_name == b.remote_name
    &&& a.remote_url == b.remote_url
    &&& a.checkout_type == b.checkout_type
    &&& a.is_squash_merge == b.is_squash_merge
    &&& a.rewrite_command == b.rewrite_command
}

/// Tells the files of a run, and the file of the commit message, relative
/// to the root of the working tree.  Nothing else of the run changes.  The
/// first path that cannot be told so is returned as the error.
pub fn adjust_run(cmd: &mut Run, chdir: &Chdir) -> (r: Result<(), NotBelow>)
    ensures
        same_request(*old(cmd), *final(cmd)),
        r matches Err(e) ==> (exists|i: int|
            0 <= i < old(cmd).files@.len() && e.path == #[trigger] old(cmd).files@[i]) || Some(
            e.path,
        ) == old(cmd).commit_msg_filename,
        exists|told: Seq<Option<String>>, msg: Option<String>|
            adjusted(*old(cmd), told, msg, *final(cmd), r),
{
    let n = cmd.files.len();
    let mut told: Vec<Option<String>> = Vec::new();
    let mut complete = true;
    let mut i: usize = 0;
    while i < n && complete
        invariant
            i <= n,
            n == cmd.files@.len(),
            *cmd == *old(cmd),
            told@.len() == i,
            complete ==> forall|k: int| 0 <= k < i ==> !untold(told@, k),
            !complete ==> i > 0 && untold(told@, i - 1) && forall|k: int|
                0 <= k < i - 1 ==> !untold(told@, k),
        decreases n - i + (if complete { 1int } else { 0int }),
    {
        let t = chdir_path(cmd.files[i].as_str(), chdir);
        complete = t.is_some();
        let ghost sofar = told@;
        told.push(t);
        assert forall|k: int| 0 <= k < i implies !untold(told@, k) by {
            assert(!untold(sofar, k));
            assert(told@[k] == sofar[k]);
        }
        i += 1;
    }
    let msg = if complete {
        match &cmd.commit_msg_filename {
            Some(f) => chdir_path(f.as_str(), chdir),
            None => None,
        }
    } else {
        None
    };
    retell(cmd, &told, msg)
}

/// Whether `told` holds no new path for file `i`.
pub open spec fn untold(told: Seq<Option<String>>, i: int) -> bool {
    i >= told.len() || told[i] is None
}

/// The first `k` files of `after` are the new paths, the others are as
/// they were in `before`.
pub open spec fn files_retold(before: Run, told: Seq<Option<String>>, after: Run, k: int) -> bool {
    &&& after.files@.len() == before.files@.len()
    &&& forall|i: int| 0 <= i < k ==> #[trigger] after.files@[i] == told[i]->0
    &&& forall|i: int| k <= i < before.files@.len() ==> #[trigger] after.files@[i] == before.files@[i]
}

/// What becomes of a run when its paths are told anew: `told` holds the new
/// path of each file, or none where there is no way to it, and `msg` the
/// new path of the file of the commit message.  The files are taken in
/// order and replaced up to the first that has no new path, which is the
/// error; if every file has one, the file of the commit message follows.
pub open spec fn adjusted(
    before: Run,
    told: Seq<Option<String>>,
    msg: Option<String>,
    after: Run,
    r: Result<(), NotBelow>,
) -> bool {
    let n = before.files@.len() as int;
    &&& same_request(before, after)
    &&& match r {
        Ok(()) => {
            &&& forall|i: int| 0 <= i < n ==> !untold(told, i)
            &&& files_retold(before, told, after, n)
            &&& match before.commit_msg_filename {
                Some(_) => msg is Some && after.commit_msg_filename == msg,
                None => after.commit_msg_filename is None,
            }
        },
        Err(e) => {
            &&& after.commit_msg_filename == before.commit_msg_filename
            &&& {
                ||| exists|k: int|
                    {
                        &&& 0 <= k < n
                        &&& untold(told, k)
                        &&& forall|i: int| 0 <= i < k ==> !untold(told, i)
                        &&& e.path == #[trigger] before.files@[k]
                        &&& files_retold(before, told, after, k)
                    }
                ||| {
                    &&& forall|i: int| 0 <= i < n ==> !untold(told, i)
                    &&& files_retold(before, told, after, n)
                    &&& before.commit_msg_filename == Some(e.path)
                    &&& msg is None
                }
            }
        },
    }
}

/// Puts the new paths into a run.  `told` holds, for each file of the run
/// in order, its path from the root of the working tree, or none where
/// there is no way to it; `msg` holds the same for the file of the commit
/// message.  Files are replaced up to the first that has no new path; that
/// file, as it was given, is the error.  A file that `told` does not reach
/// counts as one without a new path.
pub fn retell(cmd: &mut Run, told: &Vec<Option<String>>, msg: Option<String>) -> (r: Result<
    (),
    NotBelow,
>)
    ensures
        adjusted(*old(cmd), told@, msg, *final(cmd), r),
{
    let n = cmd.files.len();
    let mut i: usize = 0;
    while i < n
        invariant
            i <= n,
            n == cmd.files@.len(),
            same_request(*old(cmd), *cmd),
            cmd.commit_msg_filename == old(cmd).commit_msg_filename,
            forall|k: int| 0 <= k < i ==> !untold(told@, k),
            files_retold(*old(cmd), told@, *cmd, i as int),
        decreases n - i,
    {
        let path = if i < told.len() {
            match &told[i] {
                Some(t) => Some(t.clone()),
                None => None,
            }
        } else {
            None
        };
        match path {
            Some(t) => {
                cmd.files.set(i, t);
            },
            None => {
                assert(untold(told@, i as int));
                return Err(NotBelow { path: cmd.files[i].clone() });
            },
        }
        i += 1;
    }
    match &cmd.commit_msg_filename {
        Some(f) => match msg {
            Some(t) => {
                cmd.commit_msg_filename = Some(t);
                Ok(())
            },
            None => Err(NotBelow { path: f.clone() }),
        },
        None => Ok(()),
    }
}

} // verus!

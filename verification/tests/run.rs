use pre_commit_rs::chdir::{adjust_run, chdir_path, retell, Chdir, NotBelow};
use pre_commit_rs::git::{git_no_fs_monitor, git_no_local_env, init_repo, unstaged_config_command, RepoCommand};
use pre_commit_rs::run::{check_config, check_merge, plan, pre_commit_env, Run, RunError, RunPlan, Stage};
use pre_commit_rs::store::{readonly, store_dir_impl, NoStoreDir, StoreDir};
use std::path::PathBuf;

fn run() -> Run {
    Run {
        hook: None,
        verbose: false,
        all_files: false,
        files: Vec::new(),
        show_diff_on_failure: false,
        from_ref: None,
        to_ref: None,
        hook_stage: Stage::Commit,
        remote_branch: None,
        local_branch: None,
        commit_msg_filename: None,
        prepare_commit_message_source: None,
        commit_object_name: None,
        remote_name: None,
        remote_url: None,
        checkout_type: None,
        is_squash_merge: None,
        rewrite_command: None,
    }
}

fn pair(k: &str, v: &str) -> (String, String) {
    (k.to_string(), v.to_string())
}

fn strings(v: &[&str]) -> Vec<String> {
    v.iter().map(|s| s.to_string()).collect()
}

#[test]
fn plain_run_isolates_the_working_tree() {
    assert_eq!(plan(&run(), &None), RunPlan::Hooks { stash: true });
}

#[test]
fn run_on_all_files_does_not_isolate() {
    let r = Run { all_files: true, ..run() };
    assert_eq!(plan(&r, &None), RunPlan::Hooks { stash: false });
}

#[test]
fn run_on_named_files_does_not_isolate() {
    let r = Run { files: vec!["a.py".to_string()], ..run() };
    assert_eq!(plan(&r, &None), RunPlan::Hooks { stash: false });
}

#[test]
fn post_checkout_under_the_guard_is_skipped() {
    let r = Run { hook_stage: Stage::PostCheckout, ..run() };
    assert_eq!(plan(&r, &Some("1".to_string())), RunPlan::Skip);
}

#[test]
fn guard_that_is_empty_or_unset_does_not_skip() {
    let r = Run { hook_stage: Stage::PostCheckout, ..run() };
    assert_eq!(plan(&r, &Some(String::new())), RunPlan::Hooks { stash: true });
    assert_eq!(plan(&r, &None), RunPlan::Hooks { stash: true });
}

#[test]
fn guard_skips_no_other_stage() {
    for stage in [
        Stage::Commit,
        Stage::MergeCommit,
        Stage::Push,
        Stage::PrepareCommitMsg,
        Stage::CommitMsg,
        Stage::PostCommit,
        Stage::PostMerge,
        Stage::PostRewrite,
        Stage::Manual,
    ] {
        let r = Run { hook_stage: stage, ..run() };
        assert_eq!(plan(&r, &Some("1".to_string())), RunPlan::Hooks { stash: true });
    }
}

#[test]
fn unmerged_files_forbid_an_isolating_run() {
    assert_eq!(check_merge(true, true), Err(RunError::UnmergedFiles));
    assert_eq!(check_merge(true, false), Ok(()));
    assert_eq!(check_merge(false, true), Ok(()));
    assert_eq!(check_merge(false, false), Ok(()));
}

#[test]
fn unstaged_config_forbids_an_isolating_run() {
    assert_eq!(
        check_config(true, Some(1), ".pre-commit-config.yaml"),
        Err(RunError::UnstagedConfig { config: ".pre-commit-config.yaml".to_string() })
    );
    assert_eq!(check_config(true, Some(0), "c"), Ok(()));
    assert_eq!(check_config(true, Some(128), "c"), Ok(()));
    assert_eq!(check_config(true, None, "c"), Ok(()));
    assert_eq!(check_config(false, Some(1), "c"), Ok(()));
}

#[test]
fn run_errors_in_words() {
    assert_eq!(RunError::UnmergedFiles.message(), "Unmerged files.  Resolve before committing.");
    assert_eq!(
        RunError::UnstagedConfig { config: "cfg.yaml".to_string() }.message(),
        "Your pre-commit configuration is unstaged.\n`git add cfg.yaml` to fix this."
    );
}

#[test]
fn environment_of_a_plain_run() {
    assert_eq!(pre_commit_env(&run()), vec![pair("PRE_COMMIT", "1")]);
}

#[test]
fn environment_of_a_full_run() {
    let r = Run {
        from_ref: Some("a".to_string()),
        to_ref: Some("b".to_string()),
        remote_branch: Some("c".to_string()),
        local_branch: Some("d".to_string()),
        commit_msg_filename: Some("not exported".to_string()),
        prepare_commit_message_source: Some("e".to_string()),
        commit_object_name: Some("f".to_string()),
        remote_name: Some("g".to_string()),
        remote_url: Some("h".to_string()),
        checkout_type: Some("1".to_string()),
        is_squash_merge: Some("0".to_string()),
        rewrite_command: Some("rebase".to_string()),
        ..run()
    };
    assert_eq!(
        pre_commit_env(&r),
        vec![
            pair("PRE_COMMIT", "1"),
            pair("PRE_COMMIT_ORIGIN", "a"),
            pair("PRE_COMMIT_FROM_REF", "a"),
            pair("PRE_COMMIT_SOURCE", "b"),
            pair("PRE_COMMIT_TO_REF", "b"),
            pair("PRE_COMMIT_REMOTE_BRANCH", "c"),
            pair("PRE_COMMIT_LOCAL_BRANCH", "d"),
            pair("PRE_COMMIT_COMMIT_MSG_SOURCE", "e"),
            pair("PRE_COMMIT_COMMIT_OBJECT_NAME", "f"),
            pair("PRE_COMMIT_REMOTE_NAME", "g"),
            pair("PRE_COMMIT_REMOTE_URL", "h"),
            pair("PRE_COMMIT_CHECKOUT_TYPE", "1"),
            pair("PRE_COMMIT_IS_SQUASH_MERGE", "0"),
            pair("PRE_COMMIT_REWRITE_COMMAND", "rebase"),
        ]
    );
}

#[test]
fn environment_leaves_out_what_is_unset() {
    let r = Run { to_ref: Some("main".to_string()), remote_url: Some(String::new()), ..run() };
    assert_eq!(
        pre_commit_env(&r),
        vec![
            pair("PRE_COMMIT", "1"),
            pair("PRE_COMMIT_SOURCE", "main"),
            pair("PRE_COMMIT_TO_REF", "main"),
            pair("PRE_COMMIT_REMOTE_URL", ""),
        ]
    );
}

#[test]
fn unstaged_config_command_line() {
    assert_eq!(
        unstaged_config_command("/work", ".pre-commit-config.yaml"),
        strings(&["-C", "/work", "diff", "--quiet", "--no-ext-diff", ".pre-commit-config.yaml"])
    );
}

#[test]
fn local_environment_names() {
    assert_eq!(
        git_no_local_env(),
        strings(&[
            "GIT_ALTERNATE_OBJECT_DIRECTORIES",
            "GIT_COMMON_DIR",
            "GIT_CONFIG",
            "GIT_CONFIG_COUNT",
            "GIT_CONFIG_PARAMETERS",
            "GIT_DIR",
            "GIT_GRAFT_FILE",
            "GIT_IMPLICIT_WORK_TREE",
            "GIT_INDEX_FILE",
            "GIT_INTERNAL_SUPER_PREFIX",
            "GIT_NO_REPLACE_OBJECTS",
            "GIT_OBJECT_DIRECTORY",
            "GIT_PREFIX",
            "GIT_REPLACE_REF_BASE",
            "GIT_SHALLOW_FILE",
            "GIT_WORK_TREE",
        ])
    );
}

#[test]
fn fs_monitor_is_switched_off() {
    assert_eq!(git_no_fs_monitor(), strings(&["-c", "core.useBuiltinFSMonitor=false"]));
}

#[test]
fn init_repo_runs_init_then_remote_add() {
    let cmds = init_repo("/cache/repo1", "https://example.com/hooks");
    assert_eq!(
        cmds,
        vec![
            RepoCommand {
                args: strings(&["-c", "core.useBuiltinFSMonitor=false", "init", "--template=", "/cache/repo1"]),
                unset: git_no_local_env(),
                dir: None,
            },
            RepoCommand {
                args: strings(&[
                    "-c",
                    "core.useBuiltinFSMonitor=false",
                    "remote",
                    "add",
                    "origin",
                    "https://example.com/hooks",
                ]),
                unset: git_no_local_env(),
                dir: Some("/cache/repo1".to_string()),
            },
        ]
    );
}

#[test]
fn store_dir_prefers_pre_commit_home() {
    assert_eq!(store_dir_impl(Some("p"), Some("x"), Some("h")), Ok(StoreDir::Given("p")));
    assert_eq!(store_dir_impl(Some("p"), None, None), Ok(StoreDir::Given("p")));
}

#[test]
fn store_dir_falls_back_to_the_cache_then_home() {
    assert_eq!(store_dir_impl(None, Some("x"), Some("h")), Ok(StoreDir::InCache("x")));
    assert_eq!(store_dir_impl(None, None, Some("h")), Ok(StoreDir::InHome("h")));
}

#[test]
fn store_dir_without_candidate() {
    assert_eq!(store_dir_impl::<&str>(None, None, None), Err(NoStoreDir));
    assert_eq!(NoStoreDir.message(), "no candidate for pre-commit home");
}

#[test]
fn store_dir_components() {
    let given = StoreDir::Given(PathBuf::from("/p"));
    assert_eq!(given.base(), &PathBuf::from("/p"));
    assert!(given.components().is_empty());
    let cache = StoreDir::InCache(PathBuf::from("/x"));
    assert_eq!(cache.base(), &PathBuf::from("/x"));
    assert_eq!(cache.components(), strings(&["pre-commit"]));
    let home = StoreDir::InHome(PathBuf::from("/h"));
    assert_eq!(home.base(), &PathBuf::from("/h"));
    assert_eq!(home.components(), strings(&[".cache", "pre-commit"]));
}

#[test]
fn store_is_readonly_only_if_it_exists_and_cannot_be_written() {
    assert!(readonly(true, false));
    assert!(!readonly(true, true));
    assert!(!readonly(false, false));
    assert!(!readonly(false, true));
}

fn chdir() -> Chdir {
    Chdir { orig: PathBuf::from("/repo/src/pkg"), new: PathBuf::from("/repo") }
}

#[test]
fn path_is_told_from_the_root() {
    assert_eq!(chdir_path("a.py", &chdir()), Some("src/pkg/a.py".to_string()));
    assert_eq!(chdir_path("sub/b.py", &chdir()), Some("src/pkg/sub/b.py".to_string()));
    assert_eq!(chdir_path("/repo/c.py", &chdir()), Some("c.py".to_string()));
    assert_eq!(chdir_path("/elsewhere/d.py", &chdir()), Some("../elsewhere/d.py".to_string()));
}

#[test]
fn path_from_a_root_with_parent_steps_cannot_be_told() {
    let c = Chdir { orig: PathBuf::from("/repo/src"), new: PathBuf::from("/repo/../y") };
    assert_eq!(chdir_path("a.py", &c), None);
}

#[test]
fn run_is_adjusted_to_the_root() {
    let mut r = Run {
        files: vec!["a.py".to_string(), "sub/b.py".to_string()],
        commit_msg_filename: Some("MSG".to_string()),
        to_ref: Some("main".to_string()),
        ..run()
    };
    assert_eq!(adjust_run(&mut r, &chdir()), Ok(()));
    assert_eq!(r.files, vec!["src/pkg/a.py".to_string(), "src/pkg/sub/b.py".to_string()]);
    assert_eq!(r.commit_msg_filename, Some("src/pkg/MSG".to_string()));
    assert_eq!(r.to_ref, Some("main".to_string()));
    assert_eq!(r.hook_stage, Stage::Commit);
}

#[test]
fn run_without_files_is_left_alone() {
    let mut r = run();
    assert_eq!(adjust_run(&mut r, &chdir()), Ok(()));
    assert_eq!(r, run());
}

#[test]
fn run_that_cannot_be_adjusted() {
    let c = Chdir { orig: PathBuf::from("/repo/src"), new: PathBuf::from("/repo/../y") };
    let mut r = Run { files: vec!["a.py".to_string()], ..run() };
    assert_eq!(adjust_run(&mut r, &c), Err(NotBelow { path: "a.py".to_string() }));
    let mut r = Run { commit_msg_filename: Some("MSG".to_string()), ..run() };
    assert_eq!(adjust_run(&mut r, &c), Err(NotBelow { path: "MSG".to_string() }));
}

fn some(path: &str) -> Option<String> {
    Some(path.to_string())
}

#[test]
fn retell_replaces_every_path() {
    let mut r = Run {
        files: strings(&["a.py", "b.py"]),
        commit_msg_filename: some("MSG"),
        remote_url: some("u"),
        ..run()
    };
    assert_eq!(retell(&mut r, &vec![some("x/a.py"), some("x/b.py")], some("x/MSG")), Ok(()));
    assert_eq!(
        r,
        Run {
            files: strings(&["x/a.py", "x/b.py"]),
            commit_msg_filename: some("x/MSG"),
            remote_url: some("u"),
            ..run()
        }
    );
}

#[test]
fn retell_stops_at_the_first_file_without_a_way() {
    let mut r = Run { files: strings(&["a", "b", "c", "d"]), commit_msg_filename: some("MSG"), ..run() };
    assert_eq!(
        retell(&mut r, &vec![some("x/a"), None, some("x/c"), None], some("x/MSG")),
        Err(NotBelow { path: "b".to_string() })
    );
    assert_eq!(r.files, strings(&["x/a", "b", "c", "d"]));
    assert_eq!(r.commit_msg_filename, some("MSG"));
}

#[test]
fn retell_counts_a_file_that_is_not_reached_as_without_a_way() {
    let mut r = Run { files: strings(&["a", "b"]), ..run() };
    assert_eq!(retell(&mut r, &vec![some("x/a")], None), Err(NotBelow { path: "b".to_string() }));
    assert_eq!(r.files, strings(&["x/a", "b"]));
    let mut r = Run { files: strings(&["a"]), ..run() };
    assert_eq!(retell(&mut r, &Vec::new(), None), Err(NotBelow { path: "a".to_string() }));
    assert_eq!(r.files, strings(&["a"]));
}

#[test]
fn retell_fails_on_the_commit_message_after_the_files() {
    let mut r = Run { files: strings(&["a"]), commit_msg_filename: some("MSG"), ..run() };
    assert_eq!(retell(&mut r, &vec![some("x/a")], None), Err(NotBelow { path: "MSG".to_string() }));
    assert_eq!(r.files, strings(&["x/a"]));
    assert_eq!(r.commit_msg_filename, some("MSG"));
}

#[test]
fn retell_without_commit_message_ignores_its_new_path() {
    let mut r = Run { files: strings(&["a"]), ..run() };
    assert_eq!(retell(&mut r, &vec![some("x/a"), some("extra")], some("x/MSG")), Ok(()));
    assert_eq!(r.files, strings(&["x/a"]));
    assert_eq!(r.commit_msg_filename, None);
}

#[test]
fn retell_of_a_run_without_paths() {
    let mut r = run();
    assert_eq!(retell(&mut r, &Vec::new(), None), Ok(()));
    assert_eq!(r, run());
}

#[test]
fn adjust_run_leaves_later_files_when_one_has_no_way() {
    let c = Chdir { orig: PathBuf::from("/repo/src"), new: PathBuf::from("/repo/../y") };
    let mut r = Run {
        files: strings(&["/y/a.py", "b.py", "/y/c.py"]),
        commit_msg_filename: some("MSG"),
        ..run()
    };
    assert_eq!(adjust_run(&mut r, &c), Err(NotBelow { path: "b.py".to_string() }));
    assert_eq!(r.files, strings(&["../../../y/a.py", "b.py", "/y/c.py"]));
    assert_eq!(r.commit_msg_filename, some("MSG"));
}

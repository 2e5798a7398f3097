//! End-to-end scenarios against real repositories built through the
//! repository library, each in its own temporary directory.

use upfind::error::PromptError;
use upfind::git_utils;
use upfind::git_utils::GitHeadInfoInternal;
use upfind::structs::GetGitInfoOptions;

fn options_for(dir: &str) -> GetGitInfoOptions {
    GetGitInfoOptions {
        start_folder: Some(dir.to_string()),
        reference_name: "HEAD".to_string(),
        include_submodules: false,
        include_untracked: true,
        refresh_status: false,
        include_ahead_behind: true,
        include_workdir_stats: true,
    }
}

fn init_repo(dir: &str) -> git2::Repository {
    let mut opts = git2::RepositoryInitOptions::new();
    opts.initial_head("main");
    opts.mkpath(true);
    git2::Repository::init_opts(dir, &opts).expect("init repository")
}

/// Writes a commit whose tree holds exactly `files`, updating `refname`.
fn commit_files(
    repo: &git2::Repository,
    refname: &str,
    files: &[(&str, &str)],
    parents: &[git2::Oid],
    message: &str,
) -> git2::Oid {
    let mut builder = repo.treebuilder(None).expect("treebuilder");
    for (path, content) in files {
        let blob = repo.blob(content.as_bytes()).expect("blob");
        builder.insert(*path, blob, 0o100644).expect("tree entry");
    }
    let tree_id = builder.write().expect("tree");
    let tree = repo.find_tree(tree_id).expect("find tree");
    let sig = git2::Signature::now("tester", "tester@example.com").expect("signature");
    let parent_commits: Vec<git2::Commit> =
        parents.iter().map(|oid| repo.find_commit(*oid).expect("parent")).collect();
    let parent_refs: Vec<&git2::Commit> = parent_commits.iter().collect();
    repo.commit(Some(refname), &sig, &sig, message, &tree, &parent_refs).expect("commit")
}

fn checkout_clean(repo: &git2::Repository) {
    let mut checkout = git2::build::CheckoutBuilder::new();
    checkout.force();
    repo.checkout_head(Some(&mut checkout)).expect("checkout");
}

fn set_upstream(repo: &git2::Repository, branch: &str, target: &str) {
    let mut config = repo.config().expect("config");
    config.set_str(&format!("branch.{branch}.remote"), ".").expect("remote");
    config.set_str(&format!("branch.{branch}.merge"), target).expect("merge");
}

#[test]
fn s1_not_a_repository() {
    let tmp = tempfile::tempdir().expect("tempdir");
    let dir = tmp.path().to_str().expect("utf-8 path").to_string();
    let report = git_utils::process_current_dir(&options_for(&dir));
    match report {
        Err(PromptError::Message(message)) => assert_eq!(message, "Not found .git folder"),
        other => panic!("expected a report-level failure, got {:?}", other.is_ok()),
    }
}

#[test]
fn start_folder_that_does_not_exist_is_rejected() {
    let tmp = tempfile::tempdir().expect("tempdir");
    let dir = format!("{}/missing", tmp.path().to_str().expect("utf-8 path"));
    let report = git_utils::process_current_dir(&options_for(&dir));
    match report {
        Err(PromptError::Message(message)) => {
            assert_eq!(message, format!("Path '{dir}' doesn't exist"));
        },
        other => panic!("expected a report-level failure, got {:?}", other.is_ok()),
    }
}

#[test]
fn s2_clean_repository_with_upstream_in_sync() {
    let tmp = tempfile::tempdir().expect("tempdir");
    let dir = format!("{}/repo", tmp.path().to_str().expect("utf-8 path"));
    let repo = init_repo(&dir);
    let commit = commit_files(&repo, "HEAD", &[("file.txt", "hello\n")], &[], "init");
    checkout_clean(&repo);
    repo.reference("refs/heads/up", commit, true, "upstream branch").expect("reference");
    set_upstream(&repo, "main", "refs/heads/up");

    let report = git_utils::process_current_dir(&options_for(&dir)).expect("report");
    let head = report.head_info.expect("head info");
    assert_eq!(head.reference_short, Some("main".to_string()));
    assert!(!head.detached);
    assert_eq!(head.oid_short, Some(commit.to_string()[0..8].to_string()));
    let status = report.file_status.expect("file status");
    assert!(!status.conflict);
    assert!(!status.untracked);
    assert!(!status.typechange);
    assert!(!status.unstaged);
    assert!(!status.staged);
    let ahead_behind = report.branch_ahead_behind.expect("ahead/behind");
    assert_eq!(ahead_behind.ahead, 0);
    assert_eq!(ahead_behind.behind, 0);
}

#[test]
fn s3_dirty_working_tree() {
    let tmp = tempfile::tempdir().expect("tempdir");
    let dir = format!("{}/repo", tmp.path().to_str().expect("utf-8 path"));
    let repo = init_repo(&dir);
    commit_files(&repo, "HEAD", &[("f.txt", "v1\n"), ("h.txt", "hh\n")], &[], "init");
    checkout_clean(&repo);

    // Modify the tracked f.txt and add the untracked g.txt, in the working
    // tree only.
    let mut dirty = repo.treebuilder(None).expect("treebuilder");
    let f2 = repo.blob(b"v2\n").expect("blob");
    let h = repo.blob(b"hh\n").expect("blob");
    let g = repo.blob(b"x\n").expect("blob");
    dirty.insert("f.txt", f2, 0o100644).expect("entry");
    dirty.insert("h.txt", h, 0o100644).expect("entry");
    dirty.insert("g.txt", g, 0o100644).expect("entry");
    let dirty_id = dirty.write().expect("tree");
    let dirty_tree = repo.find_object(dirty_id, Some(git2::ObjectType::Tree)).expect("object");
    let mut checkout = git2::build::CheckoutBuilder::new();
    checkout.force();
    checkout.update_index(false);
    repo.checkout_tree(&dirty_tree, Some(&mut checkout)).expect("checkout tree");

    // Stage a rename of h.txt to h2.txt: the index drops one path and gains
    // the other with the same content.
    let mut index = repo.index().expect("index");
    index.remove_path(std::path::Path::new("h.txt")).expect("remove");
    let entry = git2::IndexEntry {
        ctime: git2::IndexTime::new(0, 0),
        mtime: git2::IndexTime::new(0, 0),
        dev: 0,
        ino: 0,
        mode: 0o100644,
        uid: 0,
        gid: 0,
        file_size: 0,
        id: git2::Oid::zero(),
        flags: 0,
        flags_extended: 0,
        path: b"h2.txt".to_vec(),
    };
    index.add_frombuffer(&entry, b"hh\n").expect("stage");
    index.write().expect("write index");

    let report = git_utils::process_current_dir(&options_for(&dir)).expect("report");
    let status = report.file_status.expect("file status");
    assert!(status.unstaged);
    assert!(status.untracked);
    assert!(status.staged);
    assert!(!status.conflict);
    assert!(!status.typechange);
}

#[test]
fn s4_detached_head_at_a_commit() {
    let tmp = tempfile::tempdir().expect("tempdir");
    let dir = format!("{}/repo", tmp.path().to_str().expect("utf-8 path"));
    let repo = init_repo(&dir);
    let commit = commit_files(&repo, "HEAD", &[("file.txt", "hello\n")], &[], "init");
    checkout_clean(&repo);
    repo.set_head_detached(commit).expect("detach");

    let report = git_utils::process_current_dir(&options_for(&dir)).expect("report");
    let head = report.head_info.expect("head info");
    assert!(head.detached);
    assert_eq!(head.oid_short, Some(commit.to_string()[0..8].to_string()));
    // A detached HEAD is a direct reference whose own name is `HEAD`; both
    // fields are kept and the renderer prefers the short id.
    assert_eq!(head.reference_short, Some("HEAD".to_string()));
}

#[test]
fn s5_no_upstream_configured() {
    let tmp = tempfile::tempdir().expect("tempdir");
    let dir = format!("{}/repo", tmp.path().to_str().expect("utf-8 path"));
    let repo = init_repo(&dir);
    commit_files(&repo, "HEAD", &[("file.txt", "hello\n")], &[], "init");
    checkout_clean(&repo);

    let report = git_utils::process_current_dir(&options_for(&dir)).expect("report");
    let head = report.head_info.expect("head info");
    assert_eq!(head.reference_short, Some("main".to_string()));
    assert!(report.branch_ahead_behind.is_none());
}

#[test]
fn s6_ahead_by_two_behind_by_one() {
    let tmp = tempfile::tempdir().expect("tempdir");
    let dir = format!("{}/repo", tmp.path().to_str().expect("utf-8 path"));
    let repo = init_repo(&dir);
    let base = commit_files(&repo, "HEAD", &[("f.txt", "0\n")], &[], "base");
    repo.reference("refs/heads/up", base, true, "upstream branch").expect("reference");
    commit_files(&repo, "refs/heads/up", &[("f.txt", "up\n")], &[base], "upstream ahead");
    let local_one = commit_files(&repo, "HEAD", &[("f.txt", "1\n")], &[base], "local one");
    commit_files(&repo, "HEAD", &[("f.txt", "2\n")], &[local_one], "local two");
    checkout_clean(&repo);
    set_upstream(&repo, "main", "refs/heads/up");

    let report = git_utils::process_current_dir(&options_for(&dir)).expect("report");
    let ahead_behind = report.branch_ahead_behind.expect("ahead/behind");
    assert_eq!(ahead_behind.ahead, 2);
    assert_eq!(ahead_behind.behind, 1);
}

#[test]
fn p4_ahead_behind_swaps_with_configuration() {
    let tmp = tempfile::tempdir().expect("tempdir");
    let dir = format!("{}/repo", tmp.path().to_str().expect("utf-8 path"));
    let repo = init_repo(&dir);
    let base = commit_files(&repo, "HEAD", &[("f.txt", "0\n")], &[], "base");
    repo.reference("refs/heads/up", base, true, "upstream branch").expect("reference");
    let up_tip =
        commit_files(&repo, "refs/heads/up", &[("f.txt", "up\n")], &[base], "upstream ahead");
    let local_one = commit_files(&repo, "HEAD", &[("f.txt", "1\n")], &[base], "local one");
    let main_tip = commit_files(&repo, "HEAD", &[("f.txt", "2\n")], &[local_one], "local two");
    set_upstream(&repo, "main", "refs/heads/up");
    set_upstream(&repo, "up", "refs/heads/main");

    let main_facts = GitHeadInfoInternal {
        reference_name: Some("refs/heads/main".to_string()),
        oid: Some(main_tip.as_bytes().to_vec()),
        detached: false,
    };
    let forward = git_utils::graph_ahead_behind(&repo, &Some(main_facts)).expect("forward");

    let up_facts = GitHeadInfoInternal {
        reference_name: Some("refs/heads/up".to_string()),
        oid: Some(up_tip.as_bytes().to_vec()),
        detached: false,
    };
    let backward = git_utils::graph_ahead_behind(&repo, &Some(up_facts)).expect("backward");

    assert_eq!(forward.ahead, 2);
    assert_eq!(forward.behind, 1);
    assert_eq!(backward.ahead, forward.behind);
    assert_eq!(backward.behind, forward.ahead);
}

#[test]
fn p5_failed_head_leaves_status_populated() {
    let tmp = tempfile::tempdir().expect("tempdir");
    let dir = format!("{}/repo", tmp.path().to_str().expect("utf-8 path"));
    let repo = init_repo(&dir);
    commit_files(&repo, "HEAD", &[("file.txt", "hello\n")], &[], "init");
    checkout_clean(&repo);

    let mut options = options_for(&dir);
    options.reference_name = "refs/heads/does-not-exist".to_string();
    let report = git_utils::process_current_dir(&options).expect("report");
    assert!(report.head_info.is_none());
    assert!(report.branch_ahead_behind.is_none());
    let status = report.file_status.expect("file status");
    assert!(!status.unstaged && !status.staged && !status.untracked);
}

#[test]
fn p5_excluded_comparison_leaves_other_fields_populated() {
    let tmp = tempfile::tempdir().expect("tempdir");
    let dir = format!("{}/repo", tmp.path().to_str().expect("utf-8 path"));
    let repo = init_repo(&dir);
    let commit = commit_files(&repo, "HEAD", &[("file.txt", "hello\n")], &[], "init");
    repo.reference("refs/heads/up", commit, true, "upstream branch").expect("reference");
    set_upstream(&repo, "main", "refs/heads/up");
    checkout_clean(&repo);

    let mut options = options_for(&dir);
    options.include_ahead_behind = false;
    let report = git_utils::process_current_dir(&options).expect("report");
    assert!(report.branch_ahead_behind.is_none());
    assert!(report.head_info.is_some());
    assert!(report.file_status.is_some());
}

#[test]
fn p1_locator_finds_root_from_any_depth() {
    let tmp = tempfile::tempdir().expect("tempdir");
    let dir = format!("{}/repo", tmp.path().to_str().expect("utf-8 path"));
    let repo = init_repo(&dir);

    // A tree with a subdirectory, so the walk can start below the root.
    let inner_blob = repo.blob(b"1\n").expect("blob");
    let mut inner = repo.treebuilder(None).expect("treebuilder");
    inner.insert("x.txt", inner_blob, 0o100644).expect("entry");
    let inner_id = inner.write().expect("inner tree");
    let mut outer = repo.treebuilder(None).expect("treebuilder");
    outer.insert("sub", inner_id, 0o040000).expect("entry");
    let outer_id = outer.write().expect("outer tree");
    let tree = repo.find_tree(outer_id).expect("find tree");
    let sig = git2::Signature::now("tester", "tester@example.com").expect("signature");
    repo.commit(Some("HEAD"), &sig, &sig, "init", &tree, &[]).expect("commit");
    checkout_clean(&repo);

    let from_root = git_utils::process_current_dir(&options_for(&dir)).expect("from root");
    assert!(from_root.head_info.is_some());
    let sub = format!("{dir}/sub");
    let from_subdir = git_utils::process_current_dir(&options_for(&sub)).expect("from subdir");
    assert!(from_subdir.head_info.is_some());
    assert_eq!(
        from_root.head_info.unwrap().reference_short,
        from_subdir.head_info.unwrap().reference_short
    );
}

#[test]
fn comparator_rejects_incomplete_head_facts() {
    let tmp = tempfile::tempdir().expect("tempdir");
    let dir = format!("{}/repo", tmp.path().to_str().expect("utf-8 path"));
    let repo = init_repo(&dir);

    match git_utils::graph_ahead_behind(&repo, &None) {
        Err(PromptError::Message(message)) => {
            assert_eq!(message, "tracking branch doesn't exist");
        },
        other => panic!("expected the missing-tracking error, got {:?}", other.is_ok()),
    }

    let nameless = GitHeadInfoInternal {
        reference_name: None,
        oid: Some(vec![0u8; 20]),
        detached: false,
    };
    assert!(git_utils::graph_ahead_behind(&repo, &Some(nameless)).is_err());
}

#[test]
fn comparator_reports_git_error_without_upstream() {
    let tmp = tempfile::tempdir().expect("tempdir");
    let dir = format!("{}/repo", tmp.path().to_str().expect("utf-8 path"));
    let repo = init_repo(&dir);
    let commit = commit_files(&repo, "HEAD", &[("f.txt", "0\n")], &[], "base");

    let facts = GitHeadInfoInternal {
        reference_name: Some("refs/heads/main".to_string()),
        oid: Some(commit.as_bytes().to_vec()),
        detached: false,
    };
    match git_utils::graph_ahead_behind(&repo, &Some(facts)) {
        Err(PromptError::Git(err)) => assert!(!err.message().is_empty()),
        other => panic!("expected the repository library's error, got {:?}", other.is_ok()),
    }
}

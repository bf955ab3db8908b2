use git2::{BranchType as GitBranchType, Oid, Repository, Signature, Time};
use git_branch_deleter::branch::GitBranch;
use git_branch_deleter::branch_type::BranchType;
use git_branch_deleter::deletion::DeleteError;
use git_branch_deleter::git::get_branches;

fn scratch_dir(tag: &str) -> String {
    let nanos = std::time::SystemTime::now()
        .duration_since(std::time::UNIX_EPOCH)
        .unwrap()
        .as_nanos();
    format!("/tmp/git_branch_deleter_removal_{}_{}", tag, nanos)
}

fn commit_in(repo: &Repository, message: &str) -> Oid {
    let sig = Signature::new("Op", "op@example.org", &Time::new(1_000, 0)).unwrap();
    let tree_id = repo.treebuilder(None).unwrap().write().unwrap();
    let tree = repo.find_tree(tree_id).unwrap();
    repo.commit(None, &sig, &sig, message, &tree, &[]).unwrap()
}

fn tracking(repo: &Repository, name: &str) {
    let id = commit_in(repo, name);
    repo.reference(&format!("refs/remotes/{}", name), id, false, "test").unwrap();
}

fn only_branch<'a>(repo: &'a Repository, filter: BranchType) -> GitBranch<'a> {
    let mut catalog = get_branches(repo, filter, &Vec::new()).unwrap();
    assert_eq!(catalog.len(), 1);
    catalog.pop().unwrap()
}

fn keys(list: &[&str]) -> Vec<String> {
    list.iter().map(|key| key.to_string()).collect()
}

#[test]
fn local_branch_is_deleted_without_keys() {
    let repo = Repository::init(scratch_dir("local")).unwrap();
    let id = commit_in(&repo, "work");
    repo.branch("feature/x", &repo.find_commit(id).unwrap(), false).unwrap();
    let mut branch = only_branch(&repo, BranchType::Local);

    assert_eq!(branch.delete(&repo, &Vec::new(), None), Ok(()));

    assert!(repo.find_branch("feature/x", GitBranchType::Local).is_err());
}

#[test]
fn local_branch_is_deleted_whatever_the_keys() {
    let repo = Repository::init(scratch_dir("local_keys")).unwrap();
    let id = commit_in(&repo, "work");
    repo.branch("feature/x", &repo.find_commit(id).unwrap(), false).unwrap();
    let mut branch = only_branch(&repo, BranchType::Local);

    assert_eq!(branch.delete(&repo, &keys(&["/nowhere/id_a", "/nowhere/id_b"]), Some("secret")), Ok(()));

    assert!(repo.find_branch("feature/x", GitBranchType::Local).is_err());
}

#[test]
fn record_outlives_the_deletion() {
    let repo = Repository::init(scratch_dir("record")).unwrap();
    let id = commit_in(&repo, "work");
    repo.branch("feature", &repo.find_commit(id).unwrap(), false).unwrap();
    let mut branch = only_branch(&repo, BranchType::Local);

    branch.delete(&repo, &Vec::new(), None).unwrap();

    assert_eq!(branch.get_name(), "feature");
    assert_eq!(branch.get_commit_id(), id.to_string());
    assert_eq!(branch.get_commit_message(), "work");
    assert_eq!(branch.get_commit_time(), 1_000);
    assert_eq!(branch.get_branch_type(), BranchType::Local);
}

#[test]
fn branch_that_is_checked_out_is_not_deleted() {
    let repo = Repository::init(scratch_dir("head")).unwrap();
    let id = commit_in(&repo, "work");
    repo.branch("current", &repo.find_commit(id).unwrap(), false).unwrap();
    repo.set_head("refs/heads/current").unwrap();
    let mut branch = only_branch(&repo, BranchType::Local);

    assert_eq!(branch.delete(&repo, &Vec::new(), None), Err(DeleteError::LocalRef));

    assert!(repo.find_branch("current", GitBranchType::Local).is_ok());
}

#[test]
fn remote_branch_without_keys_stays_on_its_remote() {
    let remote_dir = scratch_dir("no_keys_remote");
    let there = Repository::init_bare(&remote_dir).unwrap();
    let id = commit_in(&there, "theirs");
    there.branch("feature/x", &there.find_commit(id).unwrap(), false).unwrap();
    let repo = Repository::init(scratch_dir("no_keys")).unwrap();
    repo.remote("origin", &remote_dir).unwrap();
    tracking(&repo, "origin/feature/x");
    let mut branch = only_branch(&repo, BranchType::Remote);

    assert_eq!(branch.delete(&repo, &Vec::new(), None), Err(DeleteError::NotDeleted));

    assert!(repo.find_reference("refs/remotes/origin/feature/x").is_err());
    assert!(there.find_branch("feature/x", GitBranchType::Local).is_ok());
}

#[test]
fn remote_branch_is_deleted_on_its_remote() {
    let remote_dir = scratch_dir("pushed_remote");
    let there = Repository::init_bare(&remote_dir).unwrap();
    let id = commit_in(&there, "theirs");
    there.branch("feature/x", &there.find_commit(id).unwrap(), false).unwrap();
    there.branch("other", &there.find_commit(id).unwrap(), false).unwrap();
    let repo = Repository::init(scratch_dir("pushed")).unwrap();
    repo.remote("origin", &remote_dir).unwrap();
    tracking(&repo, "origin/feature/x");
    let mut branch = only_branch(&repo, BranchType::Remote);

    assert_eq!(branch.delete(&repo, &keys(&["/nowhere/id_a", "/nowhere/id_b"]), None), Ok(()));

    assert!(repo.find_reference("refs/remotes/origin/feature/x").is_err());
    assert!(there.find_branch("feature/x", GitBranchType::Local).is_err());
    assert!(there.find_branch("other", GitBranchType::Local).is_ok());
}

#[test]
fn remote_branch_with_a_plain_name_is_deleted_on_its_remote() {
    let remote_dir = scratch_dir("plain_remote");
    let there = Repository::init_bare(&remote_dir).unwrap();
    let id = commit_in(&there, "theirs");
    there.branch("stale", &there.find_commit(id).unwrap(), false).unwrap();
    let repo = Repository::init(scratch_dir("plain")).unwrap();
    repo.remote("upstream", &remote_dir).unwrap();
    tracking(&repo, "upstream/stale");
    let mut branch = only_branch(&repo, BranchType::Remote);

    assert_eq!(branch.delete(&repo, &keys(&["/nowhere/id_a"]), Some("secret")), Ok(()));

    assert!(there.find_branch("stale", GitBranchType::Local).is_err());
}

#[test]
fn unreachable_remote_exhausts_the_keys() {
    let repo = Repository::init(scratch_dir("unreachable")).unwrap();
    repo.remote("origin", &scratch_dir("unreachable_remote")).unwrap();
    tracking(&repo, "origin/feature");
    let mut branch = only_branch(&repo, BranchType::Remote);

    assert_eq!(
        branch.delete(&repo, &keys(&["/nowhere/id_a", "/nowhere/id_b", "/nowhere/id_c"]), None),
        Err(DeleteError::NotDeleted)
    );

    assert!(repo.find_reference("refs/remotes/origin/feature").is_err());
}

#[test]
fn unknown_remote_fails_after_the_local_reference_is_gone() {
    let repo = Repository::init(scratch_dir("unknown")).unwrap();
    tracking(&repo, "elsewhere/feature");
    let mut branch = only_branch(&repo, BranchType::Remote);

    assert_eq!(
        branch.delete(&repo, &keys(&["/nowhere/id_a"]), None),
        Err(DeleteError::RemoteLookup)
    );

    assert!(repo.find_reference("refs/remotes/elsewhere/feature").is_err());
}

#[test]
fn deleting_twice_fails_at_the_local_reference() {
    let repo = Repository::init(scratch_dir("twice")).unwrap();
    let id = commit_in(&repo, "work");
    repo.branch("feature", &repo.find_commit(id).unwrap(), false).unwrap();
    let mut first = only_branch(&repo, BranchType::Local);
    let mut second = only_branch(&repo, BranchType::Local);

    assert_eq!(first.delete(&repo, &Vec::new(), None), Ok(()));
    assert_eq!(second.delete(&repo, &Vec::new(), None), Err(DeleteError::LocalRef));
}

#[test]
fn remote_branch_that_names_no_remote_is_refused() {
    let repo = Repository::init(scratch_dir("nameless")).unwrap();
    let id = commit_in(&repo, "work");
    repo.branch("feature", &repo.find_commit(id).unwrap(), false).unwrap();
    let mut branch = only_branch(&repo, BranchType::Local);
    branch.branch_type = BranchType::Remote;

    assert_eq!(
        branch.delete(&repo, &keys(&["/nowhere/id_a"]), None),
        Err(DeleteError::NoRemoteInName)
    );

    assert!(repo.find_branch("feature", GitBranchType::Local).is_ok());
}

#[test]
fn record_of_a_remote_branch_outlives_the_deletion() {
    let repo = Repository::init(scratch_dir("remote_record")).unwrap();
    tracking(&repo, "elsewhere/feature");
    let mut branch = only_branch(&repo, BranchType::Remote);

    let _ = branch.delete(&repo, &Vec::new(), None);

    assert_eq!(branch.get_name(), "elsewhere/feature");
    assert_eq!(branch.get_commit_message(), "elsewhere/feature");
    assert_eq!(branch.get_branch_type(), BranchType::Remote);
}

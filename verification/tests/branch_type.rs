use git_branch_deleter::branch_type::BranchType;

#[test]
fn filter_words() {
    assert_eq!(BranchType::from("remote"), BranchType::Remote);
    assert_eq!(BranchType::from("local"), BranchType::Local);
    assert_eq!(BranchType::from("both"), BranchType::Both);
}

#[test]
fn other_words_are_invalid() {
    assert_eq!(BranchType::from(""), BranchType::Invalid);
    assert_eq!(BranchType::from("Remote"), BranchType::Invalid);
    assert_eq!(BranchType::from("LOCAL"), BranchType::Invalid);
    assert_eq!(BranchType::from("both "), BranchType::Invalid);
    assert_eq!(BranchType::from("bot"), BranchType::Invalid);
    assert_eq!(BranchType::from("all"), BranchType::Invalid);
    assert_eq!(BranchType::from("remotes"), BranchType::Invalid);
}

#[test]
fn kinds_reported_by_the_repository() {
    assert_eq!(BranchType::from(git2::BranchType::Local), BranchType::Local);
    assert_eq!(BranchType::from(git2::BranchType::Remote), BranchType::Remote);
}

#[test]
fn filters_handed_to_the_repository() {
    assert!(matches!(BranchType::Local.to_git(), Some(git2::BranchType::Local)));
    assert!(matches!(BranchType::Remote.to_git(), Some(git2::BranchType::Remote)));
    assert!(BranchType::Both.to_git().is_none());
    assert!(BranchType::Invalid.to_git().is_none());
}

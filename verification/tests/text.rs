use git_branch_deleter::text::{ends_with, find_first, joined, same_text, starts_with};

#[test]
fn equal_texts() {
    assert!(same_text("", ""));
    assert!(same_text("master", "master"));
    assert!(same_text("ärger", "ärger"));
}

#[test]
fn unequal_texts() {
    assert!(!same_text("master", "main"));
    assert!(!same_text("master", "Master"));
    assert!(!same_text("master", "master "));
    assert!(!same_text("", "a"));
    assert!(!same_text("abc", "abd"));
    assert!(!same_text("é", "e"));
}

#[test]
fn prefixes() {
    assert!(starts_with("id_rsa", "id_"));
    assert!(starts_with("id_", "id_"));
    assert!(starts_with("anything", ""));
    assert!(!starts_with("id", "id_"));
    assert!(!starts_with("xid_rsa", "id_"));
    assert!(!starts_with("", "id_"));
}

#[test]
fn suffixes() {
    assert!(ends_with("id_rsa.pub", ".pub"));
    assert!(ends_with(".pub", ".pub"));
    assert!(ends_with("anything", ""));
    assert!(!ends_with("pub", ".pub"));
    assert!(!ends_with("id_rsa.pub2", ".pub"));
    assert!(!ends_with("", ".pub"));
}

#[test]
fn first_occurrence() {
    assert_eq!(find_first("origin/feature/x", '/'), Some(6));
    assert_eq!(find_first("/x", '/'), Some(0));
    assert_eq!(find_first("x/", '/'), Some(1));
    assert_eq!(find_first("feature", '/'), None);
    assert_eq!(find_first("", '/'), None);
}

#[test]
fn positions_count_characters() {
    assert_eq!(find_first("é/x", '/'), Some(1));
}

#[test]
fn joined_texts() {
    assert_eq!(joined("+:refs/heads/", "x"), "+:refs/heads/x");
    assert_eq!(joined("", "x"), "x");
    assert_eq!(joined("x", ""), "x");
}

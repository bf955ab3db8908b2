//! Triage and removal of stale branches of a git repository: the catalog of
//! branches ordered by last activity, the protocol that deletes a branch
//! locally and on its remote, and the rules that find candidate SSH keys.

pub mod actions;
pub mod branch;
pub mod branch_type;
pub mod clock;
pub mod credentials;
pub mod deletion;
pub mod git;
pub mod keys;
pub mod libgit;
pub mod order;
pub mod text;

//! The kinds of branch: the filter of a catalog and the kind of one branch.

use vstd::prelude::*;
use vstd::std_specs::convert::FromSpecImpl;
use crate::text::same_text;
use git2::BranchType as GitBranchType;

verus! {

/// A branch kind. `Local` and `Remote` are the kinds a branch can have; as a
/// filter, `Both` asks for either, and `Invalid` stands for a filter word that
/// names none of the three.
#[derive(Debug, Clone, Copy, PartialEq, Eq, Structural)]
pub enum BranchType {
    /// A branch that follows a branch of a remote.
    Remote,
    /// A branch of the repository itself.
    Local,
    /// As a filter: local and remote branches alike.
    Both,
    /// As a filter: none that can be asked for.
    Invalid,
}

/// The filter that a word names: `remote`, `local` or `both`, written so;
/// any other word names none.
pub open spec fn filter_named(word: Seq<char>) -> BranchType {
    if word == "remote"@ {
        BranchType::Remote
    } else if word == "local"@ {
        BranchType::Local
    } else if word == "both"@ {
        BranchType::Both
    } else {
        BranchType::Invalid
    }
}

/// The kind of this library for a kind that the repository reports.
pub open spec fn kind_reported(kind: GitBranchType) -> BranchType {
    match kind {
        GitBranchType::Remote => BranchType::Remote,
        GitBranchType::Local => BranchType::Local,
    }
}

impl From<&str> for BranchType {
    fn from(t: &str) -> (filter: BranchType) {
        if same_text(t, "remote") {
            BranchType::Remote
        } else if same_text(t, "local") {
            BranchType::Local
        } else if same_text(t, "both") {
            BranchType::Both
        } else {
            BranchType::Invalid
        }
    }
}

impl FromSpecImpl<&str> for BranchType {
    open spec fn obeys_from_spec() -> bool {
        true
    }

    open spec fn from_spec(t: &str) -> BranchType {
        filter_named(t@)
    }
}

impl From<GitBranchType> for BranchType {
    fn from(t: GitBranchType) -> (kind: BranchType) {
        match t {
            GitBranchType::Remote => BranchType::Remote,
            GitBranchType::Local => BranchType::Local,
        }
    }
}

impl FromSpecImpl<GitBranchType> for BranchType {
    open spec fn obeys_from_spec() -> bool {
        true
    }

    open spec fn from_spec(t: GitBranchType) -> BranchType {
        kind_reported(t)
    }
}

impl BranchType {
    /// The filter to hand to the repository: one kind, or none, which asks
    /// for the branches of either kind.
    pub open spec fn git_filter(self) -> Option<GitBranchType> {
        match self {
            BranchType::Remote => Some(GitBranchType::Remote),
            BranchType::Local => Some(GitBranchType::Local),
            _ => None,
        }
    }

    /// Whether a branch of the kind `kind` is one that this filter asks for.
    /// `Local` and `Remote` ask for their own kind, `Both` for either, and an
    /// invalid filter for none.
    pub open spec fn admits(self, kind: BranchType) -> bool {
        match self {
            BranchType::Remote => kind is Remote,
            BranchType::Local => kind is Local,
            BranchType::Both => kind is Local || kind is Remote,
            BranchType::Invalid => false,
        }
    }

    /// The filter to hand to the repository.
    pub fn to_git(self) -> (filter: Option<GitBranchType>)
        ensures
            filter == self.git_filter(),
    {
        match self {
            BranchType::Remote => Some(GitBranchType::Remote),
            BranchType::Local => Some(GitBranchType::Local),
            _ => None,
        }
    }
}

} // verus!

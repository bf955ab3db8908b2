//! One cataloged branch and the protocol that deletes it.

use vstd::prelude::*;
use vstd::string::*;
use crate::branch_type::BranchType;
use crate::deletion::{
    each_step_advances, local_delete_stays_local, no_key_no_remote_delete, refusal_comes_first,
    DeleteError, DeletePlan, DeleteStep,
};
use crate::libgit::{delete_reference, lookup_remote, push_with_key};
use crate::text::{find_first, first_position, first_position_is_first, joined, same_text};

verus! {

/// What the catalog records of a branch, as plain values.
pub ghost struct BranchRecord {
    /// The short name of a local branch, `<remote>/<branch>` of a remote one.
    pub name: Seq<char>,
    /// The full identifier of the commit at the branch's tip.
    pub commit_id: Seq<char>,
    /// The message of that commit.
    pub commit_message: Seq<char>,
    /// Seconds since the epoch of the commit's local wall-clock time.
    pub commit_time: int,
    /// Local or remote.
    pub kind: BranchType,
}

/// A branch as it stood when it was cataloged, with the reference that the
/// repository keeps for it. The reference is borrowed from the repository and
/// is no longer good once the branch is deleted.
pub struct GitBranch<'a> {
    /// The full identifier of the commit at the branch's tip.
    pub commit_id: String,
    /// The short name of a local branch, `<remote>/<branch>` of a remote one.
    pub name: String,
    /// The message of the commit at the tip.
    pub message: String,
    /// Seconds since the epoch of the commit's local wall-clock time.
    pub commit_time: i64,
    /// The repository's reference for the branch.
    pub branch: git2::Branch<'a>,
    /// Local or remote.
    pub branch_type: BranchType,
}

impl<'a> View for GitBranch<'a> {
    type V = BranchRecord;

    open spec fn view(&self) -> BranchRecord {
        BranchRecord {
            name: self.name@,
            commit_id: self.commit_id@,
            commit_message: self.message@,
            commit_time: self.commit_time as int,
            kind: self.branch_type,
        }
    }
}

impl<'a> PartialEq for GitBranch<'a> {
    /// Two records are the same branch when they bear the same name.
    fn eq(&self, other: &Self) -> (same: bool) {
        same_text(self.name.as_str(), other.name.as_str())
    }
}

impl<'a> vstd::std_specs::cmp::PartialEqSpecImpl for GitBranch<'a> {
    open spec fn obeys_eq_spec() -> bool {
        true
    }

    open spec fn eq_spec(&self, other: &Self) -> bool {
        self@.name == other@.name
    }
}

impl<'a> Eq for GitBranch<'a> {

}

/// The name of a remote branch in its two parts: the remote, and the branch
/// as the remote knows it. The first `/` parts them, so that the branch may
/// itself hold a `/`. A name without `/` has no such parts.
pub open spec fn remote_and_branch(name: Seq<char>) -> Option<(Seq<char>, Seq<char>)> {
    match first_position(name, '/') {
        Some(at) => Some((name.subrange(0, at), name.subrange(at + 1, name.len() as int))),
        None => None,
    }
}

/// The name of a remote branch in its two parts.
pub fn remote_target(name: &str) -> (parts: Option<(String, String)>)
    ensures
        match parts {
            Some((remote, branch)) => remote_and_branch(name@) == Some((remote@, branch@)),
            None => remote_and_branch(name@) is None,
        },
{
    match find_first(name, '/') {
        Some(at) => {
            proof {
                first_position_is_first(name@, '/');
            }
            let n: usize = name.unicode_len();
            let remote = String::from_str(name.substring_char(0, at));
            let branch = String::from_str(name.substring_char(at + 1, n));
            Some((remote, branch))
        },
        None => None,
    }
}

/// The refspec that deletes the branch `branch` on a remote.
pub open spec fn refspec_deleting(branch: Seq<char>) -> Seq<char> {
    "+:refs/heads/"@ + branch
}

/// The refspec that deletes the branch `branch` on a remote.
pub fn deletion_refspec(branch: &str) -> (refspec: String)
    ensures
        refspec@ == refspec_deleting(branch@),
{
    joined("+:refs/heads/", branch)
}

/// How far a deletion has come: the step that is due, and how the steps
/// before it went.
struct Progress {
    step: DeleteStep,
    outcomes: Ghost<Seq<bool>>,
}

impl Progress {
    /// Whether the step that is due is the one that the plan reaches after
    /// the steps that were taken.
    spec fn follows(&self, plan: DeletePlan) -> bool {
        self.step == plan.reached(self.outcomes@)
    }

    /// A deletion of which nothing is done yet.
    fn begin(plan: &DeletePlan) -> (run: Progress)
        ensures
            run.follows(*plan),
            run.step == plan.start(),
    {
        Progress { step: plan.first_step(), outcomes: Ghost(Seq::empty()) }
    }

    /// Notes how the step that was due went, and moves on to the next.
    fn advance(&mut self, plan: &DeletePlan, succeeded: bool)
        requires
            old(self).follows(*plan),
        ensures
            final(self).follows(*plan),
            final(self).step == plan.following(old(self).step, succeeded),
    {
        let ghost before = self.outcomes@;
        self.step = plan.next_step(self.step, succeeded);
        self.outcomes = Ghost(before.push(succeeded));
        assert(before.push(succeeded).drop_last() =~= before);
    }
}

impl BranchRecord {
    /// What the deletion of this branch goes by, when there are `keys`
    /// candidate keys.
    pub open spec fn delete_plan(self, keys: usize) -> DeletePlan {
        DeletePlan {
            remote: self.kind is Remote,
            names_remote: remote_and_branch(self.name) is Some,
            keys,
        }
    }
}

impl<'a> GitBranch<'a> {
    /// The branch's name.
    pub fn get_name(&self) -> (name: &str)
        ensures
            name@ == self@.name,
    {
        self.name.as_str()
    }

    /// The wall-clock time of the commit at the tip, in seconds since the
    /// epoch.
    pub fn get_commit_time(&self) -> (time: i64)
        ensures
            time == self@.commit_time,
    {
        self.commit_time
    }

    /// The message of the commit at the tip.
    pub fn get_commit_message(&self) -> (message: &str)
        ensures
            message@ == self@.commit_message,
    {
        self.message.as_str()
    }

    /// The identifier of the commit at the tip.
    pub fn get_commit_id(&self) -> (id: &str)
        ensures
            id@ == self@.commit_id,
    {
        self.commit_id.as_str()
    }

    /// Whether the branch is local or remote.
    pub fn get_branch_type(&self) -> (kind: BranchType)
        ensures
            kind == self@.kind,
    {
        self.branch_type
    }

    /// Deletes the branch: removes its local reference and, for a remote
    /// branch, pushes the deletion to its remote with the candidate keys in
    /// turn, until the remote accepts one.
    ///
    /// The steps are those of `DeletePlan`, and the deletion ends as they
    /// allow, whatever the repository and the remote answer. A remote branch
    /// whose name names no remote is refused before anything is removed. A
    /// local branch is deleted unless its reference cannot be removed, and no
    /// remote is asked. A remote branch is not deleted without keys, though
    /// its local reference is removed. The record keeps what it says of the
    /// branch.
    pub fn delete(
        &mut self,
        repo: &'a git2::Repository,
        keys: &Vec<String>,
        passphrase: Option<&str>,
    ) -> (end: Result<(), DeleteError>)
        ensures
            old(self)@.delete_plan(keys.len()).can_end_with(end),
            end == Err::<(), DeleteError>(DeleteError::NoRemoteInName) <==> old(self)@.kind is Remote
                && remote_and_branch(old(self)@.name) is None,
            !(old(self)@.kind is Remote) ==> end is Ok || end == Err::<(), DeleteError>(
                DeleteError::LocalRef,
            ),
            old(self)@.kind is Remote && keys.len() == 0 ==> end is Err,
            final(self)@ == old(self)@,
    {
        let target = remote_target(self.name.as_str());
        let plan = DeletePlan {
            remote: match self.branch_type {
                BranchType::Remote => true,
                _ => false,
            },
            names_remote: target.is_some(),
            keys: keys.len(),
        };
        let mut run = Progress::begin(&plan);
        if let DeleteStep::RemoveLocalRef = run.step {
            let removed = delete_reference(&mut self.branch).is_ok();
            run.advance(&plan, removed);
        }
        if let DeleteStep::FindRemote = run.step {
            if let Some((remote_name, remote_branch)) = target {
                match lookup_remote(repo, remote_name.as_str()) {
                    Err(_) => {
                        run.advance(&plan, false);
                    },
                    Ok(mut remote) => {
                        run.advance(&plan, true);
                        let refspec = deletion_refspec(remote_branch.as_str());
                        let mut due = run.step.key_due();
                        while due.is_some()
                            invariant
                                plan.keys == keys.len(),
                                run.follows(plan),
                                due == run.step.due_key(),
                                due matches Some(key) ==> key < keys.len(),
                                due is None ==> run.step.is_last(),
                            decreases plan.steps_left(run.step),
                        {
                            let key: usize = due.unwrap();
                            let pushed = push_with_key(
                                &mut remote,
                                refspec.as_str(),
                                keys[key].as_str(),
                                passphrase,
                            ).is_ok();
                            proof {
                                each_step_advances(plan, run.step, pushed);
                            }
                            run.advance(&plan, pushed);
                            due = run.step.key_due();
                        }
                    },
                }
            }
        }
        let step = run.step;
        proof {
            refusal_comes_first(plan, run.outcomes@);
            if !plan.remote {
                local_delete_stays_local(plan, run.outcomes@);
            } else if plan.keys == 0 {
                no_key_no_remote_delete(plan, run.outcomes@);
            }
        }
        assert(step.is_last());
        match step.concluded() {
            Some(end) => end,
            None => Err(DeleteError::NotDeleted),
        }
    }
}

} // verus!

//! The steps of deleting a branch, as rules on plain values: what is done
//! next, given how the last step went.

use vstd::prelude::*;

verus! {

/// Why a branch was not deleted.
#[derive(Debug, Clone, Copy, PartialEq, Eq, Structural)]
pub enum DeleteError {
    /// The branch is remote and its name has no `/` that ends the name of a
    /// remote. Nothing was removed.
    NoRemoteInName,
    /// The local reference could not be removed. Nothing else was tried.
    LocalRef,
    /// The local reference is gone, but the repository does not know the
    /// remote.
    RemoteLookup,
    /// The local reference is gone, but the remote accepted the deletion with
    /// none of the keys.
    NotDeleted,
}

impl DeleteError {
    /// The failure in words.
    pub fn message(&self) -> (text: &'static str)
        ensures
            text@ == match self {
                DeleteError::NoRemoteInName => "Branch name does not name a remote"@,
                DeleteError::LocalRef => "Local reference is not deleted"@,
                DeleteError::RemoteLookup => "Remote is not found"@,
                DeleteError::NotDeleted => "Branch is not deleted"@,
            },
    {
        match self {
            DeleteError::NoRemoteInName => "Branch name does not name a remote",
            DeleteError::LocalRef => "Local reference is not deleted",
            DeleteError::RemoteLookup => "Remote is not found",
            DeleteError::NotDeleted => "Branch is not deleted",
        }
    }
}

/// What a deletion goes by.
#[derive(Debug, Clone, Copy, PartialEq, Eq, Structural)]
pub struct DeletePlan {
    /// Whether the branch is a remote one.
    pub remote: bool,
    /// Whether the branch's name holds a `/`.
    pub names_remote: bool,
    /// How many candidate keys there are.
    pub keys: usize,
}

/// A step of a deletion.
#[derive(Debug, Clone, Copy, PartialEq, Eq, Structural)]
pub enum DeleteStep {
    /// Remove the local reference.
    RemoveLocalRef,
    /// Look the remote up in the repository.
    FindRemote,
    /// Push the deletion with the key at this place of the list.
    Push(usize),
    /// The branch is deleted. Nothing is left to do.
    Deleted,
    /// The deletion failed. Nothing is left to do.
    Failed(DeleteError),
}

impl DeleteStep {
    /// Whether nothing is left to do.
    pub open spec fn is_last(self) -> bool {
        self is Deleted || self is Failed
    }

    /// Whether the step talks to the remote.
    pub open spec fn concerns_remote(self) -> bool {
        self is FindRemote || self is Push
    }

    /// The place in the list of the key that is due for a push, if a push is
    /// due.
    pub open spec fn due_key(self) -> Option<usize> {
        match self {
            DeleteStep::Push(key) => Some(key),
            _ => None,
        }
    }

    /// The place in the list of the key that is due for a push, if a push is
    /// due.
    pub fn key_due(self) -> (key: Option<usize>)
        ensures
            key == self.due_key(),
    {
        match self {
            DeleteStep::Push(key) => Some(key),
            _ => None,
        }
    }

    /// How the deletion ended, if this is its last step.
    pub open spec fn conclusion(self) -> Option<Result<(), DeleteError>> {
        match self {
            DeleteStep::Deleted => Some(Ok(())),
            DeleteStep::Failed(why) => Some(Err(why)),
            _ => None,
        }
    }

    /// How the deletion ended, if this is its last step.
    pub fn concluded(self) -> (end: Option<Result<(), DeleteError>>)
        ensures
            end == self.conclusion(),
    {
        match self {
            DeleteStep::Deleted => Some(Ok(())),
            DeleteStep::Failed(why) => Some(Err(why)),
            _ => None,
        }
    }
}

impl DeletePlan {
    /// The first step. A remote branch whose name does not name a remote is
    /// refused before anything is removed.
    pub open spec fn start(self) -> DeleteStep {
        if self.remote && !self.names_remote {
            DeleteStep::Failed(DeleteError::NoRemoteInName)
        } else {
            DeleteStep::RemoveLocalRef
        }
    }

    /// The step that follows `step`, given whether `step` succeeded.
    ///
    /// A local reference that cannot be removed ends the deletion; once it is
    /// removed a local branch is deleted, and for a remote one the remote is
    /// looked up. A remote that is not found ends the deletion. The keys are
    /// tried in the order of the list: the first push that succeeds ends the
    /// deletion, a failed one leads to the next key, and with no key left the
    /// branch is not deleted.
    pub open spec fn following(self, step: DeleteStep, succeeded: bool) -> DeleteStep {
        match step {
            DeleteStep::RemoveLocalRef => if !succeeded {
                DeleteStep::Failed(DeleteError::LocalRef)
            } else if self.remote {
                DeleteStep::FindRemote
            } else {
                DeleteStep::Deleted
            },
            DeleteStep::FindRemote => if !succeeded {
                DeleteStep::Failed(DeleteError::RemoteLookup)
            } else if self.keys > 0 {
                DeleteStep::Push(0)
            } else {
                DeleteStep::Failed(DeleteError::NotDeleted)
            },
            DeleteStep::Push(key) => if succeeded {
                DeleteStep::Deleted
            } else if key + 1 < self.keys {
                DeleteStep::Push((key + 1) as usize)
            } else {
                DeleteStep::Failed(DeleteError::NotDeleted)
            },
            last => last,
        }
    }

    /// The step that the deletion has reached when its steps so far went as
    /// `outcomes` says, one entry for each step that was taken, in order.
    pub open spec fn reached(self, outcomes: Seq<bool>) -> DeleteStep
        decreases outcomes.len(),
    {
        if outcomes.len() == 0 {
            self.start()
        } else {
            self.following(self.reached(outcomes.drop_last()), outcomes.last())
        }
    }

    /// Whether a deletion under this plan can end with `end`.
    pub open spec fn can_end_with(self, end: Result<(), DeleteError>) -> bool {
        exists|outcomes: Seq<bool>| #[trigger] self.reached(outcomes).conclusion() == Some(end)
    }

    /// The first step.
    pub fn first_step(&self) -> (step: DeleteStep)
        ensures
            step == self.start(),
    {
        if self.remote && !self.names_remote {
            DeleteStep::Failed(DeleteError::NoRemoteInName)
        } else {
            DeleteStep::RemoveLocalRef
        }
    }

    /// The step that follows `step`, given whether `step` succeeded.
    pub fn next_step(&self, step: DeleteStep, succeeded: bool) -> (next: DeleteStep)
        ensures
            next == self.following(step, succeeded),
    {
        match step {
            DeleteStep::RemoveLocalRef => if !succeeded {
                DeleteStep::Failed(DeleteError::LocalRef)
            } else if self.remote {
                DeleteStep::FindRemote
            } else {
                DeleteStep::Deleted
            },
            DeleteStep::FindRemote => if !succeeded {
                DeleteStep::Failed(DeleteError::RemoteLookup)
            } else if self.keys > 0 {
                DeleteStep::Push(0)
            } else {
                DeleteStep::Failed(DeleteError::NotDeleted)
            },
            DeleteStep::Push(key) => if succeeded {
                DeleteStep::Deleted
            } else if key < self.keys && key + 1 < self.keys {
                DeleteStep::Push(key + 1)
            } else {
                DeleteStep::Failed(DeleteError::NotDeleted)
            },
            last => last,
        }
    }
}

impl DeletePlan {
    /// A bound on the steps that are left when `step` is still to be taken.
    pub open spec fn steps_left(self, step: DeleteStep) -> nat {
        match step {
            DeleteStep::RemoveLocalRef => (self.keys + 2) as nat,
            DeleteStep::FindRemote => (self.keys + 1) as nat,
            DeleteStep::Push(key) => if key < self.keys {
                (self.keys - key) as nat
            } else {
                1
            },
            _ => 0,
        }
    }
}

/// Every step that is taken brings the deletion nearer to its end, and a
/// deletion that has ended stays as it ended.
pub proof fn each_step_advances(plan: DeletePlan, step: DeleteStep, succeeded: bool)
    ensures
        step.is_last() ==> plan.following(step, succeeded) == step,
        !step.is_last() ==> plan.steps_left(plan.following(step, succeeded)) < plan.steps_left(
            step,
        ),
        plan.following(step, succeeded) matches DeleteStep::Push(key) ==> key < plan.keys,
{
}

/// A deletion has ended once as many steps were taken as there are keys, and
/// two more.
pub proof fn delete_ends(plan: DeletePlan, outcomes: Seq<bool>)
    ensures
        plan.steps_left(plan.reached(outcomes)) + outcomes.len() <= plan.keys + 2
            || plan.reached(outcomes).is_last(),
        outcomes.len() >= plan.keys + 2 ==> plan.reached(outcomes).is_last(),
    decreases outcomes.len(),
{
    if outcomes.len() > 0 {
        delete_ends(plan, outcomes.drop_last());
        each_step_advances(plan, plan.reached(outcomes.drop_last()), outcomes.last());
    }
}

/// A deletion is refused for the name of the branch exactly when the branch
/// is remote and its name names no remote, and then nothing is done at all.
pub proof fn refusal_comes_first(plan: DeletePlan, outcomes: Seq<bool>)
    ensures
        plan.reached(outcomes) == DeleteStep::Failed(DeleteError::NoRemoteInName) <==> plan.remote
            && !plan.names_remote,
        plan.remote && !plan.names_remote ==> plan.reached(outcomes) == plan.start(),
    decreases outcomes.len(),
{
    if outcomes.len() > 0 {
        refusal_comes_first(plan, outcomes.drop_last());
    }
}

/// Deleting a local branch never looks a remote up and never pushes. It
/// succeeds exactly when the local reference is removed.
pub proof fn local_delete_stays_local(plan: DeletePlan, outcomes: Seq<bool>)
    requires
        !plan.remote,
    ensures
        !plan.reached(outcomes).concerns_remote(),
        outcomes.len() > 0 ==> plan.reached(outcomes) == if outcomes[0] {
            DeleteStep::Deleted
        } else {
            DeleteStep::Failed(DeleteError::LocalRef)
        },
    decreases outcomes.len(),
{
    if outcomes.len() > 0 {
        local_delete_stays_local(plan, outcomes.drop_last());
        if outcomes.len() > 1 {
            assert(outcomes.drop_last()[0] == outcomes[0]);
        }
    }
}

/// Where a remote branch stands once its local reference is removed and its
/// remote is found: at the push with the first key, or, without keys, at the
/// end, not deleted.
proof fn remote_is_found(plan: DeletePlan)
    requires
        plan.remote,
        plan.names_remote,
    ensures
        plan.reached(Seq::<bool>::empty()) == DeleteStep::RemoveLocalRef,
        plan.reached(seq![true]) == DeleteStep::FindRemote,
        plan.reached(seq![true, true]) == if plan.keys > 0 {
            DeleteStep::Push(0)
        } else {
            DeleteStep::Failed(DeleteError::NotDeleted)
        },
{
    assert(seq![true, true].drop_last() =~= seq![true]);
    assert(seq![true].drop_last() =~= Seq::<bool>::empty());
    assert(plan.reached(Seq::<bool>::empty()) == DeleteStep::RemoveLocalRef);
    assert(plan.reached(seq![true]) == DeleteStep::FindRemote);
}

/// How far the pushes of a remote branch have come after `tried` of them,
/// when the local reference was removed, the remote was found, and the key at
/// `accepted` is the first that the remote accepts: the keys before it were
/// tried in order, and with it the branch was deleted.
proof fn pushes_stop_at_first_accepted(
    plan: DeletePlan,
    pushes: Seq<bool>,
    accepted: int,
    tried: int,
)
    requires
        plan.remote,
        plan.names_remote,
        0 <= accepted < plan.keys,
        accepted < pushes.len(),
        forall|i: int| 0 <= i < accepted ==> !pushes[i],
        pushes[accepted],
        0 <= tried <= pushes.len(),
    ensures
        plan.reached(seq![true, true] + pushes.take(tried)) == if tried <= accepted {
            DeleteStep::Push(tried as usize)
        } else {
            DeleteStep::Deleted
        },
    decreases tried,
{
    let found = seq![true, true];
    if tried == 0 {
        assert(found + pushes.take(0) =~= found);
        remote_is_found(plan);
    } else {
        pushes_stop_at_first_accepted(plan, pushes, accepted, tried - 1);
        let so_far = found + pushes.take(tried);
        assert(so_far.drop_last() =~= found + pushes.take(tried - 1));
        assert(so_far.last() == pushes[tried - 1]);
    }
}

/// For a remote branch whose local reference was removed and whose remote was
/// found, the keys are tried in the order of the list up to the first that
/// the remote accepts. The branch is then deleted, whatever would have come
/// of the later keys, and none of them is ever pushed.
pub proof fn first_accepted_key_ends_delete(
    plan: DeletePlan,
    pushes: Seq<bool>,
    accepted: int,
    tried: int,
)
    requires
        plan.remote,
        plan.names_remote,
        0 <= accepted < plan.keys,
        accepted < pushes.len(),
        forall|i: int| 0 <= i < accepted ==> !pushes[i],
        pushes[accepted],
        0 <= tried <= pushes.len(),
    ensures
        plan.reached(seq![true, true] + pushes) == DeleteStep::Deleted,
        plan.reached(seq![true, true] + pushes.take(tried)) matches DeleteStep::Push(key) ==> key
            <= accepted,
{
    pushes_stop_at_first_accepted(plan, pushes, accepted, tried);
    pushes_stop_at_first_accepted(plan, pushes, accepted, pushes.len() as int);
    assert(pushes.take(pushes.len() as int) =~= pushes);
}

/// Without a key a remote branch is never deleted and nothing is ever pushed,
/// however the steps go. Where the local reference is removed and the remote
/// is found, the deletion ends as not deleted, though the local reference is
/// gone.
pub proof fn no_key_no_remote_delete(plan: DeletePlan, outcomes: Seq<bool>)
    requires
        plan.remote,
        plan.keys == 0,
    ensures
        !(plan.reached(outcomes) is Deleted),
        !(plan.reached(outcomes) is Push),
        plan.names_remote ==> plan.reached(seq![true, true]) == DeleteStep::Failed(
            DeleteError::NotDeleted,
        ),
    decreases outcomes.len(),
{
    if outcomes.len() > 0 {
        no_key_no_remote_delete(plan, outcomes.drop_last());
    }
    if plan.names_remote {
        remote_is_found(plan);
    }
}

/// How far the pushes of a remote branch have come after `tried` of them,
/// when the local reference was removed, the remote was found, and the remote
/// refuses every key.
proof fn pushes_go_on_while_refused(plan: DeletePlan, pushes: Seq<bool>, tried: int)
    requires
        plan.remote,
        plan.names_remote,
        pushes.len() == plan.keys,
        forall|i: int| 0 <= i < pushes.len() ==> !pushes[i],
        0 <= tried <= pushes.len(),
    ensures
        plan.reached(seq![true, true] + pushes.take(tried)) == if tried < plan.keys {
            DeleteStep::Push(tried as usize)
        } else {
            DeleteStep::Failed(DeleteError::NotDeleted)
        },
    decreases tried,
{
    let found = seq![true, true];
    if tried == 0 {
        assert(found + pushes.take(0) =~= found);
        remote_is_found(plan);
    } else {
        pushes_go_on_while_refused(plan, pushes, tried - 1);
        let so_far = found + pushes.take(tried);
        assert(so_far.drop_last() =~= found + pushes.take(tried - 1));
        assert(so_far.last() == pushes[tried - 1]);
    }
}

/// When the remote refuses every key, a remote branch whose local reference
/// was removed and whose remote was found ends as not deleted, after a push
/// with each key in the order of the list.
pub proof fn refused_keys_exhaust(plan: DeletePlan, pushes: Seq<bool>, tried: int)
    requires
        plan.remote,
        plan.names_remote,
        pushes.len() == plan.keys,
        forall|i: int| 0 <= i < pushes.len() ==> !pushes[i],
        0 <= tried < pushes.len(),
    ensures
        plan.reached(seq![true, true] + pushes) == DeleteStep::Failed(DeleteError::NotDeleted),
        plan.reached(seq![true, true] + pushes.take(tried)) == DeleteStep::Push(tried as usize),
{
    pushes_go_on_while_refused(plan, pushes, tried);
    pushes_go_on_while_refused(plan, pushes, pushes.len() as int);
    assert(pushes.take(pushes.len() as int) =~= pushes);
}

} // verus!

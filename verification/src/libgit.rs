//! The calls into `git2`. What most of them give depends on the repository,
//! on its remotes and on the machine, so that nothing is claimed of it here:
//! such a function makes its call and hands the outcome on as it is. The
//! exceptions read nothing outside their arguments: the three tests of the
//! mask of credential kinds, the two makers of credentials, and the
//! enumeration of branches as far as the kind that was asked for goes.

use vstd::prelude::*;
use git2::BranchType as GitBranchType;
use crate::credentials::{holds_nul, nul_in, supply_credential, CredentialKind};

verus! {

/// `git2::Repository`, an open repository.
#[verifier::external_type_specification]
#[verifier::external_body]
pub struct ExRepository(git2::Repository);

/// `git2::Branch`, the reference of one branch, borrowed from its repository.
#[verifier::external_type_specification]
#[verifier::external_body]
pub struct ExBranch<'repo>(git2::Branch<'repo>);

/// `git2::BranchType`, the branch kind as the repository reports it, with its
/// two variants.
#[verifier::external_type_specification]
pub struct ExGitBranchType(GitBranchType);

/// `git2::Commit`, one commit of a repository.
#[verifier::external_type_specification]
#[verifier::external_body]
pub struct ExCommit<'repo>(git2::Commit<'repo>);

/// `git2::Error`, the failure of a repository operation.
#[verifier::external_type_specification]
#[verifier::external_body]
pub struct ExGitError(git2::Error);

/// `git2::Remote`, a remote of a repository.
#[verifier::external_type_specification]
#[verifier::external_body]
pub struct ExRemote<'repo>(git2::Remote<'repo>);

/// `git2::Cred`, a credential offered to a remote.
#[verifier::external_type_specification]
#[verifier::external_body]
pub struct ExCred(git2::Cred);

/// `git2::CredentialType`, the kinds of credential that a remote asks for.
#[verifier::external_type_specification]
#[verifier::external_body]
pub struct ExCredentialType(git2::CredentialType);

/// Calls `git2::Error::message` for the text of a failure. Nothing is claimed
/// of the text.
#[verifier::external_body]
pub(crate) fn error_message(error: &git2::Error) -> (message: String) {
    String::from(error.message())
}

/// Calls `git2::Repository::open` on the path. Nothing is claimed of the
/// outcome: it depends on what is on disk.
#[verifier::external_body]
pub(crate) fn open_repository(path: &str) -> (opened: Result<git2::Repository, git2::Error>) {
    git2::Repository::open(path)
}

/// Calls `git2::Repository::open_from_env`. Nothing is claimed of the
/// outcome: it depends on the environment and on what is on disk.
#[verifier::external_body]
pub(crate) fn open_repository_from_env() -> (opened: Result<git2::Repository, git2::Error>) {
    git2::Repository::open_from_env()
}

/// Whether an item of an enumeration is of the kind that was asked for. An
/// item that is a failure, and any item where no kind was asked for, is.
pub open spec fn listed_as_asked<'repo>(
    filter: Option<GitBranchType>,
    item: Result<(git2::Branch<'repo>, GitBranchType), git2::Error>,
) -> bool {
    match (filter, item) {
        (Some(asked), Ok(listed)) => listed.1 == asked,
        _ => true,
    }
}

/// Calls `git2::Repository::branches` and collects what the iterator yields,
/// in the order in which it yields it. Which branches come, and whether the
/// call fails, depends on the repository. Where a kind is asked for, the
/// iterator passes over every reference of the other kind, so that each
/// branch it yields is of the kind asked for.
#[verifier::external_body]
pub(crate) fn list_branches<'repo>(
    repo: &'repo git2::Repository,
    filter: Option<GitBranchType>,
) -> (found: Result<Vec<Result<(git2::Branch<'repo>, GitBranchType), git2::Error>>, git2::Error>)
    ensures
        found matches Ok(items) ==> forall|i: int|
            0 <= i < items.len() ==> listed_as_asked(filter, #[trigger] items@[i]),
{
    let branches = repo.branches(filter)?;
    Ok(branches.collect())
}

/// Calls `git2::Branch::name`, which gives an error where the name cannot be
/// read and nothing where it is not UTF-8. Nothing is claimed of the outcome.
#[verifier::external_body]
pub(crate) fn branch_name(branch: &git2::Branch<'_>) -> (name: Result<Option<String>, git2::Error>)
{
    Ok(branch.name()?.map(String::from))
}

/// Calls `git2::Reference::peel_to_commit` on the branch's reference, for the
/// commit at its tip. Nothing is claimed of the outcome.
#[verifier::external_body]
pub(crate) fn branch_tip<'repo>(branch: &git2::Branch<'repo>) -> (tip: Result<
    git2::Commit<'repo>,
    git2::Error,
>) {
    branch.get().peel_to_commit()
}

/// Calls `git2::Commit::time`: the commit's seconds since the epoch and the
/// offset of its time zone in minutes, in this order. Nothing is claimed of
/// the two numbers.
#[verifier::external_body]
pub(crate) fn commit_time(commit: &git2::Commit<'_>) -> (time: (i64, i32)) {
    let time = commit.time();
    (time.seconds(), time.offset_minutes())
}

/// Calls `git2::Commit::message`, which gives nothing where the message is
/// not UTF-8. Nothing is claimed of the outcome.
#[verifier::external_body]
pub(crate) fn commit_message(commit: &git2::Commit<'_>) -> (message: Option<String>) {
    commit.message().map(String::from)
}

/// Calls `git2::Commit::id` and writes the identifier out. Nothing is claimed
/// of the text.
#[verifier::external_body]
pub(crate) fn commit_id(commit: &git2::Commit<'_>) -> (id: String) {
    commit.id().to_string()
}

/// Calls `git2::Branch::delete`, which removes the branch's reference from
/// the repository. Nothing is claimed of the outcome.
#[verifier::external_body]
pub(crate) fn delete_reference(branch: &mut git2::Branch<'_>) -> (removed: Result<(), git2::Error>)
{
    branch.delete()
}

/// Calls `git2::Repository::find_remote` with the remote's name. Nothing is
/// claimed of the outcome.
#[verifier::external_body]
pub(crate) fn lookup_remote<'repo>(repo: &'repo git2::Repository, name: &str) -> (remote: Result<
    git2::Remote<'repo>,
    git2::Error,
>) {
    repo.find_remote(name)
}

/// What a `git2::CredentialType` holds. The type is a mask with one flag for
/// each kind of credential; this is the set of the kinds whose flag is set in
/// it, of the three kinds that this library asks about.
pub uninterp spec fn kinds_allowed(allowed: git2::CredentialType) -> Set<CredentialKind>;

/// Calls `git2::CredentialType::is_ssh_key`, which tells whether the flag
/// `SSH_KEY` is set in the mask.
#[verifier::external_body]
pub(crate) fn takes_ssh_key(allowed: &git2::CredentialType) -> (taken: bool)
    ensures
        taken == kinds_allowed(*allowed).contains(CredentialKind::SshKey),
{
    allowed.is_ssh_key()
}

/// Calls `git2::CredentialType::is_ssh_memory`, which tells whether the flag
/// `SSH_MEMORY` is set in the mask.
#[verifier::external_body]
pub(crate) fn takes_ssh_memory(allowed: &git2::CredentialType) -> (taken: bool)
    ensures
        taken == kinds_allowed(*allowed).contains(CredentialKind::SshMemory),
{
    allowed.is_ssh_memory()
}

/// Calls `git2::CredentialType::is_username`, which tells whether the flag
/// `USERNAME` is set in the mask.
#[verifier::external_body]
pub(crate) fn takes_username(allowed: &git2::CredentialType) -> (taken: bool)
    ensures
        taken == kinds_allowed(*allowed).contains(CredentialKind::Username),
{
    allowed.is_username()
}

/// Calls `git2::Cred::ssh_key` with the user, no public key, the path of the
/// private key and the passphrase. The call turns each text into a C string
/// and makes the credential from them without reading anything: it fails
/// where one of the texts holds a NUL, and succeeds otherwise.
#[verifier::external_body]
pub(crate) fn ssh_key_credential(user: &str, key: &str, passphrase: Option<&str>) -> (made: Result<
    git2::Cred,
    git2::Error,
>)
    ensures
        !holds_nul(user@) && !holds_nul(key@) && !nul_in(passphrase) ==> made is Ok,
        holds_nul(user@) || holds_nul(key@) || nul_in(passphrase) ==> made is Err,
{
    git2::Cred::ssh_key(user, None, std::path::Path::new(key), passphrase)
}

/// Calls `git2::Cred::username`. The call turns the name into a C string and
/// makes the credential from it: it fails where the name holds a NUL, and
/// succeeds otherwise.
#[verifier::external_body]
pub(crate) fn username_credential(user: &str) -> (made: Result<git2::Cred, git2::Error>)
    ensures
        !holds_nul(user@) ==> made is Ok,
        holds_nul(user@) ==> made is Err,
{
    git2::Cred::username(user)
}

/// Calls `git2::Error::from_str` with the text of the failure. Nothing is
/// claimed of the error.
#[verifier::external_body]
pub(crate) fn failure(text: &str) -> (error: git2::Error) {
    git2::Error::from_str(text)
}

/// Calls `git2::Remote::push` with the one refspec, and with callbacks whose
/// credentials come from `supply_credential` for the key and the passphrase.
/// Nothing is claimed of the outcome: it depends on the remote.
#[verifier::external_body]
pub(crate) fn push_with_key(
    remote: &mut git2::Remote<'_>,
    refspec: &str,
    key: &str,
    passphrase: Option<&str>,
) -> (pushed: Result<(), git2::Error>) {
    let mut callbacks = git2::RemoteCallbacks::new();
    callbacks.credentials(
        |_url, from_url, allowed| supply_credential(from_url, allowed, key, passphrase),
    );
    let mut options = git2::PushOptions::new();
    options.remote_callbacks(callbacks);
    remote.push(&[refspec], Some(&mut options))
}

} // verus!

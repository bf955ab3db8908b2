//! What is offered to a remote that asks for credentials.

use vstd::prelude::*;
use crate::libgit::{
    failure, kinds_allowed, ssh_key_credential, takes_ssh_key, takes_ssh_memory, takes_username,
    username_credential,
};

verus! {

/// A kind of credential that a remote may accept, of those that are looked
/// at when a remote asks.
#[derive(Debug, Clone, Copy, PartialEq, Eq, Structural)]
pub enum CredentialKind {
    /// An SSH key that is read from a file.
    SshKey,
    /// An SSH key that is held in memory.
    SshMemory,
    /// The user's name alone.
    Username,
}

/// What to offer to a remote.
#[derive(Debug, Clone, Copy, PartialEq, Eq, Structural)]
pub enum Offer {
    /// The private key, with the passphrase if there is one.
    SshKey,
    /// The user's name alone.
    Username,
    /// Nothing: the attempt fails.
    Nothing,
}

/// What to offer to a remote that accepts the kinds of credential given: the
/// key where it takes an SSH key, from a file or from memory; else the user's
/// name where it asks for that; else nothing.
pub open spec fn offer_for(ssh_key: bool, ssh_memory: bool, username: bool) -> Offer {
    if ssh_key || ssh_memory {
        Offer::SshKey
    } else if username {
        Offer::Username
    } else {
        Offer::Nothing
    }
}

/// What to offer to a remote that accepts the kinds in `allowed`.
pub open spec fn offer_to(allowed: Set<CredentialKind>) -> Offer {
    offer_for(
        allowed.contains(CredentialKind::SshKey),
        allowed.contains(CredentialKind::SshMemory),
        allowed.contains(CredentialKind::Username),
    )
}

/// What to offer to a remote that accepts the kinds of credential given.
pub fn choose_offer(ssh_key: bool, ssh_memory: bool, username: bool) -> (offer: Offer)
    ensures
        offer == offer_for(ssh_key, ssh_memory, username),
{
    if ssh_key || ssh_memory {
        Offer::SshKey
    } else if username {
        Offer::Username
    } else {
        Offer::Nothing
    }
}

/// The user to authenticate as: the one that the remote's address names, or
/// `git`.
pub fn user_or_git<'a>(from_url: Option<&'a str>) -> (user: &'a str)
    ensures
        user@ == user_offered(from_url),
{
    match from_url {
        Some(name) => name,
        None => "git",
    }
}

/// Whether a text holds a NUL, which no text that is handed to the
/// repository library may hold.
pub open spec fn holds_nul(text: Seq<char>) -> bool {
    text.contains('\0')
}

/// Whether a text that may be absent is there and holds a NUL.
pub open spec fn nul_in(text: Option<&str>) -> bool {
    match text {
        Some(text) => holds_nul(text@),
        None => false,
    }
}

/// The user to authenticate as: the one that the remote's address names, or
/// `git`.
pub open spec fn user_offered(from_url: Option<&str>) -> Seq<char> {
    match from_url {
        Some(name) => name@,
        None => "git"@,
    }
}

/// Answers a remote that asks for credentials during a push with the key
/// `key`. What is offered goes by the kinds that the remote accepts, as
/// `offer_to` says. Where the key is offered, the answer is a credential made
/// of the user, the key's path and the passphrase; where the name is offered,
/// one made of the user alone. Either is made unless a text that goes into it
/// holds a NUL. Where nothing is offered the attempt fails.
pub fn supply_credential(
    from_url: Option<&str>,
    allowed: git2::CredentialType,
    key: &str,
    passphrase: Option<&str>,
) -> (answer: Result<git2::Cred, git2::Error>)
    ensures
        offer_to(kinds_allowed(allowed)) is Nothing ==> answer is Err,
        offer_to(kinds_allowed(allowed)) is SshKey ==> (answer is Ok <==> !holds_nul(
            user_offered(from_url),
        ) && !holds_nul(key@) && !nul_in(passphrase)),
        offer_to(kinds_allowed(allowed)) is Username ==> (answer is Ok <==> !holds_nul(
            user_offered(from_url),
        )),
{
    let user = user_or_git(from_url);
    let offer = choose_offer(
        takes_ssh_key(&allowed),
        takes_ssh_memory(&allowed),
        takes_username(&allowed),
    );
    match offer {
        Offer::SshKey => ssh_key_credential(user, key, passphrase),
        Offer::Username => username_credential(user),
        Offer::Nothing => Err(failure("No credentials found")),
    }
}

} // verus!

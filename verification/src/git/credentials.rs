//! The credentials that are offered to a remote, in the order in which they
//! are tried.

use vstd::prelude::*;
use vstd::string::StringExecFns;

use crate::text::str_of;

verus! {

/// One way to authenticate against a remote.
#[derive(Clone, Debug, PartialEq, Eq)]
pub enum Credential {
    /// A user name and a password in plain text.
    UserPass { username: String, password: String },
    /// A key held by the SSH agent, offered under a user name.
    SshAgent { username: String },
}

/// A credential, with its strings as sequences of characters.
pub enum CredentialView {
    UserPass { username: Seq<char>, password: Seq<char> },
    SshAgent { username: Seq<char> },
}

impl View for Credential {
    type V = CredentialView;

    open spec fn view(&self) -> CredentialView {
        match self {
            Credential::UserPass { username, password } => CredentialView::UserPass {
                username: username@,
                password: password@,
            },
            Credential::SshAgent { username } => CredentialView::SshAgent { username: username@ },
        }
    }
}

/// The views of a list of credentials, in order.
pub open spec fn credential_views(list: Seq<Credential>) -> Seq<CredentialView> {
    list.map_values(|c: Credential| c@)
}

/// The view of an optional credential.
pub open spec fn credential_of(c: Option<Credential>) -> Option<CredentialView> {
    match c {
        Some(c) => Some(c@),
        None => None,
    }
}

/// The credential that stands for a service token: the token as the
/// password of the user `x-access-token`.
pub open spec fn token_credential(token: Seq<char>) -> CredentialView {
    CredentialView::UserPass { username: "x-access-token"@, password: token }
}

/// What is offered when a repository is fetched: the token if there is one,
/// and nothing otherwise, so that only a remote that asks for no credential
/// can be reached without a token.
pub open spec fn fetch_credential(token: Option<Seq<char>>) -> Option<CredentialView> {
    match token {
        Some(t) => Some(token_credential(t)),
        None => None,
    }
}

/// What is offered when a branch is pushed, in the order of the attempts.
///
/// With a token, the token alone. Without one, a key of the SSH agent under
/// the user name that the remote's address carries, if it carries one, and
/// then a key of the agent under the user name `git`.
pub open spec fn push_credentials(
    token: Option<Seq<char>>,
    url_username: Option<Seq<char>>,
) -> Seq<CredentialView> {
    match token {
        Some(t) => seq![token_credential(t)],
        None => match url_username {
            Some(u) => seq![
                CredentialView::SshAgent { username: u },
                CredentialView::SshAgent { username: "git"@ },
            ],
            None => seq![CredentialView::SshAgent { username: "git"@ }],
        },
    }
}

impl Credential {
    /// The credential that stands for a service token.
    pub fn from_token(token: &str) -> (c: Credential)
        ensures
            c@ == token_credential(token@),
    {
        Credential::UserPass {
            username: String::from_str("x-access-token"),
            password: String::from_str(token),
        }
    }

    /// What is offered when a repository is fetched.
    pub fn for_fetch(token: Option<&str>) -> (c: Option<Credential>)
        ensures
            credential_of(c) == fetch_credential(str_of(token)),
    {
        match token {
            Some(t) => Some(Credential::from_token(t)),
            None => None,
        }
    }

    /// What is offered when a branch is pushed, in the order of the
    /// attempts: the caller tries each in turn and takes the first that the
    /// remote accepts.
    pub fn for_push(token: Option<&str>, url_username: Option<&str>) -> (list: Vec<Credential>)
        ensures
            credential_views(list@) == push_credentials(str_of(token), str_of(url_username)),
    {
        let mut list: Vec<Credential> = Vec::new();
        match token {
            Some(t) => {
                list.push(Credential::from_token(t));
            },
            None => {
                match url_username {
                    Some(u) => {
                        list.push(Credential::SshAgent { username: String::from_str(u) });
                    },
                    None => {},
                }
                list.push(Credential::SshAgent { username: String::from_str("git") });
            },
        }
        assert(credential_views(list@) =~= push_credentials(str_of(token), str_of(url_username)));
        list
    }
}

} // verus!

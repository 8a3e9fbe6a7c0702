//! The provider-agnostic vocabulary: repository descriptors, the
//! hosting providers themselves, the errors enumeration can raise, and
//! the capability trait every provider client offers.

use vstd::prelude::*;

verus! {

/// One remote repository to back up: its display name (which also
/// derives the local folder name) and the URL it is cloned from.
#[derive(Clone, Debug, PartialEq, Eq)]
pub struct Repository {
    pub git_url: String,
    pub name: String,
}

/// The mathematical image of a [`Repository`].
pub struct RepoModel {
    pub git_url: Seq<char>,
    pub name: Seq<char>,
}

impl View for Repository {
    type V = RepoModel;

    open spec fn view(&self) -> RepoModel {
        RepoModel { git_url: self.git_url@, name: self.name@ }
    }
}

/// The hosting providers this tool understands.
#[derive(Clone, Copy, Debug, PartialEq, Eq, Structural)]
pub enum Provider {
    GitHub,
    GitHubGists,
    Bitbucket,
    GitLab,
}

/// Why one page of an enumeration response could not be used.
#[derive(Clone, Copy, Debug, PartialEq, Eq, Structural)]
pub enum MalformedKind {
    /// The body was not valid structured data.
    NotJson,
    /// An entry carried no usable repository name.
    MissingName,
    /// An entry carried no usable clone URL.
    MissingUrl,
}

/// An enumeration failure, mapped to the distinct user-facing
/// categories the tool reports.
#[derive(Clone, Copy, Debug, PartialEq, Eq, Structural)]
pub enum EnumError {
    /// The provider rejected the credential.
    Auth(Provider),
    /// The provider answered with a non-success status other than an
    /// auth rejection.
    Http(Provider, u16),
    /// The response body did not have the shape the provider documents.
    Malformed(Provider, MalformedKind),
    /// A cursor-paginated provider handed back a cursor it had already
    /// handed back, so no forward progress is possible.
    ProtocolViolation(Provider),
}

/// What every provider client offers the orchestrator besides its
/// enumeration session: the name the Git credential will use. (The
/// enumeration itself runs through each client's `start` and `step`,
/// whose contracts are provider-specific.)
pub trait Service: Sized {
    /// The owner this client enumerates repositories for.
    spec fn spec_owner(&self) -> Seq<char>;

    /// The username handed to the credential helper: the owner.
    fn username(&self) -> (r: String)
        ensures
            r@ == self.spec_owner(),
    ;
}

} // verus!

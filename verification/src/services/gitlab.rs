//! The GitLab provider client.
//!
//! GitLab's owned-project list is consumed as a single-page flat
//! list: one request, one JSON array, enumeration complete. A listing
//! larger than the provider's page size would be truncated to the
//! first page rather than crash the run.

use crate::json::{json_str_field, parse_json_node, spec_str_field, JsonNode};
use crate::services::service::{
    EnumError, MalformedKind, Provider, RepoModel, Repository, Service,
};
use crate::services::session::{
    absorb_repos, enum_start, repos_view, single_repo, single_repo_m, EnumState, EnumStateModel,
    HttpRequest, HttpRequestModel, Method, Page, PageModel, StartOutcome, StepOutcome,
    StepOutcomeModel,
};
use crate::source::{parse_gitlab_location, spec_parse_gitlab};
use vstd::prelude::*;

verus! {

/// The URL of the owner's project list.
pub open spec fn gitlab_url_m(owner: Seq<char>) -> Seq<char> {
    "https://gitlab.com/api/v4/users/"@ + owner + "/projects?simple=true&owned=true"@
}

/// The one listing request: a GET under the private token.
pub open spec fn gitlab_request_m(owner: Seq<char>, token: Seq<char>) -> HttpRequestModel {
    HttpRequestModel {
        method: Method::Get,
        url: gitlab_url_m(owner),
        headers: seq![("Private-Token"@, token)],
        body: None,
    }
}

/// Builds the listing request.
fn gitlab_request(owner: &str, token: &str) -> (r: HttpRequest)
    ensures
        r@ == gitlab_request_m(owner@, token@),
{
    let mut url = String::from_str("https://gitlab.com/api/v4/users/");
    url.append(owner);
    url.append("/projects?simple=true&owned=true");
    let mut headers: Vec<(String, String)> = Vec::new();
    headers.push((String::from_str("Private-Token"), String::from_str(token)));
    let r = HttpRequest { method: Method::Get, url, headers, body: None };
    proof {
        assert(r@.url =~= gitlab_url_m(owner@));
        assert(r@.headers =~= gitlab_request_m(owner@, token@).headers);
    }
    r
}

/// The entry texts of one response: the top-level array, or nothing
/// when the body is some other JSON value.
pub open spec fn gitlab_values_m(body: Seq<char>) -> Seq<String> {
    match crate::json::json_node_of(body) {
        Some(JsonNode::Arr(xs)) => xs@,
        _ => Seq::empty(),
    }
}

/// The descriptors among the entries from position `i` on: each entry
/// must carry a string `http_url_to_repo` and a string `path`.
pub open spec fn gitlab_repos_m(values: Seq<String>, i: int) -> Result<Seq<RepoModel>, EnumError>
    decreases values.len() - i,
{
    if i < 0 || i >= values.len() {
        Ok(Seq::empty())
    } else {
        match spec_str_field(values[i]@, "http_url_to_repo"@) {
            None => Err(EnumError::Malformed(Provider::GitLab, MalformedKind::MissingUrl)),
            Some(u) => match spec_str_field(values[i]@, "path"@) {
                None => Err(EnumError::Malformed(Provider::GitLab, MalformedKind::MissingName)),
                Some(nm) => match gitlab_repos_m(values, i + 1) {
                    Err(e) => Err(e),
                    Ok(rest) => Ok(seq![RepoModel { git_url: u@, name: nm@ }] + rest),
                },
            },
        }
    }
}

/// What one response body yields; a single page, so never a
/// continuation.
pub open spec fn gitlab_page_of(body: Seq<char>) -> Result<PageModel, EnumError> {
    if crate::json::json_node_of(body) is None {
        Err(EnumError::Malformed(Provider::GitLab, MalformedKind::NotJson))
    } else {
        match gitlab_repos_m(gitlab_values_m(body), 0) {
            Err(e) => Err(e),
            Ok(rs) => Ok(PageModel { repos: rs, next: None }),
        }
    }
}

/// Decodes the GitLab response body.
pub fn gitlab_extract(body: &str) -> (r: Result<Page, EnumError>)
    ensures
        match r {
            Ok(p) => gitlab_page_of(body@) == Ok::<PageModel, EnumError>(p@),
            Err(e) => gitlab_page_of(body@) == Err::<PageModel, EnumError>(e),
        },
{
    let values: Vec<String> = match parse_json_node(body) {
        None => {
            return Err(EnumError::Malformed(Provider::GitLab, MalformedKind::NotJson));
        },
        Some(JsonNode::Arr(xs)) => xs,
        Some(_) => Vec::new(),
    };
    proof {
        assert(values@ =~= gitlab_values_m(body@));
    }
    let n = values.len();
    let mut repos: Vec<Repository> = Vec::new();
    let mut i: usize = 0;
    while i < n
        invariant
            i <= n,
            n == values@.len(),
            repos@.len() == i,
            crate::json::json_node_of(body@) is Some,
            values@ == gitlab_values_m(body@),
            gitlab_repos_m(values@, i as int) is Ok ==> gitlab_repos_m(values@, 0) == Ok::<
                Seq<RepoModel>,
                EnumError,
            >(repos_view(repos@) + gitlab_repos_m(values@, i as int)->Ok_0),
            gitlab_repos_m(values@, i as int) is Err ==> gitlab_repos_m(values@, 0)
                == gitlab_repos_m(values@, i as int),
        decreases n - i,
    {
        let u = match json_str_field(values[i].as_str(), "http_url_to_repo") {
            Some(u) => u,
            None => {
                return Err(EnumError::Malformed(Provider::GitLab, MalformedKind::MissingUrl));
            },
        };
        let nm = match json_str_field(values[i].as_str(), "path") {
            Some(nm) => nm,
            None => {
                return Err(EnumError::Malformed(Provider::GitLab, MalformedKind::MissingName));
            },
        };
        let ghost repos0 = repos@;
        repos.push(Repository { git_url: u, name: nm });
        proof {
            if gitlab_repos_m(values@, i + 1) is Ok {
                assert(repos_view(repos@) =~= repos_view(repos0).push(repos@[i as int]@));
                assert(repos_view(repos@) + gitlab_repos_m(values@, i + 1)->Ok_0 =~= repos_view(
                    repos0,
                ) + gitlab_repos_m(values@, i as int)->Ok_0);
            }
        }
        i = i + 1;
    }
    proof {
        assert(gitlab_repos_m(values@, n as int) == Ok::<Seq<RepoModel>, EnumError>(Seq::empty()));
        assert(repos_view(repos@) + Seq::<RepoModel>::empty() =~= repos_view(repos@));
    }
    let page = Page { repos, next: None };
    proof {
        assert(gitlab_page_of(body@)->Ok_0 =~= page@);
    }
    Ok(page)
}

/// The decision GitLab's client takes on its one response.
pub open spec fn gitlab_step_m(
    st: EnumStateModel,
    status: u16,
    body: Seq<char>,
) -> StepOutcomeModel {
    if status == 401 {
        StepOutcomeModel::Failed(EnumError::Auth(Provider::GitLab))
    } else if !(200 <= status && status < 300) {
        StepOutcomeModel::Failed(EnumError::Http(Provider::GitLab, status))
    } else {
        match gitlab_page_of(body) {
            Err(e) => StepOutcomeModel::Failed(e),
            Ok(p) => StepOutcomeModel::Done(st.repos + p.repos),
        }
    }
}

/// A client enumerating one GitLab owner's projects.
pub struct GitLab {
    /// Which user are we backing up repositories for?
    pub owner: String,
    /// The single repository the location named, if it named one.
    pub repo: Option<String>,
    /// An access token.
    pub token: String,
}

impl GitLab {
    /// Recognises a GitLab location string.
    pub fn new(url: String, token: String) -> (r: Option<GitLab>)
        ensures
            match spec_parse_gitlab(url@) {
                None => r is None,
                Some((o, rep)) => match r {
                    Some(g) => g.owner@ == o && (match g.repo {
                        Some(gr) => rep == Some(gr@),
                        None => rep is None,
                    }) && g.token@ == token@,
                    None => false,
                },
            },
    {
        match parse_gitlab_location(url.as_str()) {
            Some((owner, repo)) => Some(GitLab { owner, repo, token }),
            None => None,
        }
    }

    /// The owner this client was built for.
    pub fn owner(&self) -> (r: &str)
        ensures
            r@ == self.owner@,
    {
        self.owner.as_str()
    }

    /// Opens the enumeration.
    pub fn start(&self) -> (r: StartOutcome)
        ensures
            match self.repo {
                Some(name) => r matches StartOutcome::Immediate(v) && repos_view(v@) == seq![
                    single_repo_m("gitlab.com"@, self.owner@, name@),
                ],
                None => r matches StartOutcome::Fetch(st, req) && st@.repos == Seq::<
                    RepoModel,
                >::empty() && st@.seen == Seq::<Seq<char>>::empty() && req@ == gitlab_request_m(
                    self.owner@,
                    self.token@,
                ),
            },
    {
        match &self.repo {
            Some(name) => {
                let mut v: Vec<Repository> = Vec::new();
                v.push(single_repo("gitlab.com", self.owner.as_str(), name.as_str()));
                proof {
                    assert(repos_view(v@) =~= seq![
                        single_repo_m("gitlab.com"@, self.owner@, name@),
                    ]);
                }
                StartOutcome::Immediate(v)
            },
            None => StartOutcome::Fetch(
                enum_start(),
                gitlab_request(self.owner.as_str(), self.token.as_str()),
            ),
        }
    }

    /// Feeds the one response back into the enumeration.
    pub fn step(&self, st: EnumState, status: u16, body: &str) -> (r: StepOutcome)
        ensures
            r@ == gitlab_step_m(st@, status, body@),
    {
        if status == 401 {
            return StepOutcome::Failed(EnumError::Auth(Provider::GitLab));
        }
        if !(200 <= status && status < 300) {
            return StepOutcome::Failed(EnumError::Http(Provider::GitLab, status));
        }
        match gitlab_extract(body) {
            Err(e) => StepOutcome::Failed(e),
            Ok(page) => {
                let Page { repos: page_repos, next: _ } = page;
                StepOutcome::Done(absorb_repos(st.repos, page_repos))
            },
        }
    }
}

impl Service for GitLab {
    open spec fn spec_owner(&self) -> Seq<char> {
        self.owner@
    }

    fn username(&self) -> (r: String) {
        self.owner.clone()
    }
}

} // verus!

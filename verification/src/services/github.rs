//! The GitHub provider client.
//!
//! GitHub enumerates repositories through a cursor-paginated GraphQL
//! query: each response carries up to one page of nodes and an
//! `endCursor`; an absent cursor is the end-of-data marker, and a
//! cursor handed back twice is a protocol violation rather than
//! grounds for another request.

use crate::json::{
    json_arr_field, json_field, json_str_field, parse_json_node, spec_arr_field, spec_field,
    spec_field3, spec_str_field,
};
use crate::services::service::{
    EnumError, MalformedKind, Provider, RepoModel, Repository, Service,
};
use crate::services::session::{
    absorb_repos, enum_start, graphql_request, graphql_request_m, repos_view, single_repo,
    single_repo_m, vec_contains_str, EnumState, EnumStateModel, HttpRequest, Page, PageModel,
    StartOutcome, StepOutcome, StepOutcomeModel,
};
use crate::source::{parse_github_location, spec_parse_github};
use vstd::prelude::*;

verus! {

/// The GraphQL query listing an owner's non-fork repositories, one
/// hundred at a time.
pub open spec fn github_query() -> Seq<char> {
    "query($user:String!,$cursor:String) { user(login:$user) { repositories(first:100,after:$cursor,ownerAffiliations:OWNER,isFork:false) { pageInfo { endCursor } nodes { url, name } } } }"@
}

fn github_query_str() -> (r: &'static str)
    ensures
        r@ == github_query(),
{
    "query($user:String!,$cursor:String) { user(login:$user) { repositories(first:100,after:$cursor,ownerAffiliations:OWNER,isFork:false) { pageInfo { endCursor } nodes { url, name } } } }"
}

/// The listing request for one page.
pub open spec fn github_request_m(
    owner: Seq<char>,
    token: Seq<char>,
    cursor: Option<Seq<char>>,
) -> crate::services::session::HttpRequestModel {
    graphql_request_m(github_query(), owner, token, cursor)
}

/// The node texts of one response: `data.user.repositories.nodes`,
/// empty wherever the chain is absent.
pub open spec fn github_nodes_m(body: Seq<char>) -> Seq<String> {
    match spec_field3(body, "data"@, "user"@, "repositories"@) {
        Some(t) => match spec_arr_field(t@, "nodes"@) {
            Some(xs) => xs@,
            None => Seq::empty(),
        },
        None => Seq::empty(),
    }
}

/// The continuation cursor of one response:
/// `data.user.repositories.pageInfo.endCursor`, when it is a string.
pub open spec fn github_cursor_m(body: Seq<char>) -> Option<Seq<char>> {
    match spec_field3(body, "data"@, "user"@, "repositories"@) {
        Some(t) => match spec_field(t@, "pageInfo"@) {
            Some(pi) => match spec_str_field(pi@, "endCursor"@) {
                Some(c) => Some(c@),
                None => None,
            },
            None => None,
        },
        None => None,
    }
}

/// The descriptors of the nodes from position `i` on: each node must
/// carry a string `name` and a string `url`.
pub open spec fn github_repos_m(nodes: Seq<String>, i: int) -> Result<Seq<RepoModel>, EnumError>
    decreases nodes.len() - i,
{
    if i < 0 || i >= nodes.len() {
        Ok(Seq::empty())
    } else {
        match spec_str_field(nodes[i]@, "name"@) {
            None => Err(EnumError::Malformed(Provider::GitHub, MalformedKind::MissingName)),
            Some(nm) => match spec_str_field(nodes[i]@, "url"@) {
                None => Err(EnumError::Malformed(Provider::GitHub, MalformedKind::MissingUrl)),
                Some(u) => match github_repos_m(nodes, i + 1) {
                    Err(e) => Err(e),
                    Ok(rest) => Ok(seq![RepoModel { git_url: u@, name: nm@ }] + rest),
                },
            },
        }
    }
}

/// What one response body yields: its page of descriptors and the
/// continuation cursor, or the malformation that spoils it.
pub open spec fn github_page_of(body: Seq<char>) -> Result<PageModel, EnumError> {
    if crate::json::json_node_of(body) is None {
        Err(EnumError::Malformed(Provider::GitHub, MalformedKind::NotJson))
    } else {
        match github_repos_m(github_nodes_m(body), 0) {
            Err(e) => Err(e),
            Ok(rs) => Ok(PageModel { repos: rs, next: github_cursor_m(body) }),
        }
    }
}

/// Decodes one GitHub response body.
pub fn github_extract(body: &str) -> (r: Result<Page, EnumError>)
    ensures
        match r {
            Ok(p) => github_page_of(body@) == Ok::<PageModel, EnumError>(p@),
            Err(e) => github_page_of(body@) == Err::<PageModel, EnumError>(e),
        },
{
    if parse_json_node(body).is_none() {
        return Err(EnumError::Malformed(Provider::GitHub, MalformedKind::NotJson));
    }
    let rt: Option<String> = match json_field(body, "data") {
        Some(d) => match json_field(d.as_str(), "user") {
            Some(u) => json_field(u.as_str(), "repositories"),
            None => None,
        },
        None => None,
    };
    let nodes: Vec<String> = match &rt {
        Some(t) => match json_arr_field(t.as_str(), "nodes") {
            Some(xs) => xs,
            None => Vec::new(),
        },
        None => Vec::new(),
    };
    let next: Option<String> = match &rt {
        Some(t) => match json_field(t.as_str(), "pageInfo") {
            Some(pi) => json_str_field(pi.as_str(), "endCursor"),
            None => None,
        },
        None => None,
    };
    proof {
        assert(nodes@ =~= github_nodes_m(body@));
    }
    let n = nodes.len();
    let mut repos: Vec<Repository> = Vec::new();
    let mut i: usize = 0;
    while i < n
        invariant
            i <= n,
            n == nodes@.len(),
            repos@.len() == i,
            nodes@ == github_nodes_m(body@),
            github_repos_m(nodes@, i as int) is Ok ==> github_repos_m(nodes@, 0)
                == Ok::<Seq<RepoModel>, EnumError>(
                repos_view(repos@) + github_repos_m(nodes@, i as int)->Ok_0,
            ),
            github_repos_m(nodes@, i as int) is Err ==> github_repos_m(nodes@, 0)
                == github_repos_m(nodes@, i as int),
        decreases n - i,
    {
        let nm = match json_str_field(nodes[i].as_str(), "name") {
            Some(nm) => nm,
            None => {
                return Err(EnumError::Malformed(Provider::GitHub, MalformedKind::MissingName));
            },
        };
        let u = match json_str_field(nodes[i].as_str(), "url") {
            Some(u) => u,
            None => {
                return Err(EnumError::Malformed(Provider::GitHub, MalformedKind::MissingUrl));
            },
        };
        let ghost repos0 = repos@;
        repos.push(Repository { git_url: u, name: nm });
        proof {
            if github_repos_m(nodes@, i + 1) is Ok {
                assert(repos_view(repos@) =~= repos_view(repos0).push(repos@[i as int]@));
                assert(repos_view(repos@) + github_repos_m(nodes@, i + 1)->Ok_0 =~= repos_view(
                    repos0,
                ) + github_repos_m(nodes@, i as int)->Ok_0);
            }
        }
        i = i + 1;
    }
    proof {
        assert(github_repos_m(nodes@, n as int) == Ok::<Seq<RepoModel>, EnumError>(Seq::empty()));
        assert(repos_view(repos@) + Seq::<RepoModel>::empty() =~= repos_view(repos@));
    }
    let page = Page { repos, next };
    proof {
        assert(page@.next == github_cursor_m(body@));
        assert(github_page_of(body@)->Ok_0 =~= page@);
    }
    Ok(page)
}

/// The decision GitHub's client takes on one response: an auth
/// rejection or other non-success status fails the run; otherwise the
/// page is absorbed and the cursor decides whether to continue, finish,
/// or call out a provider that stopped making progress.
pub open spec fn github_step_m(
    owner: Seq<char>,
    token: Seq<char>,
    st: EnumStateModel,
    status: u16,
    body: Seq<char>,
) -> StepOutcomeModel {
    if status == 401 {
        StepOutcomeModel::Failed(EnumError::Auth(Provider::GitHub))
    } else if !(200 <= status && status < 300) {
        StepOutcomeModel::Failed(EnumError::Http(Provider::GitHub, status))
    } else {
        match github_page_of(body) {
            Err(e) => StepOutcomeModel::Failed(e),
            Ok(p) => {
                let repos = st.repos + p.repos;
                match p.next {
                    None => StepOutcomeModel::Done(repos),
                    Some(c) => if st.seen.contains(c) {
                        StepOutcomeModel::Failed(EnumError::ProtocolViolation(Provider::GitHub))
                    } else {
                        StepOutcomeModel::Continue(
                            EnumStateModel { repos, seen: st.seen.push(c) },
                            github_request_m(owner, token, Some(c)),
                        )
                    },
                }
            },
        }
    }
}

/// A client enumerating one GitHub owner's repositories.
pub struct GitHub {
    /// Which user are we backing up repositories for?
    pub owner: String,
    /// The single repository the location named, if it named one.
    pub repo: Option<String>,
    /// An access token.
    pub token: String,
}

impl GitHub {
    /// Recognises a GitHub location string; the client keeps the owner
    /// (and single repository, when one is named) the grammar
    /// extracted, together with the token.
    pub fn new(url: String, token: String) -> (r: Option<GitHub>)
        ensures
            match spec_parse_github(url@) {
                None => r is None,
                Some((o, rep)) => match r {
                    Some(g) => g.owner@ == o && (match g.repo {
                        Some(gr) => rep == Some(gr@),
                        None => rep is None,
                    }) && g.token@ == token@,
                    None => false,
                },
            },
    {
        match parse_github_location(url.as_str()) {
            Some((owner, repo)) => Some(GitHub { owner, repo, token }),
            None => None,
        }
    }

    /// The owner this client was built for.
    pub fn owner(&self) -> (r: &str)
        ensures
            r@ == self.owner@,
    {
        self.owner.as_str()
    }

    /// Opens the enumeration: a one-element listing when the source
    /// named a single repository, else the first page request with an
    /// empty cursor.
    pub fn start(&self) -> (r: StartOutcome)
        ensures
            match self.repo {
                Some(name) => r matches StartOutcome::Immediate(v) && repos_view(v@) == seq![
                    single_repo_m("github.com"@, self.owner@, name@),
                ],
                None => r matches StartOutcome::Fetch(st, req) && st@.repos == Seq::<
                    RepoModel,
                >::empty() && st@.seen == Seq::<Seq<char>>::empty() && req@ == github_request_m(
                    self.owner@,
                    self.token@,
                    None,
                ),
            },
    {
        match &self.repo {
            Some(name) => {
                let mut v: Vec<Repository> = Vec::new();
                v.push(single_repo("github.com", self.owner.as_str(), name.as_str()));
                proof {
                    assert(repos_view(v@) =~= seq![
                        single_repo_m("github.com"@, self.owner@, name@),
                    ]);
                }
                StartOutcome::Immediate(v)
            },
            None => StartOutcome::Fetch(
                enum_start(),
                graphql_request(github_query_str(), self.owner.as_str(), self.token.as_str(), None),
            ),
        }
    }

    /// Feeds one response back into the enumeration.
    pub fn step(&self, st: EnumState, status: u16, body: &str) -> (r: StepOutcome)
        ensures
            r@ == github_step_m(self.owner@, self.token@, st@, status, body@),
    {
        if status == 401 {
            return StepOutcome::Failed(EnumError::Auth(Provider::GitHub));
        }
        if !(200 <= status && status < 300) {
            return StepOutcome::Failed(EnumError::Http(Provider::GitHub, status));
        }
        match github_extract(body) {
            Err(e) => StepOutcome::Failed(e),
            Ok(page) => {
                let Page { repos: page_repos, next } = page;
                let repos = absorb_repos(st.repos, page_repos);
                match next {
                    None => StepOutcome::Done(repos),
                    Some(c) => {
                        if vec_contains_str(&st.seen, c.as_str()) {
                            StepOutcome::Failed(EnumError::ProtocolViolation(Provider::GitHub))
                        } else {
                            let mut seen = st.seen;
                            let req = graphql_request(
                                github_query_str(),
                                self.owner.as_str(),
                                self.token.as_str(),
                                Some(&c),
                            );
                            let ghost cv = c@;
                            seen.push(c);
                            proof {
                                assert(crate::services::session::strs_view(seen@) =~= st@.seen.push(
                                    cv,
                                ));
                            }
                            StepOutcome::Continue(EnumState { repos, seen }, req)
                        }
                    },
                }
            },
        }
    }
}

impl Service for GitHub {
    open spec fn spec_owner(&self) -> Seq<char> {
        self.owner@
    }

    fn username(&self) -> (r: String) {
        self.owner.clone()
    }
}

} // verus!

//! The gist provider client.
//!
//! Gists live behind the same cursor-paginated GraphQL endpoint as
//! repositories, ordered by creation time ascending. A gist has no
//! slug: its display name is its first file's name, which is not
//! unique across the listed set, so after enumeration completes the
//! duplicate names are disambiguated deterministically — the second
//! occurrence of a name becomes `name 2`, the third `name 3`, and so
//! on — keeping local folder names stable across repeated runs.

use crate::json::{
    json_arr_field, json_field, json_str_field, parse_json_node, spec_arr_field, spec_field,
    spec_field3, spec_str_field,
};
use crate::services::service::{
    EnumError, MalformedKind, Provider, RepoModel, Repository, Service,
};
use crate::services::session::{
    absorb_repos, enum_start, graphql_request, graphql_request_m, repos_view, single_repo,
    single_repo_m, vec_contains_str, EnumState, EnumStateModel, HttpRequest, Page, PageModel,
    StartOutcome, StepOutcome, StepOutcomeModel,
};
use crate::source::{parse_gists_location, spec_parse_gists};
use crate::strutil::{dec_digits, str_eq, usize_to_string};
use vstd::prelude::*;

verus! {

/// The GraphQL query listing an owner's gists, one hundred at a time,
/// by creation time ascending.
pub open spec fn gists_query() -> Seq<char> {
    "query ($user: String!, $cursor: String) { user(login: $user) { gists(first: 100, after: $cursor, privacy:ALL, orderBy: { field:CREATED_AT, direction:ASC }) { pageInfo { endCursor } nodes { url createdAt files(limit: 1) { name } } } } }"@
}

fn gists_query_str() -> (r: &'static str)
    ensures
        r@ == gists_query(),
{
    "query ($user: String!, $cursor: String) { user(login: $user) { gists(first: 100, after: $cursor, privacy:ALL, orderBy: { field:CREATED_AT, direction:ASC }) { pageInfo { endCursor } nodes { url createdAt files(limit: 1) { name } } } } }"
}

/// The listing request for one page.
pub open spec fn gists_request_m(
    owner: Seq<char>,
    token: Seq<char>,
    cursor: Option<Seq<char>>,
) -> crate::services::session::HttpRequestModel {
    graphql_request_m(gists_query(), owner, token, cursor)
}

/// The node texts of one response: `data.user.gists.nodes`, empty
/// wherever the chain is absent.
pub open spec fn gists_nodes_m(body: Seq<char>) -> Seq<String> {
    match spec_field3(body, "data"@, "user"@, "gists"@) {
        Some(t) => match spec_arr_field(t@, "nodes"@) {
            Some(xs) => xs@,
            None => Seq::empty(),
        },
        None => Seq::empty(),
    }
}

/// The continuation cursor of one response.
pub open spec fn gists_cursor_m(body: Seq<char>) -> Option<Seq<char>> {
    match spec_field3(body, "data"@, "user"@, "gists"@) {
        Some(t) => match spec_field(t@, "pageInfo"@) {
            Some(pi) => match spec_str_field(pi@, "endCursor"@) {
                Some(c) => Some(c@),
                None => None,
            },
            None => None,
        },
        None => None,
    }
}

/// The name of one gist node: its first file's name.
pub open spec fn gist_name_m(node: Seq<char>) -> Option<String> {
    match spec_arr_field(node, "files"@) {
        Some(fs) => if fs@.len() > 0 {
            spec_str_field(fs@[0]@, "name"@)
        } else {
            None
        },
        None => None,
    }
}

/// The descriptors of the gist nodes from position `i` on: each node
/// must carry a string `url` and a first file with a string `name`.
pub open spec fn gists_repos_m(nodes: Seq<String>, i: int) -> Result<Seq<RepoModel>, EnumError>
    decreases nodes.len() - i,
{
    if i < 0 || i >= nodes.len() {
        Ok(Seq::empty())
    } else {
        match spec_str_field(nodes[i]@, "url"@) {
            None => Err(EnumError::Malformed(Provider::GitHubGists, MalformedKind::MissingUrl)),
            Some(u) => match gist_name_m(nodes[i]@) {
                None => Err(
                    EnumError::Malformed(Provider::GitHubGists, MalformedKind::MissingName),
                ),
                Some(nm) => match gists_repos_m(nodes, i + 1) {
                    Err(e) => Err(e),
                    Ok(rest) => Ok(seq![RepoModel { git_url: u@, name: nm@ }] + rest),
                },
            },
        }
    }
}

/// What one response body yields.
pub open spec fn gists_page_of(body: Seq<char>) -> Result<PageModel, EnumError> {
    if crate::json::json_node_of(body) is None {
        Err(EnumError::Malformed(Provider::GitHubGists, MalformedKind::NotJson))
    } else {
        match gists_repos_m(gists_nodes_m(body), 0) {
            Err(e) => Err(e),
            Ok(rs) => Ok(PageModel { repos: rs, next: gists_cursor_m(body) }),
        }
    }
}

/// Decodes one gist response body.
pub fn gists_extract(body: &str) -> (r: Result<Page, EnumError>)
    ensures
        match r {
            Ok(p) => gists_page_of(body@) == Ok::<PageModel, EnumError>(p@),
            Err(e) => gists_page_of(body@) == Err::<PageModel, EnumError>(e),
        },
{
    if parse_json_node(body).is_none() {
        return Err(EnumError::Malformed(Provider::GitHubGists, MalformedKind::NotJson));
    }
    let rt: Option<String> = match json_field(body, "data") {
        Some(d) => match json_field(d.as_str(), "user") {
            Some(u) => json_field(u.as_str(), "gists"),
            None => None,
        },
        None => None,
    };
    let nodes: Vec<String> = match &rt {
        Some(t) => match json_arr_field(t.as_str(), "nodes") {
            Some(xs) => xs,
            None => Vec::new(),
        },
        None => Vec::new(),
    };
    let next: Option<String> = match &rt {
        Some(t) => match json_field(t.as_str(), "pageInfo") {
            Some(pi) => json_str_field(pi.as_str(), "endCursor"),
            None => None,
        },
        None => None,
    };
    proof {
        assert(nodes@ =~= gists_nodes_m(body@));
    }
    let n = nodes.len();
    let mut repos: Vec<Repository> = Vec::new();
    let mut i: usize = 0;
    while i < n
        invariant
            i <= n,
            n == nodes@.len(),
            repos@.len() == i,
            nodes@ == gists_nodes_m(body@),
            gists_repos_m(nodes@, i as int) is Ok ==> gists_repos_m(nodes@, 0) == Ok::<
                Seq<RepoModel>,
                EnumError,
            >(repos_view(repos@) + gists_repos_m(nodes@, i as int)->Ok_0),
            gists_repos_m(nodes@, i as int) is Err ==> gists_repos_m(nodes@, 0) == gists_repos_m(
                nodes@,
                i as int,
            ),
        decreases n - i,
    {
        let u = match json_str_field(nodes[i].as_str(), "url") {
            Some(u) => u,
            None => {
                return Err(
                    EnumError::Malformed(Provider::GitHubGists, MalformedKind::MissingUrl),
                );
            },
        };
        let nm_opt: Option<String> = match json_arr_field(nodes[i].as_str(), "files") {
            Some(fs) => if fs.len() > 0 {
                json_str_field(fs[0].as_str(), "name")
            } else {
                None
            },
            None => None,
        };
        let nm = match nm_opt {
            Some(nm) => nm,
            None => {
                return Err(
                    EnumError::Malformed(Provider::GitHubGists, MalformedKind::MissingName),
                );
            },
        };
        let ghost repos0 = repos@;
        repos.push(Repository { git_url: u, name: nm });
        proof {
            if gists_repos_m(nodes@, i + 1) is Ok {
                assert(repos_view(repos@) =~= repos_view(repos0).push(repos@[i as int]@));
                assert(repos_view(repos@) + gists_repos_m(nodes@, i + 1)->Ok_0 =~= repos_view(
                    repos0,
                ) + gists_repos_m(nodes@, i as int)->Ok_0);
            }
        }
        i = i + 1;
    }
    proof {
        assert(gists_repos_m(nodes@, n as int) == Ok::<Seq<RepoModel>, EnumError>(Seq::empty()));
        assert(repos_view(repos@) + Seq::<RepoModel>::empty() =~= repos_view(repos@));
    }
    let page = Page { repos, next };
    proof {
        assert(page@.next == gists_cursor_m(body@));
        assert(gists_page_of(body@)->Ok_0 =~= page@);
    }
    Ok(page)
}

/// The names of a descriptor list.
pub open spec fn names_of(rs: Seq<RepoModel>) -> Seq<Seq<char>> {
    rs.map_values(|r: RepoModel| r.name)
}

/// How many of `names[0..upto]` equal `x`.
pub open spec fn count_name(names: Seq<Seq<char>>, upto: int, x: Seq<char>) -> int
    decreases upto,
{
    if upto <= 0 {
        0
    } else {
        count_name(names, upto - 1, x) + if names[upto - 1] == x {
            1int
        } else {
            0int
        }
    }
}

/// The disambiguated name at position `i`: the first occurrence of a
/// name keeps it, the `k`th occurrence (counting from 1) becomes
/// `name k` for `k >= 2` — always judged against the original names,
/// so the outcome depends only on the input order.
pub open spec fn spec_dedup_name(names: Seq<Seq<char>>, i: int) -> Seq<char> {
    let c = count_name(names, i, names[i]);
    if c == 0 {
        names[i]
    } else {
        names[i] + " "@ + dec_digits((c + 1) as nat)
    }
}

/// The whole list after disambiguation: names rewritten, clone URLs
/// untouched, length and order kept.
pub open spec fn spec_dedupe(rs: Seq<RepoModel>) -> Seq<RepoModel> {
    Seq::new(
        rs.len(),
        |i: int| RepoModel { git_url: rs[i].git_url, name: spec_dedup_name(names_of(rs), i) },
    )
}

/// Counting is insensitive to what stands past `upto`.
proof fn lemma_count_name_agrees(n1: Seq<Seq<char>>, n2: Seq<Seq<char>>, upto: int, x: Seq<char>)
    requires
        forall|j: int| 0 <= j < upto ==> n1[j] == n2[j],
        upto <= n1.len(),
        upto <= n2.len(),
    ensures
        count_name(n1, upto, x) == count_name(n2, upto, x),
    decreases upto,
{
    if upto > 0 {
        lemma_count_name_agrees(n1, n2, upto - 1, x);
    }
}

/// Disambiguated names are stable under growth: because gists are
/// listed by creation time ascending, newly created gists only extend
/// the listing, and every name already assigned stays exactly as it
/// was.
pub proof fn lemma_dedupe_stable(rs: Seq<RepoModel>, more: Seq<RepoModel>, i: int)
    requires
        0 <= i < rs.len(),
    ensures
        spec_dedupe(rs + more)[i] == spec_dedupe(rs)[i],
{
    let all = rs + more;
    assert(all[i] == rs[i]);
    assert forall|j: int| 0 <= j <= i implies names_of(all)[j] == names_of(rs)[j] by {
        assert(all[j] == rs[j]);
    }
    lemma_count_name_agrees(names_of(all), names_of(rs), i, names_of(rs)[i]);
    assert(names_of(all)[i] == names_of(rs)[i]);
    assert(spec_dedup_name(names_of(all), i) == spec_dedup_name(names_of(rs), i));
}

/// Disambiguates duplicate display names, deterministically: re-run
/// against an unchanged listing, the same names come out.
pub fn dedupe_names(repos: Vec<Repository>) -> (r: Vec<Repository>)
    ensures
        repos_view(r@) == spec_dedupe(repos_view(repos@)),
{
    let n = repos.len();
    let mut out: Vec<Repository> = Vec::new();
    let mut i: usize = 0;
    while i < n
        invariant
            i <= n,
            n == repos@.len(),
            out@.len() == i,
            forall|k: int| 0 <= k < i ==> out@[k]@ == spec_dedupe(repos_view(repos@))[k],
        decreases n - i,
    {
        let mut cnt: usize = 0;
        let mut j: usize = 0;
        while j < i
            invariant
                j <= i < n,
                n == repos@.len(),
                cnt <= j,
                cnt == count_name(names_of(repos_view(repos@)), j as int, repos@[i as int]@.name),
            decreases i - j,
        {
            if str_eq(repos[j].name.as_str(), repos[i].name.as_str()) {
                cnt = cnt + 1;
            }
            j = j + 1;
        }
        let name = if cnt == 0 {
            repos[i].name.clone()
        } else {
            let mut nm = repos[i].name.clone();
            nm.append(" ");
            let num = usize_to_string(cnt + 1);
            nm.append(num.as_str());
            proof {
                assert(nm@ =~= repos@[i as int]@.name + " "@ + dec_digits((cnt + 1) as nat));
            }
            nm
        };
        out.push(Repository { git_url: repos[i].git_url.clone(), name });
        i = i + 1;
    }
    proof {
        assert(repos_view(out@) =~= spec_dedupe(repos_view(repos@)));
    }
    out
}

/// The decision the gist client takes on one response; when the
/// end-of-data marker arrives, the collected names are disambiguated
/// before the listing is final.
pub open spec fn gists_step_m(
    owner: Seq<char>,
    token: Seq<char>,
    st: EnumStateModel,
    status: u16,
    body: Seq<char>,
) -> StepOutcomeModel {
    if status == 401 {
        StepOutcomeModel::Failed(EnumError::Auth(Provider::GitHubGists))
    } else if !(200 <= status && status < 300) {
        StepOutcomeModel::Failed(EnumError::Http(Provider::GitHubGists, status))
    } else {
        match gists_page_of(body) {
            Err(e) => StepOutcomeModel::Failed(e),
            Ok(p) => {
                let repos = st.repos + p.repos;
                match p.next {
                    None => StepOutcomeModel::Done(spec_dedupe(repos)),
                    Some(c) => if st.seen.contains(c) {
                        StepOutcomeModel::Failed(
                            EnumError::ProtocolViolation(Provider::GitHubGists),
                        )
                    } else {
                        StepOutcomeModel::Continue(
                            EnumStateModel { repos, seen: st.seen.push(c) },
                            gists_request_m(owner, token, Some(c)),
                        )
                    },
                }
            },
        }
    }
}

/// A client enumerating one owner's gists.
pub struct GitHubGists {
    /// Which user are we backing up repositories for?
    pub owner: String,
    /// The single repository the location named, if it named one.
    pub repo: Option<String>,
    /// An access token.
    pub token: String,
}

impl GitHubGists {
    /// Recognises a gist location string.
    pub fn new(url: String, token: String) -> (r: Option<GitHubGists>)
        ensures
            match spec_parse_gists(url@) {
                None => r is None,
                Some((o, rep)) => match r {
                    Some(g) => g.owner@ == o && (match g.repo {
                        Some(gr) => rep == Some(gr@),
                        None => rep is None,
                    }) && g.token@ == token@,
                    None => false,
                },
            },
    {
        match parse_gists_location(url.as_str()) {
            Some((owner, repo)) => Some(GitHubGists { owner, repo, token }),
            None => None,
        }
    }

    /// The owner this client was built for.
    pub fn owner(&self) -> (r: &str)
        ensures
            r@ == self.owner@,
    {
        self.owner.as_str()
    }

    /// Opens the enumeration.
    pub fn start(&self) -> (r: StartOutcome)
        ensures
            match self.repo {
                Some(name) => r matches StartOutcome::Immediate(v) && repos_view(v@) == seq![
                    single_repo_m("gist.github.com"@, self.owner@, name@),
                ],
                None => r matches StartOutcome::Fetch(st, req) && st@.repos == Seq::<
                    RepoModel,
                >::empty() && st@.seen == Seq::<Seq<char>>::empty() && req@ == gists_request_m(
                    self.owner@,
                    self.token@,
                    None,
                ),
            },
    {
        match &self.repo {
            Some(name) => {
                let mut v: Vec<Repository> = Vec::new();
                v.push(single_repo("gist.github.com", self.owner.as_str(), name.as_str()));
                proof {
                    assert(repos_view(v@) =~= seq![
                        single_repo_m("gist.github.com"@, self.owner@, name@),
                    ]);
                }
                StartOutcome::Immediate(v)
            },
            None => StartOutcome::Fetch(
                enum_start(),
                graphql_request(gists_query_str(), self.owner.as_str(), self.token.as_str(), None),
            ),
        }
    }

    /// Feeds one response back into the enumeration.
    pub fn step(&self, st: EnumState, status: u16, body: &str) -> (r: StepOutcome)
        ensures
            r@ == gists_step_m(self.owner@, self.token@, st@, status, body@),
    {
        if status == 401 {
            return StepOutcome::Failed(EnumError::Auth(Provider::GitHubGists));
        }
        if !(200 <= status && status < 300) {
            return StepOutcome::Failed(EnumError::Http(Provider::GitHubGists, status));
        }
        match gists_extract(body) {
            Err(e) => StepOutcome::Failed(e),
            Ok(page) => {
                let Page { repos: page_repos, next } = page;
                let repos = absorb_repos(st.repos, page_repos);
                match next {
                    None => StepOutcome::Done(dedupe_names(repos)),
                    Some(c) => {
                        if vec_contains_str(&st.seen, c.as_str()) {
                            StepOutcome::Failed(
                                EnumError::ProtocolViolation(Provider::GitHubGists),
                            )
                        } else {
                            let mut seen = st.seen;
                            let req = graphql_request(
                                gists_query_str(),
                                self.owner.as_str(),
                                self.token.as_str(),
                                Some(&c),
                            );
                            let ghost cv = c@;
                            seen.push(c);
                            proof {
                                assert(crate::services::session::strs_view(seen@) =~= st@.seen.push(
                                    cv,
                                ));
                            }
                            StepOutcome::Continue(EnumState { repos, seen }, req)
                        }
                    },
                }
            },
        }
    }
}

impl Service for GitHubGists {
    open spec fn spec_owner(&self) -> Seq<char> {
        self.owner@
    }

    fn username(&self) -> (r: String) {
        self.owner.clone()
    }
}

} // verus!

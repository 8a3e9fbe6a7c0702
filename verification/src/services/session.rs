//! The shape every provider client's enumeration takes.
//!
//! Enumeration is a conversation: the client says which HTTP request
//! to send, the caller performs it and hands the status and body back,
//! and the client either asks for another page, finishes with the
//! collected descriptors, or fails. The types here carry that
//! conversation as plain data, so the per-provider decision functions
//! are pure and verified while the transport stays outside the
//! library.

use crate::json::{json_escape, spec_json_escaped};
use crate::services::service::{EnumError, RepoModel, Repository};
use crate::strutil::str_eq;
use vstd::prelude::*;

verus! {

/// The HTTP verbs provider APIs need.
#[derive(Clone, Copy, Debug, PartialEq, Eq, Structural)]
pub enum Method {
    Get,
    Post,
}

/// One request the caller is asked to perform, as plain data.
#[derive(Clone, Debug)]
pub struct HttpRequest {
    pub method: Method,
    pub url: String,
    pub headers: Vec<(String, String)>,
    pub body: Option<String>,
}

/// The mathematical image of an [`HttpRequest`].
pub struct HttpRequestModel {
    pub method: Method,
    pub url: Seq<char>,
    pub headers: Seq<(Seq<char>, Seq<char>)>,
    pub body: Option<Seq<char>>,
}

/// The image of a descriptor list.
pub open spec fn repos_view(v: Seq<Repository>) -> Seq<RepoModel> {
    v.map_values(|r: Repository| r@)
}

/// The image of a list of strings.
pub open spec fn strs_view(v: Seq<String>) -> Seq<Seq<char>> {
    v.map_values(|s: String| s@)
}

/// The image of a list of string pairs.
pub open spec fn pairs_view(v: Seq<(String, String)>) -> Seq<(Seq<char>, Seq<char>)> {
    v.map_values(|p: (String, String)| (p.0@, p.1@))
}

impl View for HttpRequest {
    type V = HttpRequestModel;

    open spec fn view(&self) -> HttpRequestModel {
        HttpRequestModel {
            method: self.method,
            url: self.url@,
            headers: pairs_view(self.headers@),
            body: match self.body {
                Some(b) => Some(b@),
                None => None,
            },
        }
    }
}

/// One decoded page of an enumeration response: the descriptors it
/// carried and the continuation (a cursor or a next-page URL), absent
/// on the last page.
pub struct Page {
    pub repos: Vec<Repository>,
    pub next: Option<String>,
}

/// The mathematical image of a [`Page`].
pub struct PageModel {
    pub repos: Seq<RepoModel>,
    pub next: Option<Seq<char>>,
}

impl View for Page {
    type V = PageModel;

    open spec fn view(&self) -> PageModel {
        PageModel {
            repos: repos_view(self.repos@),
            next: match self.next {
                Some(n) => Some(n@),
                None => None,
            },
        }
    }
}

/// The state an enumeration carries between pages: everything
/// collected so far, and each continuation token already spent (used
/// by cursor-paginated providers to detect a provider that stops
/// making progress).
pub struct EnumState {
    pub repos: Vec<Repository>,
    pub seen: Vec<String>,
}

/// The mathematical image of an [`EnumState`].
pub struct EnumStateModel {
    pub repos: Seq<RepoModel>,
    pub seen: Seq<Seq<char>>,
}

impl View for EnumState {
    type V = EnumStateModel;

    open spec fn view(&self) -> EnumStateModel {
        EnumStateModel { repos: repos_view(self.repos@), seen: strs_view(self.seen@) }
    }
}

/// An empty enumeration state.
pub fn enum_start() -> (r: EnumState)
    ensures
        r@.repos == Seq::<RepoModel>::empty(),
        r@.seen == Seq::<Seq<char>>::empty(),
{
    let r = EnumState { repos: Vec::new(), seen: Vec::new() };
    proof {
        assert(r@.repos =~= Seq::<RepoModel>::empty());
        assert(r@.seen =~= Seq::<Seq<char>>::empty());
    }
    r
}

/// What a provider client answers one response with.
pub enum StepOutcome {
    /// Keep going: the new state, and the request for the next page.
    Continue(EnumState, HttpRequest),
    /// Enumeration is complete, with every descriptor collected.
    Done(Vec<Repository>),
    /// Enumeration failed; the run cannot trust a partial listing.
    Failed(EnumError),
}

/// The mathematical image of a [`StepOutcome`].
pub enum StepOutcomeModel {
    Continue(EnumStateModel, HttpRequestModel),
    Done(Seq<RepoModel>),
    Failed(EnumError),
}

impl View for StepOutcome {
    type V = StepOutcomeModel;

    open spec fn view(&self) -> StepOutcomeModel {
        match self {
            StepOutcome::Continue(st, req) => StepOutcomeModel::Continue(st.view(), req.view()),
            StepOutcome::Done(repos) => StepOutcomeModel::Done(repos_view(repos.view())),
            StepOutcome::Failed(e) => StepOutcomeModel::Failed(*e),
        }
    }
}

/// How one enumeration begins: either a first request to perform, or
/// (when the source names a single repository) the finished one-element
/// listing, reached without any provider call.
pub enum StartOutcome {
    Immediate(Vec<Repository>),
    Fetch(EnumState, HttpRequest),
}

/// Appends one page's descriptors to the list collected so far.
pub fn absorb_repos(acc: Vec<Repository>, page: Vec<Repository>) -> (r: Vec<Repository>)
    ensures
        repos_view(r@) == repos_view(acc@) + repos_view(page@),
{
    let ghost acc0 = acc@;
    let mut out = acc;
    let n = page.len();
    let mut i: usize = 0;
    while i < n
        invariant
            i <= n,
            n == page@.len(),
            repos_view(out@) =~= repos_view(acc0) + repos_view(page@.subrange(0, i as int)),
        decreases n - i,
    {
        let ghost out0 = out@;
        let item = &page[i];
        let copied = Repository { git_url: item.git_url.clone(), name: item.name.clone() };
        proof {
            assert(copied@ == page@[i as int]@);
        }
        out.push(copied);
        proof {
            assert(repos_view(out@) =~= repos_view(out0).push(page@[i as int]@));
            assert(repos_view(page@.subrange(0, i + 1)) =~= repos_view(
                page@.subrange(0, i as int),
            ).push(page@[i as int]@));
            assert(repos_view(out@) =~= repos_view(acc0) + repos_view(page@.subrange(0, i + 1)));
        }
        i = i + 1;
    }
    proof {
        assert(page@.subrange(0, n as int) =~= page@);
    }
    out
}

/// Is `x` among the strings of `v`?
pub fn vec_contains_str(v: &Vec<String>, x: &str) -> (r: bool)
    ensures
        r == strs_view(v@).contains(x@),
{
    let n = v.len();
    let mut i: usize = 0;
    while i < n
        invariant
            i <= n,
            n == v@.len(),
            forall|k: int| 0 <= k < i ==> v@[k]@ != x@,
        decreases n - i,
    {
        if str_eq(v[i].as_str(), x) {
            proof {
                assert(strs_view(v@)[i as int] == x@);
            }
            return true;
        }
        i = i + 1;
    }
    proof {
        assert forall|k: int| 0 <= k < strs_view(v@).len() implies strs_view(v@)[k] != x@ by {
            assert(strs_view(v@)[k] == v@[k]@);
        }
    }
    false
}

/// The one descriptor a single-repository source resolves to, without
/// any provider call: the name it was given, cloned over HTTPS from
/// the provider's canonical host.
pub open spec fn single_repo_m(host: Seq<char>, owner: Seq<char>, name: Seq<char>) -> RepoModel {
    RepoModel { git_url: "https://"@ + host + "/"@ + owner + "/"@ + name, name: name }
}

/// Builds the descriptor of a single named repository.
pub fn single_repo(host: &str, owner: &str, name: &str) -> (r: Repository)
    ensures
        r@ == single_repo_m(host@, owner@, name@),
{
    let mut url = String::from_str("https://");
    url.append(host);
    url.append("/");
    url.append(owner);
    url.append("/");
    url.append(name);
    let r = Repository { git_url: url, name: String::from_str(name) };
    proof {
        assert(r@.git_url =~= single_repo_m(host@, owner@, name@).git_url);
    }
    r
}

/// The JSON body of a GraphQL listing request: the query text, and as
/// variables the owner and the cursor (`null` before the first page).
pub open spec fn graphql_body_m(
    query: Seq<char>,
    owner: Seq<char>,
    cursor: Option<Seq<char>>,
) -> Seq<char> {
    "{\"query\":\""@ + query + "\",\"variables\":{\"cursor\":"@ + (match cursor {
        None => "null"@,
        Some(c) => "\""@ + spec_json_escaped(c) + "\""@,
    }) + ",\"user\":\""@ + spec_json_escaped(owner) + "\"}}"@
}

/// A GraphQL listing request: posted to the GitHub API endpoint with
/// the token as a bearer credential.
pub open spec fn graphql_request_m(
    query: Seq<char>,
    owner: Seq<char>,
    token: Seq<char>,
    cursor: Option<Seq<char>>,
) -> HttpRequestModel {
    HttpRequestModel {
        method: Method::Post,
        url: "https://api.github.com/graphql"@,
        headers: seq![
            ("Authorization"@, "bearer "@ + token),
            ("Content-Type"@, "application/json"@),
        ],
        body: Some(graphql_body_m(query, owner, cursor)),
    }
}

/// Builds a GraphQL listing request.
pub fn graphql_request(query: &str, owner: &str, token: &str, cursor: Option<&String>) -> (r:
    HttpRequest)
    ensures
        r@ == graphql_request_m(
            query@,
            owner@,
            token@,
            match cursor {
                Some(c) => Some(c@),
                None => None,
            },
        ),
{
    let mut body = String::from_str("{\"query\":\"");
    body.append(query);
    body.append("\",\"variables\":{\"cursor\":");
    match cursor {
        None => body.append("null"),
        Some(c) => {
            body.append("\"");
            let esc = json_escape(c.as_str());
            body.append(esc.as_str());
            body.append("\"");
        },
    }
    body.append(",\"user\":\"");
    let esc_owner = json_escape(owner);
    body.append(esc_owner.as_str());
    body.append("\"}}");
    let mut auth = String::from_str("bearer ");
    auth.append(token);
    let mut headers: Vec<(String, String)> = Vec::new();
    headers.push((String::from_str("Authorization"), auth));
    headers.push((String::from_str("Content-Type"), String::from_str("application/json")));
    let r = HttpRequest {
        method: Method::Post,
        url: String::from_str("https://api.github.com/graphql"),
        headers,
        body: Some(body),
    };
    proof {
        let cm = match cursor {
            Some(c) => Some(c@),
            None => None,
        };
        assert(r@.body->Some_0 =~= graphql_body_m(query@, owner@, cm));
        assert(r@.headers =~= graphql_request_m(query@, owner@, token@, cm).headers);
    }
    r
}

/// The result of absorbing a run of pages into an accumulator, in
/// order.
pub open spec fn absorb_all(acc: Seq<RepoModel>, pages: Seq<Seq<RepoModel>>) -> Seq<RepoModel>
    decreases pages.len(),
{
    if pages.len() == 0 {
        acc
    } else {
        absorb_all(acc + pages[0], pages.skip(1))
    }
}

/// Pagination loses nothing and invents nothing: absorbing a run of
/// pages one at a time yields exactly the concatenation of all the
/// pages' descriptors, in page order, after whatever was already
/// collected.
pub proof fn lemma_pagination_concat(acc: Seq<RepoModel>, pages: Seq<Seq<RepoModel>>)
    ensures
        absorb_all(acc, pages) == acc + pages.flatten(),
    decreases pages.len(),
{
    if pages.len() == 0 {
        assert(pages.flatten() == Seq::<RepoModel>::empty());
        assert(absorb_all(acc, pages) =~= acc + pages.flatten());
    } else {
        lemma_pagination_concat(acc + pages[0], pages.skip(1));
        assert(pages.skip(1) =~= pages.drop_first());
        assert(pages.flatten() == pages.first() + pages.drop_first().flatten());
        assert(absorb_all(acc, pages) =~= acc + pages.flatten());
    }
}

} // verus!

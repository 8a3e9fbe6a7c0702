//! The Bitbucket provider client.
//!
//! Bitbucket enumerates repositories through a link-paginated flat
//! list: each response embeds the full URL of the next page, treated
//! as an opaque continuation, and enumeration follows it until it is
//! absent. Entries that are not Git repositories, or that expose no
//! HTTPS clone URL, are skipped silently rather than failing the run.

use crate::json::{
    json_arr_field, json_field, json_str_field, parse_json_node, spec_arr_field, spec_field,
    spec_str_field,
};
use crate::services::service::{
    EnumError, MalformedKind, Provider, RepoModel, Repository, Service,
};
use crate::services::session::{
    absorb_repos, enum_start, repos_view, single_repo, single_repo_m, EnumState, EnumStateModel,
    HttpRequest, HttpRequestModel, Method, Page, PageModel, StartOutcome, StepOutcome,
    StepOutcomeModel,
};
use crate::source::{parse_bitbucket_location, spec_parse_bitbucket};
use crate::strutil::str_eq;
use vstd::prelude::*;

verus! {

/// What `base64::encode` yields on the characters of a string: a name
/// for the standard-alphabet encoding, computed from the input alone.
pub uninterp spec fn base64_of(s: Seq<char>) -> Seq<char>;

/// Relies on base64::encode: the standard alphabet, no line wrapping,
/// a function of the input bytes alone.
#[verifier::external_body]
fn b64_encode(s: &str) -> (r: String)
    ensures
        r@ == base64_of(s@),
{
    base64::encode(s)
}

/// The basic-auth credential Bitbucket expects: `owner:token`,
/// base64-encoded.
pub open spec fn bitbucket_basic_m(owner: Seq<char>, token: Seq<char>) -> Seq<char> {
    "Basic "@ + base64_of(owner + ":"@ + token)
}

/// The URL the enumeration opens with: the owner's repository list,
/// asking only for the fields the client reads.
pub open spec fn bitbucket_first_url_m(owner: Seq<char>) -> Seq<char> {
    "https://api.bitbucket.org/2.0/repositories/"@ + owner
        + "?fields=next,values.slug,values.scm,values.links.clone,values.is_private,values.owner.nickname&role=owner"@
}

/// One page request: a GET of `url` under the owner's basic-auth
/// credential.
pub open spec fn bitbucket_request_m(
    owner: Seq<char>,
    token: Seq<char>,
    url: Seq<char>,
) -> HttpRequestModel {
    HttpRequestModel {
        method: Method::Get,
        url: url,
        headers: seq![("Authorization"@, bitbucket_basic_m(owner, token))],
        body: None,
    }
}

/// Builds one page request.
fn bitbucket_request(owner: &str, token: &str, url: String) -> (r: HttpRequest)
    ensures
        r@ == bitbucket_request_m(owner@, token@, url@),
{
    let mut cred = String::from_str(owner);
    cred.append(":");
    cred.append(token);
    proof {
        assert(cred@ =~= owner@ + ":"@ + token@);
    }
    let mut auth = String::from_str("Basic ");
    auth.append(b64_encode(cred.as_str()).as_str());
    let mut headers: Vec<(String, String)> = Vec::new();
    headers.push((String::from_str("Authorization"), auth));
    let r = HttpRequest { method: Method::Get, url, headers, body: None };
    proof {
        assert(r@.headers =~= bitbucket_request_m(owner@, token@, r.url@).headers);
    }
    r
}

/// The first HTTPS clone URL among the entries of a `links.clone`
/// list, from position `j` on: the first entry named `https` that
/// carries a string `href`.
pub open spec fn bb_https_href(clones: Seq<String>, j: int) -> Option<String>
    decreases clones.len() - j,
{
    if j < 0 || j >= clones.len() {
        None
    } else {
        let is_https = match spec_str_field(clones[j]@, "name"@) {
            Some(nm) => nm@ == "https"@,
            None => false,
        };
        if is_https {
            match spec_str_field(clones[j]@, "href"@) {
                Some(h) => Some(h),
                None => bb_https_href(clones, j + 1),
            }
        } else {
            bb_https_href(clones, j + 1)
        }
    }
}

/// The `links.clone` entry texts of one repository entry, empty
/// wherever the chain is absent.
pub open spec fn bb_clones_m(entry: Seq<char>) -> Seq<String> {
    match spec_field(entry, "links"@) {
        Some(l) => match spec_arr_field(l@, "clone"@) {
            Some(cs) => cs@,
            None => Seq::empty(),
        },
        None => Seq::empty(),
    }
}

/// Is this entry a Git repository (as opposed to another VCS kind)?
pub open spec fn bb_is_git(entry: Seq<char>) -> bool {
    match spec_str_field(entry, "scm"@) {
        Some(s) => s@ == "git"@,
        None => false,
    }
}

/// The descriptors among the entries from position `i` on: non-Git
/// entries and entries without an HTTPS clone URL are skipped; an
/// entry without a string `slug` spoils the page.
pub open spec fn bb_repos_m(values: Seq<String>, i: int) -> Result<Seq<RepoModel>, EnumError>
    decreases values.len() - i,
{
    if i < 0 || i >= values.len() {
        Ok(Seq::empty())
    } else if !bb_is_git(values[i]@) {
        bb_repos_m(values, i + 1)
    } else {
        match spec_str_field(values[i]@, "slug"@) {
            None => Err(EnumError::Malformed(Provider::Bitbucket, MalformedKind::MissingName)),
            Some(nm) => match bb_https_href(bb_clones_m(values[i]@), 0) {
                None => bb_repos_m(values, i + 1),
                Some(h) => match bb_repos_m(values, i + 1) {
                    Err(e) => Err(e),
                    Ok(rest) => Ok(seq![RepoModel { git_url: h@, name: nm@ }] + rest),
                },
            },
        }
    }
}

/// What one response body yields: the page's descriptors and the next
/// page's URL, absent on the last page.
pub open spec fn bitbucket_page_of(body: Seq<char>) -> Result<PageModel, EnumError> {
    if crate::json::json_node_of(body) is None {
        Err(EnumError::Malformed(Provider::Bitbucket, MalformedKind::NotJson))
    } else {
        let values = match spec_arr_field(body, "values"@) {
            Some(xs) => xs@,
            None => Seq::empty(),
        };
        match bb_repos_m(values, 0) {
            Err(e) => Err(e),
            Ok(rs) => Ok(
                PageModel {
                    repos: rs,
                    next: match spec_str_field(body, "next"@) {
                        Some(u) => Some(u@),
                        None => None,
                    },
                },
            ),
        }
    }
}

/// Finds the first HTTPS clone URL in a `links.clone` list.
fn bb_find_https(clones: &Vec<String>) -> (r: Option<String>)
    ensures
        r == bb_https_href(clones@, 0),
{
    let n = clones.len();
    let mut j: usize = 0;
    while j < n
        invariant
            j <= n,
            n == clones@.len(),
            bb_https_href(clones@, 0) == bb_https_href(clones@, j as int),
        decreases n - j,
    {
        let is_https = match json_str_field(clones[j].as_str(), "name") {
            Some(nm) => str_eq(nm.as_str(), "https"),
            None => false,
        };
        if is_https {
            match json_str_field(clones[j].as_str(), "href") {
                Some(h) => {
                    return Some(h);
                },
                None => {},
            }
        }
        j = j + 1;
    }
    None
}

/// Decodes one Bitbucket response body.
pub fn bitbucket_extract(body: &str) -> (r: Result<Page, EnumError>)
    ensures
        match r {
            Ok(p) => bitbucket_page_of(body@) == Ok::<PageModel, EnumError>(p@),
            Err(e) => bitbucket_page_of(body@) == Err::<PageModel, EnumError>(e),
        },
{
    if parse_json_node(body).is_none() {
        return Err(EnumError::Malformed(Provider::Bitbucket, MalformedKind::NotJson));
    }
    let values: Vec<String> = match json_arr_field(body, "values") {
        Some(xs) => xs,
        None => Vec::new(),
    };
    let next: Option<String> = json_str_field(body, "next");
    proof {
        assert(values@ =~= match spec_arr_field(body@, "values"@) {
            Some(xs) => xs@,
            None => Seq::empty(),
        });
    }
    let n = values.len();
    let mut repos: Vec<Repository> = Vec::new();
    let mut i: usize = 0;
    while i < n
        invariant
            i <= n,
            n == values@.len(),
            crate::json::json_node_of(body@) is Some,
            values@ == (match spec_arr_field(body@, "values"@) {
                Some(xs) => xs@,
                None => Seq::empty(),
            }),
            bb_repos_m(values@, i as int) is Ok ==> bb_repos_m(values@, 0) == Ok::<
                Seq<RepoModel>,
                EnumError,
            >(repos_view(repos@) + bb_repos_m(values@, i as int)->Ok_0),
            bb_repos_m(values@, i as int) is Err ==> bb_repos_m(values@, 0) == bb_repos_m(
                values@,
                i as int,
            ),
        decreases n - i,
    {
        let entry = values[i].as_str();
        let is_git = match json_str_field(entry, "scm") {
            Some(s) => str_eq(s.as_str(), "git"),
            None => false,
        };
        if is_git {
            let nm = match json_str_field(entry, "slug") {
                Some(nm) => nm,
                None => {
                    proof {
                        assert(bb_repos_m(values@, i as int) == Err::<Seq<RepoModel>, EnumError>(
                            EnumError::Malformed(Provider::Bitbucket, MalformedKind::MissingName),
                        ));
                    }
                    return Err(
                        EnumError::Malformed(Provider::Bitbucket, MalformedKind::MissingName),
                    );
                },
            };
            let clones: Vec<String> = match json_field(entry, "links") {
                Some(l) => match json_arr_field(l.as_str(), "clone") {
                    Some(cs) => cs,
                    None => Vec::new(),
                },
                None => Vec::new(),
            };
            proof {
                assert(clones@ =~= bb_clones_m(values@[i as int]@));
            }
            match bb_find_https(&clones) {
                None => {},
                Some(h) => {
                    let ghost repos0 = repos@;
                    repos.push(Repository { git_url: h, name: nm });
                    proof {
                        if bb_repos_m(values@, i + 1) is Ok {
                            assert(repos_view(repos@) =~= repos_view(repos0).push(
                                repos@[repos@.len() - 1]@,
                            ));
                            assert(repos_view(repos@) + bb_repos_m(values@, i + 1)->Ok_0
                                =~= repos_view(repos0) + bb_repos_m(values@, i as int)->Ok_0);
                        }
                    }
                },
            }
        }
        i = i + 1;
    }
    proof {
        assert(bb_repos_m(values@, n as int) == Ok::<Seq<RepoModel>, EnumError>(Seq::empty()));
        assert(repos_view(repos@) + Seq::<RepoModel>::empty() =~= repos_view(repos@));
    }
    let page = Page { repos, next };
    proof {
        assert(bitbucket_page_of(body@)->Ok_0 =~= page@);
    }
    Ok(page)
}

/// The decision Bitbucket's client takes on one response: absorb the
/// page, then follow the embedded next-page URL until it is absent.
pub open spec fn bitbucket_step_m(
    owner: Seq<char>,
    token: Seq<char>,
    st: EnumStateModel,
    status: u16,
    body: Seq<char>,
) -> StepOutcomeModel {
    if status == 401 {
        StepOutcomeModel::Failed(EnumError::Auth(Provider::Bitbucket))
    } else if !(200 <= status && status < 300) {
        StepOutcomeModel::Failed(EnumError::Http(Provider::Bitbucket, status))
    } else {
        match bitbucket_page_of(body) {
            Err(e) => StepOutcomeModel::Failed(e),
            Ok(p) => {
                let repos = st.repos + p.repos;
                match p.next {
                    None => StepOutcomeModel::Done(repos),
                    Some(u) => StepOutcomeModel::Continue(
                        EnumStateModel { repos, seen: st.seen },
                        bitbucket_request_m(owner, token, u),
                    ),
                }
            },
        }
    }
}

/// A client enumerating one Bitbucket owner's repositories.
pub struct Bitbucket {
    /// Which user are we backing up repositories for?
    pub owner: String,
    /// The single repository the location named, if it named one.
    pub repo: Option<String>,
    /// An access token.
    pub token: String,
}

impl Bitbucket {
    /// Recognises a Bitbucket location string.
    pub fn new(url: String, token: String) -> (r: Option<Bitbucket>)
        ensures
            match spec_parse_bitbucket(url@) {
                None => r is None,
                Some((o, rep)) => match r {
                    Some(g) => g.owner@ == o && (match g.repo {
                        Some(gr) => rep == Some(gr@),
                        None => rep is None,
                    }) && g.token@ == token@,
                    None => false,
                },
            },
    {
        match parse_bitbucket_location(url.as_str()) {
            Some((owner, repo)) => Some(Bitbucket { owner, repo, token }),
            None => None,
        }
    }

    /// The owner this client was built for.
    pub fn owner(&self) -> (r: &str)
        ensures
            r@ == self.owner@,
    {
        self.owner.as_str()
    }

    /// Opens the enumeration.
    pub fn start(&self) -> (r: StartOutcome)
        ensures
            match self.repo {
                Some(name) => r matches StartOutcome::Immediate(v) && repos_view(v@) == seq![
                    single_repo_m("bitbucket.org"@, self.owner@, name@),
                ],
                None => r matches StartOutcome::Fetch(st, req) && st@.repos == Seq::<
                    RepoModel,
                >::empty() && st@.seen == Seq::<Seq<char>>::empty() && req@ == bitbucket_request_m(
                    self.owner@,
                    self.token@,
                    bitbucket_first_url_m(self.owner@),
                ),
            },
    {
        match &self.repo {
            Some(name) => {
                let mut v: Vec<Repository> = Vec::new();
                v.push(single_repo("bitbucket.org", self.owner.as_str(), name.as_str()));
                proof {
                    assert(repos_view(v@) =~= seq![
                        single_repo_m("bitbucket.org"@, self.owner@, name@),
                    ]);
                }
                StartOutcome::Immediate(v)
            },
            None => {
                let mut url = String::from_str("https://api.bitbucket.org/2.0/repositories/");
                url.append(self.owner.as_str());
                url.append(
                    "?fields=next,values.slug,values.scm,values.links.clone,values.is_private,values.owner.nickname&role=owner",
                );
                proof {
                    assert(url@ =~= bitbucket_first_url_m(self.owner@));
                }
                StartOutcome::Fetch(
                    enum_start(),
                    bitbucket_request(self.owner.as_str(), self.token.as_str(), url),
                )
            },
        }
    }

    /// Feeds one response back into the enumeration.
    pub fn step(&self, st: EnumState, status: u16, body: &str) -> (r: StepOutcome)
        ensures
            r@ == bitbucket_step_m(self.owner@, self.token@, st@, status, body@),
    {
        if status == 401 {
            return StepOutcome::Failed(EnumError::Auth(Provider::Bitbucket));
        }
        if !(200 <= status && status < 300) {
            return StepOutcome::Failed(EnumError::Http(Provider::Bitbucket, status));
        }
        match bitbucket_extract(body) {
            Err(e) => StepOutcome::Failed(e),
            Ok(page) => {
                let Page { repos: page_repos, next } = page;
                let repos = absorb_repos(st.repos, page_repos);
                match next {
                    None => StepOutcome::Done(repos),
                    Some(u) => {
                        let req = bitbucket_request(self.owner.as_str(), self.token.as_str(), u);
                        StepOutcome::Continue(EnumState { repos, seen: st.seen }, req)
                    },
                }
            },
        }
    }
}

impl Service for Bitbucket {
    open spec fn spec_owner(&self) -> Seq<char> {
        self.owner@
    }

    fn username(&self) -> (r: String) {
        self.owner.clone()
    }
}

} // verus!

//! Recognising a user-supplied location string.
//!
//! Every provider understands the same three written forms of a
//! source, each tolerating the small variations people type:
//!
//! * an HTTP(S) URL: optional scheme, optionally `www.` where the
//!   provider is known under it, the host with its domain suffix
//!   optional, then `/owner`, optionally `/repository` (itself
//!   optionally suffixed `.git`), optionally a trailing slash;
//! * an SSH shorthand: optional `git@`, the host, a colon, the owner
//!   (which this form forbids dots in), the same optional repository
//!   segment and trailing slash;
//! * a bare `owner@host` form, with no repository segment.
//!
//! The grammar of each form is stated here as spec functions over the
//! character sequence, and the matchers are verified against them;
//! [`identify`] tries the providers in their registration order and
//! yields the first match.

use crate::services::service::Provider;
use crate::strutil::{idx_of2_from, idx_of_from, match_at, seg_end, seg_end2, starts_at};
use vstd::prelude::*;

verus! {

/// Where the optional URL scheme ends: after `https://` or `http://`
/// when the text starts with one, else at the start.
pub open spec fn scheme_end(s: Seq<char>) -> int {
    if starts_at(s, 0, "https://"@) {
        8
    } else if starts_at(s, 0, "http://"@) {
        7
    } else {
        0
    }
}

/// A repository segment written `name.git` means the repository
/// `name`; anything else names itself.
pub open spec fn strip_git_suffix(r: Seq<char>) -> Seq<char> {
    if r.len() > 4 && r.subrange(r.len() - 4, r.len() as int) == ".git"@ {
        r.subrange(0, r.len() - 4)
    } else {
        r
    }
}

/// What may follow the owner segment, `q` standing just after it:
/// nothing or a lone trailing slash (no repository named), or a slash
/// and a repository segment, optionally `.git`-suffixed, optionally
/// with a trailing slash. `None` means the text fits no such tail.
pub open spec fn parse_tail(s: Seq<char>, q: int) -> Option<Option<Seq<char>>> {
    if q == s.len() {
        Some(None)
    } else if 0 <= q < s.len() && s[q] == '/' {
        if q + 1 == s.len() {
            Some(None)
        } else {
            let e = idx_of_from(s, q + 1, '/');
            if e == q + 1 {
                None
            } else if e == s.len() || e + 1 == s.len() {
                Some(Some(strip_git_suffix(s.subrange(q + 1, e))))
            } else {
                None
            }
        }
    } else {
        None
    }
}

/// The HTTP(S) form of a provider reachable at `host` (optionally
/// suffixed `tld`, optionally behind `www.` when `www` holds):
/// extracts the owner and the optional repository.
pub open spec fn parse_http(www: bool, host: Seq<char>, tld: Seq<char>, s: Seq<char>) -> Option<
    (Seq<char>, Option<Seq<char>>),
> {
    let p1 = scheme_end(s);
    let p2 = if www && starts_at(s, p1, "www."@) {
        p1 + 4
    } else {
        p1
    };
    if !starts_at(s, p2, host) {
        None
    } else {
        let p3 = p2 + host.len();
        let p4 = if starts_at(s, p3, tld) {
            p3 + tld.len()
        } else {
            p3
        };
        if p4 < s.len() && s[p4] == '/' {
            let e = idx_of_from(s, p4 + 1, '/');
            if e == p4 + 1 {
                None
            } else {
                match parse_tail(s, e) {
                    None => None,
                    Some(rep) => Some((s.subrange(p4 + 1, e), rep)),
                }
            }
        } else {
            None
        }
    }
}

/// The SSH shorthand `[git@]host[:tld]:owner[/repository]`; the owner
/// may not contain a dot here.
pub open spec fn parse_ssh(host: Seq<char>, tld: Seq<char>, s: Seq<char>) -> Option<
    (Seq<char>, Option<Seq<char>>),
> {
    let p1: int = if starts_at(s, 0, "git@"@) {
        4
    } else {
        0
    };
    if !starts_at(s, p1, host) {
        None
    } else {
        let p3 = p1 + host.len();
        let p4 = if starts_at(s, p3, tld) {
            p3 + tld.len()
        } else {
            p3
        };
        if p4 < s.len() && s[p4] == ':' {
            let e = idx_of2_from(s, p4 + 1, '/', '.');
            if e == p4 + 1 {
                None
            } else if e < s.len() && s[e] == '.' {
                None
            } else {
                match parse_tail(s, e) {
                    None => None,
                    Some(rep) => Some((s.subrange(p4 + 1, e), rep)),
                }
            }
        } else {
            None
        }
    }
}

/// The bare `owner@host` form: everything before the first `@` is the
/// owner, the rest must be the host (optionally `tld`-suffixed),
/// optionally with a trailing slash where the provider tolerates one.
/// This form names no repository.
pub open spec fn parse_bare(host: Seq<char>, tld: Seq<char>, slash: bool, s: Seq<char>) -> Option<
    (Seq<char>, Option<Seq<char>>),
> {
    let a = idx_of_from(s, 0, '@');
    if a == 0 || a >= s.len() {
        None
    } else if !starts_at(s, a + 1, host) {
        None
    } else {
        let p3 = a + 1 + host.len();
        let p4 = if starts_at(s, p3, tld) {
            p3 + tld.len()
        } else {
            p3
        };
        if p4 == s.len() || (slash && p4 + 1 == s.len() && s[p4] == '/') {
            Some((s.subrange(0, a), None))
        } else {
            None
        }
    }
}

/// One provider's full grammar: the three forms tried in a fixed
/// order, HTTP(S) first, then the SSH shorthand, then the bare form.
pub open spec fn parse_location(
    www: bool,
    host: Seq<char>,
    tld: Seq<char>,
    bare_slash: bool,
    s: Seq<char>,
) -> Option<(Seq<char>, Option<Seq<char>>)> {
    match parse_http(www, host, tld, s) {
        Some(r) => Some(r),
        None => match parse_ssh(host, tld, s) {
            Some(r) => Some(r),
            None => parse_bare(host, tld, bare_slash, s),
        },
    }
}

/// The image of an extracted `(owner, repository)` pair.
pub open spec fn owner_repo_view(r: Option<(String, Option<String>)>) -> Option<
    (Seq<char>, Option<Seq<char>>),
> {
    match r {
        None => None,
        Some((o, None)) => Some((o@, None)),
        Some((o, Some(p))) => Some((o@, Some(p@))),
    }
}

/// Matches the scheme prefix.
fn scheme_end_x(s: &str) -> (r: usize)
    ensures
        r as int == scheme_end(s@),
        r <= s@.len(),
{
    if match_at(s, 0, "https://") {
        proof {
            reveal_strlit("https://");
        }
        8
    } else if match_at(s, 0, "http://") {
        proof {
            reveal_strlit("http://");
        }
        7
    } else {
        0
    }
}

/// Strips a `.git` suffix off a repository segment.
fn strip_git_x(seg: &str) -> (r: String)
    ensures
        r@ == strip_git_suffix(seg@),
{
    let n = seg.unicode_len();
    if n > 4 && match_at(seg, n - 4, ".git") {
        proof {
            reveal_strlit(".git");
        }
        String::from_str(seg.substring_char(0, n - 4))
    } else {
        proof {
            reveal_strlit(".git");
        }
        String::from_str(seg)
    }
}

/// Matches what may follow the owner segment.
fn parse_tail_x(s: &str, q: usize) -> (r: Option<Option<String>>)
    requires
        q <= s@.len(),
    ensures
        match r {
            None => parse_tail(s@, q as int) is None,
            Some(None) => parse_tail(s@, q as int) == Some(None::<Seq<char>>),
            Some(Some(rep)) => parse_tail(s@, q as int) == Some(Some(rep@)),
        },
{
    let slen = s.unicode_len();
    if q == slen {
        Some(None)
    } else if s.get_char(q) == '/' {
        if q + 1 == slen {
            Some(None)
        } else {
            let e = seg_end(s, q + 1, '/');
            if e == q + 1 {
                None
            } else if e == slen || e + 1 == slen {
                Some(Some(strip_git_x(s.substring_char(q + 1, e))))
            } else {
                None
            }
        }
    } else {
        None
    }
}

/// Matches the HTTP(S) form.
fn parse_http_x(www: bool, host: &str, tld: &str, s: &str) -> (r: Option<(String, Option<String>)>)
    ensures
        owner_repo_view(r) == parse_http(www, host@, tld@, s@),
{
    let slen = s.unicode_len();
    let p1 = scheme_end_x(s);
    let p2 = if www && match_at(s, p1, "www.") {
        proof {
            reveal_strlit("www.");
        }
        p1 + 4
    } else {
        p1
    };
    if !match_at(s, p2, host) {
        return None;
    }
    let p3 = p2 + host.unicode_len();
    let p4 = if match_at(s, p3, tld) {
        p3 + tld.unicode_len()
    } else {
        p3
    };
    if p4 < slen && s.get_char(p4) == '/' {
        let e = seg_end(s, p4 + 1, '/');
        if e == p4 + 1 {
            None
        } else {
            match parse_tail_x(s, e) {
                None => None,
                Some(rep) => Some((String::from_str(s.substring_char(p4 + 1, e)), rep)),
            }
        }
    } else {
        None
    }
}

/// Matches the SSH shorthand.
fn parse_ssh_x(host: &str, tld: &str, s: &str) -> (r: Option<(String, Option<String>)>)
    ensures
        owner_repo_view(r) == parse_ssh(host@, tld@, s@),
{
    let slen = s.unicode_len();
    let p1: usize = if match_at(s, 0, "git@") {
        proof {
            reveal_strlit("git@");
        }
        4
    } else {
        0
    };
    if !match_at(s, p1, host) {
        return None;
    }
    let p3 = p1 + host.unicode_len();
    let p4 = if match_at(s, p3, tld) {
        p3 + tld.unicode_len()
    } else {
        p3
    };
    if p4 < slen && s.get_char(p4) == ':' {
        let e = seg_end2(s, p4 + 1, '/', '.');
        if e == p4 + 1 {
            None
        } else if e < slen && s.get_char(e) == '.' {
            None
        } else {
            match parse_tail_x(s, e) {
                None => None,
                Some(rep) => Some((String::from_str(s.substring_char(p4 + 1, e)), rep)),
            }
        }
    } else {
        None
    }
}

/// Matches the bare `owner@host` form.
fn parse_bare_x(host: &str, tld: &str, slash: bool, s: &str) -> (r: Option<
    (String, Option<String>),
>)
    ensures
        owner_repo_view(r) == parse_bare(host@, tld@, slash, s@),
{
    let slen = s.unicode_len();
    let a = seg_end(s, 0, '@');
    if a == 0 || a >= slen {
        return None;
    }
    if !match_at(s, a + 1, host) {
        return None;
    }
    let p3 = a + 1 + host.unicode_len();
    let p4 = if match_at(s, p3, tld) {
        p3 + tld.unicode_len()
    } else {
        p3
    };
    if p4 == slen || (slash && p4 + 1 == slen && s.get_char(p4) == '/') {
        Some((String::from_str(s.substring_char(0, a)), None))
    } else {
        None
    }
}

/// GitHub's grammar: host `github`, domain `.com`, `www.` tolerated.
pub open spec fn spec_parse_github(s: Seq<char>) -> Option<(Seq<char>, Option<Seq<char>>)> {
    parse_location(true, "github"@, ".com"@, true, s)
}

/// The gist grammar: hosts `gist.github` and `gists.github`, domain
/// `.com`; no `www.` form, and the bare form takes no trailing slash.
pub open spec fn spec_parse_gists(s: Seq<char>) -> Option<(Seq<char>, Option<Seq<char>>)> {
    match parse_location(false, "gist.github"@, ".com"@, false, s) {
        Some(r) => Some(r),
        None => parse_location(false, "gists.github"@, ".com"@, false, s),
    }
}

/// Bitbucket's grammar: host `bitbucket`, domain `.org`, `www.`
/// tolerated.
pub open spec fn spec_parse_bitbucket(s: Seq<char>) -> Option<(Seq<char>, Option<Seq<char>>)> {
    parse_location(true, "bitbucket"@, ".org"@, true, s)
}

/// GitLab's grammar: host `gitlab`, domain `.org`, `www.` tolerated.
pub open spec fn spec_parse_gitlab(s: Seq<char>) -> Option<(Seq<char>, Option<Seq<char>>)> {
    parse_location(true, "gitlab"@, ".org"@, true, s)
}

/// Matches a location against GitHub's grammar.
pub fn parse_github_location(s: &str) -> (r: Option<(String, Option<String>)>)
    ensures
        owner_repo_view(r) == spec_parse_github(s@),
{
    parse_location_x(true, "github", ".com", true, s)
}

/// Matches a location against the gist grammar.
pub fn parse_gists_location(s: &str) -> (r: Option<(String, Option<String>)>)
    ensures
        owner_repo_view(r) == spec_parse_gists(s@),
{
    match parse_location_x(false, "gist.github", ".com", false, s) {
        Some(r) => Some(r),
        None => parse_location_x(false, "gists.github", ".com", false, s),
    }
}

/// Matches a location against Bitbucket's grammar.
pub fn parse_bitbucket_location(s: &str) -> (r: Option<(String, Option<String>)>)
    ensures
        owner_repo_view(r) == spec_parse_bitbucket(s@),
{
    parse_location_x(true, "bitbucket", ".org", true, s)
}

/// Matches a location against GitLab's grammar.
pub fn parse_gitlab_location(s: &str) -> (r: Option<(String, Option<String>)>)
    ensures
        owner_repo_view(r) == spec_parse_gitlab(s@),
{
    parse_location_x(true, "gitlab", ".org", true, s)
}

/// A recognised source: the provider, the owner whose repositories
/// are backed up, and optionally one single repository to restrict
/// the run to.
#[derive(Clone, Debug, PartialEq, Eq)]
pub struct Source {
    pub provider: Provider,
    pub owner: String,
    pub repo: Option<String>,
}

/// The mathematical image of a [`Source`].
pub struct SourceModel {
    pub provider: Provider,
    pub owner: Seq<char>,
    pub repo: Option<Seq<char>>,
}

impl View for Source {
    type V = SourceModel;

    open spec fn view(&self) -> SourceModel {
        SourceModel {
            provider: self.provider,
            owner: self.owner@,
            repo: match self.repo {
                Some(r) => Some(r@),
                None => None,
            },
        }
    }
}

/// Which source a location string denotes: the providers' grammars
/// are tried in registration order — GitHub, the gist provider,
/// Bitbucket, GitLab — and the first match wins; a string no grammar
/// matches denotes no source.
pub open spec fn spec_identify(s: Seq<char>) -> Option<SourceModel> {
    if spec_parse_github(s) is Some {
        let (o, rep) = spec_parse_github(s)->Some_0;
        Some(SourceModel { provider: Provider::GitHub, owner: o, repo: rep })
    } else if spec_parse_gists(s) is Some {
        let (o, rep) = spec_parse_gists(s)->Some_0;
        Some(SourceModel { provider: Provider::GitHubGists, owner: o, repo: rep })
    } else if spec_parse_bitbucket(s) is Some {
        let (o, rep) = spec_parse_bitbucket(s)->Some_0;
        Some(SourceModel { provider: Provider::Bitbucket, owner: o, repo: rep })
    } else if spec_parse_gitlab(s) is Some {
        let (o, rep) = spec_parse_gitlab(s)->Some_0;
        Some(SourceModel { provider: Provider::GitLab, owner: o, repo: rep })
    } else {
        None
    }
}

/// Resolves a location string to the source it denotes, exactly as
/// [`spec_identify`] reads it: `None` — never a panic, never a
/// mismatched provider — when no registered grammar matches.
pub fn identify(location: &str) -> (r: Option<Source>)
    ensures
        match r {
            Some(src) => spec_identify(location@) == Some(src@),
            None => spec_identify(location@) is None,
        },
{
    if let Some((o, rep)) = parse_github_location(location) {
        Some(Source { provider: Provider::GitHub, owner: o, repo: rep })
    } else if let Some((o, rep)) = parse_gists_location(location) {
        Some(Source { provider: Provider::GitHubGists, owner: o, repo: rep })
    } else if let Some((o, rep)) = parse_bitbucket_location(location) {
        Some(Source { provider: Provider::Bitbucket, owner: o, repo: rep })
    } else if let Some((o, rep)) = parse_gitlab_location(location) {
        Some(Source { provider: Provider::GitLab, owner: o, repo: rep })
    } else {
        None
    }
}

/// Matches one provider's full grammar, the three forms in order.
fn parse_location_x(www: bool, host: &str, tld: &str, bare_slash: bool, s: &str) -> (r: Option<
    (String, Option<String>),
>)
    ensures
        owner_repo_view(r) == parse_location(www, host@, tld@, bare_slash, s@),
{
    match parse_http_x(www, host, tld, s) {
        Some(r) => Some(r),
        None => match parse_ssh_x(host, tld, s) {
            Some(r) => Some(r),
            None => parse_bare_x(host, tld, bare_slash, s),
        },
    }
}

} // verus!

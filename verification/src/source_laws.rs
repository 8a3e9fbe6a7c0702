//! The laws of the location grammars.
//!
//! Every written variant of a source — scheme present or absent,
//! `www.` present or absent, the domain suffix present or absent, a
//! repository segment with or without its `.git` suffix, a trailing
//! slash or none, in the HTTP, SSH-colon and bare forms — resolves to
//! the same `(owner, repository)` pair. The proofs here state that
//! once, over the variant strings themselves.

use crate::source::{
    parse_bare, parse_http, parse_location, parse_ssh, parse_tail, scheme_end, strip_git_suffix,
};
use crate::strutil::{idx_of2_from, idx_of_from, lemma_idx_of2_from_val, lemma_idx_of_from_val,
    starts_at};
use vstd::prelude::*;

verus! {

/// A piece that a variant includes or leaves out.
pub open spec fn opt_seq(use_it: bool, s: Seq<char>) -> Seq<char> {
    if use_it {
        s
    } else {
        Seq::empty()
    }
}

/// `lit` stands in `s` right after a prefix `a`.
proof fn lemma_starts_at_mid(a: Seq<char>, b: Seq<char>, c: Seq<char>)
    ensures
        starts_at(a + b + c, a.len() as int, b),
{
    assert((a + b + c).subrange(a.len() as int, a.len() + b.len() as int) =~= b);
}

/// `lit` cannot stand at `pos` when some position disagrees.
proof fn lemma_not_starts_at_idx(s: Seq<char>, pos: int, lit: Seq<char>, k: int)
    requires
        0 <= pos,
        0 <= k < lit.len(),
        pos + lit.len() <= s.len() ==> s[pos + k] != lit[k],
    ensures
        !starts_at(s, pos, lit),
{
    if pos + lit.len() <= s.len() {
        if s.subrange(pos, pos + lit.len()) == lit {
            assert(s.subrange(pos, pos + lit.len())[k] == s[pos + k]);
        }
    }
}

/// The text of one HTTP-form variant.
pub open spec fn http_variant(
    sch: Seq<char>,
    use_www: bool,
    host: Seq<char>,
    use_tld: bool,
    tld: Seq<char>,
    owner: Seq<char>,
    repo: Option<Seq<char>>,
    use_git: bool,
    trail: bool,
) -> Seq<char> {
    sch + opt_seq(use_www, "www."@) + host + opt_seq(use_tld, tld) + "/"@ + owner + (match repo {
        None => opt_seq(trail, "/"@),
        Some(r) => "/"@ + r + opt_seq(use_git, ".git"@) + opt_seq(trail, "/"@),
    })
}

/// The optional scheme always ends where the written scheme ends.
proof fn lemma_scheme_end(sch: Seq<char>, rest: Seq<char>)
    requires
        sch == ""@ || sch == "http://"@ || sch == "https://"@,
        rest.len() > 0,
        rest[0] != 'h',
    ensures
        scheme_end(sch + rest) == sch.len(),
{
    reveal_strlit("");
    reveal_strlit("http://");
    reveal_strlit("https://");
    let s = sch + rest;
    if sch == "https://"@ {
        lemma_starts_at_mid(Seq::empty(), "https://"@, rest);
        assert(Seq::empty() + "https://"@ + rest =~= s);
        assert(starts_at(s, 0, "https://"@));
    } else if sch == "http://"@ {
        assert(s[4] == ':');
        lemma_not_starts_at_idx(s, 0, "https://"@, 4);
        lemma_starts_at_mid(Seq::empty(), "http://"@, rest);
        assert(Seq::empty() + "http://"@ + rest =~= s);
        assert(starts_at(s, 0, "http://"@));
    } else {
        assert(s[0] == rest[0]);
        lemma_not_starts_at_idx(s, 0, "https://"@, 0);
        lemma_not_starts_at_idx(s, 0, "http://"@, 0);
    }
}

/// What the tail written after the owner parses to: no repository
/// (with or without a trailing slash), or the repository segment with
/// its optional `.git` suffix stripped back off.
proof fn lemma_parse_tail(
    s: Seq<char>,
    q: int,
    repo: Option<Seq<char>>,
    use_git: bool,
    trail: bool,
)
    requires
        0 <= q <= s.len(),
        s.subrange(q, s.len() as int) == (match repo {
            None => opt_seq(trail, "/"@),
            Some(r) => "/"@ + r + opt_seq(use_git, ".git"@) + opt_seq(trail, "/"@),
        }),
        match repo {
            Some(r) => r.len() > 0 && (forall|k: int| 0 <= k < r.len() ==> r[k] != '/') && (
            !use_git ==> !(r.len() > 4 && r.subrange(r.len() - 4, r.len() as int) == ".git"@)),
            None => true,
        },
    ensures
        parse_tail(s, q) == Some(repo),
{
    reveal_strlit("/");
    reveal_strlit(".git");
    let tail = s.subrange(q, s.len() as int);
    assert forall|k: int| 0 <= k < tail.len() implies s[q + k] == tail[k] by {
        assert(tail[k] == s[q + k]);
    }
    match repo {
        None => {
            if trail {
                assert(tail =~= "/"@);
                assert(s[q + 0] == tail[0]);
                assert(s[q] == '/');
                assert(q + 1 == s.len());
            } else {
                assert(tail.len() == 0);
                assert(q == s.len());
            }
        },
        Some(r) => {
            let seg = r + opt_seq(use_git, ".git"@);
            let seglen = seg.len() as int;
            assert(tail =~= "/"@ + seg + opt_seq(trail, "/"@));
            assert(s[q + 0] == tail[0]);
            assert(tail[0] == '/');
            assert(s[q] == '/');
            assert(q + 1 < s.len());
            // The repository segment holds no slash, and stands at q + 1.
            assert forall|k: int| 0 <= k < seglen implies s[q + 1 + k] == seg[k] by {
                assert(s[q + (1 + k)] == tail[1 + k]);
                assert(tail[1 + k] == seg[k]);
            }
            assert forall|k: int| q + 1 <= k < q + 1 + seglen implies s[k] != '/' by {
                assert(s[q + 1 + (k - q - 1)] == seg[k - q - 1]);
                if k - q - 1 < r.len() {
                    assert(seg[k - q - 1] == r[k - q - 1]);
                } else {
                    assert(seg[k - q - 1] == ".git"@[k - q - 1 - r.len()]);
                }
            }
            if trail {
                assert(s[q + (1 + seglen)] == tail[1 + seglen]);
                assert(tail[1 + seglen] == '/');
                lemma_idx_of_from_val(s, q + 1, q + 1 + seglen, '/');
                assert(idx_of_from(s, q + 1, '/') == q + 1 + seglen);
                assert(q + 1 + seglen + 1 == s.len());
            } else {
                lemma_idx_of_from_val(s, q + 1, q + 1 + seglen, '/');
                assert(q + 1 + seglen == s.len());
            }
            let e = q + 1 + seglen;
            assert(s.subrange(q + 1, e) =~= seg);
            if use_git {
                assert(seg.subrange(seg.len() - 4, seg.len() as int) =~= ".git"@);
                assert(seg.len() > 4);
                assert(strip_git_suffix(seg) =~= r);
            } else {
                assert(seg =~= r);
                assert(strip_git_suffix(seg) == r);
            }
        },
    }
}

/// The written prefix of an HTTP-form variant: scheme, optional
/// `www.`, host, optional domain suffix.
pub open spec fn http_prefix(
    sch: Seq<char>,
    use_www: bool,
    host: Seq<char>,
    use_tld: bool,
    tld: Seq<char>,
) -> Seq<char> {
    sch + opt_seq(use_www, "www."@) + host + opt_seq(use_tld, tld)
}

/// How the matcher walks the prefix of an HTTP-form variant: the
/// scheme ends where it was written, `www.` is seen exactly when it
/// was written, the host stands where it was written, and the domain
/// suffix is seen exactly when it was written.
proof fn lemma_http_shape(
    www: bool,
    host: Seq<char>,
    tld: Seq<char>,
    sch: Seq<char>,
    use_www: bool,
    use_tld: bool,
    after: Seq<char>,
)
    requires
        sch == ""@ || sch == "http://"@ || sch == "https://"@,
        host.len() > 0,
        host[0] != 'h',
        host[0] != 'w',
        tld.len() > 0,
        tld[0] == '.',
        after.len() > 0,
        after[0] == '/',
    ensures
        ({
            let s = http_prefix(sch, use_www, host, use_tld, tld) + after;
            let wl = opt_seq(use_www, "www."@).len() as int;
            scheme_end(s) == sch.len() && starts_at(s, sch.len() as int, "www."@) == use_www
                && starts_at(s, sch.len() + wl, host) && starts_at(
                s,
                sch.len() + wl + host.len(),
                tld,
            ) == use_tld && s[http_prefix(sch, use_www, host, use_tld, tld).len() as int] == '/'
        }),
{
    reveal_strlit("www.");
    let pre = http_prefix(sch, use_www, host, use_tld, tld);
    let s = pre + after;
    let wpart = opt_seq(use_www, "www."@);
    let tpart = opt_seq(use_tld, tld);
    let wl = wpart.len() as int;
    let rest = wpart + host + tpart + after;
    assert(s =~= sch + rest);
    assert(rest[0] == (if use_www {
        'w'
    } else {
        host[0]
    }));
    lemma_scheme_end(sch, rest);
    let p1 = sch.len() as int;
    if use_www {
        lemma_starts_at_mid(sch, "www."@, host + tpart + after);
        assert(sch + "www."@ + (host + tpart + after) =~= s);
    } else {
        assert(s[p1] == host[0]);
        lemma_not_starts_at_idx(s, p1, "www."@, 0);
        assert('w' != host[0]);
    }
    lemma_starts_at_mid(sch + wpart, host, tpart + after);
    assert((sch + wpart) + host + (tpart + after) =~= s);
    let p3 = p1 + wl + host.len() as int;
    if use_tld {
        lemma_starts_at_mid(sch + wpart + host, tld, after);
        assert((sch + wpart + host) + tld + after =~= s);
    } else {
        assert(s[p3] == after[0]);
        lemma_not_starts_at_idx(s, p3, tld, 0);
    }
    assert(s[pre.len() as int] == after[0]);
}

/// How the matcher reads the owner segment standing at `p`: a slash,
/// then everything up to the next slash (or the end).
proof fn lemma_owner_segment(s: Seq<char>, p: int, owner: Seq<char>, tailpart: Seq<char>)
    requires
        0 <= p,
        s.len() == p + 1 + owner.len() + tailpart.len(),
        s.subrange(p, s.len() as int) == "/"@ + owner + tailpart,
        owner.len() > 0,
        forall|k: int| 0 <= k < owner.len() ==> owner[k] != '/',
        tailpart.len() > 0 ==> tailpart[0] == '/',
    ensures
        s[p] == '/',
        idx_of_from(s, p + 1, '/') == p + 1 + owner.len(),
        s.subrange(p + 1, p + 1 + owner.len()) == owner,
        s.subrange(p + 1 + owner.len(), s.len() as int) == tailpart,
{
    reveal_strlit("/");
    let tail = s.subrange(p, s.len() as int);
    assert forall|k: int| 0 <= k < tail.len() implies s[p + k] == tail[k] by {
        assert(tail[k] == s[p + k]);
    }
    assert(s[p + 0] == tail[0]);
    assert(tail[0] == '/');
    let ol = owner.len() as int;
    assert forall|k: int| 0 <= k < ol implies s[p + 1 + k] == owner[k] by {
        assert(s[p + (1 + k)] == tail[1 + k]);
        assert(tail[1 + k] == owner[k]);
    }
    assert forall|k: int| p + 1 <= k < p + 1 + ol implies s[k] != '/' by {
        assert(s[p + 1 + (k - p - 1)] == owner[k - p - 1]);
    }
    let e = p + 1 + ol;
    if tailpart.len() > 0 {
        assert(s[p + (1 + ol)] == tail[1 + ol]);
        assert(tail[1 + ol] == tailpart[0]);
        lemma_idx_of_from_val(s, p + 1, e, '/');
    } else {
        assert(e == s.len());
        lemma_idx_of_from_val(s, p + 1, e, '/');
    }
    assert(s.subrange(p + 1, e) =~= owner);
    assert forall|k: int| 0 <= k < tailpart.len() implies s.subrange(e, s.len() as int)[k]
        == tailpart[k] by {
        assert(s.subrange(e, s.len() as int)[k] == s[e + k]);
        assert(s[p + (1 + ol + k)] == tail[1 + ol + k]);
        assert(tail[1 + ol + k] == tailpart[k]);
    }
    assert(s.subrange(e, s.len() as int) =~= tailpart);
}

/// Every HTTP-form variant resolves to the owner and repository it was
/// written with: any of the three schemes, `www.` where the provider
/// tolerates it, the domain suffix present or absent, the repository
/// segment absent, plain, or `.git`-suffixed, a trailing slash or
/// none.
#[verifier::rlimit(100)]
pub proof fn lemma_http_variant(
    www: bool,
    host: Seq<char>,
    tld: Seq<char>,
    sch: Seq<char>,
    use_www: bool,
    use_tld: bool,
    owner: Seq<char>,
    repo: Option<Seq<char>>,
    use_git: bool,
    trail: bool,
)
    requires
        sch == ""@ || sch == "http://"@ || sch == "https://"@,
        use_www ==> www,
        host.len() > 0,
        host[0] != 'h',
        host[0] != 'w',
        tld.len() > 0,
        tld[0] == '.',
        owner.len() > 0,
        forall|k: int| 0 <= k < owner.len() ==> owner[k] != '/',
        match repo {
            Some(r) => r.len() > 0 && (forall|k: int| 0 <= k < r.len() ==> r[k] != '/') && (
            !use_git ==> !(r.len() > 4 && r.subrange(r.len() - 4, r.len() as int) == ".git"@)),
            None => true,
        },
    ensures
        parse_http(
            www,
            host,
            tld,
            http_variant(sch, use_www, host, use_tld, tld, owner, repo, use_git, trail),
        ) == Some((owner, repo)),
{
    reveal_strlit("www.");
    reveal_strlit("/");
    let s = http_variant(sch, use_www, host, use_tld, tld, owner, repo, use_git, trail);
    let pre = http_prefix(sch, use_www, host, use_tld, tld);
    let tailpart = match repo {
        None => opt_seq(trail, "/"@),
        Some(r) => "/"@ + r + opt_seq(use_git, ".git"@) + opt_seq(trail, "/"@),
    };
    let after = "/"@ + owner + tailpart;
    assert(s =~= pre + after);
    assert(after[0] == '/');
    lemma_http_shape(www, host, tld, sch, use_www, use_tld, after);
    let p = pre.len() as int;
    assert(s.subrange(p, s.len() as int) =~= after);
    assert(tailpart.len() > 0 ==> tailpart[0] == '/');
    lemma_owner_segment(s, p, owner, tailpart);
    lemma_parse_tail(s, p + 1 + owner.len(), repo, use_git, trail);
}

/// The text of one SSH-form variant.
pub open spec fn ssh_variant(
    use_git_at: bool,
    host: Seq<char>,
    use_tld: bool,
    tld: Seq<char>,
    owner: Seq<char>,
    repo: Option<Seq<char>>,
    use_git: bool,
    trail: bool,
) -> Seq<char> {
    opt_seq(use_git_at, "git@"@) + host + opt_seq(use_tld, tld) + ":"@ + owner + (match repo {
        None => opt_seq(trail, "/"@),
        Some(r) => "/"@ + r + opt_seq(use_git, ".git"@) + opt_seq(trail, "/"@),
    })
}

/// How the matcher reads the SSH owner segment at `p`: a colon, then
/// everything up to the next slash or dot (or the end).
proof fn lemma_owner_segment2(s: Seq<char>, p: int, owner: Seq<char>, tailpart: Seq<char>)
    requires
        0 <= p,
        s.len() == p + 1 + owner.len() + tailpart.len(),
        s.subrange(p, s.len() as int) == ":"@ + owner + tailpart,
        owner.len() > 0,
        forall|k: int| 0 <= k < owner.len() ==> owner[k] != '/' && owner[k] != '.',
        tailpart.len() > 0 ==> tailpart[0] == '/',
    ensures
        s[p] == ':',
        idx_of2_from(s, p + 1, '/', '.') == p + 1 + owner.len(),
        s.subrange(p + 1, p + 1 + owner.len()) == owner,
        s.subrange(p + 1 + owner.len(), s.len() as int) == tailpart,
{
    reveal_strlit(":");
    reveal_strlit("/");
    let tail = s.subrange(p, s.len() as int);
    assert forall|k: int| 0 <= k < tail.len() implies s[p + k] == tail[k] by {
        assert(tail[k] == s[p + k]);
    }
    assert(s[p + 0] == tail[0]);
    assert(tail[0] == ':');
    let ol = owner.len() as int;
    assert forall|k: int| 0 <= k < ol implies s[p + 1 + k] == owner[k] by {
        assert(s[p + (1 + k)] == tail[1 + k]);
        assert(tail[1 + k] == owner[k]);
    }
    assert forall|k: int| p + 1 <= k < p + 1 + ol implies s[k] != '/' && s[k] != '.' by {
        assert(s[p + 1 + (k - p - 1)] == owner[k - p - 1]);
    }
    let e = p + 1 + ol;
    if tailpart.len() > 0 {
        assert(s[p + (1 + ol)] == tail[1 + ol]);
        assert(tail[1 + ol] == tailpart[0]);
        lemma_idx_of2_from_val(s, p + 1, e, '/', '.');
    } else {
        assert(e == s.len());
        lemma_idx_of2_from_val(s, p + 1, e, '/', '.');
    }
    assert(s.subrange(p + 1, e) =~= owner);
    assert forall|k: int| 0 <= k < tailpart.len() implies s.subrange(e, s.len() as int)[k]
        == tailpart[k] by {
        assert(s.subrange(e, s.len() as int)[k] == s[e + k]);
        assert(s[p + (1 + ol + k)] == tail[1 + ol + k]);
        assert(tail[1 + ol + k] == tailpart[k]);
    }
    assert(s.subrange(e, s.len() as int) =~= tailpart);
}

/// The written prefix of an SSH-form variant: optional `git@`, host,
/// optional domain suffix.
pub open spec fn ssh_prefix(
    use_git_at: bool,
    host: Seq<char>,
    use_tld: bool,
    tld: Seq<char>,
) -> Seq<char> {
    opt_seq(use_git_at, "git@"@) + host + opt_seq(use_tld, tld)
}

/// How the matcher walks the prefix of an SSH-form variant.
proof fn lemma_ssh_shape(
    host: Seq<char>,
    tld: Seq<char>,
    use_git_at: bool,
    use_tld: bool,
    after: Seq<char>,
)
    requires
        host.len() > 3,
        host[3] != '@',
        tld.len() > 0,
        tld[0] == '.',
        after.len() > 0,
        after[0] == ':',
    ensures
        ({
            let s = ssh_prefix(use_git_at, host, use_tld, tld) + after;
            let gl = opt_seq(use_git_at, "git@"@).len() as int;
            starts_at(s, 0, "git@"@) == use_git_at && starts_at(s, gl, host) && starts_at(
                s,
                gl + host.len(),
                tld,
            ) == use_tld && s[ssh_prefix(use_git_at, host, use_tld, tld).len() as int] == ':'
        }),
{
    reveal_strlit("git@");
    let pre = ssh_prefix(use_git_at, host, use_tld, tld);
    let s = pre + after;
    let gpart = opt_seq(use_git_at, "git@"@);
    let tpart = opt_seq(use_tld, tld);
    if use_git_at {
        lemma_starts_at_mid(Seq::empty(), "git@"@, host + tpart + after);
        assert(Seq::empty() + "git@"@ + (host + tpart + after) =~= s);
        assert(starts_at(s, 0, "git@"@));
    } else {
        assert(Seq::empty() + host + (tpart + after) =~= s);
        assert(s[3] == host[3]);
        lemma_not_starts_at_idx(s, 0, "git@"@, 3);
    }
    lemma_starts_at_mid(gpart, host, tpart + after);
    assert(gpart + host + (tpart + after) =~= s);
    let p3 = gpart.len() + host.len() as int;
    if use_tld {
        lemma_starts_at_mid(gpart + host, tld, after);
        assert((gpart + host) + tld + after =~= s);
    } else {
        assert((gpart + host) + after =~= s);
        assert(s[p3] == after[0]);
        lemma_not_starts_at_idx(s, p3, tld, 0);
    }
    assert(s[pre.len() as int] == after[0]);
}

/// Every SSH-form variant resolves to the owner and repository it was
/// written with: `git@` present or absent, the domain suffix present
/// or absent, the repository segment absent, plain, or
/// `.git`-suffixed, a trailing slash or none.
#[verifier::rlimit(100)]
pub proof fn lemma_ssh_variant(
    host: Seq<char>,
    tld: Seq<char>,
    use_git_at: bool,
    use_tld: bool,
    owner: Seq<char>,
    repo: Option<Seq<char>>,
    use_git: bool,
    trail: bool,
)
    requires
        host.len() > 3,
        host[3] != '@',
        tld.len() > 0,
        tld[0] == '.',
        owner.len() > 0,
        forall|k: int| 0 <= k < owner.len() ==> owner[k] != '/' && owner[k] != '.',
        match repo {
            Some(r) => r.len() > 0 && (forall|k: int| 0 <= k < r.len() ==> r[k] != '/') && (
            !use_git ==> !(r.len() > 4 && r.subrange(r.len() - 4, r.len() as int) == ".git"@)),
            None => true,
        },
    ensures
        parse_ssh(
            host,
            tld,
            ssh_variant(use_git_at, host, use_tld, tld, owner, repo, use_git, trail),
        ) == Some((owner, repo)),
{
    reveal_strlit("git@");
    reveal_strlit(":");
    reveal_strlit("/");
    let s = ssh_variant(use_git_at, host, use_tld, tld, owner, repo, use_git, trail);
    let pre = ssh_prefix(use_git_at, host, use_tld, tld);
    let tailpart = match repo {
        None => opt_seq(trail, "/"@),
        Some(r) => "/"@ + r + opt_seq(use_git, ".git"@) + opt_seq(trail, "/"@),
    };
    let after = ":"@ + owner + tailpart;
    assert(s =~= pre + after);
    assert(after[0] == ':');
    lemma_ssh_shape(host, tld, use_git_at, use_tld, after);
    let p4 = pre.len() as int;
    assert(s.subrange(p4, s.len() as int) =~= after);
    assert(tailpart.len() > 0 ==> tailpart[0] == '/');
    lemma_owner_segment2(s, p4, owner, tailpart);
    lemma_parse_tail(s, p4 + 1 + owner.len(), repo, use_git, trail);
}

/// The HTTP matcher never fires on an SSH-form variant: whichever way
/// its optional pieces fall, it runs into the colon where it needs a
/// slash.
#[verifier::rlimit(100)]
proof fn lemma_http_none_on_ssh(
    www: bool,
    host: Seq<char>,
    tld: Seq<char>,
    use_git_at: bool,
    use_tld: bool,
    owner: Seq<char>,
    repo: Option<Seq<char>>,
    use_git: bool,
    trail: bool,
)
    requires
        host.len() > 3,
        host[0] != 'h',
        host[0] != 'w',
        host[3] != '@',
        tld.len() > 0,
        tld[0] == '.',
        owner.len() > 0,
    ensures
        parse_http(
            www,
            host,
            tld,
            ssh_variant(use_git_at, host, use_tld, tld, owner, repo, use_git, trail),
        ) is None,
{
    reveal_strlit("");
    reveal_strlit("git@");
    reveal_strlit("www.");
    reveal_strlit(":");
    let s = ssh_variant(use_git_at, host, use_tld, tld, owner, repo, use_git, trail);
    let gpart = opt_seq(use_git_at, "git@"@);
    let tpart = opt_seq(use_tld, tld);
    let tailpart = match repo {
        None => opt_seq(trail, "/"@),
        Some(r) => "/"@ + r + opt_seq(use_git, ".git"@) + opt_seq(trail, "/"@),
    };
    let after = ":"@ + owner + tailpart;
    let rest = gpart + host + tpart + after;
    assert(s =~= ""@ + rest);
    assert(s =~= rest);
    assert(rest[0] == (if use_git_at {
        'g'
    } else {
        host[0]
    }));
    assert(s[0] == rest[0]);
    lemma_scheme_end(""@, rest);
    assert(scheme_end(s) == 0);
    lemma_not_starts_at_idx(s, 0, "www."@, 0);
    if use_git_at {
        assert(s[3] == '@');
        lemma_not_starts_at_idx(s, 0, host, 3);
    } else {
        lemma_starts_at_mid(Seq::empty(), host, tpart + after);
        assert(Seq::empty() + host + (tpart + after) =~= s);
        assert(starts_at(s, 0, host));
        let p3 = host.len() as int;
        if use_tld {
            lemma_starts_at_mid(host, tld, after);
            assert(host + tld + after =~= s);
            assert(starts_at(s, p3, tld));
            let p4 = p3 + tld.len() as int;
            assert((host + tpart) + after =~= s);
            assert(s[p4] == after[0]);
            assert(after[0] == ':');
        } else {
            assert(host + after =~= s);
            assert(s[p3] == after[0]);
            assert(after[0] == ':');
            lemma_not_starts_at_idx(s, p3, tld, 0);
        }
    }
}

/// Every SSH-form variant resolves through the whole grammar — the
/// HTTP form, tried first, never claims it.
pub proof fn lemma_ssh_location_variant(
    www: bool,
    host: Seq<char>,
    tld: Seq<char>,
    bare_slash: bool,
    use_git_at: bool,
    use_tld: bool,
    owner: Seq<char>,
    repo: Option<Seq<char>>,
    use_git: bool,
    trail: bool,
)
    requires
        host.len() > 3,
        host[0] != 'h',
        host[0] != 'w',
        host[3] != '@',
        tld.len() > 0,
        tld[0] == '.',
        owner.len() > 0,
        forall|k: int| 0 <= k < owner.len() ==> owner[k] != '/' && owner[k] != '.',
        match repo {
            Some(r) => r.len() > 0 && (forall|k: int| 0 <= k < r.len() ==> r[k] != '/') && (
            !use_git ==> !(r.len() > 4 && r.subrange(r.len() - 4, r.len() as int) == ".git"@)),
            None => true,
        },
    ensures
        parse_location(
            www,
            host,
            tld,
            bare_slash,
            ssh_variant(use_git_at, host, use_tld, tld, owner, repo, use_git, trail),
        ) == Some((owner, repo)),
{
    lemma_http_none_on_ssh(www, host, tld, use_git_at, use_tld, owner, repo, use_git, trail);
    lemma_ssh_variant(host, tld, use_git_at, use_tld, owner, repo, use_git, trail);
}

/// The text of one bare-form variant; this form names no repository.
pub open spec fn bare_variant(
    owner: Seq<char>,
    host: Seq<char>,
    use_tld: bool,
    tld: Seq<char>,
    trail: bool,
) -> Seq<char> {
    owner + "@"@ + host + opt_seq(use_tld, tld) + opt_seq(trail, "/"@)
}

/// The HTTP matcher never fires on a text whose only slash, if any,
/// is its final character: it needs a slash with a nonempty segment
/// after it.
proof fn lemma_http_none_without_inner_slash(www: bool, host: Seq<char>, tld: Seq<char>, s: Seq<char>)
    requires
        forall|k: int| 0 <= k < s.len() && s[k] == '/' ==> k == s.len() - 1,
    ensures
        parse_http(www, host, tld, s) is None,
{
    let p1 = scheme_end(s);
    let p2 = if www && starts_at(s, p1, "www."@) {
        p1 + 4
    } else {
        p1
    };
    if starts_at(s, p2, host) {
        let p3 = p2 + host.len();
        let p4 = if starts_at(s, p3, tld) {
            p3 + tld.len() as int
        } else {
            p3
        };
        if 0 <= p4 < s.len() && s[p4] == '/' {
            assert(p4 == s.len() - 1);
            assert(idx_of_from(s, p4 + 1, '/') == s.len());
        }
    }
}

/// The SSH matcher never fires on a text with no colon at all.
proof fn lemma_ssh_none_without_colon(host: Seq<char>, tld: Seq<char>, s: Seq<char>)
    requires
        forall|k: int| 0 <= k < s.len() ==> s[k] != ':',
    ensures
        parse_ssh(host, tld, s) is None,
{
    let p1: int = if starts_at(s, 0, "git@"@) {
        4
    } else {
        0
    };
    if starts_at(s, p1, host) {
        let p3 = p1 + host.len();
        let p4 = if starts_at(s, p3, tld) {
            p3 + tld.len() as int
        } else {
            p3
        };
        assert(0 <= p4 < s.len() ==> s[p4] != ':');
    }
}

/// How the matcher reads a bare-form variant: the only slash, if any,
/// is the last character, no colon occurs, the owner ends at the
/// first `@`, and the host stands right after it.
#[verifier::rlimit(100)]
proof fn lemma_bare_shape(
    owner: Seq<char>,
    host: Seq<char>,
    use_tld: bool,
    tld: Seq<char>,
    trail: bool,
)
    requires
        host.len() > 0,
        forall|k: int| 0 <= k < host.len() ==> host[k] != '@' && host[k] != '/' && host[k] != ':',
        tld.len() > 0,
        tld[0] == '.',
        forall|k: int| 0 <= k < tld.len() ==> tld[k] != '@' && tld[k] != '/' && tld[k] != ':',
        owner.len() > 0,
        forall|k: int|
            0 <= k < owner.len() ==> owner[k] != '@' && owner[k] != '/' && owner[k] != ':',
    ensures
        ({
            let s = bare_variant(owner, host, use_tld, tld, trail);
            let ol = owner.len() as int;
            let p3 = ol + 1 + host.len() as int;
            let p4 = p3 + opt_seq(use_tld, tld).len() as int;
            (forall|k: int| 0 <= k < s.len() && s[k] == '/' ==> k == s.len() - 1) && (forall|
                k: int,
            |
                0 <= k < s.len() ==> s[k] != ':') && idx_of_from(s, 0, '@') == ol && s.subrange(
                0,
                ol,
            ) == owner && starts_at(s, ol + 1, host) && starts_at(s, p3, tld) == use_tld && (if trail {
                p4 + 1 == s.len() && s[p4] == '/'
            } else {
                p4 == s.len()
            })
        }),
{
    reveal_strlit("@");
    reveal_strlit("/");
    let s = bare_variant(owner, host, use_tld, tld, trail);
    let tpart = opt_seq(use_tld, tld);
    let spart = opt_seq(trail, "/"@);
    let ol = owner.len() as int;
    // Characters of the whole text, by region.
    assert(owner + "@"@ + host + tpart + spart =~= s);
    assert forall|k: int| 0 <= k < s.len() implies s[k] == (if k < ol {
        owner[k]
    } else if k == ol {
        '@'
    } else if k < ol + 1 + host.len() {
        host[k - ol - 1]
    } else if k < ol + 1 + host.len() + tpart.len() {
        tpart[k - ol - 1 - host.len()]
    } else {
        '/'
    }) by {
        assert(s[k] == (owner + "@"@ + host + tpart + spart)[k]);
    }
    // No inner slash, no colon anywhere.
    assert forall|k: int| 0 <= k < s.len() && s[k] == '/' implies k == s.len() - 1 by {}
    assert forall|k: int| 0 <= k < s.len() implies s[k] != ':' by {}
    // The owner ends at the first @.
    lemma_idx_of_from_val(s, 0, ol, '@');
    assert(s.subrange(0, ol) =~= owner);
    // The host.
    lemma_starts_at_mid(owner + "@"@, host, tpart + spart);
    assert((owner + "@"@) + host + (tpart + spart) =~= s);
    assert(starts_at(s, ol + 1, host));
    let p3 = ol + 1 + host.len() as int;
    if use_tld {
        lemma_starts_at_mid(owner + "@"@ + host, tld, spart);
        assert((owner + "@"@ + host) + tld + spart =~= s);
        assert(starts_at(s, p3, tld));
    } else {
        if p3 < s.len() {
            assert(s[p3] == '/');
            lemma_not_starts_at_idx(s, p3, tld, 0);
        } else {
            lemma_not_starts_at_idx(s, p3, tld, 0);
        }
    }
    let p4 = p3 + tpart.len() as int;
    if trail {
        assert(s[p4] == '/');
        assert(p4 + 1 == s.len());
    } else {
        assert(p4 == s.len());
    }
}

/// Every bare-form variant resolves to the owner it was written with,
/// through the whole grammar: the owner is everything before the `@`,
/// and the HTTP and SSH forms, tried first, never claim such a text.
pub proof fn lemma_bare_location_variant(
    www: bool,
    host: Seq<char>,
    tld: Seq<char>,
    bare_slash: bool,
    owner: Seq<char>,
    use_tld: bool,
    trail: bool,
)
    requires
        host.len() > 0,
        forall|k: int| 0 <= k < host.len() ==> host[k] != '@' && host[k] != '/' && host[k] != ':',
        tld.len() > 0,
        tld[0] == '.',
        forall|k: int| 0 <= k < tld.len() ==> tld[k] != '@' && tld[k] != '/' && tld[k] != ':',
        owner.len() > 0,
        forall|k: int|
            0 <= k < owner.len() ==> owner[k] != '@' && owner[k] != '/' && owner[k] != ':',
        trail ==> bare_slash,
    ensures
        parse_location(
            www,
            host,
            tld,
            bare_slash,
            bare_variant(owner, host, use_tld, tld, trail),
        ) == Some((owner, None::<Seq<char>>)),
{
    let s = bare_variant(owner, host, use_tld, tld, trail);
    lemma_bare_shape(owner, host, use_tld, tld, trail);
    lemma_http_none_without_inner_slash(www, host, tld, s);
    lemma_ssh_none_without_colon(host, tld, s);
}

/// A bare-form variant written for one host matches no grammar whose
/// host differs: the other grammar's matcher fails at the first
/// differing host character.
pub proof fn lemma_bare_other_host_none(
    www_a: bool,
    host_a: Seq<char>,
    tld_a: Seq<char>,
    bs_a: bool,
    owner: Seq<char>,
    host_b: Seq<char>,
    use_tld: bool,
    tld_b: Seq<char>,
    trail: bool,
    d: int,
)
    requires
        host_b.len() > 0,
        forall|k: int|
            0 <= k < host_b.len() ==> host_b[k] != '@' && host_b[k] != '/' && host_b[k] != ':',
        tld_b.len() > 0,
        tld_b[0] == '.',
        forall|k: int|
            0 <= k < tld_b.len() ==> tld_b[k] != '@' && tld_b[k] != '/' && tld_b[k] != ':',
        owner.len() > 0,
        forall|k: int|
            0 <= k < owner.len() ==> owner[k] != '@' && owner[k] != '/' && owner[k] != ':',
        0 <= d < host_a.len(),
        d < host_b.len(),
        host_a[d] != host_b[d],
    ensures
        parse_location(
            www_a,
            host_a,
            tld_a,
            bs_a,
            bare_variant(owner, host_b, use_tld, tld_b, trail),
        ) is None,
{
    let s = bare_variant(owner, host_b, use_tld, tld_b, trail);
    lemma_bare_shape(owner, host_b, use_tld, tld_b, trail);
    lemma_http_none_without_inner_slash(www_a, host_a, tld_a, s);
    lemma_ssh_none_without_colon(host_a, tld_a, s);
    let ol = owner.len() as int;
    lemma_starts_at_char(s, ol + 1, host_b, d);
    lemma_not_starts_at_idx(s, ol + 1, host_a, d);
}

/// One character of a matched literal.
proof fn lemma_starts_at_char(s: Seq<char>, pos: int, lit: Seq<char>, k: int)
    requires
        starts_at(s, pos, lit),
        0 <= k < lit.len(),
    ensures
        s[pos + k] == lit[k],
{
    assert(s.subrange(pos, pos + lit.len())[k] == s[pos + k]);
}

/// The facts the provider laws need of GitHub's host and suffix.
proof fn lemma_github_host_facts()
    ensures
        "github"@.len() == 6,
        "github"@[0] == 'g',
        "github"@[2] == 't',
        "github"@[3] == 'h',
        forall|k: int|
            0 <= k < 6 ==> "github"@[k] != '@' && "github"@[k] != '/' && "github"@[k] != ':',
        ".com"@.len() == 4,
        ".com"@[0] == '.',
        forall|k: int| 0 <= k < 4 ==> ".com"@[k] != '@' && ".com"@[k] != '/' && ".com"@[k] != ':',
{
    reveal_strlit("github");
    reveal_strlit(".com");
}

/// Every documented GitHub HTTP-form variant resolves to the triple
/// it was written with, all the way through source identification
/// (GitHub's grammar is the first tried).
pub proof fn lemma_github_http(
    sch: Seq<char>,
    use_www: bool,
    use_tld: bool,
    owner: Seq<char>,
    repo: Option<Seq<char>>,
    use_git: bool,
    trail: bool,
)
    requires
        sch == ""@ || sch == "http://"@ || sch == "https://"@,
        owner.len() > 0,
        forall|k: int| 0 <= k < owner.len() ==> owner[k] != '/',
        match repo {
            Some(r) => r.len() > 0 && (forall|k: int| 0 <= k < r.len() ==> r[k] != '/') && (
            !use_git ==> !(r.len() > 4 && r.subrange(r.len() - 4, r.len() as int) == ".git"@)),
            None => true,
        },
    ensures
        ({
            let s = http_variant(sch, use_www, "github"@, use_tld, ".com"@, owner, repo, use_git, trail);
            crate::source::spec_parse_github(s) == Some((owner, repo))
                && crate::source::spec_identify(s) == Some(
                crate::source::SourceModel {
                    provider: crate::services::service::Provider::GitHub,
                    owner: owner,
                    repo: repo,
                },
            )
        }),
{
    reveal_strlit("git@");
    lemma_github_host_facts();
    lemma_http_variant(true, "github"@, ".com"@, sch, use_www, use_tld, owner, repo, use_git, trail);
}

/// Every documented GitHub SSH-form variant resolves to the triple it
/// was written with, through source identification.
pub proof fn lemma_github_ssh(
    use_git_at: bool,
    use_tld: bool,
    owner: Seq<char>,
    repo: Option<Seq<char>>,
    use_git: bool,
    trail: bool,
)
    requires
        owner.len() > 0,
        forall|k: int| 0 <= k < owner.len() ==> owner[k] != '/' && owner[k] != '.',
        match repo {
            Some(r) => r.len() > 0 && (forall|k: int| 0 <= k < r.len() ==> r[k] != '/') && (
            !use_git ==> !(r.len() > 4 && r.subrange(r.len() - 4, r.len() as int) == ".git"@)),
            None => true,
        },
    ensures
        ({
            let s = ssh_variant(use_git_at, "github"@, use_tld, ".com"@, owner, repo, use_git, trail);
            crate::source::spec_parse_github(s) == Some((owner, repo))
                && crate::source::spec_identify(s) == Some(
                crate::source::SourceModel {
                    provider: crate::services::service::Provider::GitHub,
                    owner: owner,
                    repo: repo,
                },
            )
        }),
{
    reveal_strlit("git@");
    lemma_github_host_facts();
    lemma_ssh_location_variant(
        true,
        "github"@,
        ".com"@,
        true,
        use_git_at,
        use_tld,
        owner,
        repo,
        use_git,
        trail,
    );
}

/// Every documented GitHub bare-form variant resolves to its owner
/// (this form names no repository), through source identification.
pub proof fn lemma_github_bare(owner: Seq<char>, use_tld: bool, trail: bool)
    requires
        owner.len() > 0,
        forall|k: int|
            0 <= k < owner.len() ==> owner[k] != '@' && owner[k] != '/' && owner[k] != ':',
    ensures
        ({
            let s = bare_variant(owner, "github"@, use_tld, ".com"@, trail);
            crate::source::spec_parse_github(s) == Some((owner, None::<Seq<char>>))
                && crate::source::spec_identify(s) == Some(
                crate::source::SourceModel {
                    provider: crate::services::service::Provider::GitHub,
                    owner: owner,
                    repo: None,
                },
            )
        }),
{
    reveal_strlit("git@");
    lemma_github_host_facts();
    lemma_bare_location_variant(true, "github"@, ".com"@, true, owner, use_tld, trail);
}

/// The facts the provider laws need of Bitbucket's host and suffix.
proof fn lemma_bitbucket_host_facts()
    ensures
        "bitbucket"@.len() == 9,
        "bitbucket"@[0] == 'b',
        "bitbucket"@[3] == 'b',
        forall|k: int|
            0 <= k < 9 ==> "bitbucket"@[k] != '@' && "bitbucket"@[k] != '/' && "bitbucket"@[k]
                != ':',
        ".org"@.len() == 4,
        ".org"@[0] == '.',
        forall|k: int| 0 <= k < 4 ==> ".org"@[k] != '@' && ".org"@[k] != '/' && ".org"@[k] != ':',
{
    reveal_strlit("bitbucket");
    reveal_strlit(".org");
}

/// Every documented Bitbucket HTTP-form variant resolves to the
/// triple it was written with under Bitbucket's grammar.
pub proof fn lemma_bitbucket_http(
    sch: Seq<char>,
    use_www: bool,
    use_tld: bool,
    owner: Seq<char>,
    repo: Option<Seq<char>>,
    use_git: bool,
    trail: bool,
)
    requires
        sch == ""@ || sch == "http://"@ || sch == "https://"@,
        owner.len() > 0,
        forall|k: int| 0 <= k < owner.len() ==> owner[k] != '/',
        match repo {
            Some(r) => r.len() > 0 && (forall|k: int| 0 <= k < r.len() ==> r[k] != '/') && (
            !use_git ==> !(r.len() > 4 && r.subrange(r.len() - 4, r.len() as int) == ".git"@)),
            None => true,
        },
    ensures
        crate::source::spec_parse_bitbucket(
            http_variant(sch, use_www, "bitbucket"@, use_tld, ".org"@, owner, repo, use_git, trail),
        ) == Some((owner, repo)),
{
    lemma_bitbucket_host_facts();
    lemma_http_variant(
        true,
        "bitbucket"@,
        ".org"@,
        sch,
        use_www,
        use_tld,
        owner,
        repo,
        use_git,
        trail,
    );
}

/// Every documented Bitbucket SSH-form variant resolves to the triple
/// it was written with under Bitbucket's grammar.
pub proof fn lemma_bitbucket_ssh(
    use_git_at: bool,
    use_tld: bool,
    owner: Seq<char>,
    repo: Option<Seq<char>>,
    use_git: bool,
    trail: bool,
)
    requires
        owner.len() > 0,
        forall|k: int| 0 <= k < owner.len() ==> owner[k] != '/' && owner[k] != '.',
        match repo {
            Some(r) => r.len() > 0 && (forall|k: int| 0 <= k < r.len() ==> r[k] != '/') && (
            !use_git ==> !(r.len() > 4 && r.subrange(r.len() - 4, r.len() as int) == ".git"@)),
            None => true,
        },
    ensures
        crate::source::spec_parse_bitbucket(
            ssh_variant(use_git_at, "bitbucket"@, use_tld, ".org"@, owner, repo, use_git, trail),
        ) == Some((owner, repo)),
{
    lemma_bitbucket_host_facts();
    lemma_ssh_location_variant(
        true,
        "bitbucket"@,
        ".org"@,
        true,
        use_git_at,
        use_tld,
        owner,
        repo,
        use_git,
        trail,
    );
}

/// Every documented Bitbucket bare-form variant resolves to its owner
/// under Bitbucket's grammar.
pub proof fn lemma_bitbucket_bare(owner: Seq<char>, use_tld: bool, trail: bool)
    requires
        owner.len() > 0,
        forall|k: int|
            0 <= k < owner.len() ==> owner[k] != '@' && owner[k] != '/' && owner[k] != ':',
    ensures
        crate::source::spec_parse_bitbucket(bare_variant(owner, "bitbucket"@, use_tld, ".org"@, trail))
            == Some((owner, None::<Seq<char>>)),
{
    lemma_bitbucket_host_facts();
    lemma_bare_location_variant(true, "bitbucket"@, ".org"@, true, owner, use_tld, trail);
}

/// The facts the provider laws need of GitLab's host and suffix.
proof fn lemma_gitlab_host_facts()
    ensures
        "gitlab"@.len() == 6,
        "gitlab"@[0] == 'g',
        "gitlab"@[2] == 't',
        "gitlab"@[3] == 'l',
        forall|k: int|
            0 <= k < 6 ==> "gitlab"@[k] != '@' && "gitlab"@[k] != '/' && "gitlab"@[k] != ':',
        ".org"@.len() == 4,
        ".org"@[0] == '.',
        forall|k: int| 0 <= k < 4 ==> ".org"@[k] != '@' && ".org"@[k] != '/' && ".org"@[k] != ':',
{
    reveal_strlit("gitlab");
    reveal_strlit(".org");
}

/// Every documented GitLab HTTP-form variant resolves to the triple
/// it was written with under GitLab's grammar.
pub proof fn lemma_gitlab_http(
    sch: Seq<char>,
    use_www: bool,
    use_tld: bool,
    owner: Seq<char>,
    repo: Option<Seq<char>>,
    use_git: bool,
    trail: bool,
)
    requires
        sch == ""@ || sch == "http://"@ || sch == "https://"@,
        owner.len() > 0,
        forall|k: int| 0 <= k < owner.len() ==> owner[k] != '/',
        match repo {
            Some(r) => r.len() > 0 && (forall|k: int| 0 <= k < r.len() ==> r[k] != '/') && (
            !use_git ==> !(r.len() > 4 && r.subrange(r.len() - 4, r.len() as int) == ".git"@)),
            None => true,
        },
    ensures
        crate::source::spec_parse_gitlab(
            http_variant(sch, use_www, "gitlab"@, use_tld, ".org"@, owner, repo, use_git, trail),
        ) == Some((owner, repo)),
{
    lemma_gitlab_host_facts();
    lemma_http_variant(true, "gitlab"@, ".org"@, sch, use_www, use_tld, owner, repo, use_git, trail);
}

/// Every documented GitLab SSH-form variant resolves to the triple it
/// was written with under GitLab's grammar.
pub proof fn lemma_gitlab_ssh(
    use_git_at: bool,
    use_tld: bool,
    owner: Seq<char>,
    repo: Option<Seq<char>>,
    use_git: bool,
    trail: bool,
)
    requires
        owner.len() > 0,
        forall|k: int| 0 <= k < owner.len() ==> owner[k] != '/' && owner[k] != '.',
        match repo {
            Some(r) => r.len() > 0 && (forall|k: int| 0 <= k < r.len() ==> r[k] != '/') && (
            !use_git ==> !(r.len() > 4 && r.subrange(r.len() - 4, r.len() as int) == ".git"@)),
            None => true,
        },
    ensures
        crate::source::spec_parse_gitlab(
            ssh_variant(use_git_at, "gitlab"@, use_tld, ".org"@, owner, repo, use_git, trail),
        ) == Some((owner, repo)),
{
    lemma_gitlab_host_facts();
    lemma_ssh_location_variant(
        true,
        "gitlab"@,
        ".org"@,
        true,
        use_git_at,
        use_tld,
        owner,
        repo,
        use_git,
        trail,
    );
}

/// Every documented GitLab bare-form variant resolves to its owner
/// under GitLab's grammar.
pub proof fn lemma_gitlab_bare(owner: Seq<char>, use_tld: bool, trail: bool)
    requires
        owner.len() > 0,
        forall|k: int|
            0 <= k < owner.len() ==> owner[k] != '@' && owner[k] != '/' && owner[k] != ':',
    ensures
        crate::source::spec_parse_gitlab(bare_variant(owner, "gitlab"@, use_tld, ".org"@, trail))
            == Some((owner, None::<Seq<char>>)),
{
    lemma_gitlab_host_facts();
    lemma_bare_location_variant(true, "gitlab"@, ".org"@, true, owner, use_tld, trail);
}

/// The facts the provider laws need of the gist hosts.
proof fn lemma_gists_host_facts()
    ensures
        "gist.github"@.len() == 11,
        "gist.github"@[0] == 'g',
        "gist.github"@[2] == 's',
        "gist.github"@[3] == 't',
        "gist.github"@[4] == '.',
        forall|k: int|
            0 <= k < 11 ==> "gist.github"@[k] != '@' && "gist.github"@[k] != '/'
                && "gist.github"@[k] != ':',
        "gists.github"@.len() == 12,
        "gists.github"@[0] == 'g',
        "gists.github"@[2] == 's',
        "gists.github"@[3] == 't',
        "gists.github"@[4] == 's',
        forall|k: int|
            0 <= k < 12 ==> "gists.github"@[k] != '@' && "gists.github"@[k] != '/'
                && "gists.github"@[k] != ':',
        ".com"@.len() == 4,
        ".com"@[0] == '.',
        forall|k: int| 0 <= k < 4 ==> ".com"@[k] != '@' && ".com"@[k] != '/' && ".com"@[k] != ':',
{
    reveal_strlit("gist.github");
    reveal_strlit("gists.github");
    reveal_strlit(".com");
}

/// Every gist HTTP-form variant written with the `gist.github` host
/// resolves to the triple it was written with under the gist grammar.
pub proof fn lemma_gists_http(
    sch: Seq<char>,
    use_tld: bool,
    owner: Seq<char>,
    repo: Option<Seq<char>>,
    use_git: bool,
    trail: bool,
)
    requires
        sch == ""@ || sch == "http://"@ || sch == "https://"@,
        owner.len() > 0,
        forall|k: int| 0 <= k < owner.len() ==> owner[k] != '/',
        match repo {
            Some(r) => r.len() > 0 && (forall|k: int| 0 <= k < r.len() ==> r[k] != '/') && (
            !use_git ==> !(r.len() > 4 && r.subrange(r.len() - 4, r.len() as int) == ".git"@)),
            None => true,
        },
    ensures
        crate::source::spec_parse_gists(
            http_variant(sch, false, "gist.github"@, use_tld, ".com"@, owner, repo, use_git, trail),
        ) == Some((owner, repo)),
{
    lemma_gists_host_facts();
    lemma_http_variant(
        false,
        "gist.github"@,
        ".com"@,
        sch,
        false,
        use_tld,
        owner,
        repo,
        use_git,
        trail,
    );
}

/// Every gist SSH-form variant written with the `gist.github` host
/// resolves to the triple it was written with under the gist grammar.
pub proof fn lemma_gists_ssh(
    use_git_at: bool,
    use_tld: bool,
    owner: Seq<char>,
    repo: Option<Seq<char>>,
    use_git: bool,
    trail: bool,
)
    requires
        owner.len() > 0,
        forall|k: int| 0 <= k < owner.len() ==> owner[k] != '/' && owner[k] != '.',
        match repo {
            Some(r) => r.len() > 0 && (forall|k: int| 0 <= k < r.len() ==> r[k] != '/') && (
            !use_git ==> !(r.len() > 4 && r.subrange(r.len() - 4, r.len() as int) == ".git"@)),
            None => true,
        },
    ensures
        crate::source::spec_parse_gists(
            ssh_variant(use_git_at, "gist.github"@, use_tld, ".com"@, owner, repo, use_git, trail),
        ) == Some((owner, repo)),
{
    lemma_gists_host_facts();
    lemma_ssh_location_variant(
        false,
        "gist.github"@,
        ".com"@,
        false,
        use_git_at,
        use_tld,
        owner,
        repo,
        use_git,
        trail,
    );
}

/// No `@` occurs anywhere in an HTTP-form variant whose owner and
/// repository are free of it.
#[verifier::rlimit(100)]
proof fn lemma_http_variant_no_at(
    sch: Seq<char>,
    use_www: bool,
    host: Seq<char>,
    use_tld: bool,
    tld: Seq<char>,
    owner: Seq<char>,
    repo: Option<Seq<char>>,
    use_git: bool,
    trail: bool,
)
    requires
        sch == ""@ || sch == "http://"@ || sch == "https://"@,
        forall|k: int| 0 <= k < host.len() ==> host[k] != '@',
        forall|k: int| 0 <= k < tld.len() ==> tld[k] != '@',
        forall|k: int| 0 <= k < owner.len() ==> owner[k] != '@',
        match repo {
            Some(r) => forall|k: int| 0 <= k < r.len() ==> r[k] != '@',
            None => true,
        },
    ensures
        forall|k: int|
            0 <= k < http_variant(sch, use_www, host, use_tld, tld, owner, repo, use_git, trail).len()
                ==> http_variant(sch, use_www, host, use_tld, tld, owner, repo, use_git, trail)[k]
                != '@',
{
    reveal_strlit("");
    reveal_strlit("http://");
    reveal_strlit("https://");
    reveal_strlit("www.");
    reveal_strlit("/");
    reveal_strlit(".git");
    let s = http_variant(sch, use_www, host, use_tld, tld, owner, repo, use_git, trail);
    let wpart = opt_seq(use_www, "www."@);
    let tpart = opt_seq(use_tld, tld);
    let tailpart = match repo {
        None => opt_seq(trail, "/"@),
        Some(r) => "/"@ + r + opt_seq(use_git, ".git"@) + opt_seq(trail, "/"@),
    };
    assert(forall|k: int| 0 <= k < sch.len() ==> sch[k] != '@');
    assert(forall|k: int| 0 <= k < wpart.len() ==> wpart[k] != '@');
    assert(forall|k: int| 0 <= k < tpart.len() ==> tpart[k] != '@');
    assert forall|k: int| 0 <= k < tailpart.len() implies tailpart[k] != '@' by {
        match repo {
            None => {},
            Some(r) => {
                if k >= 1 && k < 1 + r.len() {
                    assert(tailpart[k] == r[k - 1]);
                }
            },
        }
    }
    assert(s =~= sch + wpart + host + tpart + "/"@ + owner + tailpart);
    assert forall|k: int| 0 <= k < s.len() implies s[k] != '@' by {
        assert(s[k] == (sch + wpart + host + tpart + "/"@ + owner + tailpart)[k]);
    }
}

/// No `@` occurs anywhere in an SSH-form variant written without
/// `git@` whose owner and repository are free of it.
#[verifier::rlimit(100)]
proof fn lemma_ssh_variant_no_at(
    host: Seq<char>,
    use_tld: bool,
    tld: Seq<char>,
    owner: Seq<char>,
    repo: Option<Seq<char>>,
    use_git: bool,
    trail: bool,
)
    requires
        forall|k: int| 0 <= k < host.len() ==> host[k] != '@',
        forall|k: int| 0 <= k < tld.len() ==> tld[k] != '@',
        forall|k: int| 0 <= k < owner.len() ==> owner[k] != '@',
        match repo {
            Some(r) => forall|k: int| 0 <= k < r.len() ==> r[k] != '@',
            None => true,
        },
    ensures
        forall|k: int|
            0 <= k < ssh_variant(false, host, use_tld, tld, owner, repo, use_git, trail).len()
                ==> ssh_variant(false, host, use_tld, tld, owner, repo, use_git, trail)[k] != '@',
{
    reveal_strlit(":");
    reveal_strlit("/");
    reveal_strlit(".git");
    let s = ssh_variant(false, host, use_tld, tld, owner, repo, use_git, trail);
    let tpart = opt_seq(use_tld, tld);
    let tailpart = match repo {
        None => opt_seq(trail, "/"@),
        Some(r) => "/"@ + r + opt_seq(use_git, ".git"@) + opt_seq(trail, "/"@),
    };
    assert(forall|k: int| 0 <= k < tpart.len() ==> tpart[k] != '@');
    assert forall|k: int| 0 <= k < tailpart.len() implies tailpart[k] != '@' by {
        match repo {
            None => {},
            Some(r) => {
                if k >= 1 && k < 1 + r.len() {
                    assert(tailpart[k] == r[k - 1]);
                }
            },
        }
    }
    assert(s =~= host + tpart + ":"@ + owner + tailpart);
    assert forall|k: int| 0 <= k < s.len() implies s[k] != '@' by {
        assert(s[k] == (host + tpart + ":"@ + owner + tailpart)[k]);
    }
}

/// Every gist bare-form variant written with the `gist.github` host
/// resolves to its owner under the gist grammar (this form takes no
/// trailing slash here).
pub proof fn lemma_gists_bare(owner: Seq<char>, use_tld: bool)
    requires
        owner.len() > 0,
        forall|k: int|
            0 <= k < owner.len() ==> owner[k] != '@' && owner[k] != '/' && owner[k] != ':',
    ensures
        crate::source::spec_parse_gists(bare_variant(owner, "gist.github"@, use_tld, ".com"@, false))
            == Some((owner, None::<Seq<char>>)),
{
    lemma_gists_host_facts();
    lemma_bare_location_variant(false, "gist.github"@, ".com"@, false, owner, use_tld, false);
}

/// An HTTP-form variant written for one host matches no grammar whose
/// host differs: that grammar's HTTP matcher fails at the first
/// differing host character, its SSH matcher at the host or the
/// `git@` probe, and its bare matcher finds no `@` at all.
#[verifier::rlimit(100)]
pub proof fn lemma_location_none_on_http_variant(
    www_a: bool,
    host_a: Seq<char>,
    tld_a: Seq<char>,
    bs_a: bool,
    sch: Seq<char>,
    use_www: bool,
    host_b: Seq<char>,
    use_tld: bool,
    tld_b: Seq<char>,
    owner: Seq<char>,
    repo: Option<Seq<char>>,
    use_git: bool,
    trail: bool,
    d: int,
    d2: int,
)
    requires
        sch == ""@ || sch == "http://"@ || sch == "https://"@,
        host_a.len() > 0,
        host_a[0] != 'h',
        host_a[0] != 'w',
        host_b.len() > 0,
        host_b[0] != 'h',
        host_b[0] != 'w',
        tld_b.len() > 0,
        tld_b[0] == '.',
        owner.len() > 0,
        forall|k: int| 0 <= k < host_b.len() ==> host_b[k] != '@',
        forall|k: int| 0 <= k < tld_b.len() ==> tld_b[k] != '@',
        forall|k: int| 0 <= k < owner.len() ==> owner[k] != '@',
        match repo {
            Some(r) => forall|k: int| 0 <= k < r.len() ==> r[k] != '@',
            None => true,
        },
        0 <= d < host_a.len(),
        d < host_b.len(),
        host_a[d] != host_b[d],
        0 <= d2 < 4,
        d2 < host_b.len(),
        host_b[d2] != "git@"@[d2],
    ensures
        parse_location(
            www_a,
            host_a,
            tld_a,
            bs_a,
            http_variant(sch, use_www, host_b, use_tld, tld_b, owner, repo, use_git, trail),
        ) is None,
{
    reveal_strlit("");
    reveal_strlit("http://");
    reveal_strlit("https://");
    reveal_strlit("git@");
    reveal_strlit("www.");
    reveal_strlit("/");
    let s = http_variant(sch, use_www, host_b, use_tld, tld_b, owner, repo, use_git, trail);
    let pre = http_prefix(sch, use_www, host_b, use_tld, tld_b);
    let tailpart = match repo {
        None => opt_seq(trail, "/"@),
        Some(r) => "/"@ + r + opt_seq(use_git, ".git"@) + opt_seq(trail, "/"@),
    };
    let after = "/"@ + owner + tailpart;
    assert(s =~= pre + after);
    assert(after[0] == '/');
    lemma_http_shape(www_a, host_b, tld_b, sch, use_www, use_tld, after);
    let p1 = sch.len() as int;
    let wl = opt_seq(use_www, "www."@).len() as int;
    // Its HTTP form.
    lemma_starts_at_char(s, p1 + wl, host_b, d);
    if use_www && www_a {
        lemma_not_starts_at_idx(s, p1 + 4, host_a, d);
    } else if use_www && !www_a {
        lemma_starts_at_char(s, p1, "www."@, 0);
        lemma_not_starts_at_idx(s, p1, host_a, 0);
    } else {
        lemma_not_starts_at_idx(s, p1, host_a, d);
    }
    assert(crate::source::parse_http(www_a, host_a, tld_a, s) is None);
    // Its SSH form.
    if sch == ""@ {
        if use_www {
            lemma_starts_at_char(s, 0, "www."@, 0);
            lemma_not_starts_at_idx(s, 0, "git@"@, 0);
            lemma_not_starts_at_idx(s, 0, host_a, 0);
        } else {
            lemma_starts_at_char(s, 0, host_b, d2);
            lemma_not_starts_at_idx(s, 0, "git@"@, d2);
            lemma_starts_at_char(s, 0, host_b, d);
            lemma_not_starts_at_idx(s, 0, host_a, d);
        }
    } else {
        assert(s[0] == sch[0]);
        assert(sch[0] == 'h');
        lemma_not_starts_at_idx(s, 0, "git@"@, 0);
        lemma_not_starts_at_idx(s, 0, host_a, 0);
    }
    assert(crate::source::parse_ssh(host_a, tld_a, s) is None);
    // Its bare form: the text holds no @ at all.
    lemma_http_variant_no_at(sch, use_www, host_b, use_tld, tld_b, owner, repo, use_git, trail);
    lemma_idx_of_from_val(s, 0, s.len() as int, '@');
    assert(crate::source::parse_bare(host_a, tld_a, bs_a, s) is None);
}

/// An SSH-form variant written for one host matches no grammar whose
/// host differs.
#[verifier::rlimit(100)]
pub proof fn lemma_location_none_on_ssh_variant(
    www_a: bool,
    host_a: Seq<char>,
    tld_a: Seq<char>,
    bs_a: bool,
    use_git_at: bool,
    host_b: Seq<char>,
    use_tld: bool,
    tld_b: Seq<char>,
    owner: Seq<char>,
    repo: Option<Seq<char>>,
    use_git: bool,
    trail: bool,
    d: int,
)
    requires
        host_a.len() > 3,
        host_a[0] != 'h',
        host_a[0] != 'w',
        forall|k: int| 0 <= k < host_a.len() ==> host_a[k] != '@',
        host_b.len() > 3,
        host_b[0] != 'h',
        host_b[0] != 'w',
        host_b[0] != 'g' || host_b[3] != '@',
        tld_b.len() > 0,
        tld_b[0] == '.',
        owner.len() > 0,
        forall|k: int| 0 <= k < host_b.len() ==> host_b[k] != '@',
        forall|k: int| 0 <= k < tld_b.len() ==> tld_b[k] != '@',
        forall|k: int| 0 <= k < owner.len() ==> owner[k] != '@',
        match repo {
            Some(r) => forall|k: int| 0 <= k < r.len() ==> r[k] != '@',
            None => true,
        },
        0 <= d < host_a.len(),
        d < host_b.len(),
        host_a[d] != host_b[d],
    ensures
        parse_location(
            www_a,
            host_a,
            tld_a,
            bs_a,
            ssh_variant(use_git_at, host_b, use_tld, tld_b, owner, repo, use_git, trail),
        ) is None,
{
    reveal_strlit("");
    reveal_strlit("http://");
    reveal_strlit("https://");
    reveal_strlit("git@");
    reveal_strlit("www.");
    reveal_strlit(":");
    reveal_strlit("/");
    let s = ssh_variant(use_git_at, host_b, use_tld, tld_b, owner, repo, use_git, trail);
    let pre = ssh_prefix(use_git_at, host_b, use_tld, tld_b);
    let tpart = opt_seq(use_tld, tld_b);
    let tailpart = match repo {
        None => opt_seq(trail, "/"@),
        Some(r) => "/"@ + r + opt_seq(use_git, ".git"@) + opt_seq(trail, "/"@),
    };
    let after = ":"@ + owner + tailpart;
    assert(s =~= pre + after);
    assert(after[0] == ':');
    lemma_ssh_shape(host_b, tld_b, use_git_at, use_tld, after);
    let gl = opt_seq(use_git_at, "git@"@).len() as int;
    // Its SSH form: the host differs.
    lemma_starts_at_char(s, gl, host_b, d);
    lemma_not_starts_at_idx(s, gl, host_a, d);
    assert(crate::source::parse_ssh(host_a, tld_a, s) is None);
    // Its HTTP form: no scheme, no www, and the host fails.
    if use_git_at {
        lemma_starts_at_char(s, 0, "git@"@, 0);
        assert(s[0] == 'g');
        lemma_starts_at_char(s, 0, "git@"@, 3);
        assert(s[3] == '@');
        lemma_not_starts_at_idx(s, 0, host_a, 3);
    } else {
        lemma_starts_at_char(s, 0, host_b, 0);
        lemma_starts_at_char(s, 0, host_b, d);
        lemma_not_starts_at_idx(s, 0, host_a, d);
    }
    assert(scheme_end(s) == 0) by {
        lemma_not_starts_at_idx(s, 0, "https://"@, 0);
        lemma_not_starts_at_idx(s, 0, "http://"@, 0);
    }
    lemma_not_starts_at_idx(s, 0, "www."@, 0);
    assert(crate::source::parse_http(www_a, host_a, tld_a, s) is None);
    // Its bare form.
    if use_git_at {
        assert forall|k: int| 0 <= k < 3 implies s[k] != '@' by {
            lemma_starts_at_char(s, 0, "git@"@, k);
        }
        lemma_idx_of_from_val(s, 0, 3, '@');
        assert(starts_at(s, 4, host_b)) by {
            lemma_starts_at_mid("git@"@, host_b, tpart + after);
            assert("git@"@ + host_b + (tpart + after) =~= s);
        }
        lemma_starts_at_char(s, 4, host_b, d);
        lemma_not_starts_at_idx(s, 4, host_a, d);
    } else {
        lemma_ssh_variant_no_at(host_b, use_tld, tld_b, owner, repo, use_git, trail);
        lemma_idx_of_from_val(s, 0, s.len() as int, '@');
    }
    assert(crate::source::parse_bare(host_a, tld_a, bs_a, s) is None);
}

/// Every gist HTTP-form variant written with the `gists.github` host
/// spelling resolves to the triple it was written with under the gist
/// grammar: the `gist.github` spelling, tried first, never claims it.
#[verifier::rlimit(100)]
pub proof fn lemma_gists_alt_http(
    sch: Seq<char>,
    use_tld: bool,
    owner: Seq<char>,
    repo: Option<Seq<char>>,
    use_git: bool,
    trail: bool,
)
    requires
        sch == ""@ || sch == "http://"@ || sch == "https://"@,
        owner.len() > 0,
        forall|k: int| 0 <= k < owner.len() ==> owner[k] != '/' && owner[k] != '@',
        match repo {
            Some(r) => r.len() > 0 && (forall|k: int|
                0 <= k < r.len() ==> r[k] != '/' && r[k] != '@') && (!use_git ==> !(r.len() > 4
                && r.subrange(r.len() - 4, r.len() as int) == ".git"@)),
            None => true,
        },
    ensures
        crate::source::spec_parse_gists(
            http_variant(sch, false, "gists.github"@, use_tld, ".com"@, owner, repo, use_git, trail),
        ) == Some((owner, repo)),
{
    reveal_strlit("git@");
    lemma_gists_host_facts();
    let hb = "gists.github"@;
    // The written host's grammar matches.
    lemma_http_variant(false, hb, ".com"@, sch, false, use_tld, owner, repo, use_git, trail);
    // The other spelling rejects the text in all three of its forms.
    lemma_location_none_on_http_variant(
        false,
        "gist.github"@,
        ".com"@,
        false,
        sch,
        false,
        hb,
        use_tld,
        ".com"@,
        owner,
        repo,
        use_git,
        trail,
        4,
        2,
    );
}

/// Every gist SSH-form variant written with the `gists.github` host
/// spelling resolves to the triple it was written with under the gist
/// grammar.
#[verifier::rlimit(100)]
pub proof fn lemma_gists_alt_ssh(
    use_git_at: bool,
    use_tld: bool,
    owner: Seq<char>,
    repo: Option<Seq<char>>,
    use_git: bool,
    trail: bool,
)
    requires
        owner.len() > 0,
        forall|k: int|
            0 <= k < owner.len() ==> owner[k] != '/' && owner[k] != '.' && owner[k] != '@',
        match repo {
            Some(r) => r.len() > 0 && (forall|k: int|
                0 <= k < r.len() ==> r[k] != '/' && r[k] != '@') && (!use_git ==> !(r.len() > 4
                && r.subrange(r.len() - 4, r.len() as int) == ".git"@)),
            None => true,
        },
    ensures
        crate::source::spec_parse_gists(
            ssh_variant(use_git_at, "gists.github"@, use_tld, ".com"@, owner, repo, use_git, trail),
        ) == Some((owner, repo)),
{
    reveal_strlit("git@");
    lemma_gists_host_facts();
    let hb = "gists.github"@;
    // The written host's grammar matches (its own HTTP form declines).
    lemma_http_none_on_ssh(false, hb, ".com"@, use_git_at, use_tld, owner, repo, use_git, trail);
    lemma_ssh_variant(hb, ".com"@, use_git_at, use_tld, owner, repo, use_git, trail);
    // The other spelling rejects the text in all three of its forms.
    lemma_location_none_on_ssh_variant(
        false,
        "gist.github"@,
        ".com"@,
        false,
        use_git_at,
        hb,
        use_tld,
        ".com"@,
        owner,
        repo,
        use_git,
        trail,
        4,
    );
}

/// Every gist bare-form variant written with the `gists.github` host
/// spelling resolves to its owner under the gist grammar.
pub proof fn lemma_gists_alt_bare(owner: Seq<char>, use_tld: bool)
    requires
        owner.len() > 0,
        forall|k: int|
            0 <= k < owner.len() ==> owner[k] != '@' && owner[k] != '/' && owner[k] != ':',
    ensures
        crate::source::spec_parse_gists(
            bare_variant(owner, "gists.github"@, use_tld, ".com"@, false),
        ) == Some((owner, None::<Seq<char>>)),
{
    lemma_gists_host_facts();
    lemma_bare_location_variant(false, "gists.github"@, ".com"@, false, owner, use_tld, false);
    lemma_bare_other_host_none(
        false,
        "gist.github"@,
        ".com"@,
        false,
        owner,
        "gists.github"@,
        use_tld,
        ".com"@,
        false,
        4,
    );
}

/// Every gist HTTP-form variant, in either host spelling, resolves
/// through source identification to the gist provider with its
/// written owner and repository: GitHub's grammar, tried first, never
/// claims a gist location.
#[verifier::rlimit(100)]
pub proof fn lemma_identify_gists_http(
    alt: bool,
    sch: Seq<char>,
    use_tld: bool,
    owner: Seq<char>,
    repo: Option<Seq<char>>,
    use_git: bool,
    trail: bool,
)
    requires
        sch == ""@ || sch == "http://"@ || sch == "https://"@,
        owner.len() > 0,
        forall|k: int| 0 <= k < owner.len() ==> owner[k] != '/' && owner[k] != '@',
        match repo {
            Some(r) => r.len() > 0 && (forall|k: int|
                0 <= k < r.len() ==> r[k] != '/' && r[k] != '@') && (!use_git ==> !(r.len() > 4
                && r.subrange(r.len() - 4, r.len() as int) == ".git"@)),
            None => true,
        },
    ensures
        ({
            let hb = if alt {
                "gists.github"@
            } else {
                "gist.github"@
            };
            crate::source::spec_identify(
                http_variant(sch, false, hb, use_tld, ".com"@, owner, repo, use_git, trail),
            ) == Some(
                crate::source::SourceModel {
                    provider: crate::services::service::Provider::GitHubGists,
                    owner: owner,
                    repo: repo,
                },
            )
        }),
{
    reveal_strlit("git@");
    lemma_github_host_facts();
    lemma_gists_host_facts();
    let hb = if alt {
        "gists.github"@
    } else {
        "gist.github"@
    };
    if alt {
        lemma_gists_alt_http(sch, use_tld, owner, repo, use_git, trail);
    } else {
        lemma_gists_http(sch, use_tld, owner, repo, use_git, trail);
    }
    lemma_location_none_on_http_variant(
        true,
        "github"@,
        ".com"@,
        true,
        sch,
        false,
        hb,
        use_tld,
        ".com"@,
        owner,
        repo,
        use_git,
        trail,
        2,
        2,
    );
}

/// Every gist SSH-form variant, in either host spelling, resolves
/// through source identification to the gist provider.
#[verifier::rlimit(100)]
pub proof fn lemma_identify_gists_ssh(
    alt: bool,
    use_git_at: bool,
    use_tld: bool,
    owner: Seq<char>,
    repo: Option<Seq<char>>,
    use_git: bool,
    trail: bool,
)
    requires
        owner.len() > 0,
        forall|k: int|
            0 <= k < owner.len() ==> owner[k] != '/' && owner[k] != '.' && owner[k] != '@',
        match repo {
            Some(r) => r.len() > 0 && (forall|k: int|
                0 <= k < r.len() ==> r[k] != '/' && r[k] != '@') && (!use_git ==> !(r.len() > 4
                && r.subrange(r.len() - 4, r.len() as int) == ".git"@)),
            None => true,
        },
    ensures
        ({
            let hb = if alt {
                "gists.github"@
            } else {
                "gist.github"@
            };
            crate::source::spec_identify(
                ssh_variant(use_git_at, hb, use_tld, ".com"@, owner, repo, use_git, trail),
            ) == Some(
                crate::source::SourceModel {
                    provider: crate::services::service::Provider::GitHubGists,
                    owner: owner,
                    repo: repo,
                },
            )
        }),
{
    reveal_strlit("git@");
    lemma_github_host_facts();
    lemma_gists_host_facts();
    let hb = if alt {
        "gists.github"@
    } else {
        "gist.github"@
    };
    if alt {
        lemma_gists_alt_ssh(use_git_at, use_tld, owner, repo, use_git, trail);
    } else {
        lemma_gists_ssh(use_git_at, use_tld, owner, repo, use_git, trail);
    }
    lemma_location_none_on_ssh_variant(
        true,
        "github"@,
        ".com"@,
        true,
        use_git_at,
        hb,
        use_tld,
        ".com"@,
        owner,
        repo,
        use_git,
        trail,
        2,
    );
}

/// Every gist bare-form variant, in either host spelling, resolves
/// through source identification to the gist provider.
#[verifier::rlimit(100)]
pub proof fn lemma_identify_gists_bare(alt: bool, owner: Seq<char>, use_tld: bool)
    requires
        owner.len() > 0,
        forall|k: int|
            0 <= k < owner.len() ==> owner[k] != '@' && owner[k] != '/' && owner[k] != ':',
    ensures
        ({
            let hb = if alt {
                "gists.github"@
            } else {
                "gist.github"@
            };
            crate::source::spec_identify(bare_variant(owner, hb, use_tld, ".com"@, false)) == Some(
                crate::source::SourceModel {
                    provider: crate::services::service::Provider::GitHubGists,
                    owner: owner,
                    repo: None,
                },
            )
        }),
{
    reveal_strlit("git@");
    lemma_github_host_facts();
    lemma_gists_host_facts();
    let hb = if alt {
        "gists.github"@
    } else {
        "gist.github"@
    };
    if alt {
        lemma_gists_alt_bare(owner, use_tld);
    } else {
        lemma_gists_bare(owner, use_tld);
    }
    lemma_bare_other_host_none(
        true,
        "github"@,
        ".com"@,
        true,
        owner,
        hb,
        use_tld,
        ".com"@,
        false,
        2,
    );
}

/// Every Bitbucket HTTP-form variant resolves through source
/// identification to Bitbucket: neither GitHub's grammar nor either
/// gist spelling, all tried first, claims it.
#[verifier::rlimit(100)]
pub proof fn lemma_identify_bitbucket_http(
    sch: Seq<char>,
    use_www: bool,
    use_tld: bool,
    owner: Seq<char>,
    repo: Option<Seq<char>>,
    use_git: bool,
    trail: bool,
)
    requires
        sch == ""@ || sch == "http://"@ || sch == "https://"@,
        owner.len() > 0,
        forall|k: int| 0 <= k < owner.len() ==> owner[k] != '/' && owner[k] != '@',
        match repo {
            Some(r) => r.len() > 0 && (forall|k: int|
                0 <= k < r.len() ==> r[k] != '/' && r[k] != '@') && (!use_git ==> !(r.len() > 4
                && r.subrange(r.len() - 4, r.len() as int) == ".git"@)),
            None => true,
        },
    ensures
        crate::source::spec_identify(
            http_variant(sch, use_www, "bitbucket"@, use_tld, ".org"@, owner, repo, use_git, trail),
        ) == Some(
            crate::source::SourceModel {
                provider: crate::services::service::Provider::Bitbucket,
                owner: owner,
                repo: repo,
            },
        ),
{
    reveal_strlit("git@");
    lemma_github_host_facts();
    lemma_gists_host_facts();
    lemma_bitbucket_host_facts();
    lemma_bitbucket_http(sch, use_www, use_tld, owner, repo, use_git, trail);
    lemma_location_none_on_http_variant(
        true,
        "github"@,
        ".com"@,
        true,
        sch,
        use_www,
        "bitbucket"@,
        use_tld,
        ".org"@,
        owner,
        repo,
        use_git,
        trail,
        0,
        0,
    );
    lemma_location_none_on_http_variant(
        false,
        "gist.github"@,
        ".com"@,
        false,
        sch,
        use_www,
        "bitbucket"@,
        use_tld,
        ".org"@,
        owner,
        repo,
        use_git,
        trail,
        0,
        0,
    );
    lemma_location_none_on_http_variant(
        false,
        "gists.github"@,
        ".com"@,
        false,
        sch,
        use_www,
        "bitbucket"@,
        use_tld,
        ".org"@,
        owner,
        repo,
        use_git,
        trail,
        0,
        0,
    );
}

/// Every Bitbucket SSH-form variant resolves through source
/// identification to Bitbucket.
#[verifier::rlimit(100)]
pub proof fn lemma_identify_bitbucket_ssh(
    use_git_at: bool,
    use_tld: bool,
    owner: Seq<char>,
    repo: Option<Seq<char>>,
    use_git: bool,
    trail: bool,
)
    requires
        owner.len() > 0,
        forall|k: int|
            0 <= k < owner.len() ==> owner[k] != '/' && owner[k] != '.' && owner[k] != '@',
        match repo {
            Some(r) => r.len() > 0 && (forall|k: int|
                0 <= k < r.len() ==> r[k] != '/' && r[k] != '@') && (!use_git ==> !(r.len() > 4
                && r.subrange(r.len() - 4, r.len() as int) == ".git"@)),
            None => true,
        },
    ensures
        crate::source::spec_identify(
            ssh_variant(use_git_at, "bitbucket"@, use_tld, ".org"@, owner, repo, use_git, trail),
        ) == Some(
            crate::source::SourceModel {
                provider: crate::services::service::Provider::Bitbucket,
                owner: owner,
                repo: repo,
            },
        ),
{
    reveal_strlit("git@");
    lemma_github_host_facts();
    lemma_gists_host_facts();
    lemma_bitbucket_host_facts();
    lemma_bitbucket_ssh(use_git_at, use_tld, owner, repo, use_git, trail);
    lemma_location_none_on_ssh_variant(
        true,
        "github"@,
        ".com"@,
        true,
        use_git_at,
        "bitbucket"@,
        use_tld,
        ".org"@,
        owner,
        repo,
        use_git,
        trail,
        0,
    );
    lemma_location_none_on_ssh_variant(
        false,
        "gist.github"@,
        ".com"@,
        false,
        use_git_at,
        "bitbucket"@,
        use_tld,
        ".org"@,
        owner,
        repo,
        use_git,
        trail,
        0,
    );
    lemma_location_none_on_ssh_variant(
        false,
        "gists.github"@,
        ".com"@,
        false,
        use_git_at,
        "bitbucket"@,
        use_tld,
        ".org"@,
        owner,
        repo,
        use_git,
        trail,
        0,
    );
}

/// Every Bitbucket bare-form variant resolves through source
/// identification to Bitbucket.
#[verifier::rlimit(100)]
pub proof fn lemma_identify_bitbucket_bare(owner: Seq<char>, use_tld: bool, trail: bool)
    requires
        owner.len() > 0,
        forall|k: int|
            0 <= k < owner.len() ==> owner[k] != '@' && owner[k] != '/' && owner[k] != ':',
    ensures
        crate::source::spec_identify(bare_variant(owner, "bitbucket"@, use_tld, ".org"@, trail))
            == Some(
            crate::source::SourceModel {
                provider: crate::services::service::Provider::Bitbucket,
                owner: owner,
                repo: None,
            },
        ),
{
    reveal_strlit("git@");
    lemma_github_host_facts();
    lemma_gists_host_facts();
    lemma_bitbucket_host_facts();
    lemma_bitbucket_bare(owner, use_tld, trail);
    lemma_bare_other_host_none(
        true,
        "github"@,
        ".com"@,
        true,
        owner,
        "bitbucket"@,
        use_tld,
        ".org"@,
        trail,
        0,
    );
    lemma_bare_other_host_none(
        false,
        "gist.github"@,
        ".com"@,
        false,
        owner,
        "bitbucket"@,
        use_tld,
        ".org"@,
        trail,
        0,
    );
    lemma_bare_other_host_none(
        false,
        "gists.github"@,
        ".com"@,
        false,
        owner,
        "bitbucket"@,
        use_tld,
        ".org"@,
        trail,
        0,
    );
}

/// Every GitLab HTTP-form variant resolves through source
/// identification to GitLab: no earlier provider's grammar claims it.
#[verifier::rlimit(100)]
pub proof fn lemma_identify_gitlab_http(
    sch: Seq<char>,
    use_www: bool,
    use_tld: bool,
    owner: Seq<char>,
    repo: Option<Seq<char>>,
    use_git: bool,
    trail: bool,
)
    requires
        sch == ""@ || sch == "http://"@ || sch == "https://"@,
        owner.len() > 0,
        forall|k: int| 0 <= k < owner.len() ==> owner[k] != '/' && owner[k] != '@',
        match repo {
            Some(r) => r.len() > 0 && (forall|k: int|
                0 <= k < r.len() ==> r[k] != '/' && r[k] != '@') && (!use_git ==> !(r.len() > 4
                && r.subrange(r.len() - 4, r.len() as int) == ".git"@)),
            None => true,
        },
    ensures
        crate::source::spec_identify(
            http_variant(sch, use_www, "gitlab"@, use_tld, ".org"@, owner, repo, use_git, trail),
        ) == Some(
            crate::source::SourceModel {
                provider: crate::services::service::Provider::GitLab,
                owner: owner,
                repo: repo,
            },
        ),
{
    reveal_strlit("git@");
    lemma_github_host_facts();
    lemma_gists_host_facts();
    lemma_bitbucket_host_facts();
    lemma_gitlab_host_facts();
    lemma_gitlab_http(sch, use_www, use_tld, owner, repo, use_git, trail);
    lemma_location_none_on_http_variant(
        true,
        "github"@,
        ".com"@,
        true,
        sch,
        use_www,
        "gitlab"@,
        use_tld,
        ".org"@,
        owner,
        repo,
        use_git,
        trail,
        3,
        3,
    );
    lemma_location_none_on_http_variant(
        false,
        "gist.github"@,
        ".com"@,
        false,
        sch,
        use_www,
        "gitlab"@,
        use_tld,
        ".org"@,
        owner,
        repo,
        use_git,
        trail,
        2,
        3,
    );
    lemma_location_none_on_http_variant(
        false,
        "gists.github"@,
        ".com"@,
        false,
        sch,
        use_www,
        "gitlab"@,
        use_tld,
        ".org"@,
        owner,
        repo,
        use_git,
        trail,
        2,
        3,
    );
    lemma_location_none_on_http_variant(
        true,
        "bitbucket"@,
        ".org"@,
        true,
        sch,
        use_www,
        "gitlab"@,
        use_tld,
        ".org"@,
        owner,
        repo,
        use_git,
        trail,
        0,
        3,
    );
}

/// Every GitLab SSH-form variant resolves through source
/// identification to GitLab.
#[verifier::rlimit(100)]
pub proof fn lemma_identify_gitlab_ssh(
    use_git_at: bool,
    use_tld: bool,
    owner: Seq<char>,
    repo: Option<Seq<char>>,
    use_git: bool,
    trail: bool,
)
    requires
        owner.len() > 0,
        forall|k: int|
            0 <= k < owner.len() ==> owner[k] != '/' && owner[k] != '.' && owner[k] != '@',
        match repo {
            Some(r) => r.len() > 0 && (forall|k: int|
                0 <= k < r.len() ==> r[k] != '/' && r[k] != '@') && (!use_git ==> !(r.len() > 4
                && r.subrange(r.len() - 4, r.len() as int) == ".git"@)),
            None => true,
        },
    ensures
        crate::source::spec_identify(
            ssh_variant(use_git_at, "gitlab"@, use_tld, ".org"@, owner, repo, use_git, trail),
        ) == Some(
            crate::source::SourceModel {
                provider: crate::services::service::Provider::GitLab,
                owner: owner,
                repo: repo,
            },
        ),
{
    reveal_strlit("git@");
    lemma_github_host_facts();
    lemma_gists_host_facts();
    lemma_bitbucket_host_facts();
    lemma_gitlab_host_facts();
    lemma_gitlab_ssh(use_git_at, use_tld, owner, repo, use_git, trail);
    lemma_location_none_on_ssh_variant(
        true,
        "github"@,
        ".com"@,
        true,
        use_git_at,
        "gitlab"@,
        use_tld,
        ".org"@,
        owner,
        repo,
        use_git,
        trail,
        3,
    );
    lemma_location_none_on_ssh_variant(
        false,
        "gist.github"@,
        ".com"@,
        false,
        use_git_at,
        "gitlab"@,
        use_tld,
        ".org"@,
        owner,
        repo,
        use_git,
        trail,
        2,
    );
    lemma_location_none_on_ssh_variant(
        false,
        "gists.github"@,
        ".com"@,
        false,
        use_git_at,
        "gitlab"@,
        use_tld,
        ".org"@,
        owner,
        repo,
        use_git,
        trail,
        2,
    );
    lemma_location_none_on_ssh_variant(
        true,
        "bitbucket"@,
        ".org"@,
        true,
        use_git_at,
        "gitlab"@,
        use_tld,
        ".org"@,
        owner,
        repo,
        use_git,
        trail,
        0,
    );
}

/// Every GitLab bare-form variant resolves through source
/// identification to GitLab.
#[verifier::rlimit(100)]
pub proof fn lemma_identify_gitlab_bare(owner: Seq<char>, use_tld: bool, trail: bool)
    requires
        owner.len() > 0,
        forall|k: int|
            0 <= k < owner.len() ==> owner[k] != '@' && owner[k] != '/' && owner[k] != ':',
    ensures
        crate::source::spec_identify(bare_variant(owner, "gitlab"@, use_tld, ".org"@, trail))
            == Some(
            crate::source::SourceModel {
                provider: crate::services::service::Provider::GitLab,
                owner: owner,
                repo: None,
            },
        ),
{
    reveal_strlit("git@");
    lemma_github_host_facts();
    lemma_gists_host_facts();
    lemma_bitbucket_host_facts();
    lemma_gitlab_host_facts();
    lemma_gitlab_bare(owner, use_tld, trail);
    lemma_bare_other_host_none(
        true,
        "github"@,
        ".com"@,
        true,
        owner,
        "gitlab"@,
        use_tld,
        ".org"@,
        trail,
        3,
    );
    lemma_bare_other_host_none(
        false,
        "gist.github"@,
        ".com"@,
        false,
        owner,
        "gitlab"@,
        use_tld,
        ".org"@,
        trail,
        2,
    );
    lemma_bare_other_host_none(
        false,
        "gists.github"@,
        ".com"@,
        false,
        owner,
        "gitlab"@,
        use_tld,
        ".org"@,
        trail,
        2,
    );
    lemma_bare_other_host_none(
        true,
        "bitbucket"@,
        ".org"@,
        true,
        owner,
        "gitlab"@,
        use_tld,
        ".org"@,
        trail,
        0,
    );
}

} // verus!

//! Everything the tool decides about the external `git` binary: which
//! installed versions are acceptable, how the version banner is read,
//! the exact shell commands used to create or refresh a mirror, and an
//! abstract model of what those commands do to a mirror folder.
//!
//! Running `git` itself is process work and lives outside the library;
//! the functions here only compute.

use vstd::prelude::*;

verus! {

/// A `major.minor.patch` version of the installed Git binary.
#[derive(Clone, Copy, Debug, PartialEq, Eq, Structural)]
pub struct Version {
    pub major: u8,
    pub minor: u8,
    pub patch: u8,
}

impl Version {
    pub fn new(major: u8, minor: u8, patch: u8) -> (v: Version)
        ensures
            v == (Version { major, minor, patch }),
    {
        Version { major, minor, patch }
    }
}

/// The tool needs Git 2.0.0 or newer; ordering `major.minor.patch`
/// triples lexicographically, that is exactly `major >= 2`.
pub open spec fn spec_version_supported(v: Version) -> bool {
    v.major >= 2
}

/// Is the installed Git recent enough to be used at all?
pub fn version_supported(v: &Version) -> (r: bool)
    ensures
        r == spec_version_supported(*v),
{
    v.major >= 2
}

/// Is `c` a decimal digit?
pub open spec fn is_digit(c: char) -> bool {
    48 <= (c as int) && (c as int) <= 57
}

/// The numeric value of a digit character.
pub open spec fn digit_val(c: char) -> int {
    (c as int) - 48
}

/// The value of a run of digit characters, most significant first.
pub open spec fn digits_val(s: Seq<char>) -> int
    decreases s.len(),
{
    if s.len() == 0 {
        0
    } else {
        digits_val(s.drop_last()) * 10 + digit_val(s.last())
    }
}

/// The first position at or after `i` holding a non-digit (or the end
/// of the text): the end of the digit run starting at `i`.
pub open spec fn run_end(s: Seq<char>, i: int) -> int
    decreases s.len() - i,
{
    if i < 0 {
        i
    } else if i < s.len() && is_digit(s[i]) {
        run_end(s, i + 1)
    } else {
        i
    }
}

/// Tries to read `digits '.' digits '.' digits` (each run maximal and
/// nonempty) starting exactly at position `i`, yielding the three
/// values.
pub open spec fn triple_at(s: Seq<char>, i: int) -> Option<(int, int, int)> {
    let e1 = run_end(s, i);
    let e2 = run_end(s, e1 + 1);
    let e3 = run_end(s, e2 + 1);
    if e1 == i || e1 >= s.len() || s[e1] != '.' {
        None
    } else if e2 == e1 + 1 || e2 >= s.len() || s[e2] != '.' {
        None
    } else if e3 == e2 + 1 {
        None
    } else {
        Some(
            (
                digits_val(s.subrange(i, e1)),
                digits_val(s.subrange(e1 + 1, e2)),
                digits_val(s.subrange(e2 + 1, e3)),
            ),
        )
    }
}

/// The leftmost version triple in the text, if any.
pub open spec fn first_triple(s: Seq<char>, i: int) -> Option<(int, int, int)>
    decreases s.len() - i,
{
    if i < 0 || i >= s.len() {
        None
    } else {
        match triple_at(s, i) {
            Some(t) => Some(t),
            None => first_triple(s, i + 1),
        }
    }
}

/// What reading a `git version` banner yields: the leftmost
/// `major.minor.patch` triple, provided each component fits in `u8`.
pub open spec fn spec_parse_version(s: Seq<char>) -> Option<Version> {
    match first_triple(s, 0) {
        None => None,
        Some((a, b, c)) => if a <= 255 && b <= 255 && c <= 255 {
            Some(Version { major: a as u8, minor: b as u8, patch: c as u8 })
        } else {
            None
        },
    }
}

/// Is the character at position `j` a decimal digit?
fn digit_at(s: &str, j: usize) -> (r: bool)
    requires
        j < s@.len(),
    ensures
        r == is_digit(s@[j as int]),
{
    let c = s.get_char(j);
    (c as u32) >= 48 && (c as u32) <= 57
}

/// Scans past the digit run starting at `i`, returning its end and its
/// value saturated just above `u8` range.
fn scan_digits(s: &str, i: usize) -> (r: (usize, u32))
    requires
        i <= s@.len(),
        s@.len() < usize::MAX,
    ensures
        r.0 == run_end(s@, i as int),
        i <= r.0 <= s@.len(),
        digits_val(s@.subrange(i as int, r.0 as int)) <= 255 ==> r.1 == digits_val(
            s@.subrange(i as int, r.0 as int),
        ),
        digits_val(s@.subrange(i as int, r.0 as int)) > 255 ==> r.1 > 255,
{
    let slen = s.unicode_len();
    let mut j = i;
    let mut val: u32 = 0;
    proof {
        assert(s@.subrange(i as int, i as int) =~= Seq::<char>::empty());
    }
    while j < slen && digit_at(s, j)
        invariant
            i <= j <= slen,
            slen == s@.len(),
            slen < usize::MAX,
            run_end(s@, j as int) == run_end(s@, i as int),
            forall|k: int| i <= k < j ==> is_digit(s@[k]),
            digits_val(s@.subrange(i as int, j as int)) <= 255 ==> val == digits_val(
                s@.subrange(i as int, j as int),
            ),
            digits_val(s@.subrange(i as int, j as int)) > 255 ==> 255 < val <= 2815,
        decreases slen - j,
    {
        let c = s.get_char(j);
        let d = (c as u32) - 48;
        proof {
            assert(s@.subrange(i as int, j + 1).drop_last() =~= s@.subrange(i as int, j as int));
            assert(s@.subrange(i as int, j + 1).last() == s@[j as int]);
        }
        val = if val > 255 {
            256
        } else {
            val * 10 + d
        };
        j = j + 1;
    }
    proof {
        if j < slen {
            assert(!is_digit(s@[j as int]));
        }
    }
    (j, val)
}

/// Reads the version triple out of whatever `git version` printed, as
/// the leftmost `digits.digits.digits` group in the text. A component
/// beyond `u8` range makes the banner unusable.
pub fn parse_git_version(s: &str) -> (r: Option<Version>)
    requires
        s@.len() < usize::MAX,
    ensures
        r == spec_parse_version(s@),
{
    let slen = s.unicode_len();
    let mut i: usize = 0;
    while i < slen
        invariant
            i <= slen,
            slen == s@.len(),
            slen < usize::MAX,
            first_triple(s@, 0) == first_triple(s@, i as int),
        decreases slen - i,
    {
        let (e1, v1) = scan_digits(s, i);
        if e1 > i && e1 < slen && s.get_char(e1) == '.' {
            let (e2, v2) = scan_digits(s, e1 + 1);
            if e2 > e1 + 1 && e2 < slen && s.get_char(e2) == '.' {
                let (e3, v3) = scan_digits(s, e2 + 1);
                if e3 > e2 + 1 {
                    assert(triple_at(s@, i as int) == Some(
                        (
                            digits_val(s@.subrange(i as int, e1 as int)),
                            digits_val(s@.subrange(e1 + 1, e2 as int)),
                            digits_val(s@.subrange(e2 + 1, e3 as int)),
                        ),
                    ));
                    if v1 <= 255 && v2 <= 255 && v3 <= 255 {
                        return Some(
                            Version { major: v1 as u8, minor: v2 as u8, patch: v3 as u8 },
                        );
                    } else {
                        return None;
                    }
                }
            }
        }
        assert(triple_at(s@, i as int) is None);
        i = i + 1;
    }
    None
}

/// The shell text a clone starts from: a bare clone whose credential
/// helper reads the username and secret from the process environment,
/// so that neither ever appears on a command line or in persisted
/// configuration.
pub open spec fn spec_clone_prefix() -> Seq<char> {
    "\n        git clone \\\n            --bare \\\n            --config credential.helper='!f() { sleep 1; echo \"username=${GIT_USER}\"; echo \"password=${GIT_PASSWORD}\"; }; f' \\\n    "@
}

/// The full shell command that clones `url` into the current directory
/// as a bare mirror.
pub open spec fn spec_git_clone_cmd(url: Seq<char>) -> Seq<char> {
    spec_clone_prefix() + url + " ."@
}

/// The shell command that refreshes an existing mirror: fetch every
/// ref, pruning refs (and through the refspec, tags) deleted upstream.
pub open spec fn spec_git_fetch_cmd() -> Seq<char> {
    "git fetch origin '+*:*' --prune"@
}

/// Builds the shell command that clones `repo_url` into the current
/// directory as a bare mirror, credentials supplied via environment.
pub fn git_clone_cmd(repo_url: &str) -> (r: String)
    ensures
        r@ == spec_git_clone_cmd(repo_url@),
{
    let mut cmd = String::from_str(
        "\n        git clone \\\n            --bare \\\n            --config credential.helper='!f() { sleep 1; echo \"username=${GIT_USER}\"; echo \"password=${GIT_PASSWORD}\"; }; f' \\\n    ",
    );
    cmd.append(repo_url);
    cmd.append(" .");
    proof {
        assert(cmd@ =~= spec_git_clone_cmd(repo_url@));
    }
    cmd
}

/// Builds the shell command that updates an existing bare mirror.
pub fn git_fetch_cmd() -> (r: String)
    ensures
        r@ == spec_git_fetch_cmd(),
{
    String::from_str("git fetch origin '+*:*' --prune")
}

/// What one repository sync will do to its destination folder.
#[derive(Clone, Copy, Debug, PartialEq, Eq, Structural)]
pub enum SyncAction {
    /// The folder holds no initialized bare repository yet: clone.
    Clone,
    /// The folder already holds one (its marker file exists): fetch.
    Fetch,
}

/// The decision a sync makes, given whether the destination already
/// contains the marker file of an initialized bare repository.
pub open spec fn spec_sync_action(is_repo: bool) -> SyncAction {
    if is_repo {
        SyncAction::Fetch
    } else {
        SyncAction::Clone
    }
}

/// Decides how one repository is synced and hands back the exact shell
/// command to run: an incremental fetch when the destination already
/// is a bare repository, a fresh bare clone otherwise.
pub fn sync_plan(is_repo: bool, repo_url: &str) -> (r: (SyncAction, String))
    ensures
        r.0 == spec_sync_action(is_repo),
        is_repo ==> r.1@ == spec_git_fetch_cmd(),
        !is_repo ==> r.1@ == spec_git_clone_cmd(repo_url@),
{
    if is_repo {
        (SyncAction::Fetch, git_fetch_cmd())
    } else {
        (SyncAction::Clone, git_clone_cmd(repo_url))
    }
}

/// An abstract mirror folder: whether its bare-repository marker
/// exists, and the refs it holds (name to target).
pub struct MirrorModel {
    pub initialized: bool,
    pub refs: Map<Seq<char>, Seq<char>>,
}

/// What one completed sync leaves behind, whichever action ran: a bare
/// clone copies every remote ref, and a fetch of `+*:*` with pruning
/// makes the local ref set equal to the remote one again.
pub open spec fn spec_apply_sync(m: MirrorModel, remote: Map<Seq<char>, Seq<char>>) -> MirrorModel {
    MirrorModel { initialized: true, refs: remote }
}

/// Syncing is idempotent: against an unchanged remote, a second sync
/// leaves the mirror exactly as the first did, and the second sync
/// decides to fetch rather than clone.
pub proof fn lemma_sync_idempotent(m: MirrorModel, remote: Map<Seq<char>, Seq<char>>)
    ensures
        spec_apply_sync(spec_apply_sync(m, remote), remote) == spec_apply_sync(m, remote),
        spec_sync_action(spec_apply_sync(m, remote).initialized) == SyncAction::Fetch,
{
}

} // verus!

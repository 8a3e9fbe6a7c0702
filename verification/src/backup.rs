//! The backup orchestrator's decisions.
//!
//! A run resolves its source to one provider client, enumerates (the
//! caller performing the requests the client asks for), then derives
//! the work: one sync item per descriptor, and — when pruning is
//! requested — the set of mirror-suffixed folders that no listed
//! repository accounts for. Everything here is a pure decision;
//! executing the work (and choosing not to, under dry-run) belongs to
//! the caller.

use crate::services::bitbucket::{bitbucket_step_m, Bitbucket};
use crate::services::github::{github_step_m, GitHub};
use crate::services::github_gists::{gists_step_m, GitHubGists};
use crate::services::gitlab::{gitlab_step_m, GitLab};
use crate::services::service::{Provider, RepoModel, Repository, Service};
use crate::services::session::{
    repos_view, strs_view, vec_contains_str, EnumState, StartOutcome, StepOutcome,
};
use crate::source::spec_identify;
use crate::strutil::match_at;
use vstd::prelude::*;

verus! {

/// Derives the on-disk folder name for a repository: `<name>.git`.
pub fn repo_name_to_folder(repo_name: &str) -> (r: String)
    ensures
        r@ == repo_name@ + ".git"@,
{
    let s = String::from_str(repo_name);
    s.concat(".git")
}

/// The provider client a recognised source selects, behind one
/// dispatching handle.
pub enum ServiceHandle {
    GitHub(GitHub),
    GitHubGists(GitHubGists),
    Bitbucket(Bitbucket),
    GitLab(GitLab),
}

impl ServiceHandle {
    /// Which provider this handle enumerates.
    pub open spec fn provider(&self) -> Provider {
        match self {
            ServiceHandle::GitHub(_) => Provider::GitHub,
            ServiceHandle::GitHubGists(_) => Provider::GitHubGists,
            ServiceHandle::Bitbucket(_) => Provider::Bitbucket,
            ServiceHandle::GitLab(_) => Provider::GitLab,
        }
    }

    /// The owner the handle enumerates for.
    pub open spec fn spec_owner(&self) -> Seq<char> {
        match self {
            ServiceHandle::GitHub(g) => g.owner@,
            ServiceHandle::GitHubGists(g) => g.owner@,
            ServiceHandle::Bitbucket(g) => g.owner@,
            ServiceHandle::GitLab(g) => g.owner@,
        }
    }

    /// The single repository the source named, if any.
    pub open spec fn spec_repo(&self) -> Option<Seq<char>> {
        match self {
            ServiceHandle::GitHub(g) => match g.repo {
                Some(r) => Some(r@),
                None => None,
            },
            ServiceHandle::GitHubGists(g) => match g.repo {
                Some(r) => Some(r@),
                None => None,
            },
            ServiceHandle::Bitbucket(g) => match g.repo {
                Some(r) => Some(r@),
                None => None,
            },
            ServiceHandle::GitLab(g) => match g.repo {
                Some(r) => Some(r@),
                None => None,
            },
        }
    }

    /// The token the handle authenticates with.
    pub open spec fn spec_token(&self) -> Seq<char> {
        match self {
            ServiceHandle::GitHub(g) => g.token@,
            ServiceHandle::GitHubGists(g) => g.token@,
            ServiceHandle::Bitbucket(g) => g.token@,
            ServiceHandle::GitLab(g) => g.token@,
        }
    }

    /// The username handed to the credential helper: the owner.
    pub fn username(&self) -> (r: String)
        ensures
            r@ == self.spec_owner(),
    {
        match self {
            ServiceHandle::GitHub(g) => g.username(),
            ServiceHandle::GitHubGists(g) => g.username(),
            ServiceHandle::Bitbucket(g) => g.username(),
            ServiceHandle::GitLab(g) => g.username(),
        }
    }

    /// Opens the enumeration with the selected provider's client.
    pub fn start(&self) -> (r: StartOutcome)
        ensures
            self.spec_repo() is Some ==> r is Immediate,
            self.spec_repo() is None ==> r is Fetch,
            match r {
                StartOutcome::Immediate(v) => repos_view(v@).len() == 1 && repos_view(
                    v@,
                )[0].name == self.spec_repo()->Some_0,
                StartOutcome::Fetch(st, _) => st@.repos == Seq::<RepoModel>::empty() && st@.seen
                    == Seq::<Seq<char>>::empty(),
            },
    {
        match self {
            ServiceHandle::GitHub(g) => g.start(),
            ServiceHandle::GitHubGists(g) => g.start(),
            ServiceHandle::Bitbucket(g) => g.start(),
            ServiceHandle::GitLab(g) => g.start(),
        }
    }

    /// Feeds one response back into the selected provider's client.
    pub fn step(&self, st: EnumState, status: u16, body: &str) -> (r: StepOutcome)
        ensures
            match self {
                ServiceHandle::GitHub(g) => r@ == github_step_m(
                    g.owner@,
                    g.token@,
                    st@,
                    status,
                    body@,
                ),
                ServiceHandle::GitHubGists(g) => r@ == gists_step_m(
                    g.owner@,
                    g.token@,
                    st@,
                    status,
                    body@,
                ),
                ServiceHandle::Bitbucket(g) => r@ == bitbucket_step_m(
                    g.owner@,
                    g.token@,
                    st@,
                    status,
                    body@,
                ),
                ServiceHandle::GitLab(_) => r@ == gitlab_step_m(st@, status, body@),
            },
    {
        match self {
            ServiceHandle::GitHub(g) => g.step(st, status, body),
            ServiceHandle::GitHubGists(g) => g.step(st, status, body),
            ServiceHandle::Bitbucket(g) => g.step(st, status, body),
            ServiceHandle::GitLab(g) => g.step(st, status, body),
        }
    }
}

/// Resolves a location to a provider client, trying the providers in
/// registration order; `None` — which the caller reports as a source
/// that was not recognised — exactly when no grammar matches.
pub fn pick_service(url: String, token: String) -> (r: Option<ServiceHandle>)
    ensures
        match spec_identify(url@) {
            None => r is None,
            Some(m) => match r {
                Some(h) => h.provider() == m.provider && h.spec_owner() == m.owner && h.spec_repo()
                    == m.repo && h.spec_token() == token@,
                None => false,
            },
        },
{
    if let Some(gh) = GitHub::new(url.clone(), token.clone()) {
        Some(ServiceHandle::GitHub(gh))
    } else if let Some(gg) = GitHubGists::new(url.clone(), token.clone()) {
        Some(ServiceHandle::GitHubGists(gg))
    } else if let Some(bb) = Bitbucket::new(url.clone(), token.clone()) {
        Some(ServiceHandle::Bitbucket(bb))
    } else if let Some(gl) = GitLab::new(url, token) {
        Some(ServiceHandle::GitLab(gl))
    } else {
        None
    }
}

/// One direct child of the destination directory, as the orchestrator
/// sees it: its name (absent when it is not valid text) and whether it
/// is a directory. Entries the caller could not read at all never
/// reach the orchestrator; they are skipped the same way.
pub struct FolderEntry {
    pub name: Option<String>,
    pub is_dir: bool,
}

/// The mathematical image of a [`FolderEntry`].
pub struct FolderEntryModel {
    pub name: Option<Seq<char>>,
    pub is_dir: bool,
}

impl View for FolderEntry {
    type V = FolderEntryModel;

    open spec fn view(&self) -> FolderEntryModel {
        FolderEntryModel {
            name: match self.name {
                Some(n) => Some(n@),
                None => None,
            },
            is_dir: self.is_dir,
        }
    }
}

/// The image of an entry list.
pub open spec fn entries_view(v: Seq<FolderEntry>) -> Seq<FolderEntryModel> {
    v.map_values(|e: FolderEntry| e@)
}

/// Does the name end in the mirror suffix `.git`?
pub open spec fn ends_with_git(n: Seq<char>) -> bool {
    n.len() >= 4 && n.subrange(n.len() - 4, n.len() as int) == ".git"@
}

/// Is this entry pruned? Only a readable directory, with a textual
/// name ending in the mirror suffix, that no kept folder name matches;
/// files, unreadable or oddly-named entries, and anything else are
/// left untouched rather than erroring the run.
pub open spec fn should_prune(e: FolderEntryModel, keep: Seq<Seq<char>>) -> bool {
    e.is_dir && match e.name {
        Some(n) => ends_with_git(n) && !keep.contains(n),
        None => false,
    }
}

/// The names pruned among the entries from position `i` on, in order.
pub open spec fn spec_prune_from(
    entries: Seq<FolderEntryModel>,
    keep: Seq<Seq<char>>,
    i: int,
) -> Seq<Seq<char>>
    decreases entries.len() - i,
{
    if i < 0 || i >= entries.len() {
        Seq::empty()
    } else if should_prune(entries[i], keep) {
        seq![entries[i].name->Some_0] + spec_prune_from(entries, keep, i + 1)
    } else {
        spec_prune_from(entries, keep, i + 1)
    }
}

/// Nothing kept is ever pruned, and nothing without the mirror suffix
/// is ever pruned: every name the prune plan lists ends in `.git` and
/// matches no currently listed repository's folder.
pub proof fn lemma_prune_plan_sound(entries: Seq<FolderEntryModel>, keep: Seq<Seq<char>>, i: int)
    ensures
        forall|j: int|
            0 <= j < spec_prune_from(entries, keep, i).len() ==> ends_with_git(
                spec_prune_from(entries, keep, i)[j],
            ) && !keep.contains(spec_prune_from(entries, keep, i)[j]),
    decreases entries.len() - i,
{
    if i < 0 || i >= entries.len() {
    } else {
        lemma_prune_plan_sound(entries, keep, i + 1);
        let r = spec_prune_from(entries, keep, i);
        let rest = spec_prune_from(entries, keep, i + 1);
        if should_prune(entries[i], keep) {
            assert forall|j: int| 0 <= j < r.len() implies ends_with_git(r[j]) && !keep.contains(
                r[j],
            ) by {
                if j == 0 {
                    assert(r[0] == entries[i].name->Some_0);
                } else {
                    assert(r[j] == rest[j - 1]);
                }
            }
        }
    }
}

/// Does the folder name end in `.git`?
fn ends_with_git_x(n: &str) -> (r: bool)
    ensures
        r == ends_with_git(n@),
{
    let len = n.unicode_len();
    if len < 4 {
        proof {
            reveal_strlit(".git");
        }
        return false;
    }
    proof {
        reveal_strlit(".git");
    }
    match_at(n, len - 4, ".git")
}

/// Computes which folders a prune pass removes: the mirror-suffixed
/// directories among `entries` whose names are not in `keep`.
pub fn prune_plan(entries: &Vec<FolderEntry>, keep: &Vec<String>) -> (r: Vec<String>)
    ensures
        strs_view(r@) == spec_prune_from(entries_view(entries@), strs_view(keep@), 0),
{
    let n = entries.len();
    let mut out: Vec<String> = Vec::new();
    let mut i: usize = 0;
    while i < n
        invariant
            i <= n,
            n == entries@.len(),
            strs_view(out@) + spec_prune_from(entries_view(entries@), strs_view(keep@), i as int)
                == spec_prune_from(entries_view(entries@), strs_view(keep@), 0),
        decreases n - i,
    {
        let e = &entries[i];
        if e.is_dir {
            match &e.name {
                Some(nm) => {
                    if ends_with_git_x(nm.as_str()) && !vec_contains_str(keep, nm.as_str()) {
                        let ghost out0 = out@;
                        out.push(nm.clone());
                        proof {
                            assert(strs_view(out@) =~= strs_view(out0) + seq![nm@]);
                            assert(strs_view(out@) + spec_prune_from(
                                entries_view(entries@),
                                strs_view(keep@),
                                i + 1,
                            ) =~= spec_prune_from(entries_view(entries@), strs_view(keep@), 0));
                        }
                    } else {
                        proof {
                            assert(!should_prune(entries_view(entries@)[i as int], strs_view(
                                keep@,
                            )));
                        }
                    }
                },
                None => {},
            }
        }
        i = i + 1;
    }
    proof {
        assert(strs_view(out@) + Seq::<Seq<char>>::empty() =~= strs_view(out@));
    }
    out
}

/// The folder names the just-listed repositories occupy: the keep set
/// a prune pass must never touch.
pub fn keep_folders(repos: &Vec<Repository>) -> (r: Vec<String>)
    ensures
        r@.len() == repos@.len(),
        forall|i: int| 0 <= i < repos@.len() ==> r@[i]@ == repos@[i]@.name + ".git"@,
{
    let n = repos.len();
    let mut out: Vec<String> = Vec::new();
    let mut i: usize = 0;
    while i < n
        invariant
            i <= n,
            n == repos@.len(),
            out@.len() == i,
            forall|k: int| 0 <= k < i ==> out@[k]@ == repos@[k]@.name + ".git"@,
        decreases n - i,
    {
        out.push(repo_name_to_folder(repos[i].name.as_str()));
        i = i + 1;
    }
    out
}

/// The options a run is configured with.
#[derive(Clone, Copy, Debug, PartialEq, Eq, Structural)]
pub struct RunOpts {
    /// Remove mirror folders no listed repository accounts for.
    pub prune: bool,
    /// Decide everything, mutate nothing.
    pub dry_run: bool,
}

/// One repository's share of the work: the folder it mirrors into and
/// the URL it is cloned or fetched from.
pub struct SyncItem {
    pub folder: String,
    pub git_url: String,
}

/// The mathematical image of a [`SyncItem`].
pub struct SyncItemModel {
    pub folder: Seq<char>,
    pub git_url: Seq<char>,
}

impl View for SyncItem {
    type V = SyncItemModel;

    open spec fn view(&self) -> SyncItemModel {
        SyncItemModel { folder: self.folder@, git_url: self.git_url@ }
    }
}

/// Everything one run decides to do: the sync items in listing order,
/// and — only when pruning was requested — the folders to remove.
pub struct WorkPlan {
    pub syncs: Vec<SyncItem>,
    pub prunes: Option<Vec<String>>,
}

/// The mathematical image of a [`WorkPlan`].
pub struct WorkPlanModel {
    pub syncs: Seq<SyncItemModel>,
    pub prunes: Option<Seq<Seq<char>>>,
}

impl View for WorkPlan {
    type V = WorkPlanModel;

    open spec fn view(&self) -> WorkPlanModel {
        WorkPlanModel {
            syncs: self.syncs@.map_values(|s: SyncItem| s@),
            prunes: match &self.prunes {
                Some(p) => Some(strs_view(p@)),
                None => None,
            },
        }
    }
}

/// The folder names a descriptor list occupies.
pub open spec fn folders_of(repos: Seq<RepoModel>) -> Seq<Seq<char>> {
    repos.map_values(|r: RepoModel| r.name + ".git"@)
}

/// What a run decides, as a function of the prune flag, the listing,
/// and the destination's entries — and of nothing else: the dry-run
/// flag is not an input, so a dry run reports exactly the work a wet
/// run would execute.
pub open spec fn spec_plan(
    prune: bool,
    repos: Seq<RepoModel>,
    entries: Seq<FolderEntryModel>,
) -> WorkPlanModel {
    WorkPlanModel {
        syncs: repos.map_values(
            |r: RepoModel| SyncItemModel { folder: r.name + ".git"@, git_url: r.git_url },
        ),
        prunes: if prune {
            Some(spec_prune_from(entries, folders_of(repos), 0))
        } else {
            None
        },
    }
}

/// Derives the run's work plan from the listing and the destination's
/// entries.
pub fn plan_work(opts: &RunOpts, repos: &Vec<Repository>, entries: &Vec<FolderEntry>) -> (r:
    WorkPlan)
    ensures
        r@ == spec_plan(opts.prune, repos_view(repos@), entries_view(entries@)),
{
    let n = repos.len();
    let mut syncs: Vec<SyncItem> = Vec::new();
    let mut i: usize = 0;
    while i < n
        invariant
            i <= n,
            n == repos@.len(),
            syncs@.len() == i,
            forall|k: int| 0 <= k < i ==> syncs@[k]@ == (SyncItemModel {
                folder: repos@[k]@.name + ".git"@,
                git_url: repos@[k]@.git_url,
            }),
        decreases n - i,
    {
        syncs.push(
            SyncItem {
                folder: repo_name_to_folder(repos[i].name.as_str()),
                git_url: repos[i].git_url.clone(),
            },
        );
        i = i + 1;
    }
    let prunes: Option<Vec<String>> = if opts.prune {
        let keep = keep_folders(repos);
        proof {
            assert(strs_view(keep@) =~= folders_of(repos_view(repos@)));
        }
        Some(prune_plan(entries, &keep))
    } else {
        None
    };
    let r = WorkPlan { syncs, prunes };
    proof {
        assert(r@.syncs =~= spec_plan(
            opts.prune,
            repos_view(repos@),
            entries_view(entries@),
        ).syncs);
    }
    r
}

/// Dry-run changes what is executed, never what is decided: two
/// configurations that agree on pruning — whatever their dry-run
/// flags — decide the identical plan, clone-or-fetch and prune alike.
pub proof fn lemma_dry_run_same_plan(
    a: RunOpts,
    b: RunOpts,
    repos: Seq<RepoModel>,
    entries: Seq<FolderEntryModel>,
)
    requires
        a.prune == b.prune,
    ensures
        spec_plan(a.prune, repos, entries) == spec_plan(b.prune, repos, entries),
{
}

} // verus!

use git_backup::backup::{plan_work, prune_plan, repo_name_to_folder, FolderEntry, RunOpts};
use git_backup::git::{
    git_clone_cmd, git_fetch_cmd, parse_git_version, sync_plan, version_supported, SyncAction,
    Version,
};
use git_backup::services::service::Repository;

const CLONE_PREFIX: &str = "\n        git clone \\\n            --bare \\\n            --config credential.helper='!f() { sleep 1; echo \"username=${GIT_USER}\"; echo \"password=${GIT_PASSWORD}\"; }; f' \\\n    ";

#[test]
fn version_banner_is_parsed() {
    assert_eq!(parse_git_version("git version 2.39.5"), Some(Version::new(2, 39, 5)));
    assert_eq!(
        parse_git_version("git version 2.39.5 (Apple Git-143)"),
        Some(Version::new(2, 39, 5))
    );
    assert_eq!(parse_git_version("1.2 3.4.5"), Some(Version::new(3, 4, 5)));
    assert_eq!(parse_git_version("0.0.0"), Some(Version::new(0, 0, 0)));
    assert_eq!(parse_git_version("no digits here"), None);
    assert_eq!(parse_git_version("only 1.2 pairs"), None);
    assert_eq!(parse_git_version("git version 300.1.1"), None);
}

#[test]
fn old_git_versions_are_rejected() {
    assert!(version_supported(&Version::new(2, 0, 0)));
    assert!(version_supported(&Version::new(2, 39, 5)));
    assert!(version_supported(&Version::new(3, 0, 0)));
    assert!(!version_supported(&Version::new(1, 9, 9)));
    assert!(!version_supported(&Version::new(0, 0, 0)));
}

#[test]
fn clone_and_fetch_commands_are_exact() {
    assert_eq!(
        git_clone_cmd("https://github.com/jsdw/repo"),
        format!("{}https://github.com/jsdw/repo .", CLONE_PREFIX)
    );
    assert_eq!(git_fetch_cmd(), "git fetch origin '+*:*' --prune");
}

#[test]
fn sync_decides_fetch_only_for_initialized_mirrors() {
    let (action, cmd) = sync_plan(false, "https://example.invalid/r");
    assert_eq!(action, SyncAction::Clone);
    assert_eq!(cmd, format!("{}https://example.invalid/r .", CLONE_PREFIX));
    let (action, cmd) = sync_plan(true, "https://example.invalid/r");
    assert_eq!(action, SyncAction::Fetch);
    assert_eq!(cmd, "git fetch origin '+*:*' --prune");
}

#[test]
fn folder_names_carry_the_mirror_suffix() {
    assert_eq!(repo_name_to_folder("tool"), "tool.git");
    assert_eq!(repo_name_to_folder(""), ".git");
}

fn dir(name: &str) -> FolderEntry {
    FolderEntry { name: Some(name.to_owned()), is_dir: true }
}

fn file(name: &str) -> FolderEntry {
    FolderEntry { name: Some(name.to_owned()), is_dir: false }
}

#[test]
fn pruning_removes_only_unlisted_mirror_folders() {
    let entries = vec![
        dir("a.git"),
        dir("b.git"),
        dir("keep.git"),
        file("x.git"),
        dir("plain"),
        file("notes.txt"),
        FolderEntry { name: None, is_dir: true },
    ];
    let keep = vec!["keep.git".to_owned()];
    let pruned = prune_plan(&entries, &keep);
    assert_eq!(pruned, vec!["a.git".to_owned(), "b.git".to_owned()]);
}

#[test]
fn pruning_an_empty_destination_removes_nothing() {
    let pruned = prune_plan(&Vec::new(), &vec!["keep.git".to_owned()]);
    assert!(pruned.is_empty());
}

fn repo(name: &str, url: &str) -> Repository {
    Repository { git_url: url.to_owned(), name: name.to_owned() }
}

#[test]
fn the_plan_is_the_same_with_and_without_dry_run() {
    let repos = vec![repo("keep", "https://example.invalid/keep")];
    let entries = vec![dir("a.git"), dir("keep.git")];
    let wet = plan_work(&RunOpts { prune: true, dry_run: false }, &repos, &entries);
    let dry = plan_work(&RunOpts { prune: true, dry_run: true }, &repos, &entries);
    assert_eq!(wet.syncs.len(), dry.syncs.len());
    for (w, d) in wet.syncs.iter().zip(dry.syncs.iter()) {
        assert_eq!(w.folder, d.folder);
        assert_eq!(w.git_url, d.git_url);
    }
    assert_eq!(wet.prunes, dry.prunes);
    assert_eq!(wet.prunes, Some(vec!["a.git".to_owned()]));
}

#[test]
fn the_plan_prunes_nothing_unless_asked() {
    let repos = vec![repo("one", "u1"), repo("two", "u2")];
    let entries = vec![dir("stale.git")];
    let plan = plan_work(&RunOpts { prune: false, dry_run: false }, &repos, &entries);
    assert_eq!(plan.prunes, None);
    assert_eq!(plan.syncs.len(), 2);
    assert_eq!(plan.syncs[0].folder, "one.git");
    assert_eq!(plan.syncs[0].git_url, "u1");
    assert_eq!(plan.syncs[1].folder, "two.git");
}

use git_backup::backup::{pick_service, ServiceHandle};
use git_backup::services::bitbucket::Bitbucket;
use git_backup::services::github::GitHub;
use git_backup::services::github_gists::GitHubGists;
use git_backup::services::gitlab::GitLab;
use git_backup::services::service::Provider;
use git_backup::source::identify;

#[test]
fn github_test_valid_urls() {
    let urls = vec![
        ("http://www.github.com/jsdw", "jsdw"),
        ("http://www.github.com/jsdw/", "jsdw"),
        ("http://github.com/jsdw", "jsdw"),
        ("https://github.com/jsdw", "jsdw"),
        ("https://github/jsdw", "jsdw"),
        ("github.com/jsdw", "jsdw"),
        ("github.com/jsdw/", "jsdw"),
        ("github/jsdw", "jsdw"),
        ("git@github.com:jsdw", "jsdw"),
        ("git@github.com:jsdw/", "jsdw"),
        ("github.com:jsdw", "jsdw"),
        ("github.com:jsdw/", "jsdw"),
        ("github:jsdw", "jsdw"),
        ("jsdw@github.com", "jsdw"),
        ("jsdw@github", "jsdw"),
    ];
    for (url, owner) in urls {
        if let Some(gh) = GitHub::new(url.to_owned(), "token".to_owned()) {
            assert_eq!(
                gh.owner(),
                owner,
                "url {} expected owner {} but got {}",
                url,
                owner,
                gh.owner()
            );
        } else {
            panic!("url {} was not parsed properly", url);
        }
    }
}

#[test]
fn github_gists_test_valid_urls() {
    let urls = vec![
        ("http://gist.github.com/jsdw", "jsdw"),
        ("http://gists.github.com/jsdw", "jsdw"),
        ("https://gist.github.com/jsdw", "jsdw"),
        ("https://gists.github.com/jsdw", "jsdw"),
        ("https://gist.github/jsdw", "jsdw"),
        ("https://gists.github/jsdw", "jsdw"),
        ("gist.github.com/jsdw", "jsdw"),
        ("gist.github/jsdw", "jsdw"),
        ("git@gist.github.com:jsdw", "jsdw"),
        ("gist.github.com:jsdw", "jsdw"),
        ("gist.github:jsdw", "jsdw"),
        ("jsdw@gist.github.com", "jsdw"),
        ("jsdw@gist.github", "jsdw"),
    ];
    for (url, owner) in urls {
        if let Some(gh) = GitHubGists::new(url.to_owned(), "token".to_owned()) {
            assert_eq!(
                gh.owner(),
                owner,
                "url {} expected owner {} but got {}",
                url,
                owner,
                gh.owner()
            );
        } else {
            panic!("url {} was not parsed properly", url);
        }
    }
}

#[test]
fn bitbucket_test_valid_urls() {
    let urls = vec![
        ("http://www.bitbucket.org/jsdw", "jsdw"),
        ("http://www.bitbucket.org/jsdw/", "jsdw"),
        ("http://bitbucket.org/jsdw", "jsdw"),
        ("https://bitbucket.org/jsdw", "jsdw"),
        ("https://bitbucket/jsdw", "jsdw"),
        ("bitbucket.org/jsdw", "jsdw"),
        ("bitbucket.org/jsdw/", "jsdw"),
        ("bitbucket/jsdw", "jsdw"),
        ("git@bitbucket.org:jsdw", "jsdw"),
        ("git@bitbucket.org:jsdw/", "jsdw"),
        ("bitbucket.org:jsdw", "jsdw"),
        ("bitbucket.org:jsdw/", "jsdw"),
        ("bitbucket:jsdw", "jsdw"),
        ("jsdw@bitbucket.org", "jsdw"),
        ("jsdw@bitbucket", "jsdw"),
    ];
    for (url, owner) in urls {
        if let Some(gh) = Bitbucket::new(url.to_owned(), "token".to_owned()) {
            assert_eq!(
                gh.owner(),
                owner,
                "url {} expected owner {} but got {}",
                url,
                owner,
                gh.owner()
            );
        } else {
            panic!("url {} was not parsed properly", url);
        }
    }
}

#[test]
fn gitlab_test_valid_urls() {
    let urls = vec![
        ("http://www.gitlab.org/jsdw", "jsdw"),
        ("http://www.gitlab.org/jsdw/", "jsdw"),
        ("http://gitlab.org/jsdw", "jsdw"),
        ("https://gitlab.org/jsdw", "jsdw"),
        ("https://gitlab/jsdw", "jsdw"),
        ("gitlab.org/jsdw", "jsdw"),
        ("gitlab.org/jsdw/", "jsdw"),
        ("gitlab/jsdw", "jsdw"),
        ("git@gitlab.org:jsdw", "jsdw"),
        ("git@gitlab.org:jsdw/", "jsdw"),
        ("gitlab.org:jsdw", "jsdw"),
        ("gitlab.org:jsdw/", "jsdw"),
        ("gitlab:jsdw", "jsdw"),
        ("jsdw@gitlab.org", "jsdw"),
        ("jsdw@gitlab", "jsdw"),
    ];
    for (url, owner) in urls {
        if let Some(gh) = GitLab::new(url.to_owned(), "token".to_owned()) {
            assert_eq!(
                gh.owner(),
                owner,
                "url {} expected owner {} but got {}",
                url,
                owner,
                gh.owner()
            );
        } else {
            panic!("url {} was not parsed properly", url);
        }
    }
}

#[test]
fn identify_recognises_each_provider() {
    let cases = vec![
        ("github.com/jsdw", Provider::GitHub),
        ("gist.github.com/jsdw", Provider::GitHubGists),
        ("bitbucket.org/jsdw", Provider::Bitbucket),
        ("gitlab.org/jsdw", Provider::GitLab),
    ];
    for (url, provider) in cases {
        let src = identify(url).expect(url);
        assert_eq!(src.provider, provider, "url {}", url);
        assert_eq!(src.owner, "jsdw");
        assert_eq!(src.repo, None);
    }
}

#[test]
fn identify_rejects_unrecognised_sources() {
    let bad = vec![
        "",
        "nonsense",
        "https://example.com/jsdw",
        "gitlab.com/jsdw",
        "github.com/",
        "github.com",
        "git@github.com:js.dw",
        "ftp://github.com/jsdw",
        "github.com/jsdw/repo/extra",
    ];
    for url in bad {
        assert!(identify(url).is_none(), "url {} should not be recognised", url);
    }
}

#[test]
fn identify_extracts_single_repository() {
    let src = identify("github.com/jsdw/myrepo").expect("with repo");
    assert_eq!(src.provider, Provider::GitHub);
    assert_eq!(src.owner, "jsdw");
    assert_eq!(src.repo.as_deref(), Some("myrepo"));

    let src = identify("https://github.com/jsdw/myrepo.git").expect("with .git");
    assert_eq!(src.repo.as_deref(), Some("myrepo"));

    let src = identify("git@github.com:jsdw/myrepo.git/").expect("ssh with repo");
    assert_eq!(src.owner, "jsdw");
    assert_eq!(src.repo.as_deref(), Some("myrepo"));

    let src = identify("bitbucket.org/jsdw/tool/").expect("bitbucket repo");
    assert_eq!(src.provider, Provider::Bitbucket);
    assert_eq!(src.repo.as_deref(), Some("tool"));
}

#[test]
fn pick_service_follows_registration_order() {
    match pick_service("github.com/jsdw".to_owned(), "t".to_owned()) {
        Some(ServiceHandle::GitHub(g)) => assert_eq!(g.owner(), "jsdw"),
        _ => panic!("expected the GitHub client"),
    }
    match pick_service("gists.github.com/jsdw".to_owned(), "t".to_owned()) {
        Some(ServiceHandle::GitHubGists(g)) => assert_eq!(g.owner(), "jsdw"),
        _ => panic!("expected the gist client"),
    }
    assert!(pick_service("unknown host".to_owned(), "t".to_owned()).is_none());
}

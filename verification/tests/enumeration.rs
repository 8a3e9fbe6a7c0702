use git_backup::json::{json_arr_field, json_escape, json_field, json_str_field};
use git_backup::services::bitbucket::Bitbucket;
use git_backup::services::github::GitHub;
use git_backup::services::github_gists::GitHubGists;
use git_backup::services::gitlab::GitLab;
use git_backup::services::service::{EnumError, MalformedKind, Provider};
use git_backup::services::session::{HttpRequest, Method, StartOutcome, StepOutcome};

fn github_client() -> GitHub {
    GitHub::new("github.com/jsdw".to_owned(), "token".to_owned()).expect("client")
}

fn open_fetch(start: StartOutcome) -> (git_backup::services::session::EnumState, HttpRequest) {
    match start {
        StartOutcome::Fetch(st, req) => (st, req),
        StartOutcome::Immediate(_) => panic!("expected a first request"),
    }
}

#[test]
fn json_fields_are_read_from_documents() {
    let doc = "{\"a\":{\"b\":\"x\"},\"n\":7,\"list\":[1,2,3]}";
    let inner = json_field(doc, "a").expect("a");
    assert_eq!(json_str_field(&inner, "b").as_deref(), Some("x"));
    assert_eq!(json_str_field(doc, "n"), None);
    assert_eq!(json_arr_field(doc, "list").expect("list").len(), 3);
    assert_eq!(json_field(doc, "missing"), None);
    assert_eq!(json_field("not json", "a"), None);
}

#[test]
fn json_escape_renders_every_escape() {
    assert_eq!(json_escape("plain"), "plain");
    assert_eq!(json_escape("a\"b"), "a\\\"b");
    assert_eq!(json_escape("a\\b"), "a\\\\b");
    assert_eq!(json_escape("a\nb\rc\td"), "a\\nb\\rc\\td");
    assert_eq!(json_escape("\u{01}"), "\\u0001");
    assert_eq!(json_escape("\u{1f}"), "\\u001f");
    assert_eq!(json_escape(""), "");
}

#[test]
fn github_start_posts_the_graphql_query() {
    let (st, req) = open_fetch(github_client().start());
    assert_eq!(st.repos.len(), 0);
    assert_eq!(req.method, Method::Post);
    assert_eq!(req.url, "https://api.github.com/graphql");
    assert_eq!(req.headers[0].0, "Authorization");
    assert_eq!(req.headers[0].1, "bearer token");
    let body = req.body.expect("body");
    assert!(body.starts_with("{\"query\":\"query($user:String!,$cursor:String)"));
    assert!(body.ends_with("\"variables\":{\"cursor\":null,\"user\":\"jsdw\"}}"));
}

#[test]
fn github_owner_is_escaped_into_the_request_body() {
    let gh = GitHub::new("github.com/j\"s".to_owned(), "t".to_owned()).expect("client");
    let (_, req) = open_fetch(gh.start());
    let body = req.body.expect("body");
    assert!(body.ends_with("\"user\":\"j\\\"s\"}}"));
}

#[test]
fn github_pagination_concatenates_every_page_in_order() {
    let gh = github_client();
    let (st, _) = open_fetch(gh.start());
    let page1 = "{\"data\":{\"user\":{\"repositories\":{\"pageInfo\":{\"endCursor\":\"C1\"},\"nodes\":[{\"name\":\"r1\",\"url\":\"u1\"},{\"name\":\"r2\",\"url\":\"u2\"}]}}}}";
    let st = match gh.step(st, 200, page1) {
        StepOutcome::Continue(st, req) => {
            let body = req.body.expect("body");
            assert!(body.contains("\"cursor\":\"C1\""));
            st
        },
        _ => panic!("expected a second page request"),
    };
    let page2 = "{\"data\":{\"user\":{\"repositories\":{\"pageInfo\":{\"endCursor\":\"C2\"},\"nodes\":[{\"name\":\"r3\",\"url\":\"u3\"}]}}}}";
    let st = match gh.step(st, 200, page2) {
        StepOutcome::Continue(st, _) => st,
        _ => panic!("expected a third page request"),
    };
    let page3 = "{\"data\":{\"user\":{\"repositories\":{\"pageInfo\":{\"endCursor\":null},\"nodes\":[{\"name\":\"r4\",\"url\":\"u4\"}]}}}}";
    match gh.step(st, 200, page3) {
        StepOutcome::Done(repos) => {
            let names: Vec<&str> = repos.iter().map(|r| r.name.as_str()).collect();
            assert_eq!(names, vec!["r1", "r2", "r3", "r4"]);
            let urls: Vec<&str> = repos.iter().map(|r| r.git_url.as_str()).collect();
            assert_eq!(urls, vec!["u1", "u2", "u3", "u4"]);
        },
        _ => panic!("expected the enumeration to finish"),
    }
}

#[test]
fn github_repeated_cursor_is_a_protocol_violation() {
    let gh = github_client();
    let (st, _) = open_fetch(gh.start());
    let page = "{\"data\":{\"user\":{\"repositories\":{\"pageInfo\":{\"endCursor\":\"SAME\"},\"nodes\":[]}}}}";
    let st = match gh.step(st, 200, page) {
        StepOutcome::Continue(st, _) => st,
        _ => panic!("expected a second page request"),
    };
    match gh.step(st, 200, page) {
        StepOutcome::Failed(EnumError::ProtocolViolation(Provider::GitHub)) => {},
        _ => panic!("expected a protocol violation"),
    }
}

#[test]
fn github_error_statuses_map_to_categories() {
    let gh = github_client();
    let (st, _) = open_fetch(gh.start());
    match gh.step(st, 401, "") {
        StepOutcome::Failed(EnumError::Auth(Provider::GitHub)) => {},
        _ => panic!("expected an auth failure"),
    }
    let (st, _) = open_fetch(gh.start());
    match gh.step(st, 503, "") {
        StepOutcome::Failed(EnumError::Http(Provider::GitHub, 503)) => {},
        _ => panic!("expected an HTTP failure"),
    }
    let (st, _) = open_fetch(gh.start());
    match gh.step(st, 200, "this is not json") {
        StepOutcome::Failed(EnumError::Malformed(Provider::GitHub, MalformedKind::NotJson)) => {},
        _ => panic!("expected a malformed body"),
    }
    let (st, _) = open_fetch(gh.start());
    let missing = "{\"data\":{\"user\":{\"repositories\":{\"nodes\":[{\"url\":\"u\"}]}}}}";
    match gh.step(st, 200, missing) {
        StepOutcome::Failed(EnumError::Malformed(Provider::GitHub, MalformedKind::MissingName)) => {
        },
        _ => panic!("expected a missing name"),
    }
}

#[test]
fn github_single_repository_short_circuits() {
    let gh = GitHub::new("github.com/jsdw/myrepo".to_owned(), "t".to_owned()).expect("client");
    match gh.start() {
        StartOutcome::Immediate(repos) => {
            assert_eq!(repos.len(), 1);
            assert_eq!(repos[0].name, "myrepo");
            assert_eq!(repos[0].git_url, "https://github.com/jsdw/myrepo");
        },
        StartOutcome::Fetch(_, _) => panic!("expected no provider call"),
    }
}

#[test]
fn gists_collisions_are_renamed_deterministically() {
    let gg = GitHubGists::new("gist.github.com/jsdw".to_owned(), "t".to_owned()).expect("client");
    let page = "{\"data\":{\"user\":{\"gists\":{\"pageInfo\":{\"endCursor\":null},\"nodes\":[{\"url\":\"g1\",\"files\":[{\"name\":\"notes\"}]},{\"url\":\"g2\",\"files\":[{\"name\":\"notes\"}]},{\"url\":\"g3\",\"files\":[{\"name\":\"other\"}]},{\"url\":\"g4\",\"files\":[{\"name\":\"notes\"}]}]}}}}";
    let run = || {
        let (st, _) = open_fetch(gg.start());
        match gg.step(st, 200, page) {
            StepOutcome::Done(repos) => repos
                .iter()
                .map(|r| r.name.clone())
                .collect::<Vec<String>>(),
            _ => panic!("expected the enumeration to finish"),
        }
    };
    let first = run();
    assert_eq!(first, vec!["notes", "notes 2", "other", "notes 3"]);
    assert_eq!(first, run(), "renaming must be stable across runs");
}

#[test]
fn gists_renaming_counts_past_nine() {
    let gg = GitHubGists::new("gist.github.com/jsdw".to_owned(), "t".to_owned()).expect("client");
    let mut nodes = String::new();
    for i in 0..11 {
        if i > 0 {
            nodes.push(',');
        }
        nodes.push_str(&format!(
            "{{\"url\":\"g{}\",\"files\":[{{\"name\":\"dup\"}}]}}",
            i
        ));
    }
    let page = format!(
        "{{\"data\":{{\"user\":{{\"gists\":{{\"pageInfo\":{{\"endCursor\":null}},\"nodes\":[{}]}}}}}}}}",
        nodes
    );
    let (st, _) = open_fetch(gg.start());
    match gg.step(st, 200, &page) {
        StepOutcome::Done(repos) => {
            assert_eq!(repos[0].name, "dup");
            assert_eq!(repos[1].name, "dup 2");
            assert_eq!(repos[9].name, "dup 10");
            assert_eq!(repos[10].name, "dup 11");
        },
        _ => panic!("expected the enumeration to finish"),
    }
}

#[test]
fn gists_missing_file_name_is_malformed() {
    let gg = GitHubGists::new("gist.github.com/jsdw".to_owned(), "t".to_owned()).expect("client");
    let (st, _) = open_fetch(gg.start());
    let page = "{\"data\":{\"user\":{\"gists\":{\"nodes\":[{\"url\":\"g1\",\"files\":[]}]}}}}";
    match gg.step(st, 200, page) {
        StepOutcome::Failed(
            EnumError::Malformed(Provider::GitHubGists, MalformedKind::MissingName),
        ) => {},
        _ => panic!("expected a missing gist name"),
    }
}

#[test]
fn bitbucket_follows_the_embedded_next_link() {
    let bb = Bitbucket::new("bitbucket.org/jsdw".to_owned(), "tkn".to_owned()).expect("client");
    let (st, req) = open_fetch(bb.start());
    assert_eq!(req.method, Method::Get);
    assert_eq!(
        req.url,
        "https://api.bitbucket.org/2.0/repositories/jsdw?fields=next,values.slug,values.scm,values.links.clone,values.is_private,values.owner.nickname&role=owner"
    );
    assert_eq!(req.headers[0].0, "Authorization");
    assert_eq!(req.headers[0].1, "Basic anNkdzp0a24=");
    let page1 = "{\"next\":\"https://api.bitbucket.org/page/2?opaque=tok\",\"values\":[{\"scm\":\"git\",\"slug\":\"one\",\"links\":{\"clone\":[{\"name\":\"ssh\",\"href\":\"sshurl\"},{\"name\":\"https\",\"href\":\"httpsurl\"}]}}]}";
    let st = match bb.step(st, 200, page1) {
        StepOutcome::Continue(st, req) => {
            assert_eq!(req.url, "https://api.bitbucket.org/page/2?opaque=tok");
            st
        },
        _ => panic!("expected the next page to be followed"),
    };
    let page2 = "{\"values\":[{\"scm\":\"hg\",\"slug\":\"mercurial\"},{\"scm\":\"git\",\"slug\":\"nohttps\",\"links\":{\"clone\":[{\"name\":\"ssh\",\"href\":\"s\"}]}},{\"scm\":\"git\",\"slug\":\"two\",\"links\":{\"clone\":[{\"name\":\"https\",\"href\":\"h2\"}]}}]}";
    match bb.step(st, 200, page2) {
        StepOutcome::Done(repos) => {
            let names: Vec<&str> = repos.iter().map(|r| r.name.as_str()).collect();
            assert_eq!(names, vec!["one", "two"]);
            assert_eq!(repos[0].git_url, "httpsurl");
            assert_eq!(repos[1].git_url, "h2");
        },
        _ => panic!("expected the enumeration to finish"),
    }
}

#[test]
fn bitbucket_missing_slug_is_malformed() {
    let bb = Bitbucket::new("bitbucket.org/jsdw".to_owned(), "t".to_owned()).expect("client");
    let (st, _) = open_fetch(bb.start());
    let page = "{\"values\":[{\"scm\":\"git\"}]}";
    match bb.step(st, 200, page) {
        StepOutcome::Failed(
            EnumError::Malformed(Provider::Bitbucket, MalformedKind::MissingName),
        ) => {},
        _ => panic!("expected a missing repository name"),
    }
}

#[test]
fn gitlab_lists_in_a_single_page() {
    let gl = GitLab::new("gitlab.org/jsdw".to_owned(), "tkn".to_owned()).expect("client");
    let (st, req) = open_fetch(gl.start());
    assert_eq!(req.method, Method::Get);
    assert_eq!(req.url, "https://gitlab.com/api/v4/users/jsdw/projects?simple=true&owned=true");
    assert_eq!(req.headers[0].0, "Private-Token");
    assert_eq!(req.headers[0].1, "tkn");
    let body = "[{\"http_url_to_repo\":\"https://gitlab.com/jsdw/a.git\",\"path\":\"a\"},{\"http_url_to_repo\":\"https://gitlab.com/jsdw/b.git\",\"path\":\"b\"}]";
    match gl.step(st, 200, body) {
        StepOutcome::Done(repos) => {
            assert_eq!(repos.len(), 2);
            assert_eq!(repos[0].name, "a");
            assert_eq!(repos[1].git_url, "https://gitlab.com/jsdw/b.git");
        },
        _ => panic!("expected the enumeration to finish"),
    }
}

#[test]
fn gitlab_missing_clone_url_is_malformed() {
    let gl = GitLab::new("gitlab.org/jsdw".to_owned(), "t".to_owned()).expect("client");
    let (st, _) = open_fetch(gl.start());
    match gl.step(st, 200, "[{\"path\":\"a\"}]") {
        StepOutcome::Failed(EnumError::Malformed(Provider::GitLab, MalformedKind::MissingUrl)) => {
        },
        _ => panic!("expected a missing clone URL"),
    }
}

pub mod bitbucket;
pub mod github;
pub mod github_gists;
pub mod gitlab;
pub mod service;
pub mod session;

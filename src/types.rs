use vstd::prelude::*;

verus! {

/// A repository event as delivered to a webhook.
#[derive(Debug, Clone, PartialEq, Eq)]
pub enum WebhookEvent {
    Push(PushEvent),
    Release(ReleaseEvent),
    Ping(PingEvent),
}

/// Sent once when a webhook is installed.
#[derive(Debug, Clone, PartialEq, Eq)]
pub struct PingEvent {
    pub zen: String,
    pub hook_id: u64,
    pub hook: WebhookInfo,
}

#[derive(Debug, Clone, PartialEq, Eq)]
pub struct WebhookInfo {
    pub url: String,
    pub test_url: String,
    pub ping_url: String,
    pub id: u64,
    pub active: bool,
}

#[derive(Debug, Clone, PartialEq, Eq)]
pub struct PushEvent {
    pub git_ref: String,
    pub commits: Vec<Commit>,
    pub repository: Repository,
    pub sender: GitHubUser,
}

#[derive(Debug, Clone, PartialEq, Eq)]
pub struct Commit {
    pub id: String,
    pub message: String,
    pub author: CommitAuthor,
    pub url: String,
}

/// The author of a commit, as recorded in the commit.
#[derive(Debug, Clone, PartialEq, Eq)]
pub struct CommitAuthor {
    pub name: String,
    pub email: String,
    pub username: Option<String>,
}

#[derive(Debug, Clone, PartialEq, Eq)]
pub struct Repository {
    pub full_name: String,
    pub owner: GitHubUser,
}

#[derive(Debug, Clone, PartialEq, Eq)]
pub struct GitHubUser {
    pub login: String,
    pub id: u64,
}

#[derive(Debug, Clone, PartialEq, Eq)]
pub struct ReleaseEvent {
    pub action: String,
    pub release: Release,
    pub repository: Repository,
}

#[derive(Debug, Clone, PartialEq, Eq)]
pub struct Release {
    pub tag_name: String,
    pub name: Option<String>,
    pub html_url: String,
}

} // verus!

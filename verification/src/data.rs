//! The records of one harvest: repositories, their commits and each commit's
//! change statistics, as the upstream API describes them.

use vstd::prelude::*;

verus! {

/// An account as the upstream API describes it.
#[derive(Debug, Clone, Hash, PartialEq, Eq)]
pub struct SimpleUser {
    pub name: Option<String>,
    pub email: Option<String>,
    pub login: String,
    pub id: i32,
    pub node_id: String,
    pub avatar_url: String,
    pub gravatar_id: Option<String>,
    pub url: String,
    pub html_url: String,
    pub followers_url: String,
    pub following_url: String,
    pub gists_url: String,
    pub starred_url: String,
    pub subscriptions_url: String,
    pub organizations_url: String,
    pub repos_url: String,
    pub events_url: String,
    pub received_events_url: String,
    pub user_type: String,
    pub site_admin: bool,
    pub starred_at: Option<String>,
}

/// A repository of the organization. The two free-form JSON members
/// (`permissions`, `template_repository`) are held as their JSON text.
#[derive(Debug, Clone, Hash, PartialEq, Eq)]
pub struct MinimalRepository {
    pub id: i32,
    pub node_id: String,
    pub name: String,
    pub full_name: String,
    pub owner: SimpleUser,
    pub private: bool,
    pub html_url: String,
    pub description: Option<String>,
    pub fork: bool,
    pub url: String,
    pub archive_url: Option<String>,
    pub assignees_url: Option<String>,
    pub blobs_url: Option<String>,
    pub branches_url: Option<String>,
    pub collaborators_url: Option<String>,
    pub comments_url: Option<String>,
    pub commits_url: Option<String>,
    pub compare_url: Option<String>,
    pub contents_url: Option<String>,
    pub contributors_url: String,
    pub deployments_url: String,
    pub downloads_url: String,
    pub events_url: String,
    pub forks_url: String,
    pub git_commits_url: Option<String>,
    pub git_refs_url: Option<String>,
    pub git_tags_url: Option<String>,
    pub git_url: Option<String>,
    pub issue_comment_url: Option<String>,
    pub issue_events_url: Option<String>,
    pub issues_url: Option<String>,
    pub keys_url: Option<String>,
    pub labels_url: Option<String>,
    pub languages_url: String,
    pub merges_url: String,
    pub milestones_url: Option<String>,
    pub notifications_url: Option<String>,
    pub pulls_url: Option<String>,
    pub releases_url: Option<String>,
    pub ssh_url: Option<String>,
    pub stargazers_url: String,
    pub statuses_url: Option<String>,
    pub subscribers_url: String,
    pub subscription_url: String,
    pub tags_url: String,
    pub teams_url: String,
    pub trees_url: Option<String>,
    pub clone_url: Option<String>,
    pub mirror_url: Option<String>,
    pub hooks_url: String,
    pub svn_url: Option<String>,
    pub homepage: Option<String>,
    pub language: Option<String>,
    pub forks_count: i32,
    pub stargazers_count: i32,
    pub watchers_count: i32,
    pub size: i32,
    pub default_branch: String,
    pub open_issues_count: i32,
    pub is_template: bool,
    pub topics: Vec<String>,
    pub has_issues: bool,
    pub has_projects: bool,
    pub has_wiki: bool,
    pub has_pages: bool,
    pub has_downloads: bool,
    pub has_discussions: bool,
    pub archived: Option<bool>,
    pub disabled: Option<bool>,
    pub visibility: Option<String>,
    pub pushed_at: Option<String>,
    pub created_at: Option<String>,
    pub updated_at: Option<String>,
    pub permissions: Option<String>,
    pub template_repository: Option<String>,
    pub temp_clone_token: Option<String>,
    pub delete_branch_on_merge: Option<bool>,
    pub subscribers_count: Option<i32>,
    pub network_count: Option<i32>,
}

/// A commit together with its change details.
#[derive(Debug, Clone, Hash, PartialEq, Eq)]
pub struct FullCommitData {
    pub commit: Commit,
    pub changes: CommitChangeDetails,
}

impl FullCommitData {
    /// Joins a listed commit with the change details fetched for it.
    pub fn from(commit: Commit, changes: CommitChangeDetails) -> (result: FullCommitData)
        ensures
            result.commit == commit,
            result.changes == changes,
    {
        FullCommitData { commit, changes }
    }
}

/// One complete harvest: every repository of the organization, in the order
/// in which upstream listed them, each with its commits.
#[derive(Debug, Clone, Hash, PartialEq, Eq)]
pub struct RepositoriesWithCommits {
    pub data: Vec<RepositoryAndCommits>,
}

impl View for RepositoriesWithCommits {
    type V = Seq<RepositoryRecord>;

    open spec fn view(&self) -> Seq<RepositoryRecord> {
        Seq::new(self.data@.len(), |i: int| self.data@[i]@)
    }
}

/// A repository and the commits harvested for it, in upstream order.
#[derive(Debug, Clone, Hash, PartialEq, Eq)]
pub struct RepositoryAndCommits {
    pub repository: MinimalRepository,
    pub commits: Vec<FullCommitData>,
}

impl RepositoryAndCommits {
    /// Joins a repository with the commits harvested for it.
    pub fn from(repository: MinimalRepository, commits: Vec<FullCommitData>) -> (result:
        RepositoryAndCommits)
        ensures
            result.repository == repository,
            result.commits == commits,
    {
        RepositoryAndCommits { repository, commits }
    }
}

/// The mathematical content of a [`RepositoryAndCommits`]: the repository
/// and the sequence of its commits.
pub struct RepositoryRecord {
    pub repository: MinimalRepository,
    pub commits: Seq<FullCommitData>,
}

impl View for RepositoryAndCommits {
    type V = RepositoryRecord;

    open spec fn view(&self) -> RepositoryRecord {
        RepositoryRecord { repository: self.repository, commits: self.commits@ }
    }
}

#[derive(Debug, Clone, Hash, PartialEq, Eq)]
pub struct Commit {
    pub url: String,
    pub sha: String,
    pub node_id: String,
    pub html_url: String,
    pub comments_url: String,
    pub commit: CommitDetails,
    pub author: Option<SimpleUser>,
    pub committer: Option<SimpleUser>,
    pub parents: Vec<Parent>,
}

#[derive(Debug, Clone, Hash, PartialEq, Eq)]
pub struct CommitDetails {
    pub url: String,
    pub author: Option<GitUser>,
    pub committer: Option<GitUser>,
    pub message: String,
    pub comment_count: i32,
    pub tree: Tree,
    pub verification: Verification,
}

#[derive(Debug, Clone, Hash, PartialEq, Eq)]
pub struct GitUser {
    pub name: String,
    pub email: String,
    pub date: String,
}

#[derive(Debug, Clone, Hash, PartialEq, Eq)]
pub struct Tree {
    pub sha: String,
    pub url: String,
}

#[derive(Debug, Clone, Hash, PartialEq, Eq)]
pub struct Verification {
    pub verified: bool,
    pub reason: String,
    pub payload: Option<String>,
    pub signature: Option<String>,
}

#[derive(Debug, Clone, Hash, PartialEq, Eq)]
pub enum UserType {
    User,
}

#[derive(Debug, Clone, Hash, PartialEq, Eq)]
pub struct Parent {
    pub sha: String,
    pub url: String,
    pub html_url: String,
}

#[derive(Debug, Clone, Hash, PartialEq, Eq)]
pub struct CommitStats {
    pub additions: i32,
    pub deletions: i32,
    pub total: i32,
}

#[derive(Debug, Clone, Hash, PartialEq, Eq)]
pub struct DiffEntry {
    pub sha: String,
    pub filename: String,
    pub status: String,
    pub additions: i32,
    pub deletions: i32,
    pub changes: i32,
    pub blob_url: String,
    pub raw_url: String,
    pub contents_url: String,
    pub patch: Option<String>,
    pub previous_filename: Option<String>,
}

#[derive(Debug, Clone, Hash, PartialEq, Eq)]
pub struct CommitChangeDetails {
    pub stats: CommitStats,
    pub files: Vec<DiffEntry>,
}

} // verus!

use github_exporter::builder::{BuildStep, SnapshotBuilder, UpstreamRequest, UpstreamResponse};
use github_exporter::cache::{Decision, ScrapeCache};
use github_exporter::cursor::Cursor;
use github_exporter::data::{
    Commit, CommitChangeDetails, CommitDetails, CommitStats, DiffEntry, FullCommitData, GitUser,
    MinimalRepository, Parent, RepositoriesWithCommits, RepositoryAndCommits, SimpleUser, Tree,
    UserType, Verification,
};
use github_exporter::error::{decode_outcome, handle_json_conversion, HarvestError};
use github_exporter::headers::create_default_headers;
use github_exporter::metrics::{
    extract_number_of_additions_per_commit, extract_number_of_commits_per_repository,
    extract_number_of_deletions_per_commit, extract_number_of_repositories,
    extract_total_number_of_additions, extract_total_number_of_commits,
    extract_total_number_of_deletions, is_well_formed,
};

fn owner(login: &str) -> SimpleUser {
    SimpleUser {
        name: None,
        email: None,
        login: login.to_string(),
        id: 7,
        node_id: String::new(),
        avatar_url: String::new(),
        gravatar_id: None,
        url: String::new(),
        html_url: String::new(),
        followers_url: String::new(),
        following_url: String::new(),
        gists_url: String::new(),
        starred_url: String::new(),
        subscriptions_url: String::new(),
        organizations_url: String::new(),
        repos_url: String::new(),
        events_url: String::new(),
        received_events_url: String::new(),
        user_type: "Organization".to_string(),
        site_admin: false,
        starred_at: None,
    }
}

fn repository(name: &str) -> MinimalRepository {
    MinimalRepository {
        id: 1,
        node_id: String::new(),
        name: name.to_string(),
        full_name: format!("acme/{}", name),
        owner: owner("acme"),
        private: false,
        html_url: String::new(),
        description: None,
        fork: false,
        url: String::new(),
        archive_url: None,
        assignees_url: None,
        blobs_url: None,
        branches_url: None,
        collaborators_url: None,
        comments_url: None,
        commits_url: None,
        compare_url: None,
        contents_url: None,
        contributors_url: String::new(),
        deployments_url: String::new(),
        downloads_url: String::new(),
        events_url: String::new(),
        forks_url: String::new(),
        git_commits_url: None,
        git_refs_url: None,
        git_tags_url: None,
        git_url: None,
        issue_comment_url: None,
        issue_events_url: None,
        issues_url: None,
        keys_url: None,
        labels_url: None,
        languages_url: String::new(),
        merges_url: String::new(),
        milestones_url: None,
        notifications_url: None,
        pulls_url: None,
        releases_url: None,
        ssh_url: None,
        stargazers_url: String::new(),
        statuses_url: None,
        subscribers_url: String::new(),
        subscription_url: String::new(),
        tags_url: String::new(),
        teams_url: String::new(),
        trees_url: None,
        clone_url: None,
        mirror_url: None,
        hooks_url: String::new(),
        svn_url: None,
        homepage: None,
        language: None,
        forks_count: 0,
        stargazers_count: 0,
        watchers_count: 0,
        size: 0,
        default_branch: "main".to_string(),
        open_issues_count: 0,
        is_template: false,
        topics: Vec::new(),
        has_issues: false,
        has_projects: false,
        has_wiki: false,
        has_pages: false,
        has_downloads: false,
        has_discussions: false,
        archived: None,
        disabled: None,
        visibility: None,
        pushed_at: None,
        created_at: None,
        updated_at: None,
        permissions: Some("{\"admin\":false}".to_string()),
        template_repository: None,
        temp_clone_token: None,
        delete_branch_on_merge: None,
        subscribers_count: None,
        network_count: None,
    }
}

fn commit(sha: &str) -> Commit {
    Commit {
        url: String::new(),
        sha: sha.to_string(),
        node_id: String::new(),
        html_url: String::new(),
        comments_url: String::new(),
        commit: CommitDetails {
            url: String::new(),
            author: Some(GitUser {
                name: "Ada".to_string(),
                email: "ada@example.org".to_string(),
                date: "2024-01-01T00:00:00Z".to_string(),
            }),
            committer: None,
            message: format!("message of {}", sha),
            comment_count: 0,
            tree: Tree { sha: String::new(), url: String::new() },
            verification: Verification {
                verified: false,
                reason: "unsigned".to_string(),
                payload: None,
                signature: None,
            },
        },
        author: None,
        committer: None,
        parents: vec![Parent { sha: "p".to_string(), url: String::new(), html_url: String::new() }],
    }
}

fn changes(additions: i32, deletions: i32) -> CommitChangeDetails {
    CommitChangeDetails {
        stats: CommitStats { additions, deletions, total: additions + deletions },
        files: vec![DiffEntry {
            sha: "f".to_string(),
            filename: "src/lib.rs".to_string(),
            status: "modified".to_string(),
            additions,
            deletions,
            changes: additions + deletions,
            blob_url: String::new(),
            raw_url: String::new(),
            contents_url: String::new(),
            patch: None,
            previous_filename: None,
        }],
    }
}

fn full(sha: &str, additions: i32, deletions: i32) -> FullCommitData {
    FullCommitData::from(commit(sha), changes(additions, deletions))
}

/// Two repositories: "alpha" with three commits, "beta" with none.
fn two_repositories() -> RepositoriesWithCommits {
    RepositoriesWithCommits {
        data: vec![
            RepositoryAndCommits::from(
                repository("alpha"),
                vec![full("a1", 10, 1), full("a2", 5, 0), full("a3", 2, 0)],
            ),
            RepositoryAndCommits::from(repository("beta"), Vec::new()),
        ],
    }
}

fn row(repository: &str, sha: &str, value: i128) -> (String, String, i128) {
    (repository.to_string(), sha.to_string(), value)
}

#[test]
fn two_repositories_are_counted() {
    let data = two_repositories();
    assert!(is_well_formed(&data));
    assert_eq!(extract_number_of_repositories(&data), 2);
    assert_eq!(extract_total_number_of_commits(&data), 3);
    assert_eq!(
        extract_number_of_commits_per_repository(&data),
        vec![("alpha".to_string(), 3), ("beta".to_string(), 0)]
    );
    assert_eq!(extract_total_number_of_additions(&data), 17);
    assert_eq!(extract_total_number_of_deletions(&data), 1);
}

#[test]
fn rows_per_commit_keep_the_order_of_the_harvest() {
    let mut data = two_repositories();
    data.data.push(RepositoryAndCommits::from(repository("gamma"), vec![full("g1", 4, 9)]));
    assert_eq!(
        extract_number_of_additions_per_commit(&data),
        vec![row("alpha", "a1", 10), row("alpha", "a2", 5), row("alpha", "a3", 2), row("gamma", "g1", 4)]
    );
    assert_eq!(
        extract_number_of_deletions_per_commit(&data),
        vec![row("alpha", "a1", 1), row("alpha", "a2", 0), row("alpha", "a3", 0), row("gamma", "g1", 9)]
    );
}

#[test]
fn an_empty_harvest_has_no_observations() {
    let data = RepositoriesWithCommits { data: Vec::new() };
    assert!(is_well_formed(&data));
    assert_eq!(extract_number_of_repositories(&data), 0);
    assert_eq!(extract_total_number_of_commits(&data), 0);
    assert_eq!(extract_total_number_of_additions(&data), 0);
    assert_eq!(extract_total_number_of_deletions(&data), 0);
    assert!(extract_number_of_commits_per_repository(&data).is_empty());
    assert!(extract_number_of_additions_per_commit(&data).is_empty());
    assert!(extract_number_of_deletions_per_commit(&data).is_empty());
}

#[test]
fn totals_take_negative_and_extreme_statistics() {
    let data = RepositoriesWithCommits {
        data: vec![
            RepositoryAndCommits::from(
                repository("alpha"),
                vec![full("a1", i32::MAX, i32::MIN), full("a2", i32::MAX, i32::MIN)],
            ),
            RepositoryAndCommits::from(repository("beta"), vec![full("b1", -3, 1)]),
        ],
    };
    assert_eq!(extract_total_number_of_additions(&data), 2 * (i32::MAX as i128) - 3);
    assert_eq!(extract_total_number_of_deletions(&data), 2 * (i32::MIN as i128) + 1);
    assert_eq!(extract_total_number_of_commits(&data), 3);
}

#[test]
fn extractors_repeat_their_answers() {
    let data = two_repositories();
    assert_eq!(extract_number_of_repositories(&data), extract_number_of_repositories(&data));
    assert_eq!(extract_total_number_of_commits(&data), extract_total_number_of_commits(&data));
    assert_eq!(
        extract_number_of_commits_per_repository(&data),
        extract_number_of_commits_per_repository(&data)
    );
    assert_eq!(
        extract_number_of_additions_per_commit(&data),
        extract_number_of_additions_per_commit(&data)
    );
    assert_eq!(
        extract_number_of_deletions_per_commit(&data),
        extract_number_of_deletions_per_commit(&data)
    );
    assert_eq!(extract_total_number_of_additions(&data), extract_total_number_of_additions(&data));
    assert_eq!(extract_total_number_of_deletions(&data), extract_total_number_of_deletions(&data));
}

#[test]
fn constructors_keep_their_parts() {
    let joined = FullCommitData::from(commit("c1"), changes(3, 4));
    assert_eq!(joined.commit, commit("c1"));
    assert_eq!(joined.changes, changes(3, 4));
    let entry = RepositoryAndCommits::from(repository("alpha"), vec![joined.clone()]);
    assert_eq!(entry.repository, repository("alpha"));
    assert_eq!(entry.commits, vec![joined]);
    assert_eq!(UserType::User, UserType::User);
}

#[test]
fn a_decoded_listing_is_kept_as_it_is() {
    let decoded: Result<Vec<u32>, serde_json::Error> = serde_json::from_str("[3, 1, 2]");
    assert_eq!(handle_json_conversion(200, "[3, 1, 2]".to_string(), decoded), Ok(vec![3, 1, 2]));
    let empty: Result<Vec<u32>, serde_json::Error> = serde_json::from_str("[]");
    assert_eq!(handle_json_conversion(200, "[]".to_string(), empty), Ok(Vec::new()));
}

#[test]
fn an_undecodable_listing_is_a_failure_not_an_empty_listing() {
    let broken: Result<Vec<u32>, serde_json::Error> = serde_json::from_str("{\"message\": 1}");
    assert_eq!(
        handle_json_conversion(403, "{\"message\": 1}".to_string(), broken),
        Err(HarvestError::Decode)
    );
}

#[test]
fn decode_outcome_tells_value_from_failure() {
    let good: Result<u32, serde_json::Error> = serde_json::from_str("41");
    assert_eq!(decode_outcome(good), Ok(41));
    let bad: Result<u32, serde_json::Error> = serde_json::from_str("forty-one");
    assert_eq!(decode_outcome(bad), Err(HarvestError::Decode));
}

#[test]
fn the_epoch_is_the_first_second_past_one_on_new_year_2007() {
    assert_eq!(Cursor::epoch(), Some(Cursor { seconds: 1_167_613_261 }));
}

#[test]
fn a_cursor_is_rendered_for_the_since_parameter() {
    let cursor = Cursor { seconds: 1_167_613_261 };
    assert_eq!(cursor.to_query_value(), Some("2007-01-01 01:01:01 UTC".to_string()));
    assert_eq!(Cursor { seconds: 0 }.to_query_value(), Some("1970-01-01 00:00:00 UTC".to_string()));
    assert_eq!(Cursor { seconds: i64::MAX }.to_query_value(), None);
}

#[test]
fn the_later_cursor_wins() {
    let early = Cursor { seconds: 10 };
    let late = Cursor { seconds: 20 };
    assert_eq!(early.latest(late), late);
    assert_eq!(late.latest(early), late);
    assert_eq!(late.latest(late), late);
}

#[test]
fn a_cache_from_the_epoch_starts_empty() {
    let cache = ScrapeCache::starting_at_epoch().unwrap();
    assert_eq!(cache.cursor(), Cursor { seconds: 1_167_613_261 });
    assert_eq!(cache.snapshot(), None);
    assert_eq!(cache.fetched_at(), None);
    assert!(!cache.refresh_in_progress());
}

#[test]
fn expired_scrapes_start_one_harvest() {
    let mut cache = ScrapeCache::new(Cursor { seconds: 100 });
    let first = cache.get_or_refresh(5, Cursor { seconds: 1_000 }, 10);
    assert_eq!(first, Decision::Refresh { since: Cursor { seconds: 100 } });
    assert!(cache.refresh_in_progress());
    for n in 0..8 {
        assert_eq!(cache.get_or_refresh(5 + n, Cursor { seconds: 1_000 + n as i64 }, 10), Decision::Wait);
    }
    assert!(cache.complete_refresh(Ok(two_repositories()), 9));
    assert!(!cache.refresh_in_progress());
    assert_eq!(cache.snapshot(), Some(&two_repositories()));
    assert_eq!(cache.fetched_at(), Some(9));
    assert_eq!(cache.cursor(), Cursor { seconds: 1_000 });
}

#[test]
fn a_fresh_cache_is_served_without_a_harvest() {
    let mut cache = ScrapeCache::new(Cursor { seconds: 100 });
    assert_eq!(
        cache.get_or_refresh(0, Cursor { seconds: 500 }, 10),
        Decision::Refresh { since: Cursor { seconds: 100 } }
    );
    assert!(cache.complete_refresh(Ok(two_repositories()), 20));
    assert_eq!(cache.get_or_refresh(20, Cursor { seconds: 520 }, 10), Decision::Serve);
    assert_eq!(cache.get_or_refresh(29, Cursor { seconds: 529 }, 10), Decision::Serve);
    assert!(!cache.refresh_in_progress());
    assert_eq!(cache.cursor(), Cursor { seconds: 500 });
    assert_eq!(
        cache.get_or_refresh(30, Cursor { seconds: 530 }, 10),
        Decision::Refresh { since: Cursor { seconds: 500 } }
    );
    assert_eq!(cache.get_or_refresh(31, Cursor { seconds: 531 }, 0), Decision::Wait);
}

#[test]
fn a_ttl_of_zero_is_never_fresh() {
    let mut cache = ScrapeCache::new(Cursor { seconds: 0 });
    assert_eq!(cache.get_or_refresh(7, Cursor { seconds: 1 }, 0), Decision::Refresh { since: Cursor { seconds: 0 } });
    assert!(cache.complete_refresh(Ok(two_repositories()), 7));
    assert_eq!(cache.get_or_refresh(7, Cursor { seconds: 2 }, 0), Decision::Refresh { since: Cursor { seconds: 1 } });
}

#[test]
fn the_cursor_moves_to_the_start_of_each_harvest_and_never_back() {
    let mut cache = ScrapeCache::new(Cursor { seconds: 100 });
    let mut used = Vec::new();
    let starts = [300i64, 200, 400];
    let mut now = 0u64;
    for start in starts {
        match cache.get_or_refresh(now, Cursor { seconds: start }, 10) {
            Decision::Refresh { since } => used.push(since.seconds),
            other => panic!("expected a harvest, got {:?}", other),
        }
        assert!(cache.complete_refresh(Ok(two_repositories()), now + 1));
        now += 100;
    }
    assert_eq!(used, vec![100, 300, 300]);
    assert_eq!(cache.cursor(), Cursor { seconds: 400 });
}

#[test]
fn a_failed_harvest_keeps_cursor_and_harvest() {
    let mut cache = ScrapeCache::new(Cursor { seconds: 100 });
    assert_eq!(
        cache.get_or_refresh(0, Cursor { seconds: 500 }, 10),
        Decision::Refresh { since: Cursor { seconds: 100 } }
    );
    assert!(cache.complete_refresh(Ok(two_repositories()), 1));
    assert_eq!(
        cache.get_or_refresh(50, Cursor { seconds: 900 }, 10),
        Decision::Refresh { since: Cursor { seconds: 500 } }
    );
    assert!(!cache.complete_refresh(Err(HarvestError::Transport), 55));
    assert!(!cache.refresh_in_progress());
    assert_eq!(cache.cursor(), Cursor { seconds: 500 });
    assert_eq!(cache.snapshot(), Some(&two_repositories()));
    assert_eq!(cache.fetched_at(), Some(1));
    assert_eq!(cache.get_or_refresh(60, Cursor { seconds: 910 }, 10), Decision::Serve);
    assert_eq!(
        cache.get_or_refresh(65, Cursor { seconds: 915 }, 10),
        Decision::Refresh { since: Cursor { seconds: 500 } }
    );
}

#[test]
fn a_first_harvest_that_fails_leaves_no_data() {
    let mut cache = ScrapeCache::new(Cursor { seconds: 100 });
    assert_eq!(
        cache.get_or_refresh(0, Cursor { seconds: 500 }, 10),
        Decision::Refresh { since: Cursor { seconds: 100 } }
    );
    assert!(!cache.complete_refresh(Err(HarvestError::Decode), 2));
    assert_eq!(cache.snapshot(), None);
    assert_eq!(cache.get_or_refresh(5, Cursor { seconds: 505 }, 10), Decision::Serve);
    assert_eq!(cache.snapshot(), None);
    assert!(!cache.refresh_in_progress());
    assert_eq!(cache.cursor(), Cursor { seconds: 100 });
}

#[test]
fn an_outcome_without_a_harvest_under_way_is_dropped() {
    let mut cache = ScrapeCache::new(Cursor { seconds: 100 });
    assert!(!cache.complete_refresh(Ok(two_repositories()), 3));
    assert_eq!(cache.snapshot(), None);
    assert_eq!(cache.cursor(), Cursor { seconds: 100 });
    assert!(!cache.complete_refresh(Err(HarvestError::Concurrency), 4));
    assert_eq!(
        cache.get_or_refresh(4, Cursor { seconds: 500 }, 10),
        Decision::Refresh { since: Cursor { seconds: 100 } }
    );
}

#[test]
fn a_clock_that_went_back_counts_as_fresh() {
    let mut cache = ScrapeCache::new(Cursor { seconds: 100 });
    assert!(matches!(cache.get_or_refresh(50, Cursor { seconds: 500 }, 10), Decision::Refresh { .. }));
    assert!(cache.complete_refresh(Ok(two_repositories()), 50));
    assert_eq!(cache.get_or_refresh(40, Cursor { seconds: 490 }, 10), Decision::Serve);
}

fn expect_request(step: BuildStep, expected: UpstreamRequest) -> SnapshotBuilder {
    match step {
        BuildStep::Continue(builder, request) => {
            assert_eq!(request, expected);
            builder
        }
        BuildStep::Done(_) => panic!("the build ended early"),
        BuildStep::Failed(error) => panic!("the build failed: {:?}", error),
    }
}

fn commits_of(name: &str) -> UpstreamRequest {
    UpstreamRequest::ListCommitsSince {
        repository_full_name: format!("acme/{}", name),
        since: Cursor { seconds: 100 },
    }
}

fn details_of(name: &str, sha: &str) -> UpstreamRequest {
    UpstreamRequest::GetCommitDetails {
        repository_full_name: format!("acme/{}", name),
        sha: sha.to_string(),
    }
}

fn started() -> SnapshotBuilder {
    let (builder, request) = SnapshotBuilder::start("acme".to_string(), Cursor { seconds: 100 });
    assert_eq!(request, UpstreamRequest::ListRepositories { organization: "acme".to_string() });
    builder
}

#[test]
fn a_build_asks_in_order_and_assembles_the_harvest() {
    let builder = started();
    let step = builder.advance(UpstreamResponse::Repositories(Ok(vec![
        repository("alpha"),
        repository("beta"),
    ])));
    let builder = expect_request(step, commits_of("alpha"));
    let step = builder.advance(UpstreamResponse::Commits(Ok(vec![
        commit("a1"),
        commit("a2"),
        commit("a3"),
    ])));
    let builder = expect_request(step, details_of("alpha", "a1"));
    let builder = expect_request(
        builder.advance(UpstreamResponse::Details(Ok(changes(10, 1)))),
        details_of("alpha", "a2"),
    );
    let builder = expect_request(
        builder.advance(UpstreamResponse::Details(Ok(changes(5, 0)))),
        details_of("alpha", "a3"),
    );
    let builder = expect_request(
        builder.advance(UpstreamResponse::Details(Ok(changes(2, 0)))),
        commits_of("beta"),
    );
    match builder.advance(UpstreamResponse::Commits(Ok(Vec::new()))) {
        BuildStep::Done(snapshot) => assert_eq!(snapshot, two_repositories()),
        _ => panic!("the build did not end"),
    }
}

#[test]
fn an_organization_without_repositories_gives_an_empty_harvest() {
    match started().advance(UpstreamResponse::Repositories(Ok(Vec::new()))) {
        BuildStep::Done(snapshot) => assert_eq!(snapshot, RepositoriesWithCommits { data: Vec::new() }),
        _ => panic!("the build did not end"),
    }
}

#[test]
fn a_failed_answer_ends_the_build_with_its_error() {
    assert!(matches!(
        started().advance(UpstreamResponse::Repositories(Err(HarvestError::Transport))),
        BuildStep::Failed(HarvestError::Transport)
    ));
    let builder = expect_request(
        started().advance(UpstreamResponse::Repositories(Ok(vec![repository("alpha")]))),
        commits_of("alpha"),
    );
    assert!(matches!(
        builder.advance(UpstreamResponse::Commits(Err(HarvestError::Decode))),
        BuildStep::Failed(HarvestError::Decode)
    ));
    let builder = expect_request(
        started().advance(UpstreamResponse::Repositories(Ok(vec![repository("alpha")]))),
        commits_of("alpha"),
    );
    let builder = expect_request(
        builder.advance(UpstreamResponse::Commits(Ok(vec![commit("a1"), commit("a2")]))),
        details_of("alpha", "a1"),
    );
    let builder = expect_request(
        builder.advance(UpstreamResponse::Details(Ok(changes(1, 1)))),
        details_of("alpha", "a2"),
    );
    assert!(matches!(
        builder.advance(UpstreamResponse::Details(Err(HarvestError::Transport))),
        BuildStep::Failed(HarvestError::Transport)
    ));
}

#[test]
fn an_answer_to_another_question_is_a_decode_failure() {
    assert!(matches!(
        started().advance(UpstreamResponse::Commits(Ok(vec![commit("a1")]))),
        BuildStep::Failed(HarvestError::Decode)
    ));
    assert!(matches!(
        started().advance(UpstreamResponse::Details(Ok(changes(1, 1)))),
        BuildStep::Failed(HarvestError::Decode)
    ));
    let builder = expect_request(
        started().advance(UpstreamResponse::Repositories(Ok(vec![repository("alpha")]))),
        commits_of("alpha"),
    );
    assert!(matches!(
        builder.advance(UpstreamResponse::Repositories(Ok(Vec::new()))),
        BuildStep::Failed(HarvestError::Decode)
    ));
}

#[test]
fn a_harvest_built_and_cached_is_what_the_extractors_read() {
    let mut cache = ScrapeCache::new(Cursor { seconds: 100 });
    let since = match cache.get_or_refresh(0, Cursor { seconds: 700 }, 10) {
        Decision::Refresh { since } => since,
        other => panic!("expected a harvest, got {:?}", other),
    };
    let (builder, _) = SnapshotBuilder::start("acme".to_string(), since);
    let builder = expect_request(
        builder.advance(UpstreamResponse::Repositories(Ok(vec![repository("alpha")]))),
        commits_of("alpha"),
    );
    let builder = expect_request(
        builder.advance(UpstreamResponse::Commits(Ok(vec![commit("a1")]))),
        details_of("alpha", "a1"),
    );
    let outcome = match builder.advance(UpstreamResponse::Details(Ok(changes(6, 2)))) {
        BuildStep::Done(snapshot) => Ok(snapshot),
        BuildStep::Failed(error) => Err(error),
        BuildStep::Continue(..) => panic!("the build did not end"),
    };
    assert!(cache.complete_refresh(outcome, 3));
    let held = cache.snapshot().unwrap();
    assert_eq!(extract_total_number_of_commits(held), 1);
    assert_eq!(extract_total_number_of_additions(held), 6);
    assert_eq!(extract_total_number_of_deletions(held), 2);
    assert_eq!(cache.cursor(), Cursor { seconds: 700 });
}

#[test]
fn each_question_has_its_address() {
    assert_eq!(
        UpstreamRequest::ListRepositories { organization: "acme".to_string() }.url(),
        "https://api.github.com/orgs/acme/repos"
    );
    assert_eq!(commits_of("alpha").url(), "https://api.github.com/repos/acme/alpha/commits");
    assert_eq!(
        details_of("alpha", "a1").url(),
        "https://api.github.com/repos/acme/alpha/commits/a1"
    );
}

#[test]
fn the_default_headers_carry_the_token() {
    let headers = create_default_headers("t0ken".to_string());
    assert_eq!(
        headers,
        vec![
            ("Accept".to_string(), "application/vnd.github+json".to_string()),
            ("User-Agent".to_string(), "github-exporter-arm64-rs".to_string()),
            ("Authorization".to_string(), "Bearer t0ken".to_string()),
        ]
    );
}

#[test]
fn the_last_attempt_is_recorded_on_failure_and_success() {
    let mut cache = ScrapeCache::new(Cursor { seconds: 100 });
    assert_eq!(cache.last_attempt(), None);
    assert!(matches!(cache.get_or_refresh(0, Cursor { seconds: 500 }, 10), Decision::Refresh { .. }));
    assert!(!cache.complete_refresh(Err(HarvestError::Transport), 4));
    assert_eq!(cache.last_attempt(), Some(4));
    assert_eq!(cache.fetched_at(), None);
    assert!(matches!(cache.get_or_refresh(20, Cursor { seconds: 520 }, 10), Decision::Refresh { .. }));
    assert!(cache.complete_refresh(Ok(two_repositories()), 25));
    assert_eq!(cache.last_attempt(), Some(25));
    assert_eq!(cache.fetched_at(), Some(25));
}

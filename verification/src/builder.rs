//! The snapshot builder: it assembles one harvest from upstream's answers.
//! The builder asks one question at a time and is handed the answer: first
//! the repositories of the organization, then for each repository its commits
//! since the cursor, then for each commit its change details. Any answer that
//! fails ends the build; no part of a harvest is ever handed out.

use crate::cursor::Cursor;
use crate::data::{
    Commit, CommitChangeDetails, FullCommitData, MinimalRepository, RepositoriesWithCommits,
    RepositoryAndCommits, RepositoryRecord,
};
use crate::error::HarvestError;
use vstd::prelude::*;
use vstd::string::StringExecFns;

verus! {

/// A question to upstream.
#[derive(Debug, Clone, PartialEq, Eq)]
pub enum UpstreamRequest {
    /// The repositories of the organization.
    ListRepositories { organization: String },
    /// The commits of a repository created since the cursor.
    ListCommitsSince { repository_full_name: String, since: Cursor },
    /// The change statistics and files of one commit.
    GetCommitDetails { repository_full_name: String, sha: String },
}

impl UpstreamRequest {
    /// The address that the question is put to.
    pub open spec fn spec_url(self) -> Seq<char> {
        match self {
            UpstreamRequest::ListRepositories { organization } => "https://api.github.com/orgs/"@
                + organization@ + "/repos"@,
            UpstreamRequest::ListCommitsSince {
                repository_full_name,
                ..
            } => "https://api.github.com/repos/"@ + repository_full_name@ + "/commits"@,
            UpstreamRequest::GetCommitDetails {
                repository_full_name,
                sha,
            } => "https://api.github.com/repos/"@ + repository_full_name@ + "/commits/"@ + sha@,
        }
    }

    /// The address that the question is put to.
    pub fn url(&self) -> (result: String)
        ensures
            result@ == self.spec_url(),
    {
        match self {
            UpstreamRequest::ListRepositories { organization } => {
                "https://api.github.com/orgs/".to_owned().concat(organization.as_str()).concat(
                    "/repos",
                )
            },
            UpstreamRequest::ListCommitsSince { repository_full_name, .. } => {
                "https://api.github.com/repos/".to_owned().concat(
                    repository_full_name.as_str(),
                ).concat("/commits")
            },
            UpstreamRequest::GetCommitDetails { repository_full_name, sha } => {
                "https://api.github.com/repos/".to_owned().concat(
                    repository_full_name.as_str(),
                ).concat("/commits/").concat(sha.as_str())
            },
        }
    }
}

/// Upstream's answer to a question, or why there is none.
pub enum UpstreamResponse {
    Repositories(Result<Vec<MinimalRepository>, HarvestError>),
    Commits(Result<Vec<Commit>, HarvestError>),
    Details(Result<CommitChangeDetails, HarvestError>),
}

/// The question whose answer the builder waits for.
pub enum Awaited {
    /// The list of repositories.
    Repositories,
    /// The commits of this repository.
    Commits(MinimalRepository),
    /// The details of this commit of this repository.
    Details(MinimalRepository, Commit),
}

/// The builder as contracts speak of it.
pub struct BuilderState {
    /// The cursor of this harvest.
    pub since: Cursor,
    /// The repositories that are complete, in upstream's order.
    pub finished: Seq<RepositoryRecord>,
    /// What the builder waits for.
    pub awaited: Awaited,
    /// The commits of the repository at hand whose details are known.
    pub commits_done: Seq<FullCommitData>,
    /// Its commits whose details are still to ask for, the next one first.
    pub commits_todo: Seq<Commit>,
    /// The repositories still to ask about, the next one first.
    pub repositories_todo: Seq<MinimalRepository>,
}

/// What a step of the build comes to, as contracts speak of it.
pub enum StepModel {
    /// The build goes on with the next question.
    Continue(BuilderState, UpstreamRequest),
    /// The harvest is complete.
    Done(Seq<RepositoryRecord>),
    /// The build has failed.
    Failed(HarvestError),
}

impl BuilderState {
    /// The builder that waits for the list of repositories.
    pub open spec fn initial(since: Cursor) -> BuilderState {
        BuilderState {
            since,
            finished: Seq::empty(),
            awaited: Awaited::Repositories,
            commits_done: Seq::empty(),
            commits_todo: Seq::empty(),
            repositories_todo: Seq::empty(),
        }
    }

    /// Turns to the next repository and asks for its commits, or ends the
    /// build with the finished repositories where none is left.
    pub open spec fn next_repository(self) -> StepModel {
        if self.repositories_todo.len() > 0 {
            let repository = self.repositories_todo[0];
            StepModel::Continue(
                BuilderState {
                    awaited: Awaited::Commits(repository),
                    commits_done: Seq::empty(),
                    commits_todo: Seq::empty(),
                    repositories_todo: self.repositories_todo.drop_first(),
                    ..self
                },
                UpstreamRequest::ListCommitsSince {
                    repository_full_name: repository.full_name,
                    since: self.since,
                },
            )
        } else {
            StepModel::Done(self.finished)
        }
    }

    /// Asks for the details of the next commit of `repository`, or, where
    /// none is left, finishes the repository and turns to the next.
    pub open spec fn next_commit(self, repository: MinimalRepository) -> StepModel {
        if self.commits_todo.len() > 0 {
            let commit = self.commits_todo[0];
            StepModel::Continue(
                BuilderState {
                    awaited: Awaited::Details(repository, commit),
                    commits_todo: self.commits_todo.drop_first(),
                    ..self
                },
                UpstreamRequest::GetCommitDetails {
                    repository_full_name: repository.full_name,
                    sha: commit.sha,
                },
            )
        } else {
            (BuilderState {
                finished: self.finished.push(
                    RepositoryRecord { repository, commits: self.commits_done },
                ),
                commits_done: Seq::empty(),
                ..self
            }).next_repository()
        }
    }

    /// What the build comes to when it is handed `response`. An answer that
    /// failed fails the build with its error. An answer to another question
    /// than the one asked is a payload that does not fit, a decode failure.
    pub open spec fn step(self, response: UpstreamResponse) -> StepModel {
        match response {
            UpstreamResponse::Repositories(Err(error)) => StepModel::Failed(error),
            UpstreamResponse::Commits(Err(error)) => StepModel::Failed(error),
            UpstreamResponse::Details(Err(error)) => StepModel::Failed(error),
            UpstreamResponse::Repositories(Ok(repositories)) => match self.awaited {
                Awaited::Repositories => (BuilderState {
                    repositories_todo: repositories@,
                    ..self
                }).next_repository(),
                _ => StepModel::Failed(HarvestError::Decode),
            },
            UpstreamResponse::Commits(Ok(commits)) => match self.awaited {
                Awaited::Commits(repository) => (BuilderState {
                    commits_done: Seq::empty(),
                    commits_todo: commits@,
                    ..self
                }).next_commit(repository),
                _ => StepModel::Failed(HarvestError::Decode),
            },
            UpstreamResponse::Details(Ok(changes)) => match self.awaited {
                Awaited::Details(repository, commit) => (BuilderState {
                    commits_done: self.commits_done.push(FullCommitData { commit, changes }),
                    ..self
                }).next_commit(repository),
                _ => StepModel::Failed(HarvestError::Decode),
            },
        }
    }
}

/// The builder of one harvest.
pub struct SnapshotBuilder {
    since: Cursor,
    finished: Vec<RepositoryAndCommits>,
    awaited: Awaited,
    commits_done: Vec<FullCommitData>,
    /// The commits still to ask about, the next one last.
    commits_todo: Vec<Commit>,
    /// The repositories still to ask about, the next one last.
    repositories_todo: Vec<MinimalRepository>,
}

/// What a step of the build comes to.
pub enum BuildStep {
    /// The build goes on: put the question to upstream and hand the answer
    /// to the builder.
    Continue(SnapshotBuilder, UpstreamRequest),
    /// The harvest is complete.
    Done(RepositoriesWithCommits),
    /// The build has failed, and there is no harvest.
    Failed(HarvestError),
}

/// The records that a vector of repositories with their commits stands for.
pub open spec fn records_of(finished: Seq<RepositoryAndCommits>) -> Seq<RepositoryRecord> {
    Seq::new(finished.len(), |i: int| finished[i]@)
}

impl View for SnapshotBuilder {
    type V = BuilderState;

    closed spec fn view(&self) -> BuilderState {
        BuilderState {
            since: self.since,
            finished: records_of(self.finished@),
            awaited: self.awaited,
            commits_done: self.commits_done@,
            commits_todo: self.commits_todo@.reverse(),
            repositories_todo: self.repositories_todo@.reverse(),
        }
    }
}

impl BuildStep {
    /// The step as contracts speak of it.
    pub open spec fn model(self) -> StepModel {
        match self {
            BuildStep::Continue(builder, request) => StepModel::Continue(builder@, request),
            BuildStep::Done(snapshot) => StepModel::Done(snapshot@),
            BuildStep::Failed(error) => StepModel::Failed(error),
        }
    }
}

/// The items of a vector in the opposite order.
fn reversed<T>(items: Vec<T>) -> (result: Vec<T>)
    ensures
        result@ == items@.reverse(),
{
    let ghost all = items@;
    let mut items = items;
    let mut result: Vec<T> = Vec::new();
    while items.len() > 0
        invariant
            items@.len() <= all.len(),
            items@ == all.take(items@.len() as int),
            result@ == all.skip(items@.len() as int).reverse(),
        decreases items@.len(),
    {
        let ghost length = items@.len() as int;
        let item = items.pop().unwrap();
        result.push(item);
        assert(items@ =~= all.take(length - 1));
        assert(result@ =~= all.skip(length - 1).reverse());
    }
    assert(result@ =~= all.reverse());
    result
}

impl SnapshotBuilder {
    /// Begins the harvest of what `organization` committed since `since`: the
    /// first question asks for the organization's repositories.
    pub fn start(organization: String, since: Cursor) -> (result: (SnapshotBuilder, UpstreamRequest))
        ensures
            result.0@ == BuilderState::initial(since),
            result.1 == (UpstreamRequest::ListRepositories { organization }),
    {
        let builder = SnapshotBuilder {
            since,
            finished: Vec::new(),
            awaited: Awaited::Repositories,
            commits_done: Vec::new(),
            commits_todo: Vec::new(),
            repositories_todo: Vec::new(),
        };
        proof {
            assert(builder@.finished =~= Seq::empty());
            assert(builder@.commits_todo =~= Seq::empty());
            assert(builder@.repositories_todo =~= Seq::empty());
        }
        (builder, UpstreamRequest::ListRepositories { organization })
    }

    fn next_repository(
        since: Cursor,
        finished: Vec<RepositoryAndCommits>,
        repositories_todo: Vec<MinimalRepository>,
    ) -> (result: BuildStep)
        ensures
            result.model() == (BuilderState {
                since,
                finished: records_of(finished@),
                awaited: Awaited::Repositories,
                commits_done: Seq::empty(),
                commits_todo: Seq::empty(),
                repositories_todo: repositories_todo@.reverse(),
            }).next_repository(),
    {
        let mut repositories_todo = repositories_todo;
        let ghost before = repositories_todo@;
        match repositories_todo.pop() {
            Some(repository) => {
                let request = UpstreamRequest::ListCommitsSince {
                    repository_full_name: repository.full_name.clone(),
                    since,
                };
                let builder = SnapshotBuilder {
                    since,
                    finished,
                    awaited: Awaited::Commits(repository),
                    commits_done: Vec::new(),
                    commits_todo: Vec::new(),
                    repositories_todo,
                };
                proof {
                    assert(builder@.commits_todo =~= Seq::empty());
                    assert(builder@.repositories_todo =~= before.reverse().drop_first());
                    assert(before.reverse()[0] == repository);
                }
                BuildStep::Continue(builder, request)
            },
            None => {
                let snapshot = RepositoriesWithCommits { data: finished };
                assert(snapshot@ =~= records_of(finished@));
                BuildStep::Done(snapshot)
            },
        }
    }

    fn next_commit(
        since: Cursor,
        finished: Vec<RepositoryAndCommits>,
        repository: MinimalRepository,
        commits_done: Vec<FullCommitData>,
        commits_todo: Vec<Commit>,
        repositories_todo: Vec<MinimalRepository>,
    ) -> (result: BuildStep)
        ensures
            result.model() == (BuilderState {
                since,
                finished: records_of(finished@),
                awaited: Awaited::Repositories,
                commits_done: commits_done@,
                commits_todo: commits_todo@.reverse(),
                repositories_todo: repositories_todo@.reverse(),
            }).next_commit(repository),
    {
        let mut commits_todo = commits_todo;
        let mut finished = finished;
        let ghost before = commits_todo@;
        let ghost finished_before = finished@;
        match commits_todo.pop() {
            Some(commit) => {
                let request = UpstreamRequest::GetCommitDetails {
                    repository_full_name: repository.full_name.clone(),
                    sha: commit.sha.clone(),
                };
                let builder = SnapshotBuilder {
                    since,
                    finished,
                    awaited: Awaited::Details(repository, commit),
                    commits_done,
                    commits_todo,
                    repositories_todo,
                };
                proof {
                    assert(builder@.commits_todo =~= before.reverse().drop_first());
                    assert(before.reverse()[0] == commit);
                }
                BuildStep::Continue(builder, request)
            },
            None => {
                let ghost record = RepositoryRecord { repository, commits: commits_done@ };
                finished.push(RepositoryAndCommits::from(repository, commits_done));
                proof {
                    assert(records_of(finished@) =~= records_of(finished_before).push(record));
                    assert(before.reverse() =~= Seq::<Commit>::empty());
                }
                SnapshotBuilder::next_repository(since, finished, repositories_todo)
            },
        }
    }

    /// Hands the builder the answer to its question. The build goes on with
    /// the next question, ends with the complete harvest, or fails: with the
    /// answer's own error where the answer failed, with a decode failure
    /// where it answers another question than the one asked.
    pub fn advance(self, response: UpstreamResponse) -> (result: BuildStep)
        ensures
            result.model() == self@.step(response),
    {
        let SnapshotBuilder {
            since,
            finished,
            awaited,
            commits_done,
            commits_todo,
            repositories_todo,
        } = self;
        match response {
            UpstreamResponse::Repositories(Err(error)) => BuildStep::Failed(error),
            UpstreamResponse::Commits(Err(error)) => BuildStep::Failed(error),
            UpstreamResponse::Details(Err(error)) => BuildStep::Failed(error),
            UpstreamResponse::Repositories(Ok(repositories)) => match awaited {
                Awaited::Repositories => {
                    let todo = reversed(repositories);
                    assert(todo@.reverse() =~= repositories@);
                    SnapshotBuilder::next_repository(since, finished, todo)
                },
                _ => BuildStep::Failed(HarvestError::Decode),
            },
            UpstreamResponse::Commits(Ok(commits)) => match awaited {
                Awaited::Commits(repository) => {
                    let todo = reversed(commits);
                    assert(todo@.reverse() =~= commits@);
                    SnapshotBuilder::next_commit(
                        since,
                        finished,
                        repository,
                        Vec::new(),
                        todo,
                        repositories_todo,
                    )
                },
                _ => BuildStep::Failed(HarvestError::Decode),
            },
            UpstreamResponse::Details(Ok(changes)) => match awaited {
                Awaited::Details(repository, commit) => {
                    let mut commits_done = commits_done;
                    commits_done.push(FullCommitData::from(commit, changes));
                    SnapshotBuilder::next_commit(
                        since,
                        finished,
                        repository,
                        commits_done,
                        commits_todo,
                        repositories_todo,
                    )
                },
                _ => BuildStep::Failed(HarvestError::Decode),
            },
        }
    }
}

/// What a build comes to when it is handed `answers` one after the other.
/// A build that is done or has failed reads no further answer.
pub open spec fn run(step: StepModel, answers: Seq<UpstreamResponse>) -> StepModel
    decreases answers.len(),
{
    if answers.len() == 0 {
        step
    } else {
        match step {
            StepModel::Continue(state, _) => run(state.step(answers[0]), answers.drop_first()),
            _ => step,
        }
    }
}

/// The commits of one repository, each joined with its details.
pub open spec fn full_commits(
    commits: Seq<Commit>,
    details: Seq<CommitChangeDetails>,
) -> Seq<FullCommitData> {
    Seq::new(commits.len(), |j: int| FullCommitData { commit: commits[j], changes: details[j] })
}

/// The harvest that upstream's answers describe: the repositories as listed,
/// each with its commits as listed, each commit with its details.
pub open spec fn harvest(
    repositories: Seq<MinimalRepository>,
    listings: Seq<Vec<Commit>>,
    details: Seq<Seq<CommitChangeDetails>>,
) -> Seq<RepositoryRecord> {
    Seq::new(
        repositories.len(),
        |i: int|
            RepositoryRecord {
                repository: repositories[i],
                commits: full_commits(listings[i]@, details[i]),
            },
    )
}

/// The answers that carry the details of one repository's commits, from the
/// commit at `from` on.
pub open spec fn details_answers(details: Seq<CommitChangeDetails>, from: int) -> Seq<
    UpstreamResponse,
>
    decreases details.len() - from,
{
    if from < 0 || from >= details.len() {
        Seq::empty()
    } else {
        seq![UpstreamResponse::Details(Ok(details[from]))] + details_answers(details, from + 1)
    }
}

/// The answers about the repositories from the one at `from` on: for each
/// its listing of commits, then the details of each commit.
pub open spec fn repository_answers(
    listings: Seq<Vec<Commit>>,
    details: Seq<Seq<CommitChangeDetails>>,
    from: int,
) -> Seq<UpstreamResponse>
    decreases listings.len() - from,
{
    if from < 0 || from >= listings.len() {
        Seq::empty()
    } else {
        seq![UpstreamResponse::Commits(Ok(listings[from]))] + details_answers(details[from], 0)
            + repository_answers(listings, details, from + 1)
    }
}

/// All the answers of a harvest in which no question fails, in the order in
/// which the builder asks.
pub open spec fn answers(
    repositories: Vec<MinimalRepository>,
    listings: Seq<Vec<Commit>>,
    details: Seq<Seq<CommitChangeDetails>>,
) -> Seq<UpstreamResponse> {
    seq![UpstreamResponse::Repositories(Ok(repositories))] + repository_answers(
        listings,
        details,
        0,
    )
}

proof fn lemma_run_first(
    state: BuilderState,
    request: UpstreamRequest,
    first: UpstreamResponse,
    rest: Seq<UpstreamResponse>,
)
    ensures
        run(StepModel::Continue(state, request), seq![first] + rest) == run(
            state.step(first),
            rest,
        ),
{
    assert((seq![first] + rest).drop_first() =~= rest);
}

proof fn lemma_details_phase(
    state: BuilderState,
    request: UpstreamRequest,
    repository: MinimalRepository,
    commits: Seq<Commit>,
    details: Seq<CommitChangeDetails>,
    j: int,
    rest: Seq<UpstreamResponse>,
)
    requires
        0 <= j < commits.len() == details.len(),
        state.awaited == Awaited::Details(repository, commits[j]),
        state.commits_done == full_commits(commits, details).take(j),
        state.commits_todo == commits.skip(j + 1),
    ensures
        run(StepModel::Continue(state, request), details_answers(details, j) + rest) == run(
            (BuilderState {
                finished: state.finished.push(
                    RepositoryRecord { repository, commits: full_commits(commits, details) },
                ),
                ..state
            }).next_repository(),
            rest,
        ),
    decreases commits.len() - j,
{
    let first = UpstreamResponse::Details(Ok(details[j]));
    let tail = details_answers(details, j + 1) + rest;
    assert(details_answers(details, j) + rest =~= seq![first] + tail);
    lemma_run_first(state, request, first, tail);
    let done = state.commits_done.push(
        FullCommitData { commit: commits[j], changes: details[j] },
    );
    assert(done =~= full_commits(commits, details).take(j + 1));
    let joined = BuilderState { commits_done: done, ..state };
    assert(state.step(first) == joined.next_commit(repository));
    if j + 1 < commits.len() {
        let next = BuilderState {
            awaited: Awaited::Details(repository, commits[j + 1]),
            commits_todo: joined.commits_todo.drop_first(),
            ..joined
        };
        assert(next.commits_todo =~= commits.skip(j + 2));
        assert(joined.commits_todo[0] == commits[j + 1]);
        let question = UpstreamRequest::GetCommitDetails {
            repository_full_name: repository.full_name,
            sha: commits[j + 1].sha,
        };
        assert(joined.next_commit(repository) == StepModel::Continue(next, question));
        lemma_details_phase(next, question, repository, commits, details, j + 1, rest);
    } else {
        assert(done =~= full_commits(commits, details));
        assert(joined.commits_todo.len() == 0);
        assert(details_answers(details, j + 1) =~= Seq::<UpstreamResponse>::empty());
        assert(tail =~= rest);
    }
}

proof fn lemma_repositories_phase(
    state: BuilderState,
    repositories: Seq<MinimalRepository>,
    listings: Seq<Vec<Commit>>,
    details: Seq<Seq<CommitChangeDetails>>,
    i: int,
)
    requires
        0 <= i <= repositories.len(),
        repositories.len() == listings.len(),
        repositories.len() == details.len(),
        forall|k: int| 0 <= k < listings.len() ==> listings[k]@.len() == details[k].len(),
        state.finished == harvest(repositories, listings, details).take(i),
        state.repositories_todo == repositories.skip(i),
    ensures
        run(state.next_repository(), repository_answers(listings, details, i))
            == StepModel::Done(harvest(repositories, listings, details)),
    decreases repositories.len() - i,
{
    let whole = harvest(repositories, listings, details);
    if i == repositories.len() {
        assert(whole.take(i) =~= whole);
    } else {
        let repository = repositories[i];
        let commits = listings[i]@;
        let listed = BuilderState {
            awaited: Awaited::Commits(repository),
            commits_done: Seq::empty(),
            commits_todo: Seq::empty(),
            repositories_todo: state.repositories_todo.drop_first(),
            ..state
        };
        let question = UpstreamRequest::ListCommitsSince {
            repository_full_name: repository.full_name,
            since: state.since,
        };
        assert(state.repositories_todo[0] == repository);
        assert(state.next_repository() == StepModel::Continue(listed, question));
        let first = UpstreamResponse::Commits(Ok(listings[i]));
        let rest = repository_answers(listings, details, i + 1);
        let tail = details_answers(details[i], 0) + rest;
        assert(repository_answers(listings, details, i) =~= seq![first] + tail);
        lemma_run_first(listed, question, first, tail);
        let known = BuilderState { commits_done: Seq::empty(), commits_todo: commits, ..listed };
        assert(listed.step(first) == known.next_commit(repository));
        let record = RepositoryRecord {
            repository,
            commits: full_commits(commits, details[i]),
        };
        assert(whole[i] == record);
        assert(state.finished.push(record) =~= whole.take(i + 1));
        assert(listed.repositories_todo =~= repositories.skip(i + 1));
        if commits.len() == 0 {
            assert(full_commits(commits, details[i]) =~= Seq::<FullCommitData>::empty());
            assert(details_answers(details[i], 0) =~= Seq::<UpstreamResponse>::empty());
            assert(tail =~= rest);
            let finished = BuilderState {
                finished: known.finished.push(
                    RepositoryRecord { repository, commits: known.commits_done },
                ),
                commits_done: Seq::empty(),
                ..known
            };
            assert(known.next_commit(repository) == finished.next_repository());
            lemma_repositories_phase(finished, repositories, listings, details, i + 1);
        } else {
            let asking = BuilderState {
                awaited: Awaited::Details(repository, commits[0]),
                commits_todo: commits.drop_first(),
                ..known
            };
            let detail_question = UpstreamRequest::GetCommitDetails {
                repository_full_name: repository.full_name,
                sha: commits[0].sha,
            };
            assert(known.next_commit(repository) == StepModel::Continue(asking, detail_question));
            assert(asking.commits_todo =~= commits.skip(1));
            assert(asking.commits_done =~= full_commits(commits, details[i]).take(0));
            lemma_details_phase(
                asking,
                detail_question,
                repository,
                commits,
                details[i],
                0,
                rest,
            );
            let finished = BuilderState { finished: asking.finished.push(record), ..asking };
            lemma_repositories_phase(finished, repositories, listings, details, i + 1);
        }
    }
}

/// A build whose questions are all answered ends with exactly the harvest
/// that the answers describe: every repository as listed, in upstream's
/// order, with every commit as listed and the details fetched for it.
pub proof fn lemma_build_assembles_harvest(
    since: Cursor,
    request: UpstreamRequest,
    repositories: Vec<MinimalRepository>,
    listings: Seq<Vec<Commit>>,
    details: Seq<Seq<CommitChangeDetails>>,
)
    requires
        repositories@.len() == listings.len(),
        repositories@.len() == details.len(),
        forall|k: int| 0 <= k < listings.len() ==> listings[k]@.len() == details[k].len(),
    ensures
        run(
            StepModel::Continue(BuilderState::initial(since), request),
            answers(repositories, listings, details),
        ) == StepModel::Done(harvest(repositories@, listings, details)),
{
    let first = UpstreamResponse::Repositories(Ok(repositories));
    let rest = repository_answers(listings, details, 0);
    lemma_run_first(BuilderState::initial(since), request, first, rest);
    let listed = BuilderState { repositories_todo: repositories@, ..BuilderState::initial(since) };
    assert(listed.finished =~= harvest(repositories@, listings, details).take(0));
    assert(listed.repositories_todo =~= repositories@.skip(0));
    lemma_repositories_phase(listed, repositories@, listings, details, 0);
}

/// An answer that failed ends the build with its own error, whatever the
/// builder waited for and whatever it had gathered: no part of a harvest is
/// handed out. A build that has failed stays failed.
pub proof fn lemma_failed_answer_ends_build(
    state: BuilderState,
    error: HarvestError,
    later: Seq<UpstreamResponse>,
)
    ensures
        state.step(UpstreamResponse::Repositories(Err(error))) == StepModel::Failed(error),
        state.step(UpstreamResponse::Commits(Err(error))) == StepModel::Failed(error),
        state.step(UpstreamResponse::Details(Err(error))) == StepModel::Failed(error),
        run(StepModel::Failed(error), later) == StepModel::Failed(error),
{
}

} // verus!

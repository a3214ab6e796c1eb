//! Metric observations derived from one harvest. Every function here is a
//! function of the harvest alone and keeps the harvest's own order:
//! repositories as listed, commits as listed within each repository.

use crate::data::{FullCommitData, RepositoriesWithCommits, RepositoryRecord};
use vstd::prelude::*;

verus! {

/// The number of commits over all repositories.
pub open spec fn total_commits(records: Seq<RepositoryRecord>) -> int
    decreases records.len(),
{
    if records.len() == 0 {
        0
    } else {
        total_commits(records.drop_last()) + records.last().commits.len()
    }
}

/// The added lines of a sequence of commits, summed.
pub open spec fn sum_additions(commits: Seq<FullCommitData>) -> int
    decreases commits.len(),
{
    if commits.len() == 0 {
        0
    } else {
        sum_additions(commits.drop_last()) + commits.last().changes.stats.additions
    }
}

/// The deleted lines of a sequence of commits, summed.
pub open spec fn sum_deletions(commits: Seq<FullCommitData>) -> int
    decreases commits.len(),
{
    if commits.len() == 0 {
        0
    } else {
        sum_deletions(commits.drop_last()) + commits.last().changes.stats.deletions
    }
}

/// The added lines over all commits of all repositories.
pub open spec fn total_additions(records: Seq<RepositoryRecord>) -> int
    decreases records.len(),
{
    if records.len() == 0 {
        0
    } else {
        total_additions(records.drop_last()) + sum_additions(records.last().commits)
    }
}

/// The deleted lines over all commits of all repositories.
pub open spec fn total_deletions(records: Seq<RepositoryRecord>) -> int
    decreases records.len(),
{
    if records.len() == 0 {
        0
    } else {
        total_deletions(records.drop_last()) + sum_deletions(records.last().commits)
    }
}

/// Per repository, its name and the number of its commits.
pub open spec fn commit_counts(records: Seq<RepositoryRecord>) -> Seq<(String, i128)> {
    Seq::new(
        records.len(),
        |i: int| (records[i].repository.name, records[i].commits.len() as i128),
    )
}

/// Per commit of one repository: the repository's name, the commit's sha and
/// its added lines.
pub open spec fn addition_rows(record: RepositoryRecord) -> Seq<(String, String, i128)> {
    Seq::new(
        record.commits.len(),
        |j: int|
            (
                record.repository.name,
                record.commits[j].commit.sha,
                record.commits[j].changes.stats.additions as i128,
            ),
    )
}

/// Per commit of one repository: the repository's name, the commit's sha and
/// its deleted lines.
pub open spec fn deletion_rows(record: RepositoryRecord) -> Seq<(String, String, i128)> {
    Seq::new(
        record.commits.len(),
        |j: int|
            (
                record.repository.name,
                record.commits[j].commit.sha,
                record.commits[j].changes.stats.deletions as i128,
            ),
    )
}

/// The rows of [`addition_rows`] of every repository, one repository after
/// the other.
pub open spec fn additions_per_commit(records: Seq<RepositoryRecord>) -> Seq<
    (String, String, i128),
>
    decreases records.len(),
{
    if records.len() == 0 {
        Seq::empty()
    } else {
        additions_per_commit(records.drop_last()) + addition_rows(records.last())
    }
}

/// The rows of [`deletion_rows`] of every repository, one repository after
/// the other.
pub open spec fn deletions_per_commit(records: Seq<RepositoryRecord>) -> Seq<
    (String, String, i128),
>
    decreases records.len(),
{
    if records.len() == 0 {
        Seq::empty()
    } else {
        deletions_per_commit(records.drop_last()) + deletion_rows(records.last())
    }
}

/// A harvest is well formed when its commits can be counted by the machine:
/// all of them are held in memory at once.
pub open spec fn well_formed(records: Seq<RepositoryRecord>) -> bool {
    total_commits(records) <= usize::MAX
}

proof fn lemma_take_step<A>(s: Seq<A>, i: int)
    requires
        0 <= i < s.len(),
    ensures
        s.take(i + 1).drop_last() == s.take(i),
        s.take(i + 1).last() == s[i],
        s.take(s.len() as int) == s,
{
    assert(s.take(i + 1).drop_last() =~= s.take(i));
    assert(s.take(s.len() as int) =~= s);
}

proof fn lemma_total_commits_prefix(records: Seq<RepositoryRecord>, i: int)
    requires
        0 <= i <= records.len(),
    ensures
        0 <= total_commits(records.take(i)) <= total_commits(records),
    decreases records.len() - i,
{
    if i == records.len() {
        assert(records.take(i) =~= records);
        lemma_total_commits_nonnegative(records);
    } else {
        lemma_take_step(records, i);
        lemma_total_commits_prefix(records, i + 1);
        lemma_total_commits_nonnegative(records.take(i));
    }
}

proof fn lemma_total_commits_nonnegative(records: Seq<RepositoryRecord>)
    ensures
        0 <= total_commits(records),
    decreases records.len(),
{
    if records.len() > 0 {
        lemma_total_commits_nonnegative(records.drop_last());
    }
}

proof fn lemma_sum_additions_bounds(commits: Seq<FullCommitData>)
    ensures
        -0x8000_0000 * commits.len() <= sum_additions(commits) <= 0x8000_0000 * commits.len(),
    decreases commits.len(),
{
    if commits.len() > 0 {
        lemma_sum_additions_bounds(commits.drop_last());
    }
}

proof fn lemma_sum_deletions_bounds(commits: Seq<FullCommitData>)
    ensures
        -0x8000_0000 * commits.len() <= sum_deletions(commits) <= 0x8000_0000 * commits.len(),
    decreases commits.len(),
{
    if commits.len() > 0 {
        lemma_sum_deletions_bounds(commits.drop_last());
    }
}

proof fn lemma_total_additions_bounds(records: Seq<RepositoryRecord>)
    ensures
        -0x8000_0000 * total_commits(records) <= total_additions(records) <= 0x8000_0000
            * total_commits(records),
    decreases records.len(),
{
    if records.len() > 0 {
        lemma_total_additions_bounds(records.drop_last());
        lemma_sum_additions_bounds(records.last().commits);
    }
}

proof fn lemma_total_deletions_bounds(records: Seq<RepositoryRecord>)
    ensures
        -0x8000_0000 * total_commits(records) <= total_deletions(records) <= 0x8000_0000
            * total_commits(records),
    decreases records.len(),
{
    if records.len() > 0 {
        lemma_total_deletions_bounds(records.drop_last());
        lemma_sum_deletions_bounds(records.last().commits);
    }
}

/// The number of repositories of the harvest.
pub fn extract_number_of_repositories(data: &RepositoriesWithCommits) -> (result: i128)
    ensures
        result == data@.len(),
{
    data.data.len() as i128
}

/// Per repository, in the harvest's order, its name and the number of its
/// commits.
pub fn extract_number_of_commits_per_repository(data: &RepositoriesWithCommits) -> (result: Vec<
    (String, i128),
>)
    ensures
        result@ == commit_counts(data@),
{
    let mut result: Vec<(String, i128)> = Vec::new();
    let mut i: usize = 0;
    while i < data.data.len()
        invariant
            i <= data.data@.len(),
            result@ == commit_counts(data@.take(i as int)),
        decreases data.data@.len() - i,
    {
        let entry = &data.data[i];
        result.push((entry.repository.name.clone(), entry.commits.len() as i128));
        assert(result@ =~= commit_counts(data@.take(i + 1)));
        i += 1;
    }
    assert(data@.take(i as int) =~= data@);
    result
}

/// The number of commits over all repositories.
pub fn extract_total_number_of_commits(data: &RepositoriesWithCommits) -> (result: i128)
    requires
        well_formed(data@),
    ensures
        result == total_commits(data@),
{
    let mut result: i128 = 0;
    let mut i: usize = 0;
    while i < data.data.len()
        invariant
            i <= data.data@.len(),
            well_formed(data@),
            result == total_commits(data@.take(i as int)),
        decreases data.data@.len() - i,
    {
        proof {
            lemma_take_step(data@, i as int);
            lemma_total_commits_prefix(data@, i as int);
            lemma_total_commits_prefix(data@, i + 1);
        }
        result = result + data.data[i].commits.len() as i128;
        i += 1;
    }
    assert(data@.take(i as int) =~= data@);
    result
}

/// Per commit, in the harvest's order, the repository's name, the commit's
/// sha and its added lines.
pub fn extract_number_of_additions_per_commit(data: &RepositoriesWithCommits) -> (result: Vec<
    (String, String, i128),
>)
    ensures
        result@ == additions_per_commit(data@),
{
    let mut result: Vec<(String, String, i128)> = Vec::new();
    let mut i: usize = 0;
    while i < data.data.len()
        invariant
            i <= data.data@.len(),
            result@ == additions_per_commit(data@.take(i as int)),
        decreases data.data@.len() - i,
    {
        let repository = &data.data[i];
        let ghost before = result@;
        let mut j: usize = 0;
        while j < repository.commits.len()
            invariant
                j <= repository.commits@.len(),
                result@ == before + addition_rows(repository@).take(j as int),
            decreases repository.commits@.len() - j,
        {
            let commit = &repository.commits[j];
            result.push(
                (
                    repository.repository.name.clone(),
                    commit.commit.sha.clone(),
                    commit.changes.stats.additions as i128,
                ),
            );
            assert(result@ =~= before + addition_rows(repository@).take(j + 1));
            j += 1;
        }
        proof {
            lemma_take_step(data@, i as int);
            assert(addition_rows(repository@).take(j as int) =~= addition_rows(repository@));
        }
        i += 1;
    }
    assert(data@.take(i as int) =~= data@);
    result
}

/// Per commit, in the harvest's order, the repository's name, the commit's
/// sha and its deleted lines.
pub fn extract_number_of_deletions_per_commit(data: &RepositoriesWithCommits) -> (result: Vec<
    (String, String, i128),
>)
    ensures
        result@ == deletions_per_commit(data@),
{
    let mut result: Vec<(String, String, i128)> = Vec::new();
    let mut i: usize = 0;
    while i < data.data.len()
        invariant
            i <= data.data@.len(),
            result@ == deletions_per_commit(data@.take(i as int)),
        decreases data.data@.len() - i,
    {
        let repository = &data.data[i];
        let ghost before = result@;
        let mut j: usize = 0;
        while j < repository.commits.len()
            invariant
                j <= repository.commits@.len(),
                result@ == before + deletion_rows(repository@).take(j as int),
            decreases repository.commits@.len() - j,
        {
            let commit = &repository.commits[j];
            result.push(
                (
                    repository.repository.name.clone(),
                    commit.commit.sha.clone(),
                    commit.changes.stats.deletions as i128,
                ),
            );
            assert(result@ =~= before + deletion_rows(repository@).take(j + 1));
            j += 1;
        }
        proof {
            lemma_take_step(data@, i as int);
            assert(deletion_rows(repository@).take(j as int) =~= deletion_rows(repository@));
        }
        i += 1;
    }
    assert(data@.take(i as int) =~= data@);
    result
}

/// The additions of a sequence of commits, summed.
fn sum_commit_additions(commits: &Vec<FullCommitData>) -> (result: i128)
    ensures
        result == sum_additions(commits@),
{
    let mut result: i128 = 0;
    let mut j: usize = 0;
    while j < commits.len()
        invariant
            j <= commits@.len(),
            result == sum_additions(commits@.take(j as int)),
        decreases commits@.len() - j,
    {
        proof {
            lemma_take_step(commits@, j as int);
            lemma_sum_additions_bounds(commits@.take(j as int));
        }
        result = result + commits[j].changes.stats.additions as i128;
        j += 1;
    }
    assert(commits@.take(j as int) =~= commits@);
    result
}

/// The additions over all commits of all repositories.
pub fn extract_total_number_of_additions(data: &RepositoriesWithCommits) -> (result: i128)
    requires
        well_formed(data@),
    ensures
        result == total_additions(data@),
{
    let mut result: i128 = 0;
    let mut i: usize = 0;
    while i < data.data.len()
        invariant
            i <= data.data@.len(),
            well_formed(data@),
            result == total_additions(data@.take(i as int)),
        decreases data.data@.len() - i,
    {
        proof {
            lemma_take_step(data@, i as int);
            lemma_total_commits_prefix(data@, i as int);
            lemma_total_commits_prefix(data@, i + 1);
            lemma_total_additions_bounds(data@.take(i as int));
            lemma_total_additions_bounds(data@.take(i + 1));
        }
        let part = sum_commit_additions(&data.data[i].commits);
        result = result + part;
        i += 1;
    }
    assert(data@.take(i as int) =~= data@);
    result
}

/// The deletions of a sequence of commits, summed.
fn sum_commit_deletions(commits: &Vec<FullCommitData>) -> (result: i128)
    ensures
        result == sum_deletions(commits@),
{
    let mut result: i128 = 0;
    let mut j: usize = 0;
    while j < commits.len()
        invariant
            j <= commits@.len(),
            result == sum_deletions(commits@.take(j as int)),
        decreases commits@.len() - j,
    {
        proof {
            lemma_take_step(commits@, j as int);
            lemma_sum_deletions_bounds(commits@.take(j as int));
        }
        result = result + commits[j].changes.stats.deletions as i128;
        j += 1;
    }
    assert(commits@.take(j as int) =~= commits@);
    result
}

/// The deletions over all commits of all repositories.
pub fn extract_total_number_of_deletions(data: &RepositoriesWithCommits) -> (result: i128)
    requires
        well_formed(data@),
    ensures
        result == total_deletions(data@),
{
    let mut result: i128 = 0;
    let mut i: usize = 0;
    while i < data.data.len()
        invariant
            i <= data.data@.len(),
            well_formed(data@),
            result == total_deletions(data@.take(i as int)),
        decreases data.data@.len() - i,
    {
        proof {
            lemma_take_step(data@, i as int);
            lemma_total_commits_prefix(data@, i as int);
            lemma_total_commits_prefix(data@, i + 1);
            lemma_total_deletions_bounds(data@.take(i as int));
            lemma_total_deletions_bounds(data@.take(i + 1));
        }
        let part = sum_commit_deletions(&data.data[i].commits);
        result = result + part;
        i += 1;
    }
    assert(data@.take(i as int) =~= data@);
    result
}

/// Whether the harvest's commits can be counted by the machine, which the
/// totals ask of their argument.
pub fn is_well_formed(data: &RepositoriesWithCommits) -> (result: bool)
    ensures
        result == well_formed(data@),
{
    let mut count: usize = 0;
    let mut i: usize = 0;
    while i < data.data.len()
        invariant
            i <= data.data@.len(),
            count == total_commits(data@.take(i as int)),
        decreases data.data@.len() - i,
    {
        proof {
            lemma_take_step(data@, i as int);
            lemma_total_commits_prefix(data@, i + 1);
        }
        let commits: usize = data.data[i].commits.len();
        if commits > usize::MAX - count {
            return false;
        }
        count = count + commits;
        i += 1;
    }
    assert(data@.take(i as int) =~= data@);
    true
}

/// The observations are functions of the harvest's records and of nothing
/// else: two harvests with the same records, read at any time and in any
/// order, give the same counts, the same sums and the same rows.
pub proof fn lemma_observations_depend_on_records_alone(
    first: RepositoriesWithCommits,
    second: RepositoriesWithCommits,
)
    requires
        first@ == second@,
    ensures
        first@.len() == second@.len(),
        commit_counts(first@) == commit_counts(second@),
        total_commits(first@) == total_commits(second@),
        additions_per_commit(first@) == additions_per_commit(second@),
        deletions_per_commit(first@) == deletions_per_commit(second@),
        total_additions(first@) == total_additions(second@),
        total_deletions(first@) == total_deletions(second@),
        well_formed(first@) == well_formed(second@),
{
}

/// The rows per commit are as many as the harvest has commits, so the totals
/// and the rows speak of the same commits.
pub proof fn lemma_rows_per_commit_count_the_commits(records: Seq<RepositoryRecord>)
    ensures
        additions_per_commit(records).len() == total_commits(records),
        deletions_per_commit(records).len() == total_commits(records),
    decreases records.len(),
{
    if records.len() > 0 {
        lemma_rows_per_commit_count_the_commits(records.drop_last());
    }
}

} // verus!

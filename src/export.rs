//! The order of the records in an export and the choice of commits.

use vstd::prelude::*;
use crate::diff::{DiffStats, NewPath};
use crate::error::ExportError;
use crate::record::{commit_error, is_record, CommitInfo, CommitMeta};

verus! {

/// The first record of an export: who asked for it and on which repository.
#[derive(Debug)]
pub struct RunInfo {
    /// The caller's email, in plain text.
    pub aliases: Vec<String>,
    /// The repository path as the caller gave it, in plain text.
    pub repos: Vec<String>,
}

/// The second record of an export: the errors that were met.
#[derive(Debug)]
pub struct ErrorInfo {
    pub errors: Vec<String>,
}

/// How far an export has come.
#[derive(Clone, Copy, Debug, PartialEq, Eq, Structural)]
pub enum Stage {
    /// The output is open and empty.
    Opened,
    /// The run's metadata has been written.
    MetadataWritten,
    /// The error log has been written; commit records follow.
    ErrorLogWritten,
    /// The output has been finalized.
    Finished,
}

/// The diff of a commit against its first parent.
#[derive(Debug)]
pub struct ParentDiff {
    pub deltas: Vec<NewPath>,
    pub stats: DiffStats,
}

/// The state of one export: its stage and the number of commit records
/// written so far.
#[derive(Clone, Copy, Debug, PartialEq, Eq, Structural)]
pub struct ExportSession {
    pub stage: Stage,
    pub commits_written: u64,
}

/// The number of commits in a walk that have a first parent.
pub open spec fn count_with_parent(walk: Seq<bool>) -> nat
    decreases walk.len(),
{
    if walk.len() == 0 {
        0
    } else {
        count_with_parent(walk.drop_last()) + if walk.last() {
            1nat
        } else {
            0nat
        }
    }
}

impl ExportSession {
    /// The number of lines in the output so far.
    pub open spec fn lines(self) -> nat {
        match self.stage {
            Stage::Opened => 0,
            Stage::MetadataWritten => 1,
            _ => (2 + self.commits_written) as nat,
        }
    }

    /// The state after a commit was visited: one more record if it had a
    /// first parent.
    pub open spec fn after_visit(self, has_parent: bool) -> ExportSession {
        ExportSession {
            stage: self.stage,
            commits_written: if has_parent {
                (self.commits_written + 1) as u64
            } else {
                self.commits_written
            },
        }
    }

    /// A new export with nothing written.
    pub fn open() -> (r: ExportSession)
        ensures
            r.stage == Stage::Opened,
            r.commits_written == 0,
            r.lines() == 0,
    {
        ExportSession { stage: Stage::Opened, commits_written: 0 }
    }

    /// The first record: the caller's email and the repository path, both in
    /// plain text.
    pub fn run_info(&mut self, user_email: &str, repo_path: &str) -> (r: RunInfo)
        requires
            old(self).stage == Stage::Opened,
        ensures
            final(self).stage == Stage::MetadataWritten,
            final(self).commits_written == old(self).commits_written,
            final(self).lines() == 1,
            r.aliases@.len() == 1,
            r.aliases@[0]@ == user_email@,
            r.repos@.len() == 1,
            r.repos@[0]@ == repo_path@,
    {
        self.stage = Stage::MetadataWritten;
        RunInfo {
            aliases: vec![String::from_str(user_email)],
            repos: vec![String::from_str(repo_path)],
        }
    }

    /// The second record: the error log, which holds no error.
    pub fn error_info(&mut self) -> (r: ErrorInfo)
        requires
            old(self).stage == Stage::MetadataWritten,
        ensures
            final(self).stage == Stage::ErrorLogWritten,
            final(self).commits_written == old(self).commits_written,
            final(self).lines() == 2 + old(self).commits_written,
            r.errors@.len() == 0,
    {
        self.stage = Stage::ErrorLogWritten;
        ErrorInfo { errors: Vec::new() }
    }

    /// Visits one commit of the walk. A commit without a first parent is
    /// skipped: `Ok(None)`. Otherwise its record is built from its diff
    /// against that parent and counted; when that fails the state is kept.
    pub fn visit_commit(
        &mut self,
        meta: &CommitMeta,
        first_parent: &Option<ParentDiff>,
        repo_name: &String,
    ) -> (r: Result<Option<CommitInfo>, ExportError>)
        requires
            old(self).stage == Stage::ErrorLogWritten,
            old(self).commits_written < u64::MAX,
        ensures
            match first_parent {
                None => r == Ok::<Option<CommitInfo>, ExportError>(None) && *final(self) == *old(
                    self,
                ),
                Some(pd) => match r {
                    Ok(Some(c)) => commit_error(*meta, pd.deltas@) is None && is_record(
                        c,
                        *meta,
                        pd.deltas@,
                        pd.stats,
                        repo_name@,
                    ) && *final(self) == old(self).after_visit(true),
                    Ok(None) => false,
                    Err(e) => commit_error(*meta, pd.deltas@) == Some(e) && *final(self) == *old(
                        self,
                    ),
                },
            },
    {
        match first_parent {
            None => Ok(None),
            Some(pd) => {
                match CommitInfo::new(meta, &pd.deltas, &pd.stats, repo_name.clone()) {
                    Ok(c) => {
                        self.commits_written = self.commits_written + 1;
                        Ok(Some(c))
                    },
                    Err(e) => Err(e),
                }
            },
        }
    }

    /// Ends the export once every commit was visited.
    pub fn finish(&mut self)
        requires
            old(self).stage == Stage::ErrorLogWritten,
        ensures
            final(self).stage == Stage::Finished,
            final(self).commits_written == old(self).commits_written,
            final(self).lines() == old(self).lines(),
    {
        self.stage = Stage::Finished;
    }
}

proof fn lemma_walk_prefix(states: Seq<ExportSession>, has_parent: Seq<bool>, k: int)
    requires
        states.len() == has_parent.len() + 1,
        0 <= k <= has_parent.len(),
        has_parent.len() < u64::MAX,
        states[0].stage == Stage::ErrorLogWritten,
        states[0].commits_written == 0,
        forall|i: int|
            0 <= i < has_parent.len() ==> #[trigger] states[i + 1] == states[i].after_visit(
                has_parent[i],
            ),
    ensures
        states[k].stage == Stage::ErrorLogWritten,
        states[k].commits_written == count_with_parent(has_parent.take(k)),
        count_with_parent(has_parent.take(k)) <= k,
    decreases k,
{
    if k > 0 {
        lemma_walk_prefix(states, has_parent, k - 1);
        assert(has_parent.take(k).drop_last() =~= has_parent.take(k - 1));
        assert(states[(k - 1) + 1] == states[k - 1].after_visit(has_parent[k - 1]));
    } else {
        assert(has_parent.take(0).len() == 0);
    }
}

/// Over a whole walk, the output holds the two header lines and one line for
/// each commit that has a first parent.
pub proof fn lemma_walk_line_count(states: Seq<ExportSession>, has_parent: Seq<bool>)
    requires
        states.len() == has_parent.len() + 1,
        has_parent.len() < u64::MAX,
        states[0].stage == Stage::ErrorLogWritten,
        states[0].commits_written == 0,
        forall|i: int|
            0 <= i < has_parent.len() ==> #[trigger] states[i + 1] == states[i].after_visit(
                has_parent[i],
            ),
    ensures
        states.last().lines() == 2 + count_with_parent(has_parent),
{
    lemma_walk_prefix(states, has_parent, has_parent.len() as int);
    assert(has_parent.take(has_parent.len() as int) =~= has_parent);
}

} // verus!

//! The exported record of one commit.

use vstd::prelude::*;
use crate::anonymize::{anonymize, sha256_hex};
use crate::diff::{delta_error, is_summary, summarize_diff, DiffInfo, DiffStats, NewPath};
use crate::error::ExportError;

verus! {

/// What the record of a commit is built from, as the object store gives it.
#[derive(Debug)]
pub struct CommitMeta {
    /// The commit id as hex text.
    pub id: String,
    /// The author's name, if it is present and valid UTF-8.
    pub author_name: Option<String>,
    /// The author's email, if it is present and valid UTF-8.
    pub author_email: Option<String>,
    /// The commit time in seconds since the epoch.
    pub ts_secs: i64,
    /// The commit time's offset from UTC in minutes.
    pub ts_offset_mins: i64,
    /// The parent ids as hex text, in declaration order.
    pub parent_ids: Vec<String>,
}

/// The exported record of one commit.
#[derive(Debug)]
pub struct CommitInfo {
    pub commit_id: String,
    /// The repository's name, in plain text.
    pub repo_name: String,
    pub author_name: String,
    pub author_email: String,
    pub ts_secs: i64,
    pub ts_offset_mins: i64,
    /// The parents' tokens, in declaration order.
    pub parents: Vec<String>,
    pub diff_info: DiffInfo,
}

/// The reason for which no record can be built for a commit, if any: the
/// author's name is checked first, then the email, then the diff.
pub open spec fn commit_error(meta: CommitMeta, d: Seq<NewPath>) -> Option<ExportError> {
    if meta.author_name is None {
        Some(ExportError::MissingAuthorName)
    } else if meta.author_email is None {
        Some(ExportError::MissingAuthorEmail)
    } else {
        delta_error(d)
    }
}

/// Whether the tokens `t` stand for the ids `ids`, one for one and in order.
pub open spec fn tokens_of(t: Seq<String>, ids: Seq<String>) -> bool {
    &&& t.len() == ids.len()
    &&& forall|i: int| 0 <= i < ids.len() ==> (#[trigger] t[i])@ == sha256_hex(ids[i]@)
}

/// Whether `c` is the record of the commit `meta` with the diff `d`, `stats`
/// in the repository named `repo`.
pub open spec fn is_record(
    c: CommitInfo,
    meta: CommitMeta,
    d: Seq<NewPath>,
    stats: DiffStats,
    repo: Seq<char>,
) -> bool {
    &&& c.commit_id@ == sha256_hex(meta.id@)
    &&& c.repo_name@ == repo
    &&& c.author_name@ == sha256_hex(meta.author_name->0@)
    &&& c.author_email@ == sha256_hex(meta.author_email->0@)
    &&& c.ts_secs == meta.ts_secs
    &&& c.ts_offset_mins == meta.ts_offset_mins
    &&& tokens_of(c.parents@, meta.parent_ids@)
    &&& is_summary(c.diff_info, d, stats)
}

/// The tokens of a list of ids, in the same order.
pub fn anonymize_all(ids: &Vec<String>) -> (r: Vec<String>)
    ensures
        tokens_of(r@, ids@),
{
    let mut out: Vec<String> = Vec::new();
    let mut i: usize = 0;
    while i < ids.len()
        invariant
            i <= ids@.len(),
            out@.len() == i,
            forall|j: int| 0 <= j < i ==> (#[trigger] out@[j])@ == sha256_hex(ids@[j]@),
        decreases ids@.len() - i,
    {
        out.push(anonymize(ids[i].as_str()));
        i = i + 1;
    }
    out
}

impl CommitInfo {
    /// The record of a commit whose diff against its first parent has the
    /// deltas `deltas` and the aggregate counts `stats`. The commit id, the
    /// author's name and email and each parent id are anonymized; the
    /// repository name and the time are kept as they are.
    pub fn new(meta: &CommitMeta, deltas: &Vec<NewPath>, stats: &DiffStats, reponame: String) -> (r:
        Result<CommitInfo, ExportError>)
        ensures
            match r {
                Ok(c) => commit_error(*meta, deltas@) is None && is_record(
                    c,
                    *meta,
                    deltas@,
                    *stats,
                    reponame@,
                ),
                Err(e) => commit_error(*meta, deltas@) == Some(e),
            },
    {
        let author_name = match &meta.author_name {
            Some(name) => anonymize(name.as_str()),
            None => {
                return Err(ExportError::MissingAuthorName);
            },
        };
        let author_email = match &meta.author_email {
            Some(email) => anonymize(email.as_str()),
            None => {
                return Err(ExportError::MissingAuthorEmail);
            },
        };
        let diff_info = match summarize_diff(deltas, stats) {
            Ok(info) => info,
            Err(e) => {
                return Err(e);
            },
        };
        Ok(CommitInfo {
            commit_id: anonymize(meta.id.as_str()),
            repo_name: reponame,
            author_name,
            author_email,
            ts_secs: meta.ts_secs,
            ts_offset_mins: meta.ts_offset_mins,
            parents: anonymize_all(&meta.parent_ids),
            diff_info,
        })
    }
}

/// Whether two records hold the same text and numbers in every field.
pub open spec fn same_record(a: CommitInfo, b: CommitInfo) -> bool {
    &&& a.commit_id@ == b.commit_id@
    &&& a.repo_name@ == b.repo_name@
    &&& a.author_name@ == b.author_name@
    &&& a.author_email@ == b.author_email@
    &&& a.ts_secs == b.ts_secs
    &&& a.ts_offset_mins == b.ts_offset_mins
    &&& a.parents@.len() == b.parents@.len()
    &&& forall|i: int| 0 <= i < a.parents@.len() ==> (#[trigger] a.parents@[i])@ == b.parents@[i]@
    &&& same_diff(a.diff_info, b.diff_info)
}

/// Whether two diff summaries hold the same text and numbers in every field.
pub open spec fn same_diff(a: DiffInfo, b: DiffInfo) -> bool {
    &&& a.insertions == b.insertions
    &&& a.deletions == b.deletions
    &&& a.files_changed == b.files_changed
    &&& a.file_info@.len() == b.file_info@.len()
    &&& forall|i: int|
        0 <= i < a.file_info@.len() ==> {
            &&& (#[trigger] a.file_info@[i]).path_hash@ == b.file_info@[i].path_hash@
            &&& a.file_info@[i].filename@ == b.file_info@[i].filename@
            &&& a.file_info@[i].v_language@ == b.file_info@[i].v_language@
        }
}

/// Building the record of an unchanged commit twice gives the same record:
/// nothing in it depends on the run.
pub proof fn lemma_record_deterministic(
    a: CommitInfo,
    b: CommitInfo,
    meta: CommitMeta,
    d: Seq<NewPath>,
    stats: DiffStats,
    repo: Seq<char>,
)
    requires
        is_record(a, meta, d, stats, repo),
        is_record(b, meta, d, stats, repo),
    ensures
        same_record(a, b),
{
    assert forall|i: int| 0 <= i < a.parents@.len() implies (#[trigger] a.parents@[i])@
        == b.parents@[i]@ by {
        assert(a.parents@[i]@ == sha256_hex(meta.parent_ids@[i]@));
        assert(b.parents@[i]@ == sha256_hex(meta.parent_ids@[i]@));
    }
    let fa = a.diff_info.file_info@;
    let fb = b.diff_info.file_info@;
    assert forall|i: int| 0 <= i < fa.len() implies {
        &&& (#[trigger] fa[i]).path_hash@ == fb[i].path_hash@
        &&& fa[i].filename@ == fb[i].filename@
        &&& fa[i].v_language@ == fb[i].v_language@
    } by {
        assert(fa[i] == a.diff_info.file_info@[i]);
        assert(fb[i] == b.diff_info.file_info@[i]);
    }
}

} // verus!

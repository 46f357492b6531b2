//! Summaries of the changes between a commit and its first parent.

use vstd::prelude::*;
use crate::anonymize::{anonymize, sha256_hex};
use crate::error::ExportError;
use crate::language::{language_id_of, language_label_of, language_of_path};
use crate::paths::{file_parts, split_file_name};

verus! {

/// The new-side path of one changed file, as the diff engine gives it.
#[derive(Debug)]
pub enum NewPath {
    /// The delta has no new-side path.
    Absent,
    /// The new-side path is not valid UTF-8.
    NotUtf8,
    /// The new-side path.
    Path(String),
}

/// The aggregate counts of a diff, computed over the whole diff at once.
#[derive(Clone, Copy, Debug, PartialEq, Eq, Structural)]
pub struct DiffStats {
    pub insertions: usize,
    pub deletions: usize,
    pub files_changed: usize,
}

/// The exported record of one changed file.
#[derive(Debug)]
pub struct DiffFileInfo {
    /// The token of the full path.
    pub path_hash: String,
    /// The token of the file's stem, a dot, and the plain extension.
    pub filename: String,
    /// The language label of the file.
    pub v_language: String,
}

/// The exported summary of a diff.
#[derive(Debug)]
pub struct DiffInfo {
    pub insertions: usize,
    pub deletions: usize,
    pub files_changed: usize,
    /// One record per changed file whose new-side path is known, in diff order.
    pub file_info: Vec<DiffFileInfo>,
}

/// The anonymized file name of a path: the stem's token, a dot, and the
/// extension as it is.
pub open spec fn hashed_filename_of(p: Seq<char>) -> Seq<char> {
    let parts = file_parts(p)->0;
    sha256_hex(parts.0) + "."@ + parts.1
}

/// Whether `f` is the record of the file at `p` with the language label `lang`.
pub open spec fn is_file_info(f: DiffFileInfo, p: Seq<char>, lang: Seq<char>) -> bool {
    &&& file_parts(p) is Some
    &&& f.path_hash@ == sha256_hex(p)
    &&& f.filename@ == hashed_filename_of(p)
    &&& f.v_language@ == lang
}

/// The first reason, in diff order, for which the deltas cannot be summarised.
pub open spec fn delta_error(d: Seq<NewPath>) -> Option<ExportError>
    decreases d.len(),
{
    if d.len() == 0 {
        None
    } else {
        match delta_error(d.drop_last()) {
            Some(e) => Some(e),
            None => match d.last() {
                NewPath::Absent => None,
                NewPath::NotUtf8 => Some(ExportError::PathNotUtf8),
                NewPath::Path(p) => if file_parts(p@) is Some {
                    None
                } else {
                    Some(ExportError::NoFileName)
                },
            },
        }
    }
}

/// The new-side paths that are known, in diff order.
pub open spec fn known_paths(d: Seq<NewPath>) -> Seq<Seq<char>>
    decreases d.len(),
{
    if d.len() == 0 {
        Seq::empty()
    } else {
        match d.last() {
            NewPath::Path(p) => known_paths(d.drop_last()).push(p@),
            _ => known_paths(d.drop_last()),
        }
    }
}

/// Whether `info` summarises the deltas `d` with the aggregate counts `stats`.
pub open spec fn is_summary(info: DiffInfo, d: Seq<NewPath>, stats: DiffStats) -> bool {
    let paths = known_paths(d);
    &&& info.insertions == stats.insertions
    &&& info.deletions == stats.deletions
    &&& info.files_changed == stats.files_changed
    &&& info.file_info@.len() == paths.len()
    &&& forall|i: int|
        0 <= i < paths.len() ==> is_file_info(
            #[trigger] info.file_info@[i],
            paths[i],
            language_label_of(language_id_of(paths[i])),
        )
}

proof fn lemma_error_persists(d: Seq<NewPath>, k: int)
    requires
        0 <= k <= d.len(),
        delta_error(d.take(k)) is Some,
    ensures
        delta_error(d) == delta_error(d.take(k)),
    decreases d.len() - k,
{
    if k < d.len() {
        assert(d.take(k + 1).drop_last() =~= d.take(k));
        lemma_error_persists(d, k + 1);
    } else {
        assert(d.take(k) =~= d);
    }
}

impl DiffFileInfo {
    /// The record of the changed file at `path`, labelled `lang`. Fails when
    /// the path does not end in a file name.
    pub fn new(path: &str, lang: &String) -> (r: Result<DiffFileInfo, ExportError>)
        ensures
            match r {
                Ok(f) => is_file_info(f, path@, lang@),
                Err(e) => file_parts(path@) is None && e == ExportError::NoFileName,
            },
    {
        match split_file_name(path) {
            None => Err(ExportError::NoFileName),
            Some((stem, ext)) => {
                let filename = anonymize(stem.as_str()).concat(".").concat(ext.as_str());
                Ok(DiffFileInfo {
                    path_hash: anonymize(path),
                    filename,
                    v_language: lang.clone(),
                })
            },
        }
    }
}

/// The summary of a diff from its deltas' new-side paths and its aggregate
/// counts. A delta without a new-side path gets no record, though the
/// aggregate counts still include it. Fails on the first path that is not
/// valid UTF-8 or does not end in a file name.
pub fn summarize_diff(deltas: &Vec<NewPath>, stats: &DiffStats) -> (r: Result<DiffInfo, ExportError>)
    ensures
        match r {
            Ok(info) => delta_error(deltas@) is None && is_summary(info, deltas@, *stats),
            Err(e) => delta_error(deltas@) == Some(e),
        },
{
    let mut files: Vec<DiffFileInfo> = Vec::new();
    let mut i: usize = 0;
    while i < deltas.len()
        invariant
            i <= deltas@.len(),
            delta_error(deltas@.take(i as int)) is None,
            files@.len() == known_paths(deltas@.take(i as int)).len(),
            forall|j: int|
                0 <= j < files@.len() ==> is_file_info(
                    #[trigger] files@[j],
                    known_paths(deltas@.take(i as int))[j],
                    language_label_of(language_id_of(known_paths(deltas@.take(i as int))[j])),
                ),
        decreases deltas@.len() - i,
    {
        assert(deltas@.take(i + 1).drop_last() =~= deltas@.take(i as int));
        match &deltas[i] {
            NewPath::Absent => {},
            NewPath::NotUtf8 => {
                proof {
                    lemma_error_persists(deltas@, i + 1);
                }
                return Err(ExportError::PathNotUtf8);
            },
            NewPath::Path(p) => {
                let lang = language_of_path(p.as_str());
                match DiffFileInfo::new(p.as_str(), &lang) {
                    Ok(f) => {
                        files.push(f);
                    },
                    Err(e) => {
                        proof {
                            lemma_error_persists(deltas@, i + 1);
                        }
                        return Err(e);
                    },
                }
            },
        }
        i = i + 1;
    }
    assert(deltas@.take(i as int) =~= deltas@);
    Ok(DiffInfo {
        insertions: stats.insertions,
        deletions: stats.deletions,
        files_changed: stats.files_changed,
        file_info: files,
    })
}

} // verus!

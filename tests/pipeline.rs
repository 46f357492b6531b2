use devprofiler::anonymize::anonymize;
use devprofiler::diff::{summarize_diff, DiffFileInfo, DiffStats, NewPath};
use devprofiler::error::ExportError;
use devprofiler::export::{ExportSession, ParentDiff, Stage};
use devprofiler::language::{language_label, language_of_path};
use devprofiler::options::filter_options;
use devprofiler::paths::{repo_name_of, split_file_name};
use devprofiler::record::{anonymize_all, CommitInfo, CommitMeta};

fn meta(id: &str, parents: &[&str]) -> CommitMeta {
    CommitMeta {
        id: id.to_string(),
        author_name: Some("Ada".to_string()),
        author_email: Some("ada@example.com".to_string()),
        ts_secs: 1_700_000_000,
        ts_offset_mins: -120,
        parent_ids: parents.iter().map(|p| p.to_string()).collect(),
    }
}

fn stats(insertions: usize, deletions: usize, files_changed: usize) -> DiffStats {
    DiffStats { insertions, deletions, files_changed }
}

fn path(p: &str) -> NewPath {
    NewPath::Path(p.to_string())
}

fn header(session: &mut ExportSession) {
    session.run_info("dev@example.com", "/work/repo");
    session.error_info();
}

#[test]
fn anonymize_gives_the_sha256_hex_digest() {
    assert_eq!(
        anonymize("hello"),
        "2cf24dba5fb0a30e26e83b2ac5b9e29e1b161e5c1fa7425e73043362938b9824"
    );
    assert_eq!(anonymize("hello"), sha256::digest("hello"));
}

#[test]
fn anonymize_is_deterministic() {
    assert_eq!(anonymize("ada@example.com"), anonymize("ada@example.com"));
    assert_ne!(anonymize("a"), anonymize("b"));
}

#[test]
fn anonymize_never_returns_its_input() {
    for s in ["", "a", "Ada Lovelace", "src/main.rs"] {
        let t = anonymize(s);
        assert_ne!(t, s);
        assert_eq!(t.len(), 64);
        assert!(t.chars().all(|c| c.is_ascii_digit() || ('a'..='f').contains(&c)));
    }
}

#[test]
fn split_file_name_cases() {
    assert_eq!(split_file_name("src/a.txt"), Some(("a".to_string(), "txt".to_string())));
    assert_eq!(split_file_name("a.b.c"), Some(("a.b".to_string(), "c".to_string())));
    assert_eq!(split_file_name("dir/.bashrc"), Some((".bashrc".to_string(), String::new())));
    assert_eq!(split_file_name("Makefile"), Some(("Makefile".to_string(), String::new())));
    assert_eq!(split_file_name("x/a."), Some(("a".to_string(), String::new())));
    assert_eq!(split_file_name("dir/"), None);
    assert_eq!(split_file_name(""), None);
    assert_eq!(split_file_name("a/.."), None);
}

#[test]
fn repo_name_is_the_last_directory() {
    assert_eq!(repo_name_of("/home/dev/repo"), Some("repo".to_string()));
    assert_eq!(repo_name_of("/home/dev/repo//"), Some("repo".to_string()));
    assert_eq!(repo_name_of("repo"), Some("repo".to_string()));
    assert_eq!(repo_name_of("/"), None);
    assert_eq!(repo_name_of(""), None);
}

#[test]
fn language_labels() {
    assert_eq!(language_label(None), "None");
    assert_eq!(language_label(Some("rust".to_string())), "rust");
    assert_eq!(language_of_path("src/main.rs"), "rust");
    assert_eq!(language_of_path("docs/README.md"), "markdown");
    assert_eq!(language_of_path("a.txt"), "None");
    assert_eq!(language_of_path("LICENSE"), "None");
}

#[test]
fn file_info_hashes_path_and_stem_and_keeps_extension() {
    let f = DiffFileInfo::new("dir/a.txt", &"None".to_string()).unwrap();
    assert_eq!(f.path_hash, sha256::digest("dir/a.txt"));
    assert_eq!(f.filename, format!("{}.txt", sha256::digest("a")));
    assert_eq!(f.v_language, "None");
    let g = DiffFileInfo::new("Makefile", &"None".to_string()).unwrap();
    assert_eq!(g.filename, format!("{}.", sha256::digest("Makefile")));
    assert_eq!(DiffFileInfo::new("dir/", &"None".to_string()).unwrap_err(), ExportError::NoFileName);
}

#[test]
fn one_file_changed_with_three_insertions_and_one_deletion() {
    let info = summarize_diff(&vec![path("a.txt")], &stats(3, 1, 1)).unwrap();
    assert_eq!(info.insertions, 3);
    assert_eq!(info.deletions, 1);
    assert_eq!(info.files_changed, 1);
    assert_eq!(info.file_info.len(), 1);
    assert_eq!(info.file_info[0].filename, sha256::digest("a") + ".txt");
    assert_eq!(info.file_info[0].path_hash, sha256::digest("a.txt"));
    assert_eq!(info.file_info[0].v_language, "None");
}

#[test]
fn unresolvable_path_is_counted_but_has_no_record() {
    let info = summarize_diff(&vec![path("src/lib.rs"), NewPath::Absent], &stats(5, 2, 2)).unwrap();
    assert_eq!(info.files_changed, 2);
    assert_eq!(info.file_info.len(), 1);
    assert_eq!(info.file_info[0].v_language, "rust");
}

#[test]
fn empty_diff_is_valid() {
    let info = summarize_diff(&vec![], &stats(0, 0, 0)).unwrap();
    assert_eq!((info.insertions, info.deletions, info.files_changed), (0, 0, 0));
    assert!(info.file_info.is_empty());
}

#[test]
fn bad_paths_stop_the_summary() {
    let r = summarize_diff(&vec![path("ok.rs"), NewPath::NotUtf8, path("dir/")], &stats(1, 1, 3));
    assert_eq!(r.unwrap_err(), ExportError::PathNotUtf8);
    let r = summarize_diff(&vec![path("dir/"), NewPath::NotUtf8], &stats(1, 1, 2));
    assert_eq!(r.unwrap_err(), ExportError::NoFileName);
}

#[test]
fn commit_record_fields() {
    let m = meta("c2", &["p1", "p2", "p3"]);
    let c = CommitInfo::new(&m, &vec![path("a.txt")], &stats(3, 1, 1), "repo".to_string()).unwrap();
    assert_eq!(c.commit_id, sha256::digest("c2"));
    assert_eq!(c.repo_name, "repo");
    assert_eq!(c.author_name, sha256::digest("Ada"));
    assert_eq!(c.author_email, sha256::digest("ada@example.com"));
    assert_eq!(c.ts_secs, 1_700_000_000);
    assert_eq!(c.ts_offset_mins, -120);
    assert_eq!(
        c.parents,
        vec![sha256::digest("p1"), sha256::digest("p2"), sha256::digest("p3")]
    );
    assert_eq!(c.diff_info.insertions, 3);
}

#[test]
fn anonymize_all_keeps_order() {
    let ids = vec!["b".to_string(), "a".to_string()];
    assert_eq!(anonymize_all(&ids), vec![sha256::digest("b"), sha256::digest("a")]);
    assert!(anonymize_all(&vec![]).is_empty());
}

#[test]
fn commit_without_author_fails() {
    let mut m = meta("c", &["p"]);
    m.author_name = None;
    let r = CommitInfo::new(&m, &vec![NewPath::NotUtf8], &stats(0, 0, 1), "r".to_string());
    assert_eq!(r.unwrap_err(), ExportError::MissingAuthorName);
    let mut m = meta("c", &["p"]);
    m.author_email = None;
    let r = CommitInfo::new(&m, &vec![], &stats(0, 0, 0), "r".to_string());
    assert_eq!(r.unwrap_err(), ExportError::MissingAuthorEmail);
}

#[test]
fn run_info_holds_email_and_path_in_plain_text() {
    let mut s = ExportSession::open();
    assert_eq!(s.stage, Stage::Opened);
    let run = s.run_info("dev@example.com", "/work/repo");
    assert_eq!(run.aliases, vec!["dev@example.com".to_string()]);
    assert_eq!(run.repos, vec!["/work/repo".to_string()]);
    assert_eq!(s.stage, Stage::MetadataWritten);
    let errors = s.error_info();
    assert!(errors.errors.is_empty());
    assert_eq!(s.stage, Stage::ErrorLogWritten);
}

#[test]
fn single_root_commit_gives_two_lines() {
    let mut s = ExportSession::open();
    header(&mut s);
    let r = s.visit_commit(&meta("root", &[]), &None, &"repo".to_string()).unwrap();
    assert!(r.is_none());
    s.finish();
    assert_eq!(s.stage, Stage::Finished);
    assert_eq!(s.commits_written, 0);
}

#[test]
fn walk_writes_one_line_per_commit_with_parent() {
    let mut s = ExportSession::open();
    header(&mut s);
    let repo = "repo".to_string();
    let pd = || Some(ParentDiff { deltas: vec![path("a.rs")], stats: stats(1, 0, 1) });
    let mut lines = 2;
    for (id, parent) in [("c3", pd()), ("c2", pd()), ("c1", None)] {
        if s.visit_commit(&meta(id, &["x"]), &parent, &repo).unwrap().is_some() {
            lines += 1;
        }
    }
    s.finish();
    assert_eq!(s.commits_written, 2);
    assert_eq!(lines, 2 + s.commits_written);
}

#[test]
fn failed_commit_leaves_the_session_unchanged() {
    let mut s = ExportSession::open();
    header(&mut s);
    let pd = Some(ParentDiff { deltas: vec![NewPath::NotUtf8], stats: stats(0, 0, 1) });
    let before = s;
    let r = s.visit_commit(&meta("c", &["p"]), &pd, &"repo".to_string());
    assert_eq!(r.unwrap_err(), ExportError::PathNotUtf8);
    assert_eq!(s, before);
}

#[test]
fn two_runs_give_identical_records() {
    let run = || {
        let mut s = ExportSession::open();
        header(&mut s);
        let pd = Some(ParentDiff { deltas: vec![path("src/x.py"), NewPath::Absent], stats: stats(4, 4, 2) });
        let c = s.visit_commit(&meta("c9", &["c8"]), &pd, &"repo".to_string()).unwrap().unwrap();
        format!("{:?}", c)
    };
    assert_eq!(run(), run());
}

#[test]
fn filter_options_keeps_matches_in_order() {
    let opts = vec!["Option 1".to_string(), "Other".to_string(), "Option 3".to_string()];
    assert_eq!(filter_options(&opts, "Option"), vec!["Option 1".to_string(), "Option 3".to_string()]);
    assert_eq!(filter_options(&opts, ""), opts);
    assert!(filter_options(&opts, "zzz").is_empty());
}

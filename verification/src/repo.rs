use vstd::prelude::*;

use crate::report::DiffLine;
use crate::report::build_change_report;
use crate::report::spec_change_report;
use crate::status::StatusEntry;

verus! {

#[verifier::external_type_specification]
#[verifier::external_body]
pub struct ExRepository(git2::Repository);

#[verifier::external_type_specification]
#[verifier::external_body]
pub struct ExGitError(git2::Error);

#[verifier::external_type_specification]
#[verifier::external_body]
pub struct ExIndex(git2::Index);

#[verifier::external_type_specification]
#[verifier::external_body]
pub struct ExDiff<'a>(git2::Diff<'a>);

/// Why a build of the change report failed. Every failure is one-shot and
/// opaque: the repository could not be opened, the status query failed, or
/// the diff could not be computed.
#[derive(PartialEq, Eq, Structural, Clone, Copy, Debug)]
pub enum RepositoryError {
    NotFound,
    StatusQuery,
    DiffQuery,
}

impl RepositoryError {
    /// A short description of the failure.
    pub fn message(&self) -> (m: String)
        ensures
            m@ == spec_error_message(*self),
    {
        match self {
            RepositoryError::NotFound => "failed to open the repository".to_owned(),
            RepositoryError::StatusQuery => "failed to query the working-tree status".to_owned(),
            RepositoryError::DiffQuery => "failed to compute the index-to-workdir diff".to_owned(),
        }
    }
}

/// The description that each failure reports.
pub open spec fn spec_error_message(e: RepositoryError) -> Seq<char> {
    match e {
        RepositoryError::NotFound => ("failed to open the repository")@,
        RepositoryError::StatusQuery => ("failed to query the working-tree status")@,
        RepositoryError::DiffQuery => ("failed to compute the index-to-workdir diff")@,
    }
}

/// Relies on git2::Repository::open: opens the repository at the given
/// path, or hands back the library's error (for instance when the path is
/// not a repository).
#[verifier::external_body]
fn repo_open(path: &str) -> (r: Result<git2::Repository, git2::Error>) {
    git2::Repository::open(path)
}

/// Relies on git2::Repository::statuses, queried with untracked files
/// included, untracked directories recursed, and rename detection enabled
/// head-to-index, index-to-workdir and from rewrites; each entry is handed
/// out as its path (or "unknown" where the path is not valid text) and its
/// three worktree flags, in the order the query reports them.
#[verifier::external_body]
fn repo_status_entries(repo: &git2::Repository) -> (r: Result<Vec<StatusEntry>, git2::Error>) {
    let mut opts = git2::StatusOptions::new();
    opts.include_untracked(true).recurse_untracked_dirs(true).renames_head_to_index(
        true,
    ).renames_index_to_workdir(true).renames_from_rewrites(true);
    let statuses = repo.statuses(Some(&mut opts))?;
    Ok(statuses.iter().map(|e| StatusEntry {
        path: e.path().unwrap_or("unknown").to_string(),
        wt_new: e.status().is_wt_new(),
        wt_modified: e.status().is_wt_modified(),
        wt_deleted: e.status().is_wt_deleted(),
    }).collect())
}

/// Relies on git2::Repository::index: the repository's index, against
/// which the working tree is diffed.
#[verifier::external_body]
fn repo_index(repo: &git2::Repository) -> (r: Result<git2::Index, git2::Error>) {
    repo.index()
}

/// Relies on git2::Repository::diff_index_to_workdir with default diff
/// options and no path filter: the textual patch between the index and the
/// working tree over the full tree.
#[verifier::external_body]
fn repo_diff_index_to_workdir<'a>(repo: &'a git2::Repository, index: &git2::Index) -> (r: Result<
    git2::Diff<'a>,
    git2::Error,
>) {
    repo.diff_index_to_workdir(Some(index), None)
}

/// Relies on git2::Diff::print in patch format: the callback receives every
/// line of the textual patch in order, and each is handed out as its origin
/// character and its content (or empty content where it is not valid text).
#[verifier::external_body]
fn diff_patch_lines(diff: &git2::Diff) -> (r: Result<Vec<DiffLine>, git2::Error>) {
    let mut lines: Vec<DiffLine> = Vec::new();
    diff.print(git2::DiffFormat::Patch, |_delta, _hunk, l| {
        lines.push(DiffLine {
            origin: l.origin(),
            content: std::str::from_utf8(l.content()).unwrap_or("").to_string(),
        });
        true
    })?;
    Ok(lines)
}

/// Build the change report of the repository at the given root: open it,
/// scan its working-tree status, stream its index-to-workdir patch, and
/// reduce both into the per-file report. What the repository holds is
/// whatever is on disk; whatever came back, the report is exactly the
/// change report of the scanned entries and patch lines.
pub fn get_change_str_at(path: &str) -> (r: Result<String, RepositoryError>)
    ensures
        r is Ok ==> exists|entries: Seq<StatusEntry>, lines: Seq<DiffLine>|
            (r->Ok_0)@ == #[trigger] spec_change_report(entries, lines),
{
    let repo = match repo_open(path) {
        Ok(repo) => repo,
        Err(_) => return Err(RepositoryError::NotFound),
    };
    let entries = match repo_status_entries(&repo) {
        Ok(entries) => entries,
        Err(_) => return Err(RepositoryError::StatusQuery),
    };
    let index = match repo_index(&repo) {
        Ok(index) => index,
        Err(_) => return Err(RepositoryError::DiffQuery),
    };
    let diff = match repo_diff_index_to_workdir(&repo, &index) {
        Ok(diff) => diff,
        Err(_) => return Err(RepositoryError::DiffQuery),
    };
    let lines = match diff_patch_lines(&diff) {
        Ok(lines) => lines,
        Err(_) => return Err(RepositoryError::DiffQuery),
    };
    let report = build_change_report(&entries, &lines);
    proof {
        assert(report@ == spec_change_report(entries@, lines@));
    }
    Ok(report)
}

/// Build the change report of the repository in the current directory.
pub fn get_change_str() -> (r: Result<String, RepositoryError>)
    ensures
        r is Ok ==> exists|entries: Seq<StatusEntry>, lines: Seq<DiffLine>|
            (r->Ok_0)@ == #[trigger] spec_change_report(entries, lines),
{
    get_change_str_at(".")
}

} // verus!

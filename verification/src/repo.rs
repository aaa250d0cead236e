use vstd::prelude::*;

use crate::render::{line_model, render_report_line, spec_report_line, Segment};
use crate::status::{
    classify, sync_status, CommandOutput, ScanError, SyncStatus, WorkingTreeStatus,
};

verus! {

#[verifier::external_type_specification]
#[verifier::external_body]
pub struct ExRepository(git2::Repository);

#[verifier::external_type_specification]
#[verifier::external_body]
pub struct ExGitError(git2::Error);

/// Relies on git2::Repository::open: succeeds exactly when `path` names (or
/// sits inside) a directory with valid repository metadata. Which paths those
/// are is a fact of the filesystem at call time, so nothing is stated of the
/// outcome.
#[verifier::external_body]
fn open_repository(path: &String) -> (r: Option<git2::Repository>) {
    match git2::Repository::open(path.as_str()) {
        Ok(repo) => Some(repo),
        Err(_) => None,
    }
}

/// Relies on git2::Repository::statuses, queried with ignored files excluded,
/// untracked files included and untracked directories recursed: one
/// status-flag word per changed or untracked path. What it yields depends on
/// the working tree on disk, so nothing is stated of the outcome.
#[verifier::external_body]
fn status_flags(repo: &git2::Repository) -> (r: Result<Vec<u32>, git2::Error>) {
    let mut opts = git2::StatusOptions::new();
    opts.include_ignored(false);
    opts.include_untracked(true).recurse_untracked_dirs(true);
    match repo.statuses(Some(&mut opts)) {
        Ok(statuses) => Ok(statuses.iter().map(|e| e.status().bits()).collect()),
        Err(e) => Err(e),
    }
}

/// Relies on git2::Repository::remotes: the configured remote names, handed
/// out as raw bytes. What it yields depends on the repository's configuration
/// on disk, so nothing is stated of the outcome.
#[verifier::external_body]
fn remote_names(repo: &git2::Repository) -> (r: Result<Vec<Vec<u8>>, git2::Error>) {
    match repo.remotes() {
        Ok(names) => Ok(names.iter_bytes().map(|n| n.to_vec()).collect()),
        Err(e) => Err(e),
    }
}

/// Relies on git2::Repository::path: the path of the repository's control
/// directory, as a string with invalid UTF-8 replaced.
#[verifier::external_body]
fn control_path_string(repo: &git2::Repository) -> (r: String) {
    repo.path().to_string_lossy().into_owned()
}

/// Relies on git2::Error::message: the text the engine attached to the error.
#[verifier::external_body]
fn git_error_message(e: &git2::Error) -> (r: String) {
    e.message().to_string()
}

/// Map an engine error to the library's own error type, keeping its message.
fn engine_error(e: git2::Error) -> (r: ScanError)
    ensures
        r is Engine,
{
    ScanError::Engine { message: git_error_message(&e) }
}

/// Probe a path: `Some` handle when it is the root of (or sits inside) a
/// version-controlled working tree, `None` otherwise. A failed probe only
/// classifies the entry as plain; it is never surfaced as an error.
pub fn probe(path: &String) -> (r: Option<git2::Repository>) {
    open_repository(path)
}

/// The path of the repository's control directory.
pub fn control_dir(repo: &git2::Repository) -> (r: String) {
    control_path_string(repo)
}

/// The configured remote names (possibly none), as raw bytes.
pub fn remotes(repo: &git2::Repository) -> (r: Result<Vec<Vec<u8>>, ScanError>)
    ensures
        r matches Err(e) ==> e is Engine,
{
    match remote_names(repo) {
        Ok(names) => Ok(names),
        Err(e) => Err(engine_error(e)),
    }
}

/// The working-tree verdict of an opened repository: `Clean` exactly when
/// the file-status enumeration that `status_flags` yields is empty.
pub fn working_tree_status(repo: &git2::Repository) -> (r: Result<WorkingTreeStatus, ScanError>)
    ensures
        r matches Err(e) ==> e is Engine,
{
    match status_flags(repo) {
        Ok(flags) => Ok(classify(&flags)),
        Err(e) => Err(engine_error(e)),
    }
}

/// The sync verdict of an opened repository, decided from the captured output
/// of the history query: a failed query is a hard error; a successful one
/// yields `Synced` exactly when it printed nothing and at least one remote is
/// configured.
pub fn sync_verdict(repo: &git2::Repository, output: &CommandOutput) -> (r: Result<
    SyncStatus,
    ScanError,
>)
    ensures
        !output.success ==> r == Err::<SyncStatus, ScanError>(ScanError::CommandFailed),
        r matches Err(e) ==> (e is Engine || (!output.success && e is CommandFailed)),
        r matches Ok(s) ==> output.success && (s == SyncStatus::Synced
            ==> output.stdout@.len() == 0),
{
    if !output.success {
        return Err(ScanError::CommandFailed);
    }
    match remotes(repo) {
        Ok(names) => sync_status(output, names.len()),
        Err(e) => Err(e),
    }
}

/// Compose one repository's full report line, given its display name and the
/// captured output of its history query: working-tree verdict, sync verdict,
/// name. Any engine or query failure aborts with the error instead of a line.
pub fn report_repository(repo: &git2::Repository, name: &String, output: &CommandOutput) -> (r:
    Result<Vec<Segment>, ScanError>)
    ensures
        !output.success ==> r is Err,
        r matches Err(e) ==> (e is Engine || (!output.success && e is CommandFailed)),
        r matches Ok(line) ==> output.success && (exists|wt: WorkingTreeStatus, sync: SyncStatus|
            line_model(line@) == #[trigger] spec_report_line(wt, sync, name@) && (sync
                == SyncStatus::Synced ==> output.stdout@.len() == 0)),
{
    let wt = match working_tree_status(repo) {
        Ok(w) => w,
        Err(e) => {
            return Err(e);
        },
    };
    let sync = match sync_verdict(repo, output) {
        Ok(s) => s,
        Err(e) => {
            return Err(e);
        },
    };
    let line = render_report_line(wt, sync, name);
    Ok(line)
}

} // verus!

use vstd::prelude::*;

verus! {

/// Cleanliness of a repository's working tree: `Clean` when the file-status
/// enumeration (untracked included, ignored excluded) is empty.
#[derive(Clone, Copy, Debug, PartialEq, Eq, Structural)]
pub enum WorkingTreeStatus {
    Clean,
    Dirty,
}

/// Synchronization of a repository with its remotes: `Synced` when every
/// commit on a local branch is reachable from some remote-tracking reference
/// and at least one remote is configured.
#[derive(Clone, Copy, Debug, PartialEq, Eq, Structural)]
pub enum SyncStatus {
    Synced,
    Unsynced,
}

/// Why a scan stopped.
#[derive(Debug, PartialEq, Eq)]
pub enum ScanError {
    /// The target path is not a directory.
    NotADirectory,
    /// The history-query subprocess exited with a non-success status.
    CommandFailed,
    /// The version-control engine reported an error.
    Engine { message: String },
}

/// Captured result of the external history-query subprocess: whether it
/// exited successfully, and the bytes it wrote to its two output streams.
#[derive(Debug)]
pub struct CommandOutput {
    pub success: bool,
    pub stdout: Vec<u8>,
    pub stderr: Vec<u8>,
}

/// The cleanliness verdict for a file-status enumeration of `n` entries.
pub open spec fn spec_classify(n: nat) -> WorkingTreeStatus {
    if n == 0 {
        WorkingTreeStatus::Clean
    } else {
        WorkingTreeStatus::Dirty
    }
}

/// The cleanliness reduction: a repository counts as `Clean` when its status
/// listing (one status-flag word per changed or untracked path) has no
/// entries, and as `Dirty` otherwise.
pub fn classify(statuses: &Vec<u32>) -> (r: WorkingTreeStatus)
    ensures
        r == spec_classify(statuses@.len()),
{
    if statuses.len() == 0 {
        WorkingTreeStatus::Clean
    } else {
        WorkingTreeStatus::Dirty
    }
}

/// The sync verdict once the history query has succeeded: synced exactly when
/// the query reported no unpushed commits and at least one remote exists.
pub open spec fn spec_sync_verdict(no_unpushed: bool, n_remotes: nat) -> SyncStatus {
    if no_unpushed && n_remotes > 0 {
        SyncStatus::Synced
    } else {
        SyncStatus::Unsynced
    }
}

/// Decide the sync verdict from the captured subprocess output and the number
/// of configured remotes.
///
/// A failing subprocess is a hard error, never a silent verdict; on success
/// the verdict is `Synced` iff the query printed nothing (no commit reachable
/// from a local branch but from no remote-tracking reference) and at least
/// one remote is configured.
pub fn sync_status(output: &CommandOutput, n_remotes: usize) -> (r: Result<
    SyncStatus,
    ScanError,
>)
    ensures
        output.success ==> r == Ok::<SyncStatus, ScanError>(
            spec_sync_verdict(output.stdout@.len() == 0, n_remotes as nat),
        ),
        !output.success ==> r == Err::<SyncStatus, ScanError>(ScanError::CommandFailed),
{
    if output.success {
        if output.stdout.len() == 0 && n_remotes > 0 {
            Ok(SyncStatus::Synced)
        } else {
            Ok(SyncStatus::Unsynced)
        }
    } else {
        Err(ScanError::CommandFailed)
    }
}

/// The arguments of the external history query, run against the control
/// directory at `control_path`: commits reachable from any local branch but
/// from no remote-tracking reference.
pub fn sync_query_args(control_path: &String) -> (args: Vec<String>)
    ensures
        args@.len() == 6,
        args@[0]@ == "--git-dir"@,
        args@[1]@ == control_path@,
        args@[2]@ == "log"@,
        args@[3]@ == "--branches"@,
        args@[4]@ == "--not"@,
        args@[5]@ == "--remotes"@,
{
    let mut args: Vec<String> = Vec::new();
    args.push(String::from_str("--git-dir"));
    args.push(control_path.clone());
    args.push(String::from_str("log"));
    args.push(String::from_str("--branches"));
    args.push(String::from_str("--not"));
    args.push(String::from_str("--remotes"));
    args
}

/// A working tree is judged clean exactly when its status enumeration is
/// empty.
pub proof fn lemma_clean_iff_empty(n: nat)
    ensures
        spec_classify(n) == WorkingTreeStatus::Clean <==> n == 0,
{
}

/// With zero configured remotes the verdict is `Unsynced`, whatever the local
/// commit history looks like.
pub proof fn lemma_no_remotes_unsynced(no_unpushed: bool)
    ensures
        spec_sync_verdict(no_unpushed, 0) == SyncStatus::Unsynced,
{
}

/// With at least one remote and no commit that is reachable from a local
/// branch but from no remote-tracking reference, the verdict is `Synced`.
pub proof fn lemma_pushed_synced(n_remotes: nat)
    requires
        n_remotes > 0,
    ensures
        spec_sync_verdict(true, n_remotes) == SyncStatus::Synced,
{
}

} // verus!

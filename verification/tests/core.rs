use repostat::paths::{extract_name, parent_dir, repo_display_name};
use repostat::render::{
    pad_field, render_plain_line, render_report_line, sync_verdict_text, wt_verdict_text, Color,
};
use repostat::scan::{render_entry, EntryReport};
use repostat::status::{
    classify, sync_query_args, sync_status, CommandOutput, ScanError, SyncStatus,
    WorkingTreeStatus,
};

fn output(success: bool, stdout: &[u8]) -> CommandOutput {
    CommandOutput { success, stdout: stdout.to_vec(), stderr: Vec::new() }
}

#[test]
fn classify_empty_enumeration_is_clean() {
    assert_eq!(classify(&Vec::new()), WorkingTreeStatus::Clean);
}

#[test]
fn classify_nonempty_enumeration_is_dirty() {
    assert_eq!(classify(&vec![128]), WorkingTreeStatus::Dirty);
    assert_eq!(classify(&vec![1, 2, 4]), WorkingTreeStatus::Dirty);
}

#[test]
fn sync_no_remotes_is_always_unsynced() {
    assert_eq!(sync_status(&output(true, b""), 0), Ok(SyncStatus::Unsynced));
    assert_eq!(sync_status(&output(true, b"deadbeef unpushed\n"), 0), Ok(SyncStatus::Unsynced));
}

#[test]
fn sync_remote_and_nothing_unpushed_is_synced() {
    assert_eq!(sync_status(&output(true, b""), 1), Ok(SyncStatus::Synced));
    assert_eq!(sync_status(&output(true, b""), 3), Ok(SyncStatus::Synced));
}

#[test]
fn sync_unpushed_commits_are_unsynced() {
    assert_eq!(sync_status(&output(true, b"deadbeef unpushed\n"), 2), Ok(SyncStatus::Unsynced));
}

#[test]
fn sync_failed_query_is_a_hard_error() {
    assert_eq!(sync_status(&output(false, b""), 5), Err(ScanError::CommandFailed));
    assert_eq!(sync_status(&output(false, b"partial"), 0), Err(ScanError::CommandFailed));
}

#[test]
fn query_args_name_the_control_directory() {
    let args = sync_query_args(&String::from("/x/repo/.git/"));
    let expected = vec!["--git-dir", "/x/repo/.git/", "log", "--branches", "--not", "--remotes"];
    assert_eq!(args, expected);
}

#[test]
fn extract_name_takes_the_last_component() {
    assert_eq!(extract_name(&String::from("/a/b")), "b");
    assert_eq!(extract_name(&String::from("/a/b/")), "b");
    assert_eq!(extract_name(&String::from("alpha")), "alpha");
    assert_eq!(extract_name(&String::from("a//b//")), "b");
    assert_eq!(extract_name(&String::from("///")), "/");
    assert_eq!(extract_name(&String::from("/x/repo/.git/")), ".git");
}

#[test]
fn parent_drops_the_last_component() {
    assert_eq!(parent_dir(&String::from("/x/repo/.git/")), Some(String::from("/x/repo")));
    assert_eq!(parent_dir(&String::from("/a")), Some(String::from("/")));
    assert_eq!(parent_dir(&String::from("a")), Some(String::from("")));
    assert_eq!(parent_dir(&String::from("/")), None);
    assert_eq!(parent_dir(&String::from("")), None);
}

#[test]
fn display_name_is_the_control_directory_grandparent_component() {
    assert_eq!(repo_display_name(&String::from("/x/repo/.git/")), Some(String::from("repo")));
    assert_eq!(repo_display_name(&String::from("/x/.git/")), Some(String::from("x")));
    assert_eq!(repo_display_name(&String::from("/.git")), Some(String::from("/")));
    assert_eq!(repo_display_name(&String::from("/")), None);
    assert_eq!(repo_display_name(&String::from(".git")), None);
}

#[test]
fn fields_are_left_aligned_to_their_width() {
    assert_eq!(pad_field(&String::from("Clean"), 10), "Clean     ");
    assert_eq!(pad_field(&String::from(""), 10), "          ");
    assert_eq!(pad_field(&String::from("longer-than-field"), 10), "longer-than-field");
}

#[test]
fn verdict_texts_match_the_report_format() {
    assert_eq!(wt_verdict_text(WorkingTreeStatus::Clean), "Clean");
    assert_eq!(wt_verdict_text(WorkingTreeStatus::Dirty), "Commit!");
    assert_eq!(sync_verdict_text(SyncStatus::Synced), "Synced");
    assert_eq!(sync_verdict_text(SyncStatus::Unsynced), "Push!");
}

#[test]
fn clean_synced_repository_line() {
    let line = render_report_line(
        WorkingTreeStatus::Clean,
        SyncStatus::Synced,
        &String::from("alpha"),
    );
    assert_eq!(line.len(), 3);
    assert_eq!(line[0].text, "Clean     ");
    assert_eq!(line[0].color, Some(Color::Green));
    assert_eq!(line[1].text, "Synced    ");
    assert_eq!(line[1].color, Some(Color::Green));
    assert_eq!(line[2].text, "alpha     ");
    assert_eq!(line[2].color, None);
}

#[test]
fn dirty_unsynced_repository_line() {
    let line = render_report_line(
        WorkingTreeStatus::Dirty,
        SyncStatus::Unsynced,
        &String::from("work"),
    );
    assert_eq!(line.len(), 3);
    assert_eq!(line[0].text, "Commit!   ");
    assert_eq!(line[0].color, Some(Color::Red));
    assert_eq!(line[1].text, "Push!     ");
    assert_eq!(line[1].color, Some(Color::Blue));
    assert_eq!(line[2].text, "work      ");
    assert_eq!(line[2].color, None);
}

#[test]
fn plain_entry_line_is_bare_and_uncolored() {
    let line = render_plain_line(&String::from("notes"));
    assert_eq!(line.len(), 1);
    assert_eq!(line[0].text, "                    notes     ");
    assert_eq!(line[0].color, None);
}

#[test]
fn mixed_directory_scenario() {
    let entries = vec![
        EntryReport::Repository {
            wt: WorkingTreeStatus::Clean,
            sync: SyncStatus::Synced,
            name: String::from("alpha"),
        },
        EntryReport::Plain { name: String::from("notes") },
    ];
    let lines: Vec<_> = entries.iter().map(render_entry).collect();
    assert_eq!(lines.len(), 2);
    assert_eq!(lines[0].len(), 3);
    assert_eq!(lines[0][0].text, "Clean     ");
    assert_eq!(lines[0][0].color, Some(Color::Green));
    assert_eq!(lines[0][1].text, "Synced    ");
    assert_eq!(lines[0][1].color, Some(Color::Green));
    assert_eq!(lines[0][2].text, "alpha     ");
    assert_eq!(lines[0][2].color, None);
    assert_eq!(lines[1].len(), 1);
    assert_eq!(lines[1][0].text, "                    notes     ");
    assert_eq!(lines[1][0].color, None);
}

#[test]
fn target_repository_scenario_dirty_no_remotes() {
    let statuses = vec![2];
    let wt = classify(&statuses);
    let sync = sync_status(&output(true, b""), 0).unwrap();
    let line = render_report_line(wt, sync, &String::from("project"));
    assert_eq!(line[0].text, "Commit!   ");
    assert_eq!(line[0].color, Some(Color::Red));
    assert_eq!(line[1].text, "Push!     ");
    assert_eq!(line[1].color, Some(Color::Blue));
    assert_eq!(line[2].text, "project   ");
    assert_eq!(line[2].color, None);
}

#[test]
fn rendering_twice_is_byte_identical() {
    let entry = EntryReport::Repository {
        wt: WorkingTreeStatus::Clean,
        sync: SyncStatus::Unsynced,
        name: String::from("same"),
    };
    let first = render_entry(&entry);
    let second = render_entry(&entry);
    assert_eq!(first, second);
    let plain = EntryReport::Plain { name: String::from("same") };
    assert_eq!(render_entry(&plain), render_entry(&plain));
}

#[test]
fn empty_scan_prints_nothing() {
    let entries: Vec<EntryReport> = Vec::new();
    let lines: Vec<_> = entries.iter().map(render_entry).collect();
    assert_eq!(lines.len(), 0);
}

use vstd::prelude::*;

use crate::render::{
    line_model, render_plain_line, render_report_line, spec_plain_line, spec_report_line, Color,
    Segment,
};
use crate::status::{SyncStatus, WorkingTreeStatus};

verus! {

/// One scanned directory entry, classified once when it is probed: a
/// repository with its two verdicts and its display name, or a plain entry
/// with its bare name.
#[derive(Debug, PartialEq, Eq)]
pub enum EntryReport {
    Repository { wt: WorkingTreeStatus, sync: SyncStatus, name: String },
    Plain { name: String },
}

/// The display name of a classified entry.
pub open spec fn entry_name(e: EntryReport) -> Seq<char> {
    match e {
        EntryReport::Repository { name, .. } => name@,
        EntryReport::Plain { name } => name@,
    }
}

/// What a rendered line may depend on: whether the entry is a repository, its
/// verdicts if so, and the characters of its name — nothing else.
pub open spec fn entry_model(e: EntryReport) -> (
    Option<(WorkingTreeStatus, SyncStatus)>,
    Seq<char>,
) {
    match e {
        EntryReport::Repository { wt, sync, name } => (Some((wt, sync)), name@),
        EntryReport::Plain { name } => (None, name@),
    }
}

/// The line a scan prints for the entry `e`.
pub open spec fn spec_entry_line(e: EntryReport) -> Seq<(Seq<char>, Option<Color>)> {
    match e {
        EntryReport::Repository { wt, sync, name } => spec_report_line(wt, sync, name@),
        EntryReport::Plain { name } => spec_plain_line(name@),
    }
}

/// The lines of a whole scan: one per classified entry, in enumeration order.
pub open spec fn spec_scan_lines(entries: Seq<EntryReport>) -> Seq<
    Seq<(Seq<char>, Option<Color>)>,
> {
    entries.map(|i: int, e: EntryReport| spec_entry_line(e))
}

/// Render the report line for one classified entry.
pub fn render_entry(e: &EntryReport) -> (line: Vec<Segment>)
    ensures
        line_model(line@) == spec_entry_line(*e),
{
    match e {
        EntryReport::Repository { wt, sync, name } => render_report_line(*wt, *sync, name),
        EntryReport::Plain { name } => render_plain_line(name),
    }
}

/// A scan of a directory with no entries prints no lines at all.
pub proof fn lemma_empty_scan(entries: Seq<EntryReport>)
    requires
        entries.len() == 0,
    ensures
        spec_scan_lines(entries).len() == 0,
{
}

/// A scan of a directory holding only plain entries prints exactly one line
/// per entry, in enumeration order: the entry's bare name, uncolored, with no
/// verdict fields.
pub proof fn lemma_plain_scan(entries: Seq<EntryReport>)
    requires
        forall|i: int| 0 <= i < entries.len() ==> entries[i] is Plain,
    ensures
        spec_scan_lines(entries).len() == entries.len(),
        forall|i: int|
            0 <= i < entries.len() ==> #[trigger] spec_scan_lines(entries)[i] == spec_plain_line(
                entry_name(entries[i]),
            ),
        forall|i: int|
            0 <= i < entries.len() ==> (#[trigger] spec_scan_lines(entries)[i]).len() == 1
                && spec_scan_lines(entries)[i][0].1 is None,
{
    assert forall|i: int| 0 <= i < entries.len() implies #[trigger] spec_scan_lines(entries)[i]
        == spec_plain_line(entry_name(entries[i])) by {
        assert(entries[i] is Plain);
    }
}

/// The line rendered for an entry is a function of its model alone: equal
/// classification, verdicts and name characters give the same line.
pub proof fn lemma_entry_line_from_model(a: EntryReport, b: EntryReport)
    requires
        entry_model(a) == entry_model(b),
    ensures
        spec_entry_line(a) == spec_entry_line(b),
{
}

/// Idempotence of a scan: two passes over an unmodified tree classify each
/// entry the same way, and entrywise-equal classifications render identical
/// lines — verdict fields and names alike.
pub proof fn lemma_scan_idempotent(first: Seq<EntryReport>, second: Seq<EntryReport>)
    requires
        first.len() == second.len(),
        forall|i: int| 0 <= i < first.len() ==> entry_model(first[i]) == entry_model(second[i]),
    ensures
        spec_scan_lines(first) == spec_scan_lines(second),
{
    assert forall|i: int| 0 <= i < first.len() implies #[trigger] spec_scan_lines(first)[i]
        == spec_scan_lines(second)[i] by {
        lemma_entry_line_from_model(first[i], second[i]);
    }
    assert(spec_scan_lines(first) =~= spec_scan_lines(second));
}

} // verus!

use vstd::prelude::*;

use crate::status::{SyncStatus, WorkingTreeStatus};

verus! {

/// Width of each left-aligned verdict field and of the name field.
pub const FIELD_WIDTH: usize = 10;

/// Width of the empty leading field on a plain (non-repository) entry's line.
pub const PLAIN_INDENT: usize = 20;

/// Terminal foreground colors the report uses.
#[derive(Clone, Copy, Debug, PartialEq, Eq, Structural)]
pub enum Color {
    Green,
    Red,
    Blue,
}

/// One contiguous piece of a report line: its text and the color it is
/// printed in (`None` for the terminal's default).
#[derive(Debug, PartialEq, Eq)]
pub struct Segment {
    pub text: String,
    pub color: Option<Color>,
}

/// The mathematical content of a rendered line: each segment's character
/// sequence with its color.
pub open spec fn line_model(segs: Seq<Segment>) -> Seq<(Seq<char>, Option<Color>)> {
    segs.map(|i: int, s: Segment| (s.text@, s.color))
}

/// `n` space characters.
pub open spec fn spec_spaces(n: nat) -> Seq<char>
    decreases n,
{
    if n == 0 {
        Seq::<char>::empty()
    } else {
        spec_spaces((n - 1) as nat).push(' ')
    }
}

/// `s` left-aligned in a field of width `w`: spaces are appended until the
/// field is full; text longer than the field is kept whole.
pub open spec fn spec_pad(s: Seq<char>, w: nat) -> Seq<char> {
    if s.len() >= w {
        s
    } else {
        s + spec_spaces((w - s.len()) as nat)
    }
}

/// The text of the working-tree verdict field.
pub open spec fn wt_text(s: WorkingTreeStatus) -> Seq<char> {
    match s {
        WorkingTreeStatus::Clean => "Clean"@,
        WorkingTreeStatus::Dirty => "Commit!"@,
    }
}

/// The text of the sync verdict field.
pub open spec fn sync_text(s: SyncStatus) -> Seq<char> {
    match s {
        SyncStatus::Synced => "Synced"@,
        SyncStatus::Unsynced => "Push!"@,
    }
}

/// The color of the working-tree verdict field: green for clean, red for
/// dirty.
pub open spec fn wt_color(s: WorkingTreeStatus) -> Color {
    match s {
        WorkingTreeStatus::Clean => Color::Green,
        WorkingTreeStatus::Dirty => Color::Red,
    }
}

/// The color of the sync verdict field: green for synced, blue for unsynced.
pub open spec fn sync_color(s: SyncStatus) -> Color {
    match s {
        SyncStatus::Synced => Color::Green,
        SyncStatus::Unsynced => Color::Blue,
    }
}

/// A repository's report line: the two colored verdict fields, then the
/// uncolored display name, each left-aligned in its field.
pub open spec fn spec_report_line(
    wt: WorkingTreeStatus,
    sync: SyncStatus,
    name: Seq<char>,
) -> Seq<(Seq<char>, Option<Color>)> {
    seq![
        (spec_pad(wt_text(wt), FIELD_WIDTH as nat), Some(wt_color(wt))),
        (spec_pad(sync_text(sync), FIELD_WIDTH as nat), Some(sync_color(sync))),
        (spec_pad(name, FIELD_WIDTH as nat), None::<Color>),
    ]
}

/// A plain entry's line: an empty leading field, then the bare name, all
/// uncolored.
pub open spec fn spec_plain_line(name: Seq<char>) -> Seq<(Seq<char>, Option<Color>)> {
    seq![
        (spec_spaces(PLAIN_INDENT as nat) + spec_pad(name, FIELD_WIDTH as nat), None::<Color>),
    ]
}

fn spaces(n: usize) -> (r: String)
    ensures
        r@ == spec_spaces(n as nat),
{
    let mut r = String::new();
    let mut i: usize = 0;
    proof {
        assert(r@ =~= spec_spaces(0));
    }
    while i < n
        invariant
            i <= n,
            r@ == spec_spaces(i as nat),
        decreases n - i,
    {
        r.append(" ");
        proof {
            reveal_strlit(" ");
            assert(r@ =~= spec_spaces((i + 1) as nat));
        }
        i = i + 1;
    }
    r
}

/// Left-align `text` in a field of width `width` by appending spaces.
pub fn pad_field(text: &String, width: usize) -> (r: String)
    ensures
        r@ == spec_pad(text@, width as nat),
{
    let len = text.as_str().unicode_len();
    if len >= width {
        text.clone()
    } else {
        let mut r = text.clone();
        let fill = spaces(width - len);
        r.append(fill.as_str());
        r
    }
}

/// The working-tree verdict text, as printed.
pub fn wt_verdict_text(s: WorkingTreeStatus) -> (r: String)
    ensures
        r@ == wt_text(s),
{
    match s {
        WorkingTreeStatus::Clean => String::from_str("Clean"),
        WorkingTreeStatus::Dirty => String::from_str("Commit!"),
    }
}

/// The sync verdict text, as printed.
pub fn sync_verdict_text(s: SyncStatus) -> (r: String)
    ensures
        r@ == sync_text(s),
{
    match s {
        SyncStatus::Synced => String::from_str("Synced"),
        SyncStatus::Unsynced => String::from_str("Push!"),
    }
}

/// Render a repository's report line from its two verdicts and its display
/// name.
pub fn render_report_line(wt: WorkingTreeStatus, sync: SyncStatus, name: &String) -> (line: Vec<
    Segment,
>)
    ensures
        line_model(line@) == spec_report_line(wt, sync, name@),
{
    let wt_field = pad_field(&wt_verdict_text(wt), FIELD_WIDTH);
    let sync_field = pad_field(&sync_verdict_text(sync), FIELD_WIDTH);
    let name_field = pad_field(name, FIELD_WIDTH);
    let wtc = match wt {
        WorkingTreeStatus::Clean => Color::Green,
        WorkingTreeStatus::Dirty => Color::Red,
    };
    let syc = match sync {
        SyncStatus::Synced => Color::Green,
        SyncStatus::Unsynced => Color::Blue,
    };
    let mut line: Vec<Segment> = Vec::new();
    line.push(Segment { text: wt_field, color: Some(wtc) });
    line.push(Segment { text: sync_field, color: Some(syc) });
    line.push(Segment { text: name_field, color: None });
    proof {
        assert(line_model(line@) =~~= spec_report_line(wt, sync, name@));
    }
    line
}

/// Render a plain (non-repository) entry's line: its bare name, uncolored.
pub fn render_plain_line(name: &String) -> (line: Vec<Segment>)
    ensures
        line_model(line@) == spec_plain_line(name@),
{
    let mut text = spaces(PLAIN_INDENT);
    let name_field = pad_field(name, FIELD_WIDTH);
    text.append(name_field.as_str());
    let mut line: Vec<Segment> = Vec::new();
    line.push(Segment { text, color: None });
    proof {
        assert(line_model(line@) =~~= spec_plain_line(name@));
    }
    line
}

} // verus!

//! What the console shows: the text of each panel as lines of tinted
//! pieces. The terminal front end lays the panels out and draws them.
use vstd::prelude::*;
use std::time::SystemTime;
use crate::console::{
    commit_view, commits_view, format_timestamp, clock_spec, epoch_secs, CommitEntry, CommitView, Console,
    ConsoleMode, DaemonStatus, LogLevel,
};
use crate::text::{decimal, extend_str, pairs_view, push_decimal, string_from_chars};

verus! {

/// Colour of a piece of text.
#[derive(Debug, Clone, Copy, PartialEq, Eq, Structural)]
pub enum Tint {
    Plain,
    Cyan,
    Green,
    Red,
    Yellow,
    DarkGray,
    White,
}

/// A piece of text with its colour, bold or not.
#[derive(Debug, Clone)]
pub struct Piece {
    pub text: String,
    pub tint: Tint,
    pub bold: bool,
}

/// A piece as values.
pub open spec fn piece_view(p: Piece) -> (Seq<char>, Tint, bool) {
    (p.text@, p.tint, p.bold)
}

/// A line of pieces as values.
pub open spec fn line_view(l: Seq<Piece>) -> Seq<(Seq<char>, Tint, bool)> {
    l.map_values(|p: Piece| piece_view(p))
}

/// Lines of pieces as values.
pub open spec fn lines_view(ls: Seq<Vec<Piece>>) -> Seq<Seq<(Seq<char>, Tint, bool)>> {
    ls.map_values(|l: Vec<Piece>| line_view(l@))
}

fn push_piece(line: &mut Vec<Piece>, text: &str, tint: Tint)
    ensures
        line_view(final(line)@) == line_view(old(line)@).push((text@, tint, false)),
{
    let ghost before = line@;
    line.push(Piece { text: text.to_owned(), tint, bold: false });
    assert(line_view(line@) =~= line_view(before).push((text@, tint, false)));
}

fn push_owned(line: &mut Vec<Piece>, text: String, tint: Tint, bold: bool)
    ensures
        line_view(final(line)@) == line_view(old(line)@).push((text@, tint, bold)),
{
    let ghost before = line@;
    let ghost t = text@;
    line.push(Piece { text, tint, bold });
    assert(line_view(line@) =~= line_view(before).push((t, tint, bold)));
}

fn plain_line(text: &str) -> (l: Vec<Piece>)
    ensures
        line_view(l@) == seq![(text@, Tint::Plain, false)],
{
    let mut l: Vec<Piece> = Vec::new();
    push_piece(&mut l, text, Tint::Plain);
    assert(line_view(l@) =~= seq![(text@, Tint::Plain, false)]);
    l
}

/// A key and what it does, as the footer shows them.
pub open spec fn hint(key: Seq<char>, tint: Tint, what: Seq<char>) -> Seq<(Seq<char>, Tint, bool)> {
    seq![(key, tint, false), (what, Tint::Plain, false)]
}

/// The keyboard shortcuts the footer shows in each mode.
pub open spec fn footer_spec(mode: ConsoleMode) -> Seq<(Seq<char>, Tint, bool)> {
    match mode {
        ConsoleMode::Normal => hint("q"@, Tint::Cyan, ":Quit  "@) + hint("i"@, Tint::Cyan, ":Commit  "@)
            + hint("l"@, Tint::Cyan, ":Log  "@) + hint("d"@, Tint::Cyan, ":Diff  "@) + hint(
            "s"@,
            Tint::Cyan,
            ":Search  "@,
        ) + hint("k"@, Tint::Cyan, ":Hooks  "@) + hint("?"@, Tint::Cyan, ":Help"@),
        ConsoleMode::CommitDialog => hint("Tab"@, Tint::Cyan, ":Next Field  "@) + hint(
            "Enter"@,
            Tint::Green,
            ":Submit  "@,
        ) + hint("Esc"@, Tint::Red, ":Cancel"@),
        ConsoleMode::RestoreBrowser => hint("↑↓"@, Tint::Cyan, ":Navigate  "@) + hint(
            "Enter"@,
            Tint::Green,
            ":Restore  "@,
        ) + hint("Esc"@, Tint::Red, ":Cancel"@),
        ConsoleMode::Compare => hint("Tab"@, Tint::Cyan, ":Switch  "@) + hint(
            "↑↓"@,
            Tint::Cyan,
            ":Navigate  "@,
        ) + hint("Enter"@, Tint::Green, ":Compare  "@) + hint("Esc"@, Tint::Red, ":Cancel"@),
        ConsoleMode::Search => hint("Type"@, Tint::Cyan, ":Query  "@) + hint(
            "Enter"@,
            Tint::Green,
            ":Search  "@,
        ) + hint("↑↓"@, Tint::Cyan, ":Navigate  "@) + hint("Esc"@, Tint::Red, ":Cancel"@),
        ConsoleMode::Hooks => hint("↑↓"@, Tint::Cyan, ":Navigate  "@) + hint(
            "d"@,
            Tint::Red,
            ":Delete  "@,
        ) + hint("r"@, Tint::Cyan, ":Refresh  "@) + hint("Esc"@, Tint::Red, ":Cancel"@),
        ConsoleMode::Help => hint("Any Key"@, Tint::Cyan, ":Return to Console"@),
    }
}

fn push_hint(line: &mut Vec<Piece>, key: &str, tint: Tint, what: &str)
    ensures
        line_view(final(line)@) == line_view(old(line)@) + hint(key@, tint, what@),
{
    push_piece(line, key, tint);
    push_piece(line, what, Tint::Plain);
    assert(line_view(final(line)@) =~= line_view(old(line)@) + hint(key@, tint, what@));
}

/// The footer line of keyboard shortcuts for a mode.
pub fn footer_line(mode: ConsoleMode) -> (l: Vec<Piece>)
    ensures
        line_view(l@) == footer_spec(mode),
{
    let mut l: Vec<Piece> = Vec::new();
    assert(line_view(l@) =~= Seq::empty());
    match mode {
        ConsoleMode::Normal => {
            push_hint(&mut l, "q", Tint::Cyan, ":Quit  ");
            push_hint(&mut l, "i", Tint::Cyan, ":Commit  ");
            push_hint(&mut l, "l", Tint::Cyan, ":Log  ");
            push_hint(&mut l, "d", Tint::Cyan, ":Diff  ");
            push_hint(&mut l, "s", Tint::Cyan, ":Search  ");
            push_hint(&mut l, "k", Tint::Cyan, ":Hooks  ");
            push_hint(&mut l, "?", Tint::Cyan, ":Help");
        },
        ConsoleMode::CommitDialog => {
            push_hint(&mut l, "Tab", Tint::Cyan, ":Next Field  ");
            push_hint(&mut l, "Enter", Tint::Green, ":Submit  ");
            push_hint(&mut l, "Esc", Tint::Red, ":Cancel");
        },
        ConsoleMode::RestoreBrowser => {
            push_hint(&mut l, "↑↓", Tint::Cyan, ":Navigate  ");
            push_hint(&mut l, "Enter", Tint::Green, ":Restore  ");
            push_hint(&mut l, "Esc", Tint::Red, ":Cancel");
        },
        ConsoleMode::Compare => {
            push_hint(&mut l, "Tab", Tint::Cyan, ":Switch  ");
            push_hint(&mut l, "↑↓", Tint::Cyan, ":Navigate  ");
            push_hint(&mut l, "Enter", Tint::Green, ":Compare  ");
            push_hint(&mut l, "Esc", Tint::Red, ":Cancel");
        },
        ConsoleMode::Search => {
            push_hint(&mut l, "Type", Tint::Cyan, ":Query  ");
            push_hint(&mut l, "Enter", Tint::Green, ":Search  ");
            push_hint(&mut l, "↑↓", Tint::Cyan, ":Navigate  ");
            push_hint(&mut l, "Esc", Tint::Red, ":Cancel");
        },
        ConsoleMode::Hooks => {
            push_hint(&mut l, "↑↓", Tint::Cyan, ":Navigate  ");
            push_hint(&mut l, "d", Tint::Red, ":Delete  ");
            push_hint(&mut l, "r", Tint::Cyan, ":Refresh  ");
            push_hint(&mut l, "Esc", Tint::Red, ":Cancel");
        },
        ConsoleMode::Help => {
            push_hint(&mut l, "Any Key", Tint::Cyan, ":Return to Console");
        },
    }
    l
}

} // verus!

verus! {

/// A line of one plain piece.
pub open spec fn text_line(s: Seq<char>) -> Seq<(Seq<char>, Tint, bool)> {
    seq![(s, Tint::Plain, false)]
}

/// The help screen.
pub open spec fn help_spec() -> Seq<Seq<(Seq<char>, Tint, bool)>> {
    seq![
        text_line(""@),
        seq![("Auxin Console - Keyboard Shortcuts"@, Tint::Cyan, true)],
        text_line(""@),
        text_line("Normal Mode:"@),
        text_line("  q         - Quit console"@),
        text_line("  i         - Open commit dialog"@),
        text_line("  l         - Open restore browser (log)"@),
        text_line("  d         - Open compare mode (semantic diff)"@),
        text_line("  s         - Open search mode"@),
        text_line("  k         - Open hooks manager"@),
        text_line("  r         - Refresh repository status"@),
        text_line("  c         - Clear activity log"@),
        text_line("  ?  or h   - Show this help"@),
        text_line(""@),
        text_line("Commit Dialog:"@),
        text_line("  Tab       - Move to next field"@),
        text_line("  Shift+Tab - Move to previous field"@),
        text_line("  Enter     - Submit commit"@),
        text_line("  Esc       - Cancel"@),
        text_line(""@),
        text_line("Restore Browser:"@),
        text_line("  ↑ / ↓     - Navigate commit list"@),
        text_line("  Enter     - Restore selected commit"@),
        text_line("  Esc       - Close browser"@),
        text_line(""@),
        text_line("Compare Mode:"@),
        text_line("  Tab       - Switch between commit A and B"@),
        text_line("  ↑ / ↓     - Navigate commit list"@),
        text_line("  Enter     - Execute comparison"@),
        text_line("  Esc       - Close compare mode"@),
        text_line(""@),
        text_line("Search Mode:"@),
        text_line("  Type      - Enter search query (e.g., bpm:120-140)"@),
        text_line("  Enter     - Execute search"@),
        text_line("  ↑ / ↓     - Navigate results"@),
        text_line("  Esc       - Close search mode"@),
        text_line(""@),
        text_line("Hooks Mode:"@),
        text_line("  ↑ / ↓     - Navigate hook list"@),
        text_line("  d         - Delete selected hook"@),
        text_line("  r         - Refresh hook list"@),
        text_line("  Esc       - Close hooks mode"@),
        text_line(""@),
        seq![("Press any key to return to console"@, Tint::Green, false)],
    ]
}

fn push_line(lines: &mut Vec<Vec<Piece>>, text: &str)
    ensures
        lines_view(final(lines)@) == lines_view(old(lines)@).push(text_line(text@)),
{
    let ghost before = lines@;
    let l = plain_line(text);
    lines.push(l);
    assert(lines_view(lines@) =~= lines_view(before).push(text_line(text@)));
}

fn push_styled_line(lines: &mut Vec<Vec<Piece>>, text: &str, tint: Tint, bold: bool)
    ensures
        lines_view(final(lines)@) == lines_view(old(lines)@).push(seq![(text@, tint, bold)]),
{
    let ghost before = lines@;
    let mut l: Vec<Piece> = Vec::new();
    push_owned(&mut l, text.to_owned(), tint, bold);
    assert(line_view(l@) =~= seq![(text@, tint, bold)]);
    lines.push(l);
    assert(lines_view(lines@) =~= lines_view(before).push(seq![(text@, tint, bold)]));
}

/// The help screen: the keyboard shortcuts of every mode.
pub fn help_lines() -> (ls: Vec<Vec<Piece>>)
    ensures
        lines_view(ls@) == help_spec(),
{
    let mut ls: Vec<Vec<Piece>> = Vec::new();
    push_line(&mut ls, "");
    push_styled_line(&mut ls, "Auxin Console - Keyboard Shortcuts", Tint::Cyan, true);
    push_line(&mut ls, "");
    push_line(&mut ls, "Normal Mode:");
    push_line(&mut ls, "  q         - Quit console");
    push_line(&mut ls, "  i         - Open commit dialog");
    push_line(&mut ls, "  l         - Open restore browser (log)");
    push_line(&mut ls, "  d         - Open compare mode (semantic diff)");
    push_line(&mut ls, "  s         - Open search mode");
    push_line(&mut ls, "  k         - Open hooks manager");
    push_line(&mut ls, "  r         - Refresh repository status");
    push_line(&mut ls, "  c         - Clear activity log");
    push_line(&mut ls, "  ?  or h   - Show this help");
    push_line(&mut ls, "");
    push_line(&mut ls, "Commit Dialog:");
    push_line(&mut ls, "  Tab       - Move to next field");
    push_line(&mut ls, "  Shift+Tab - Move to previous field");
    push_line(&mut ls, "  Enter     - Submit commit");
    push_line(&mut ls, "  Esc       - Cancel");
    push_line(&mut ls, "");
    push_line(&mut ls, "Restore Browser:");
    push_line(&mut ls, "  ↑ / ↓     - Navigate commit list");
    push_line(&mut ls, "  Enter     - Restore selected commit");
    push_line(&mut ls, "  Esc       - Close browser");
    push_line(&mut ls, "");
    push_line(&mut ls, "Compare Mode:");
    push_line(&mut ls, "  Tab       - Switch between commit A and B");
    push_line(&mut ls, "  ↑ / ↓     - Navigate commit list");
    push_line(&mut ls, "  Enter     - Execute comparison");
    push_line(&mut ls, "  Esc       - Close compare mode");
    push_line(&mut ls, "");
    push_line(&mut ls, "Search Mode:");
    push_line(&mut ls, "  Type      - Enter search query (e.g., bpm:120-140)");
    push_line(&mut ls, "  Enter     - Execute search");
    push_line(&mut ls, "  ↑ / ↓     - Navigate results");
    push_line(&mut ls, "  Esc       - Close search mode");
    push_line(&mut ls, "");
    push_line(&mut ls, "Hooks Mode:");
    push_line(&mut ls, "  ↑ / ↓     - Navigate hook list");
    push_line(&mut ls, "  d         - Delete selected hook");
    push_line(&mut ls, "  r         - Refresh hook list");
    push_line(&mut ls, "  Esc       - Close hooks mode");
    push_line(&mut ls, "");
    push_styled_line(&mut ls, "Press any key to return to console", Tint::Green, false);
    assert(lines_view(ls@) =~= help_spec());
    ls
}

} // verus!

verus! {

/// The tint of a value: yellow when it is the active or selected one.
pub open spec fn highlight(on: bool) -> Tint {
    if on {
        Tint::Yellow
    } else {
        Tint::Plain
    }
}

/// The commit dialog: each field's label and value, the active value
/// highlighted, with empty lines between.
pub open spec fn dialog_spec(fields: Seq<Seq<char>>, active: usize) -> Seq<
    Seq<(Seq<char>, Tint, bool)>,
> {
    seq![
        seq![("Message: "@, Tint::Plain, false), (fields[0], highlight(active == 0), false)],
        text_line(""@),
        seq![("BPM: "@, Tint::Plain, false), (fields[1], highlight(active == 1), false)],
        text_line(""@),
        seq![("Sample Rate: "@, Tint::Plain, false), (fields[2], highlight(active == 2), false)],
        text_line(""@),
        seq![("Key: "@, Tint::Plain, false), (fields[3], highlight(active == 3), false)],
        text_line(""@),
        seq![("Tags: "@, Tint::Plain, false), (fields[4], highlight(active == 4), false)],
    ]
}

fn tint_if(on: bool) -> (t: Tint)
    ensures
        t == highlight(on),
{
    if on {
        Tint::Yellow
    } else {
        Tint::Plain
    }
}

fn push_field(lines: &mut Vec<Vec<Piece>>, label: &str, value: &String, active: bool)
    ensures
        lines_view(final(lines)@) == lines_view(old(lines)@).push(
            seq![(label@, Tint::Plain, false), (value@, highlight(active), false)],
        ),
{
    let ghost before = lines@;
    let mut l: Vec<Piece> = Vec::new();
    push_piece(&mut l, label, Tint::Plain);
    push_owned(&mut l, value.clone(), tint_if(active), false);
    assert(line_view(l@) =~= seq![(label@, Tint::Plain, false), (value@, highlight(active), false)]);
    lines.push(l);
    assert(lines_view(lines@) =~= lines_view(before).push(
        seq![(label@, Tint::Plain, false), (value@, highlight(active), false)],
    ));
}

/// A commit in a list: short id, message (yellow and bold when selected),
/// and its time when `with_time`.
pub open spec fn commit_line_spec(c: CommitView, selected: bool, with_time: bool) -> Seq<
    (Seq<char>, Tint, bool),
> {
    let head = seq![
        (c.short_id, Tint::Cyan, false),
        (" - "@, Tint::Plain, false),
        (c.message, highlight(selected), selected),
    ];
    if with_time {
        head + seq![
            (" ("@, Tint::Plain, false),
            (c.timestamp, Tint::DarkGray, false),
            (")"@, Tint::Plain, false),
        ]
    } else {
        head
    }
}

/// A list of commits, the one at `selected` highlighted.
pub open spec fn commit_lines_spec(cs: Seq<CommitView>, selected: usize, with_time: bool) -> Seq<
    Seq<(Seq<char>, Tint, bool)>,
> {
    Seq::new(cs.len(), |i: int| commit_line_spec(cs[i], i == selected, with_time))
}

fn commit_line(c: &CommitEntry, selected: bool, with_time: bool) -> (l: Vec<Piece>)
    ensures
        line_view(l@) == commit_line_spec(commit_view(*c), selected, with_time),
{
    let mut l: Vec<Piece> = Vec::new();
    push_owned(&mut l, c.short_id.clone(), Tint::Cyan, false);
    push_piece(&mut l, " - ", Tint::Plain);
    push_owned(&mut l, c.message.clone(), tint_if(selected), selected);
    if with_time {
        push_piece(&mut l, " (", Tint::Plain);
        push_owned(&mut l, c.timestamp.clone(), Tint::DarkGray, false);
        push_piece(&mut l, ")", Tint::Plain);
    }
    assert(line_view(l@) =~= commit_line_spec(commit_view(*c), selected, with_time));
    l
}

/// The lines of a list of commits, the one at `selected` highlighted; with
/// their times in the restore browser.
pub fn commit_lines(commits: &Vec<CommitEntry>, selected: usize, with_time: bool) -> (ls: Vec<
    Vec<Piece>,
>)
    ensures
        lines_view(ls@) == commit_lines_spec(commits_view(commits@), selected, with_time),
{
    let mut ls: Vec<Vec<Piece>> = Vec::new();
    let mut i: usize = 0;
    while i < commits.len()
        invariant
            i <= commits.len(),
            ls@.len() == i,
            forall|j: int|
                0 <= j < i ==> line_view(#[trigger] ls@[j]@) == commit_line_spec(
                    commit_view(commits@[j]),
                    j == selected,
                    with_time,
                ),
        decreases commits.len() - i,
    {
        let l = commit_line(&commits[i], i == selected, with_time);
        ls.push(l);
        i += 1;
    }
    assert(lines_view(ls@) =~= commit_lines_spec(commits_view(commits@), selected, with_time));
    ls
}

/// The hooks panel with no hook installed.
pub open spec fn no_hooks_spec() -> Seq<Seq<(Seq<char>, Tint, bool)>> {
    seq![
        text_line(""@),
        seq![("No hooks installed"@, Tint::Yellow, false)],
        text_line(""@),
        text_line("Install built-in hooks with:"@),
        text_line("  auxin hooks install <name>"@),
        text_line(""@),
        text_line("Available built-in hooks:"@),
        text_line("  validate-metadata (pre-commit)"@),
        text_line("  check-file-sizes (pre-commit)"@),
        text_line("  notify (post-commit)"@),
        text_line("  backup (post-commit)"@),
    ]
}

/// The tint of a hook type.
pub open spec fn hook_tint(t: Seq<char>) -> Tint {
    if t == "pre-commit"@ {
        Tint::Green
    } else if t == "post-commit"@ {
        Tint::Cyan
    } else {
        Tint::White
    }
}

/// A row of the hooks list: type, then name (highlighted when selected).
pub open spec fn hook_line_spec(h: (Seq<char>, Seq<char>), selected: bool) -> Seq<
    (Seq<char>, Tint, bool),
> {
    seq![
        (h.0, hook_tint(h.0), false),
        (" / "@, Tint::Plain, false),
        (h.1, highlight(selected), selected),
    ]
}

/// The hooks panel: the hooks, or how to install some when there is none.
pub open spec fn hooks_spec(hooks: Seq<(Seq<char>, Seq<char>)>, selected: usize) -> Seq<
    Seq<(Seq<char>, Tint, bool)>,
> {
    if hooks.len() == 0 {
        no_hooks_spec()
    } else {
        Seq::new(hooks.len(), |i: int| hook_line_spec(hooks[i], i == selected))
    }
}

/// The daemon indicator of the status panel.
pub open spec fn daemon_indicator(s: DaemonStatus) -> (Seq<char>, Tint, bool) {
    match s {
        DaemonStatus::Running => ("● Running"@, Tint::Green, false),
        DaemonStatus::Stopped => ("● Stopped"@, Tint::Red, false),
        DaemonStatus::Unknown => ("● Unknown"@, Tint::Yellow, false),
    }
}

/// A count of the status panel: label, then the number in its tint.
pub open spec fn count_line(label: Seq<char>, n: usize, tint: Tint) -> Seq<(Seq<char>, Tint, bool)> {
    seq![(label, Tint::Plain, false), (decimal(n as nat), tint, false)]
}

/// The prefix of a log entry of each level.
pub open spec fn level_prefix(l: LogLevel) -> (Seq<char>, Tint) {
    match l {
        LogLevel::Info => ("ℹ"@, Tint::Cyan),
        LogLevel::Success => ("✓"@, Tint::Green),
        LogLevel::Warning => ("⚠"@, Tint::Yellow),
        LogLevel::Error => ("✗"@, Tint::Red),
    }
}

/// A line of the activity log: its time of day, the level's prefix, the
/// message.
pub open spec fn log_line_spec(time: Seq<char>, level: LogLevel, message: Seq<char>) -> Seq<
    (Seq<char>, Tint, bool),
> {
    seq![
        (time, Tint::DarkGray, false),
        (" "@, Tint::Plain, false),
        (level_prefix(level).0, level_prefix(level).1, false),
        (" "@, Tint::Plain, false),
        (message, Tint::Plain, false),
    ]
}

fn counted_text(a: &str, n: usize, b: &str) -> (s: String)
    ensures
        s@ == a@ + decimal(n as nat) + b@,
{
    let mut v: Vec<char> = Vec::new();
    extend_str(&mut v, a);
    push_decimal(&mut v, n as u64);
    extend_str(&mut v, b);
    assert(v@ =~= a@ + decimal(n as nat) + b@);
    string_from_chars(&v)
}

/// Where the commit dialog goes in an area: at most 60 wide and 20 high,
/// centred.
pub open spec fn dialog_area_spec(x: u16, y: u16, width: u16, height: u16) -> (int, int, int, int) {
    let w = if width < 60 {
        width as int
    } else {
        60
    };
    let h = if height < 20 {
        height as int
    } else {
        20
    };
    (x + (width - w) / 2, y + (height - h) / 2, w, h)
}

/// The area of the commit dialog, centred in the given one.
pub fn dialog_area(x: u16, y: u16, width: u16, height: u16) -> (r: (u16, u16, u16, u16))
    requires
        x + (width - (if width < 60 { width as int } else { 60 })) / 2 <= u16::MAX,
        y + (height - (if height < 20 { height as int } else { 20 })) / 2 <= u16::MAX,
    ensures
        (r.0 as int, r.1 as int, r.2 as int, r.3 as int) == dialog_area_spec(x, y, width, height),
{
    let w: u16 = if width < 60 { width } else { 60 };
    let h: u16 = if height < 20 { height } else { 20 };
    let dx: u16 = (width - w) / 2;
    let dy: u16 = (height - h) / 2;
    (x + dx, y + dy, w, h)
}

impl Console {
    /// The lines of the commit dialog.
    pub fn dialog_lines(&self) -> (ls: Vec<Vec<Piece>>)
        ensures
            lines_view(ls@) == dialog_spec(self@.dialog, self@.active_field),
    {
        let a = self.commit_dialog.active_field;
        let mut ls: Vec<Vec<Piece>> = Vec::new();
        push_field(&mut ls, "Message: ", &self.commit_dialog.message, a == 0);
        push_line(&mut ls, "");
        push_field(&mut ls, "BPM: ", &self.commit_dialog.bpm, a == 1);
        push_line(&mut ls, "");
        push_field(&mut ls, "Sample Rate: ", &self.commit_dialog.sample_rate, a == 2);
        push_line(&mut ls, "");
        push_field(&mut ls, "Key: ", &self.commit_dialog.key, a == 3);
        push_line(&mut ls, "");
        push_field(&mut ls, "Tags: ", &self.commit_dialog.tags, a == 4);
        assert(lines_view(ls@) =~= dialog_spec(self@.dialog, self@.active_field));
        ls
    }

    /// The lines of the hooks panel.
    pub fn hooks_lines(&self) -> (ls: Vec<Vec<Piece>>)
        ensures
            lines_view(ls@) == hooks_spec(self@.hooks, self@.hook_index),
    {
        let mut ls: Vec<Vec<Piece>> = Vec::new();
        let n = self.hooks_state.hooks.len();
        if n == 0 {
            push_line(&mut ls, "");
            push_styled_line(&mut ls, "No hooks installed", Tint::Yellow, false);
            push_line(&mut ls, "");
            push_line(&mut ls, "Install built-in hooks with:");
            push_line(&mut ls, "  auxin hooks install <name>");
            push_line(&mut ls, "");
            push_line(&mut ls, "Available built-in hooks:");
            push_line(&mut ls, "  validate-metadata (pre-commit)");
            push_line(&mut ls, "  check-file-sizes (pre-commit)");
            push_line(&mut ls, "  notify (post-commit)");
            push_line(&mut ls, "  backup (post-commit)");
            assert(lines_view(ls@) =~= no_hooks_spec());
            return ls;
        }
        let sel = self.hooks_state.selected_index;
        let mut i: usize = 0;
        while i < n
            invariant
                n == self.hooks_state.hooks@.len(),
                sel == self.hooks_state.selected_index,
                i <= n,
                ls@.len() == i,
                forall|j: int|
                    0 <= j < i ==> line_view(#[trigger] ls@[j]@) == hook_line_spec(
                        pairs_view(self.hooks_state.hooks@)[j],
                        j == sel,
                    ),
            decreases n - i,
        {
            let t = crate::text::chars_of(self.hooks_state.hooks[i].0.as_str());
            let tint = if crate::text::chars_are(&t, "pre-commit") {
                Tint::Green
            } else if crate::text::chars_are(&t, "post-commit") {
                Tint::Cyan
            } else {
                Tint::White
            };
            let mut l: Vec<Piece> = Vec::new();
            push_owned(&mut l, self.hooks_state.hooks[i].0.clone(), tint, false);
            push_piece(&mut l, " / ", Tint::Plain);
            push_owned(&mut l, self.hooks_state.hooks[i].1.clone(), tint_if(i == sel), i == sel);
            assert(line_view(l@) =~= hook_line_spec(pairs_view(self.hooks_state.hooks@)[i as int], i == sel));
            ls.push(l);
            i += 1;
        }
        assert(lines_view(ls@) =~= hooks_spec(self@.hooks, self@.hook_index));
        ls
    }

    /// The title of the hooks panel.
    pub fn hooks_title(&self) -> (s: String)
        ensures
            s@ == (if self@.hooks.len() == 0 {
                "Hooks Manager"@
            } else {
                "Hooks Manager ("@ + decimal(self@.hooks.len()) + " hooks, press 'd' to delete)"@
            }),
    {
        let n = self.hooks_state.hooks.len();
        if n == 0 {
            "Hooks Manager".to_owned()
        } else {
            counted_text("Hooks Manager (", n, " hooks, press 'd' to delete)")
        }
    }

    /// The lines of the status panel: the daemon, then the repository counts
    /// when known.
    pub fn status_lines(&self) -> (ls: Vec<Vec<Piece>>)
        ensures
            lines_view(ls@) == seq![
                seq![("Daemon: "@, Tint::Plain, false), daemon_indicator(self@.daemon_status)],
                text_line(""@),
            ] + match self@.repo_status {
                Some(r) => seq![
                    seq![("Repository:"@, Tint::Plain, true)],
                    count_line("  Staged: "@, r.staged, Tint::Green),
                    count_line("  Modified: "@, r.modified, Tint::Yellow),
                    count_line("  Untracked: "@, r.untracked, Tint::Cyan),
                ],
                None => seq![seq![("Repository: Not loaded"@, Tint::DarkGray, false)]],
            },
    {
        let mut ls: Vec<Vec<Piece>> = Vec::new();
        let mut d: Vec<Piece> = Vec::new();
        push_piece(&mut d, "Daemon: ", Tint::Plain);
        match self.daemon_status {
            DaemonStatus::Running => push_piece(&mut d, "● Running", Tint::Green),
            DaemonStatus::Stopped => push_piece(&mut d, "● Stopped", Tint::Red),
            DaemonStatus::Unknown => push_piece(&mut d, "● Unknown", Tint::Yellow),
        }
        assert(line_view(d@) =~= seq![("Daemon: "@, Tint::Plain, false), daemon_indicator(self@.daemon_status)]);
        ls.push(d);
        assert(lines_view(ls@) =~= seq![line_view(d@)]);
        push_line(&mut ls, "");
        match self.repo_status {
            Some(r) => {
                push_styled_line(&mut ls, "Repository:", Tint::Plain, true);
                push_count(&mut ls, "  Staged: ", r.staged, Tint::Green);
                push_count(&mut ls, "  Modified: ", r.modified, Tint::Yellow);
                push_count(&mut ls, "  Untracked: ", r.untracked, Tint::Cyan);
            },
            None => {
                push_styled_line(&mut ls, "Repository: Not loaded", Tint::DarkGray, false);
            },
        }
        assert(lines_view(ls@) =~= seq![
            seq![("Daemon: "@, Tint::Plain, false), daemon_indicator(self@.daemon_status)],
            text_line(""@),
        ] + match self@.repo_status {
            Some(r) => seq![
                seq![("Repository:"@, Tint::Plain, true)],
                count_line("  Staged: "@, r.staged, Tint::Green),
                count_line("  Modified: "@, r.modified, Tint::Yellow),
                count_line("  Untracked: "@, r.untracked, Tint::Cyan),
            ],
            None => seq![seq![("Repository: Not loaded"@, Tint::DarkGray, false)]],
        });
        ls
    }
}

fn push_count(lines: &mut Vec<Vec<Piece>>, label: &str, n: usize, tint: Tint)
    ensures
        lines_view(final(lines)@) == lines_view(old(lines)@).push(count_line(label@, n, tint)),
{
    let ghost before = lines@;
    let mut l: Vec<Piece> = Vec::new();
    push_piece(&mut l, label, Tint::Plain);
    let mut v: Vec<char> = Vec::new();
    push_decimal(&mut v, n as u64);
    assert(v@ =~= decimal(n as nat));
    push_owned(&mut l, string_from_chars(&v), tint, false);
    assert(line_view(l@) =~= count_line(label@, n, tint));
    lines.push(l);
    assert(lines_view(lines@) =~= lines_view(before).push(count_line(label@, n, tint)));
}

} // verus!

verus! {

/// The line of the activity log for an entry of this level and message,
/// logged at `time`: its time of day, its level's prefix, its message.
pub open spec fn is_log_line(
    l: Seq<(Seq<char>, Tint, bool)>,
    level: LogLevel,
    message: Seq<char>,
    time: SystemTime,
) -> bool {
    l == log_line_spec(clock_spec(epoch_secs(time) as nat), level, message)
}

fn log_line(e: &crate::console::LogEntry) -> (l: Vec<Piece>)
    ensures
        is_log_line(line_view(l@), e.level, e.message@, e.timestamp),
{
    let time = format_timestamp(e.timestamp);
    let ghost secs = epoch_secs(e.timestamp);
    let mut l: Vec<Piece> = Vec::new();
    push_owned(&mut l, time, Tint::DarkGray, false);
    push_piece(&mut l, " ", Tint::Plain);
    match e.level {
        LogLevel::Info => push_piece(&mut l, "ℹ", Tint::Cyan),
        LogLevel::Success => push_piece(&mut l, "✓", Tint::Green),
        LogLevel::Warning => push_piece(&mut l, "⚠", Tint::Yellow),
        LogLevel::Error => push_piece(&mut l, "✗", Tint::Red),
    }
    push_piece(&mut l, " ", Tint::Plain);
    push_owned(&mut l, e.message.clone(), Tint::Plain, false);
    assert(line_view(l@) =~= log_line_spec(clock_spec(secs as nat), e.level, e.message@));
    l
}

impl Console {
    /// The lines of the activity log, newest first: each entry's time of day
    /// (from its timestamp), its level's prefix, and its message.
    pub fn activity_lines(&self) -> (ls: Vec<Vec<Piece>>)
        ensures
            ls@.len() == self@.log.len(),
            ls@.len() == self.activity_log@.len(),
            forall|i: int|
                0 <= i < ls@.len() ==> is_log_line(
                    #[trigger] line_view(ls@[i]@),
                    self@.log[i].0,
                    self@.log[i].1,
                    self.activity_log@[i].timestamp,
                ),
    {
        let mut ls: Vec<Vec<Piece>> = Vec::new();
        let mut i: usize = 0;
        while i < self.activity_log.len()
            invariant
                i <= self.activity_log@.len(),
                ls@.len() == i,
                forall|j: int|
                    0 <= j < i ==> is_log_line(
                        #[trigger] line_view(ls@[j]@),
                        self.activity_log@[j].level,
                        self.activity_log@[j].message@,
                        self.activity_log@[j].timestamp,
                    ),
            decreases self.activity_log@.len() - i,
        {
            let l = log_line(&self.activity_log[i]);
            ls.push(l);
            i += 1;
        }
        assert forall|i: int| 0 <= i < ls@.len() implies is_log_line(
            #[trigger] line_view(ls@[i]@),
            self@.log[i].0,
            self@.log[i].1,
            self.activity_log@[i].timestamp,
        ) by {
            assert(self@.log[i] == (self.activity_log@[i].level, self.activity_log@[i].message@));
        }
        ls
    }

    /// The query line of the search view.
    pub fn search_query_text(&self) -> (s: String)
        ensures
            s@ == "Query: "@ + self@.query,
    {
        let mut v: Vec<char> = Vec::new();
        extend_str(&mut v, "Query: ");
        extend_str(&mut v, self.search_state.query.as_str());
        string_from_chars(&v)
    }

    /// The title of the search results.
    pub fn search_results_title(&self) -> (s: String)
        ensures
            s@ == "Search Results ("@ + decimal(self@.results.len()) + " found)"@,
    {
        counted_text("Search Results (", self.search_state.results.len(), " found)")
    }

    /// What the search view shows when it has no results.
    pub fn search_empty_text(&self) -> (s: &'static str)
        ensures
            s@ == (if self@.query.len() == 0 {
                "Enter a search query and press Enter to search"@
            } else {
                "No results found. Press Enter to search."@
            }),
    {
        if self.search_state.query.as_str().unicode_len() == 0 {
            "Enter a search query and press Enter to search"
        } else {
            "No results found. Press Enter to search."
        }
    }

    /// What the compare view shows on its right: the comparison, or how to
    /// make one.
    pub fn diff_text(&self) -> (s: String)
        ensures
            s@ == match self@.diff_result {
                Some(d) => d,
                None => "Press Enter to compare selected commits"@,
            },
    {
        match &self.compare_state.diff_result {
            Some(d) => d.clone(),
            None => "Press Enter to compare selected commits".to_owned(),
        }
    }
}

} // verus!

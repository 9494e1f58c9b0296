//! State of the interactive console: modes, log entries, and the state of
//! its dialogs, and the clock format of its activity log. Drawing and key
//! handling belong to the terminal front end.
use vstd::prelude::*;
use crate::blender_metadata::opt_view;
use crate::hooks::{hook_dir_name, HookType};
use crate::text::{
    chars_are, chars_of, digit_char, digit_to_char, extend_str, lines_of, lines_seq, pairs_view, push_char,
    push_decimal, decimal, split_chars, split_on, string_from_chars, sub_chars, trim_chars, trim_seq,
    parse_u32, parse_u32_spec, strings_view, byte_prefix, byte_prefix_of, cuts_cleanly,
};
use std::time::SystemTime;
use crate::clock::{epoch_offset, since_epoch, system_now};

verus! {

#[verifier::external_type_specification]
#[verifier::external_body]
pub struct ExSystemTime(SystemTime);

/// Maximum number of activity log entries kept.
pub const MAX_LOG_ENTRIES: usize = 100;

/// Interval between two polls of the daemon, in milliseconds.
pub const POLL_INTERVAL_MS: u64 = 2000;


/// Console application mode.
#[derive(Debug, Clone, Copy, PartialEq, Eq, Structural)]
pub enum ConsoleMode {
    /// Normal monitoring view.
    Normal,
    /// Interactive commit dialog.
    CommitDialog,
    /// Interactive restore browser.
    RestoreBrowser,
    /// Compare commits.
    Compare,
    /// Search commits.
    Search,
    /// Hooks management.
    Hooks,
    /// Help screen.
    Help,
}

/// Log entry severity level.
#[derive(Debug, Clone, Copy, PartialEq, Eq, Structural)]
pub enum LogLevel {
    Info,
    Success,
    Warning,
    Error,
}

/// Daemon connection status.
#[derive(Debug, Clone, Copy, PartialEq, Eq, Structural)]
pub enum DaemonStatus {
    Running,
    Stopped,
    Unknown,
}

/// Repository status snapshot.
#[derive(Debug, Clone, Copy, PartialEq, Eq, Structural)]
pub struct RepositoryStatus {
    /// Number of staged files.
    pub staged: usize,
    /// Number of modified files.
    pub modified: usize,
    /// Number of untracked files.
    pub untracked: usize,
}

/// Single entry in the activity log.
#[derive(Debug)]
pub struct LogEntry {
    /// When the entry was created.
    pub timestamp: SystemTime,
    /// Severity level.
    pub level: LogLevel,
    /// The message.
    pub message: String,
}

/// A commit as the restore browser, compare and search views list it.
#[derive(Debug, Clone)]
pub struct CommitEntry {
    pub id: String,
    pub short_id: String,
    pub message: String,
    pub timestamp: String,
}

/// State of the compare view.
#[derive(Debug, Clone)]
pub struct CompareState {
    pub commits: Vec<CommitEntry>,
    pub selected_a: usize,
    pub selected_b: usize,
    /// 0 = commit A, 1 = commit B.
    pub active_selector: u8,
    pub diff_result: Option<String>,
}

impl Default for CompareState {
    fn default() -> (s: Self)
        ensures
            s.commits@.len() == 0,
            s.selected_a == 0,
            s.selected_b == 0,
            s.active_selector == 0,
            s.diff_result is None,
    {
        CompareState { commits: Vec::new(), selected_a: 0, selected_b: 0, active_selector: 0, diff_result: None }
    }
}

/// State of the search view.
#[derive(Debug, Clone)]
pub struct SearchState {
    pub query: String,
    pub results: Vec<CommitEntry>,
    pub selected_index: usize,
}

impl Default for SearchState {
    fn default() -> (s: Self)
        ensures
            s.query@.len() == 0,
            s.results@.len() == 0,
            s.selected_index == 0,
    {
        SearchState { query: String::new(), results: Vec::new(), selected_index: 0 }
    }
}

/// State of the hooks view: (type, name) of each installed hook.
#[derive(Debug, Clone)]
pub struct HooksState {
    pub hooks: Vec<(String, String)>,
    pub selected_index: usize,
}

impl Default for HooksState {
    fn default() -> (s: Self)
        ensures
            s.hooks@.len() == 0,
            s.selected_index == 0,
    {
        HooksState { hooks: Vec::new(), selected_index: 0 }
    }
}

/// A number below 100 with two digits.
pub open spec fn two_digits(n: nat) -> Seq<char> {
    seq![digit_char(n / 10), digit_char(n % 10)]
}

/// The time of day (UTC) of a number of seconds since the Unix epoch, as
/// `HH:MM:SS`.
pub open spec fn clock_spec(secs: nat) -> Seq<char> {
    two_digits((secs / 3600) % 24) + seq![':'] + two_digits((secs / 60) % 60) + seq![':'] + two_digits(
        secs % 60,
    )
}

/// The time of day (UTC) of `secs` seconds since the Unix epoch, as
/// `HH:MM:SS`.
pub fn format_clock(secs: u64) -> (s: String)
    ensures
        s@ == clock_spec(secs as nat),
{
    let h = (secs / 3600) % 24;
    let m = (secs / 60) % 60;
    let sec = secs % 60;
    let mut v: Vec<char> = Vec::new();
    v.push(digit_to_char(h / 10));
    v.push(digit_to_char(h % 10));
    v.push(':');
    v.push(digit_to_char(m / 10));
    v.push(digit_to_char(m % 10));
    v.push(':');
    v.push(digit_to_char(sec / 10));
    v.push(digit_to_char(sec % 10));
    assert(v@ =~= clock_spec(secs as nat));
    string_from_chars(&v)
}

/// The whole seconds from the Unix epoch to `time`, zero for a time before
/// the epoch.
pub open spec fn epoch_secs(time: SystemTime) -> u64 {
    if epoch_offset(time).0 {
        0
    } else {
        epoch_offset(time).1
    }
}

/// The whole seconds from the Unix epoch to `time`, zero for a time before
/// the epoch (`duration_since(UNIX_EPOCH)`, or the default duration).
fn secs_since_epoch(time: &SystemTime) -> (secs: u64)
    ensures
        secs == epoch_secs(*time),
{
    let (before, secs, _nanos) = since_epoch(time);
    if before {
        0
    } else {
        secs
    }
}

/// The time of day (UTC) of `time` as `HH:MM:SS`.
pub fn format_timestamp(time: SystemTime) -> (s: String)
    ensures
        s@ == clock_spec(epoch_secs(time) as nat),
{
    let secs = secs_since_epoch(&time);
    format_clock(secs)
}

} // verus!

verus! {

/// Keys the console reacts to; every other key is `Other`.
#[derive(Debug, Clone, Copy, PartialEq, Eq, Structural)]
pub enum KeyCode {
    Char(char),
    Esc,
    Enter,
    Tab,
    BackTab,
    Backspace,
    Up,
    Down,
    Other,
}

/// Modifier keys held with a key, as a bit set: shift 1, control 2, alt 4,
/// super 8, hyper 16, meta 32.
#[derive(Debug, Clone, Copy, PartialEq, Eq, Structural)]
pub struct KeyModifiers {
    pub bits: u8,
}

/// The bit set of the control key alone.
pub const CONTROL_BITS: u8 = 2;

impl KeyModifiers {
    /// No modifier held.
    pub fn empty() -> (m: Self)
        ensures
            m.bits == 0,
    {
        KeyModifiers { bits: 0 }
    }

    /// The control key alone.
    pub fn control() -> (m: Self)
        ensures
            m.bits == CONTROL_BITS,
    {
        KeyModifiers { bits: CONTROL_BITS }
    }
}

/// Outside work that a key asks of the front end, which performs it and
/// reports back through the `finish_*` methods.
#[derive(Debug, Clone, Copy, PartialEq, Eq, Structural)]
pub enum ConsoleAction {
    /// Nothing to do.
    Nothing,
    /// Read the repository status (`finish_refresh_status`).
    RefreshStatus,
    /// Load the history for the restore browser (`finish_load_commits`).
    LoadCommits,
    /// Load the history for the compare view (`finish_load_compare_commits`).
    LoadCompareCommits,
    /// List the installed hooks (`finish_load_hooks`).
    LoadHooks,
    /// Commit with the values of the commit dialog (`finish_commit`).
    ExecuteCommit,
    /// Restore the commit selected in the restore browser (`finish_restore`).
    ExecuteRestore,
    /// Compare the two commits selected in the compare view (`finish_compare`).
    ExecuteCompare,
    /// Search the history for the query (`finish_search`).
    ExecuteSearch,
    /// Remove the selected hook (`hook_to_delete`, `finish_delete_hook`).
    DeleteSelectedHook,
}

/// State of the commit dialog.
#[derive(Debug, Clone)]
pub struct CommitDialogState {
    pub message: String,
    pub bpm: String,
    pub sample_rate: String,
    pub key: String,
    pub tags: String,
    /// 0 = message, 1 = bpm, 2 = sample rate, 3 = key, 4 = tags.
    pub active_field: usize,
}

impl Default for CommitDialogState {
    fn default() -> (s: Self)
        ensures
            s.message@.len() == 0,
            s.bpm@.len() == 0,
            s.sample_rate@.len() == 0,
            s.key@.len() == 0,
            s.tags@.len() == 0,
            s.active_field == 0,
    {
        CommitDialogState {
            message: String::new(),
            bpm: String::new(),
            sample_rate: String::new(),
            key: String::new(),
            tags: String::new(),
            active_field: 0,
        }
    }
}

/// State of the restore browser.
#[derive(Debug, Clone)]
pub struct RestoreBrowserState {
    pub commits: Vec<CommitEntry>,
    pub selected_index: usize,
    pub loading: bool,
}

impl Default for RestoreBrowserState {
    fn default() -> (s: Self)
        ensures
            s.commits@.len() == 0,
            s.selected_index == 0,
            !s.loading,
    {
        RestoreBrowserState { commits: Vec::new(), selected_index: 0, loading: false }
    }
}

/// The interactive console: what it shows and the state of its views.
pub struct Console {
    /// Path to the project being monitored.
    pub project_path: String,
    /// Activity log entries, most recent first.
    pub activity_log: Vec<LogEntry>,
    pub daemon_status: DaemonStatus,
    pub repo_status: Option<RepositoryStatus>,
    /// Whether the console should exit.
    pub should_quit: bool,
    pub mode: ConsoleMode,
    pub commit_dialog: CommitDialogState,
    pub restore_browser: RestoreBrowserState,
    pub compare_state: CompareState,
    pub search_state: SearchState,
    pub hooks_state: HooksState,
    /// When the daemon was last polled.
    pub last_poll: SystemTime,
}

/// A commit entry as values.
pub ghost struct CommitView {
    pub id: Seq<char>,
    pub short_id: Seq<char>,
    pub message: Seq<char>,
    pub timestamp: Seq<char>,
}

pub open spec fn commit_view(e: CommitEntry) -> CommitView {
    CommitView { id: e.id@, short_id: e.short_id@, message: e.message@, timestamp: e.timestamp@ }
}

pub open spec fn commits_view(s: Seq<CommitEntry>) -> Seq<CommitView> {
    s.map_values(|e: CommitEntry| commit_view(e))
}

/// A log entry as its level and message.
pub open spec fn log_view(s: Seq<LogEntry>) -> Seq<(LogLevel, Seq<char>)> {
    s.map_values(|e: LogEntry| (e.level, e.message@))
}

/// The console as values: everything but the timestamps of the log entries.
#[verifier::ext_equal]
pub ghost struct ConsoleView {
    pub project_path: Seq<char>,
    pub log: Seq<(LogLevel, Seq<char>)>,
    pub daemon_status: DaemonStatus,
    pub repo_status: Option<RepositoryStatus>,
    pub should_quit: bool,
    pub mode: ConsoleMode,
    /// Message, bpm, sample rate, key and tags of the commit dialog.
    pub dialog: Seq<Seq<char>>,
    pub active_field: usize,
    pub restore_commits: Seq<CommitView>,
    pub restore_index: usize,
    pub restore_loading: bool,
    pub compare_commits: Seq<CommitView>,
    pub selected_a: usize,
    pub selected_b: usize,
    pub active_selector: u8,
    pub diff_result: Option<Seq<char>>,
    pub query: Seq<char>,
    pub results: Seq<CommitView>,
    pub search_index: usize,
    pub hooks: Seq<(Seq<char>, Seq<char>)>,
    pub hook_index: usize,
    pub last_poll: SystemTime,
}

impl View for Console {
    type V = ConsoleView;

    open spec fn view(&self) -> ConsoleView {
        ConsoleView {
            project_path: self.project_path@,
            log: log_view(self.activity_log@),
            daemon_status: self.daemon_status,
            repo_status: self.repo_status,
            should_quit: self.should_quit,
            mode: self.mode,
            dialog: seq![
                self.commit_dialog.message@,
                self.commit_dialog.bpm@,
                self.commit_dialog.sample_rate@,
                self.commit_dialog.key@,
                self.commit_dialog.tags@,
            ],
            active_field: self.commit_dialog.active_field,
            restore_commits: commits_view(self.restore_browser.commits@),
            restore_index: self.restore_browser.selected_index,
            restore_loading: self.restore_browser.loading,
            compare_commits: commits_view(self.compare_state.commits@),
            selected_a: self.compare_state.selected_a,
            selected_b: self.compare_state.selected_b,
            active_selector: self.compare_state.active_selector,
            diff_result: match self.compare_state.diff_result {
                Some(d) => Some(d@),
                None => None,
            },
            query: self.search_state.query@,
            results: commits_view(self.search_state.results@),
            search_index: self.search_state.selected_index,
            hooks: pairs_view(self.hooks_state.hooks@),
            hook_index: self.hooks_state.selected_index,
            last_poll: self.last_poll,
        }
    }
}

/// The log after an entry is added: newest first, at most
/// `MAX_LOG_ENTRIES` kept.
pub open spec fn logged(
    log: Seq<(LogLevel, Seq<char>)>,
    level: LogLevel,
    message: Seq<char>,
) -> Seq<(LogLevel, Seq<char>)> {
    let s = seq![(level, message)] + log;
    if s.len() > MAX_LOG_ENTRIES {
        s.take(MAX_LOG_ENTRIES as int)
    } else {
        s
    }
}

/// The five empty fields of a fresh commit dialog.
pub open spec fn empty_dialog() -> Seq<Seq<char>> {
    seq![Seq::empty(), Seq::empty(), Seq::empty(), Seq::empty(), Seq::empty()]
}

impl ConsoleView {
    /// This state with an entry added to the log.
    pub open spec fn with_log(self, level: LogLevel, message: Seq<char>) -> ConsoleView {
        ConsoleView { log: logged(self.log, level, message), ..self }
    }
}

/// The message logged when the daemon status is set to `s`.
pub open spec fn daemon_status_message(s: DaemonStatus) -> Seq<char> {
    match s {
        DaemonStatus::Running => "Daemon connected"@,
        DaemonStatus::Stopped => "Daemon stopped"@,
        DaemonStatus::Unknown => "Daemon status unknown"@,
    }
}

impl Console {
    /// A console for the project at `project_path`: normal mode, empty log,
    /// daemon status unknown, no repository status.
    pub fn new(project_path: &str) -> (c: Self)
        ensures
            c@.project_path == project_path@,
            c@.log.len() == 0,
            c@.daemon_status == DaemonStatus::Unknown,
            c@.repo_status is None,
            !c@.should_quit,
            c@.mode == ConsoleMode::Normal,
            c@.dialog == empty_dialog(),
            c@.active_field == 0,
            c@.restore_commits.len() == 0,
            c@.restore_index == 0,
            !c@.restore_loading,
            c@.compare_commits.len() == 0,
            c@.selected_a == 0,
            c@.selected_b == 0,
            c@.active_selector == 0,
            c@.diff_result is None,
            c@.query.len() == 0,
            c@.results.len() == 0,
            c@.search_index == 0,
            c@.hooks.len() == 0,
            c@.hook_index == 0,
    {
        let c = Console {
            project_path: project_path.to_owned(),
            activity_log: Vec::new(),
            daemon_status: DaemonStatus::Unknown,
            repo_status: None,
            should_quit: false,
            mode: ConsoleMode::Normal,
            commit_dialog: CommitDialogState::default(),
            restore_browser: RestoreBrowserState::default(),
            compare_state: CompareState::default(),
            search_state: SearchState::default(),
            hooks_state: HooksState::default(),
            last_poll: system_now(),
        };
        assert(c.commit_dialog.message@ =~= Seq::empty());
        assert(c.commit_dialog.bpm@ =~= Seq::empty());
        assert(c.commit_dialog.sample_rate@ =~= Seq::empty());
        assert(c.commit_dialog.key@ =~= Seq::empty());
        assert(c.commit_dialog.tags@ =~= Seq::empty());
        assert(c@.dialog =~= empty_dialog());
        c
    }

    /// Adds an entry made at `time` to the activity log, in front; the
    /// oldest entries beyond `MAX_LOG_ENTRIES` are dropped, and the others
    /// keep their times.
    pub fn log_at(&mut self, level: LogLevel, message: &str, time: SystemTime)
        ensures
            final(self)@ == old(self)@.with_log(level, message@),
            final(self).activity_log@[0].timestamp == time,
            forall|i: int|
                1 <= i < final(self).activity_log@.len() ==> #[trigger] final(self).activity_log@[i].timestamp
                    == old(self).activity_log@[i - 1].timestamp,
    {
        let entry = LogEntry { timestamp: time, level, message: message.to_owned() };
        let ghost before = self.activity_log@;
        self.activity_log.insert(0, entry);
        assert(self.activity_log@ =~= seq![entry] + before);
        assert(log_view(self.activity_log@) =~= seq![(level, message@)] + log_view(before));
        if self.activity_log.len() > MAX_LOG_ENTRIES {
            let ghost full = self.activity_log@;
            self.activity_log.truncate(MAX_LOG_ENTRIES);
            assert(log_view(self.activity_log@) =~= log_view(full).take(MAX_LOG_ENTRIES as int));
        }
        assert(final(self)@ =~= old(self)@.with_log(level, message@));
    }

    /// Adds an entry to the activity log, in front, with the time the clock
    /// gives; the oldest entries beyond `MAX_LOG_ENTRIES` are dropped, and
    /// the others keep their times.
    pub fn log(&mut self, level: LogLevel, message: &str)
        ensures
            final(self)@ == old(self)@.with_log(level, message@),
            forall|i: int|
                1 <= i < final(self).activity_log@.len() ==> #[trigger] final(self).activity_log@[i].timestamp
                    == old(self).activity_log@[i - 1].timestamp,
    {
        let now = system_now();
        self.log_at(level, message, now);
    }

    /// Sets the daemon status; a change is logged.
    pub fn set_daemon_status(&mut self, status: DaemonStatus)
        ensures
            final(self)@ == (if old(self)@.daemon_status != status {
                ConsoleView { daemon_status: status, ..old(self)@ }.with_log(
                    LogLevel::Info,
                    daemon_status_message(status),
                )
            } else {
                old(self)@
            }),
    {
        if self.daemon_status != status {
            self.daemon_status = status;
            let msg = match status {
                DaemonStatus::Running => "Daemon connected",
                DaemonStatus::Stopped => "Daemon stopped",
                DaemonStatus::Unknown => "Daemon status unknown",
            };
            self.log(LogLevel::Info, msg);
        }
    }

    /// Sets the repository status.
    pub fn set_repo_status(&mut self, staged: usize, modified: usize, untracked: usize)
        ensures
            final(self)@ == (ConsoleView {
                repo_status: Some(RepositoryStatus { staged, modified, untracked }),
                ..old(self)@
            }),
    {
        self.repo_status = Some(RepositoryStatus { staged, modified, untracked });
        assert(final(self)@ =~= ConsoleView {
            repo_status: Some(RepositoryStatus { staged, modified, untracked }),
            ..old(self)@
        });
    }
}

} // verus!

verus! {

/// `s` without its last character (unchanged when empty).
pub open spec fn drop_last_char(s: Seq<char>) -> Seq<char> {
    if s.len() > 0 {
        s.drop_last()
    } else {
        s
    }
}

/// Removes the last character of `s`, if any (`String::pop`).
pub fn pop_last_char(s: &mut String)
    ensures
        final(s)@ == drop_last_char(old(s)@),
{
    let mut v = chars_of(s.as_str());
    if v.len() > 0 {
        v.pop();
    }
    *s = string_from_chars(&v);
}

/// A selection moved up one line: it stops at the first line.
pub open spec fn index_up(i: usize) -> usize {
    if i > 0 {
        (i - 1) as usize
    } else {
        i
    }
}

/// A selection moved down one line in a list of `len` lines: it stops at
/// the last line.
pub open spec fn index_down(i: usize, len: nat) -> usize {
    if len > 0 && i < len - 1 {
        (i + 1) as usize
    } else {
        i
    }
}

fn move_down(i: usize, len: usize) -> (r: usize)
    ensures
        r == index_down(i, len as nat),
{
    if i < len.saturating_sub(1) {
        i + 1
    } else {
        i
    }
}

/// Whether a key quits the console from normal mode: `q`, or `c` with the
/// control key alone.
pub open spec fn is_quit_key(code: KeyCode, m: KeyModifiers) -> bool {
    code == KeyCode::Char('q') || (code == KeyCode::Char('c') && m.bits == CONTROL_BITS)
}

/// A key in normal mode: quit, refresh, clear the log, or open one of the
/// views, each with a fresh state.
pub open spec fn normal_step(v: ConsoleView, code: KeyCode, m: KeyModifiers) -> (
    ConsoleView,
    ConsoleAction,
) {
    if is_quit_key(code, m) {
        (ConsoleView { should_quit: true, ..v }, ConsoleAction::Nothing)
    } else if code == KeyCode::Char('r') {
        (v.with_log(LogLevel::Info, "Refreshing status..."@), ConsoleAction::RefreshStatus)
    } else if code == KeyCode::Char('c') {
        (
            ConsoleView { log: Seq::empty(), ..v }.with_log(LogLevel::Info, "Log cleared"@),
            ConsoleAction::Nothing,
        )
    } else if code == KeyCode::Char('i') {
        (
            ConsoleView {
                mode: ConsoleMode::CommitDialog,
                dialog: empty_dialog(),
                active_field: 0,
                ..v
            }.with_log(LogLevel::Info, "Opened commit dialog"@),
            ConsoleAction::Nothing,
        )
    } else if code == KeyCode::Char('l') {
        (
            ConsoleView {
                mode: ConsoleMode::RestoreBrowser,
                restore_commits: Seq::empty(),
                restore_index: 0,
                restore_loading: false,
                ..v
            }.with_log(LogLevel::Info, "Opened restore browser"@),
            ConsoleAction::LoadCommits,
        )
    } else if code == KeyCode::Char('d') {
        (
            ConsoleView {
                mode: ConsoleMode::Compare,
                compare_commits: Seq::empty(),
                selected_a: 0,
                selected_b: 0,
                active_selector: 0,
                diff_result: None,
                ..v
            }.with_log(LogLevel::Info, "Opened compare mode"@),
            ConsoleAction::LoadCompareCommits,
        )
    } else if code == KeyCode::Char('s') {
        (
            ConsoleView {
                mode: ConsoleMode::Search,
                query: Seq::empty(),
                results: Seq::empty(),
                search_index: 0,
                ..v
            }.with_log(LogLevel::Info, "Opened search mode"@),
            ConsoleAction::Nothing,
        )
    } else if code == KeyCode::Char('k') {
        (
            ConsoleView {
                mode: ConsoleMode::Hooks,
                hooks: Seq::empty(),
                hook_index: 0,
                ..v
            }.with_log(LogLevel::Info, "Opened hooks manager"@),
            ConsoleAction::LoadHooks,
        )
    } else if code == KeyCode::Char('?') || code == KeyCode::Char('h') {
        (ConsoleView { mode: ConsoleMode::Help, ..v }, ConsoleAction::Nothing)
    } else {
        (v, ConsoleAction::Nothing)
    }
}

/// The dialog field that typing edits: the active one, or the message
/// when the active index is out of range.
pub open spec fn dialog_slot(active: usize) -> int {
    if active < 5 {
        active as int
    } else {
        0
    }
}

/// A key in the commit dialog.
pub open spec fn dialog_step(v: ConsoleView, code: KeyCode) -> (ConsoleView, ConsoleAction) {
    let slot = dialog_slot(v.active_field);
    match code {
        KeyCode::Esc => (
            ConsoleView { mode: ConsoleMode::Normal, ..v }.with_log(
                LogLevel::Info,
                "Cancelled commit"@,
            ),
            ConsoleAction::Nothing,
        ),
        KeyCode::Enter => if v.dialog[0].len() == 0 {
            (
                v.with_log(LogLevel::Warning, "Commit message is required"@),
                ConsoleAction::Nothing,
            )
        } else {
            (ConsoleView { mode: ConsoleMode::Normal, ..v }, ConsoleAction::ExecuteCommit)
        },
        KeyCode::Tab => (
            ConsoleView { active_field: ((v.active_field + 1) % 5) as usize, ..v },
            ConsoleAction::Nothing,
        ),
        KeyCode::BackTab => (
            ConsoleView {
                active_field: if v.active_field == 0 {
                    4
                } else {
                    (v.active_field - 1) as usize
                },
                ..v
            },
            ConsoleAction::Nothing,
        ),
        KeyCode::Backspace => (
            ConsoleView { dialog: v.dialog.update(slot, drop_last_char(v.dialog[slot])), ..v },
            ConsoleAction::Nothing,
        ),
        KeyCode::Char(c) => (
            ConsoleView { dialog: v.dialog.update(slot, v.dialog[slot].push(c)), ..v },
            ConsoleAction::Nothing,
        ),
        _ => (v, ConsoleAction::Nothing),
    }
}

/// A key in the restore browser.
pub open spec fn restore_step(v: ConsoleView, code: KeyCode) -> (ConsoleView, ConsoleAction) {
    match code {
        KeyCode::Esc => (
            ConsoleView { mode: ConsoleMode::Normal, ..v }.with_log(
                LogLevel::Info,
                "Closed restore browser"@,
            ),
            ConsoleAction::Nothing,
        ),
        KeyCode::Up => (
            ConsoleView { restore_index: index_up(v.restore_index), ..v },
            ConsoleAction::Nothing,
        ),
        KeyCode::Down => (
            ConsoleView {
                restore_index: index_down(v.restore_index, v.restore_commits.len()),
                ..v
            },
            ConsoleAction::Nothing,
        ),
        KeyCode::Enter => if v.restore_commits.len() > 0 {
            (ConsoleView { mode: ConsoleMode::Normal, ..v }, ConsoleAction::ExecuteRestore)
        } else {
            (v, ConsoleAction::Nothing)
        },
        _ => (v, ConsoleAction::Nothing),
    }
}

/// A key in the compare view.
pub open spec fn compare_step(v: ConsoleView, code: KeyCode) -> (ConsoleView, ConsoleAction) {
    let last = if v.compare_commits.len() > 0 {
        v.compare_commits.len() - 1
    } else {
        0
    };
    match code {
        KeyCode::Esc => (
            ConsoleView { mode: ConsoleMode::Normal, ..v }.with_log(
                LogLevel::Info,
                "Closed compare mode"@,
            ),
            ConsoleAction::Nothing,
        ),
        KeyCode::Tab => (
            ConsoleView { active_selector: (1 - v.active_selector) as u8, ..v },
            ConsoleAction::Nothing,
        ),
        KeyCode::Up => if v.active_selector == 0 && v.selected_a > 0 {
            (ConsoleView { selected_a: (v.selected_a - 1) as usize, ..v }, ConsoleAction::Nothing)
        } else if v.active_selector == 1 && v.selected_b > 0 {
            (ConsoleView { selected_b: (v.selected_b - 1) as usize, ..v }, ConsoleAction::Nothing)
        } else {
            (v, ConsoleAction::Nothing)
        },
        KeyCode::Down => if v.active_selector == 0 && v.selected_a < last {
            (ConsoleView { selected_a: (v.selected_a + 1) as usize, ..v }, ConsoleAction::Nothing)
        } else if v.active_selector == 1 && v.selected_b < last {
            (ConsoleView { selected_b: (v.selected_b + 1) as usize, ..v }, ConsoleAction::Nothing)
        } else {
            (v, ConsoleAction::Nothing)
        },
        KeyCode::Enter => if v.compare_commits.len() == 0 {
            (
                v.with_log(LogLevel::Warning, "No commits available to compare"@),
                ConsoleAction::Nothing,
            )
        } else {
            (v, ConsoleAction::ExecuteCompare)
        },
        _ => (v, ConsoleAction::Nothing),
    }
}

/// A key in the search view. Editing the query drops the results.
pub open spec fn search_step(v: ConsoleView, code: KeyCode) -> (ConsoleView, ConsoleAction) {
    match code {
        KeyCode::Esc => (
            ConsoleView { mode: ConsoleMode::Normal, ..v }.with_log(
                LogLevel::Info,
                "Closed search mode"@,
            ),
            ConsoleAction::Nothing,
        ),
        KeyCode::Enter => if v.query.len() == 0 {
            (v.with_log(LogLevel::Warning, "Search query is empty"@), ConsoleAction::Nothing)
        } else {
            (v, ConsoleAction::ExecuteSearch)
        },
        KeyCode::Up => (
            ConsoleView { search_index: index_up(v.search_index), ..v },
            ConsoleAction::Nothing,
        ),
        KeyCode::Down => (
            ConsoleView { search_index: index_down(v.search_index, v.results.len()), ..v },
            ConsoleAction::Nothing,
        ),
        KeyCode::Backspace => (
            ConsoleView { query: drop_last_char(v.query), results: Seq::empty(), ..v },
            ConsoleAction::Nothing,
        ),
        KeyCode::Char(c) => (
            ConsoleView { query: v.query.push(c), results: Seq::empty(), ..v },
            ConsoleAction::Nothing,
        ),
        _ => (v, ConsoleAction::Nothing),
    }
}

/// A key in the hooks view.
pub open spec fn hooks_step(v: ConsoleView, code: KeyCode) -> (ConsoleView, ConsoleAction) {
    match code {
        KeyCode::Esc => (
            ConsoleView { mode: ConsoleMode::Normal, ..v }.with_log(
                LogLevel::Info,
                "Closed hooks manager"@,
            ),
            ConsoleAction::Nothing,
        ),
        KeyCode::Up => (
            ConsoleView { hook_index: index_up(v.hook_index), ..v },
            ConsoleAction::Nothing,
        ),
        KeyCode::Down => (
            ConsoleView { hook_index: index_down(v.hook_index, v.hooks.len()), ..v },
            ConsoleAction::Nothing,
        ),
        KeyCode::Char('d') => if v.hooks.len() > 0 {
            (v, ConsoleAction::DeleteSelectedHook)
        } else {
            (v, ConsoleAction::Nothing)
        },
        KeyCode::Char('r') => (v, ConsoleAction::LoadHooks),
        _ => (v, ConsoleAction::Nothing),
    }
}

/// Any key leaves the help screen.
pub open spec fn help_step(v: ConsoleView) -> (ConsoleView, ConsoleAction) {
    (ConsoleView { mode: ConsoleMode::Normal, ..v }, ConsoleAction::Nothing)
}

/// A key, handled by the current mode.
pub open spec fn key_step(v: ConsoleView, code: KeyCode, m: KeyModifiers) -> (
    ConsoleView,
    ConsoleAction,
) {
    match v.mode {
        ConsoleMode::Normal => normal_step(v, code, m),
        ConsoleMode::CommitDialog => dialog_step(v, code),
        ConsoleMode::RestoreBrowser => restore_step(v, code),
        ConsoleMode::Compare => compare_step(v, code),
        ConsoleMode::Search => search_step(v, code),
        ConsoleMode::Hooks => hooks_step(v, code),
        ConsoleMode::Help => help_step(v),
    }
}

/// What a key needs to be handled without overflow: an active dialog field
/// below `usize::MAX` for Tab in the dialog, and a compare selector of 0 or
/// 1 for Tab in the compare view.
pub open spec fn key_ok(v: ConsoleView, code: KeyCode) -> bool {
    &&& (v.mode == ConsoleMode::CommitDialog && code == KeyCode::Tab) ==> v.active_field
        < usize::MAX
    &&& (v.mode == ConsoleMode::Compare && code == KeyCode::Tab) ==> v.active_selector <= 1
}

} // verus!

verus! {

impl Console {
    /// Handles a key: dispatches to the handler of the current mode, and
    /// returns the outside work the key asks for.
    pub fn handle_key_event(&mut self, code: KeyCode, modifiers: KeyModifiers) -> (a: ConsoleAction)
        requires
            key_ok(old(self)@, code),
        ensures
            (final(self)@, a) == key_step(old(self)@, code, modifiers),
    {
        match self.mode {
            ConsoleMode::Normal => self.handle_normal_mode_key(code, modifiers),
            ConsoleMode::CommitDialog => self.handle_commit_dialog_key(code, modifiers),
            ConsoleMode::RestoreBrowser => self.handle_restore_browser_key(code, modifiers),
            ConsoleMode::Compare => self.handle_compare_mode_key(code, modifiers),
            ConsoleMode::Search => self.handle_search_mode_key(code, modifiers),
            ConsoleMode::Hooks => self.handle_hooks_mode_key(code, modifiers),
            ConsoleMode::Help => self.handle_help_mode_key(code, modifiers),
        }
    }

    /// Handles a key in normal mode.
    pub fn handle_normal_mode_key(&mut self, code: KeyCode, modifiers: KeyModifiers) -> (a:
        ConsoleAction)
        ensures
            (final(self)@, a) == normal_step(old(self)@, code, modifiers),
    {
        if code == KeyCode::Char('q') || (code == KeyCode::Char('c') && modifiers.bits
            == CONTROL_BITS) {
            self.should_quit = true;
            ConsoleAction::Nothing
        } else if code == KeyCode::Char('r') {
            self.log(LogLevel::Info, "Refreshing status...");
            ConsoleAction::RefreshStatus
        } else if code == KeyCode::Char('c') {
            self.activity_log = Vec::new();
            assert(self@ =~= ConsoleView { log: Seq::empty(), ..old(self)@ });
            self.log(LogLevel::Info, "Log cleared");
            ConsoleAction::Nothing
        } else if code == KeyCode::Char('i') {
            self.mode = ConsoleMode::CommitDialog;
            self.commit_dialog = CommitDialogState::default();
            proof {
                assert(self.commit_dialog.message@ =~= Seq::empty());
                assert(self.commit_dialog.bpm@ =~= Seq::empty());
                assert(self.commit_dialog.sample_rate@ =~= Seq::empty());
                assert(self.commit_dialog.key@ =~= Seq::empty());
                assert(self.commit_dialog.tags@ =~= Seq::empty());
                assert(self@ =~= ConsoleView {
                    mode: ConsoleMode::CommitDialog,
                    dialog: empty_dialog(),
                    active_field: 0,
                    ..old(self)@
                });
            }
            self.log(LogLevel::Info, "Opened commit dialog");
            ConsoleAction::Nothing
        } else if code == KeyCode::Char('l') {
            self.mode = ConsoleMode::RestoreBrowser;
            self.restore_browser = RestoreBrowserState::default();
            assert(self@ =~= ConsoleView {
                mode: ConsoleMode::RestoreBrowser,
                restore_commits: Seq::empty(),
                restore_index: 0,
                restore_loading: false,
                ..old(self)@
            });
            self.log(LogLevel::Info, "Opened restore browser");
            ConsoleAction::LoadCommits
        } else if code == KeyCode::Char('d') {
            self.mode = ConsoleMode::Compare;
            self.compare_state = CompareState::default();
            assert(self@ =~= ConsoleView {
                mode: ConsoleMode::Compare,
                compare_commits: Seq::empty(),
                selected_a: 0,
                selected_b: 0,
                active_selector: 0,
                diff_result: None,
                ..old(self)@
            });
            self.log(LogLevel::Info, "Opened compare mode");
            ConsoleAction::LoadCompareCommits
        } else if code == KeyCode::Char('s') {
            self.mode = ConsoleMode::Search;
            self.search_state = SearchState::default();
            assert(self@ =~= ConsoleView {
                mode: ConsoleMode::Search,
                query: Seq::empty(),
                results: Seq::empty(),
                search_index: 0,
                ..old(self)@
            });
            self.log(LogLevel::Info, "Opened search mode");
            ConsoleAction::Nothing
        } else if code == KeyCode::Char('k') {
            self.mode = ConsoleMode::Hooks;
            self.hooks_state = HooksState::default();
            assert(self@ =~= ConsoleView {
                mode: ConsoleMode::Hooks,
                hooks: Seq::empty(),
                hook_index: 0,
                ..old(self)@
            });
            self.log(LogLevel::Info, "Opened hooks manager");
            ConsoleAction::LoadHooks
        } else if code == KeyCode::Char('?') || code == KeyCode::Char('h') {
            self.mode = ConsoleMode::Help;
            ConsoleAction::Nothing
        } else {
            ConsoleAction::Nothing
        }
    }

    /// Handles a key in the commit dialog.
    pub fn handle_commit_dialog_key(&mut self, code: KeyCode, _modifiers: KeyModifiers) -> (a:
        ConsoleAction)
        requires
            code == KeyCode::Tab ==> old(self).commit_dialog.active_field < usize::MAX,
        ensures
            (final(self)@, a) == dialog_step(old(self)@, code),
    {
        match code {
            KeyCode::Esc => {
                self.mode = ConsoleMode::Normal;
                self.log(LogLevel::Info, "Cancelled commit");
                ConsoleAction::Nothing
            },
            KeyCode::Enter => {
                if self.commit_dialog.message.as_str().unicode_len() == 0 {
                    self.log(LogLevel::Warning, "Commit message is required");
                    ConsoleAction::Nothing
                } else {
                    self.mode = ConsoleMode::Normal;
                    ConsoleAction::ExecuteCommit
                }
            },
            KeyCode::Tab => {
                self.commit_dialog.active_field = (self.commit_dialog.active_field + 1) % 5;
                ConsoleAction::Nothing
            },
            KeyCode::BackTab => {
                self.commit_dialog.active_field = if self.commit_dialog.active_field == 0 {
                    4
                } else {
                    self.commit_dialog.active_field - 1
                };
                ConsoleAction::Nothing
            },
            KeyCode::Backspace => {
                match self.commit_dialog.active_field {
                    1 => pop_last_char(&mut self.commit_dialog.bpm),
                    2 => pop_last_char(&mut self.commit_dialog.sample_rate),
                    3 => pop_last_char(&mut self.commit_dialog.key),
                    4 => pop_last_char(&mut self.commit_dialog.tags),
                    _ => pop_last_char(&mut self.commit_dialog.message),
                }
                assert(self@.dialog =~= old(self)@.dialog.update(
                    dialog_slot(old(self)@.active_field),
                    drop_last_char(old(self)@.dialog[dialog_slot(old(self)@.active_field)]),
                ));
                ConsoleAction::Nothing
            },
            KeyCode::Char(c) => {
                match self.commit_dialog.active_field {
                    1 => push_char(&mut self.commit_dialog.bpm, c),
                    2 => push_char(&mut self.commit_dialog.sample_rate, c),
                    3 => push_char(&mut self.commit_dialog.key, c),
                    4 => push_char(&mut self.commit_dialog.tags, c),
                    _ => push_char(&mut self.commit_dialog.message, c),
                }
                assert(self@.dialog =~= old(self)@.dialog.update(
                    dialog_slot(old(self)@.active_field),
                    old(self)@.dialog[dialog_slot(old(self)@.active_field)].push(c),
                ));
                ConsoleAction::Nothing
            },
            _ => ConsoleAction::Nothing,
        }
    }

    /// Handles a key in the restore browser.
    pub fn handle_restore_browser_key(&mut self, code: KeyCode, _modifiers: KeyModifiers) -> (a:
        ConsoleAction)
        ensures
            (final(self)@, a) == restore_step(old(self)@, code),
    {
        match code {
            KeyCode::Esc => {
                self.mode = ConsoleMode::Normal;
                self.log(LogLevel::Info, "Closed restore browser");
                ConsoleAction::Nothing
            },
            KeyCode::Up => {
                if self.restore_browser.selected_index > 0 {
                    self.restore_browser.selected_index -= 1;
                }
                ConsoleAction::Nothing
            },
            KeyCode::Down => {
                self.restore_browser.selected_index = move_down(
                    self.restore_browser.selected_index,
                    self.restore_browser.commits.len(),
                );
                ConsoleAction::Nothing
            },
            KeyCode::Enter => {
                if self.restore_browser.commits.len() > 0 {
                    self.mode = ConsoleMode::Normal;
                    ConsoleAction::ExecuteRestore
                } else {
                    ConsoleAction::Nothing
                }
            },
            _ => ConsoleAction::Nothing,
        }
    }

    /// Handles a key on the help screen: any key returns to normal mode.
    pub fn handle_help_mode_key(&mut self, _code: KeyCode, _modifiers: KeyModifiers) -> (a:
        ConsoleAction)
        ensures
            (final(self)@, a) == help_step(old(self)@),
    {
        self.mode = ConsoleMode::Normal;
        ConsoleAction::Nothing
    }

    /// Handles a key in the compare view.
    pub fn handle_compare_mode_key(&mut self, code: KeyCode, _modifiers: KeyModifiers) -> (a:
        ConsoleAction)
        requires
            code == KeyCode::Tab ==> old(self).compare_state.active_selector <= 1,
        ensures
            (final(self)@, a) == compare_step(old(self)@, code),
    {
        match code {
            KeyCode::Esc => {
                self.mode = ConsoleMode::Normal;
                self.log(LogLevel::Info, "Closed compare mode");
                ConsoleAction::Nothing
            },
            KeyCode::Tab => {
                self.compare_state.active_selector = 1 - self.compare_state.active_selector;
                ConsoleAction::Nothing
            },
            KeyCode::Up => {
                if self.compare_state.active_selector == 0 && self.compare_state.selected_a > 0 {
                    self.compare_state.selected_a -= 1;
                } else if self.compare_state.active_selector == 1 && self.compare_state.selected_b
                    > 0 {
                    self.compare_state.selected_b -= 1;
                }
                ConsoleAction::Nothing
            },
            KeyCode::Down => {
                let max_idx = self.compare_state.commits.len().saturating_sub(1);
                if self.compare_state.active_selector == 0 && self.compare_state.selected_a
                    < max_idx {
                    self.compare_state.selected_a += 1;
                } else if self.compare_state.active_selector == 1 && self.compare_state.selected_b
                    < max_idx {
                    self.compare_state.selected_b += 1;
                }
                ConsoleAction::Nothing
            },
            KeyCode::Enter => {
                if self.compare_state.commits.len() == 0 {
                    self.log(LogLevel::Warning, "No commits available to compare");
                    ConsoleAction::Nothing
                } else {
                    ConsoleAction::ExecuteCompare
                }
            },
            _ => ConsoleAction::Nothing,
        }
    }

    /// Handles a key in the search view.
    pub fn handle_search_mode_key(&mut self, code: KeyCode, _modifiers: KeyModifiers) -> (a:
        ConsoleAction)
        ensures
            (final(self)@, a) == search_step(old(self)@, code),
    {
        match code {
            KeyCode::Esc => {
                self.mode = ConsoleMode::Normal;
                self.log(LogLevel::Info, "Closed search mode");
                ConsoleAction::Nothing
            },
            KeyCode::Enter => {
                if self.search_state.query.as_str().unicode_len() == 0 {
                    self.log(LogLevel::Warning, "Search query is empty");
                    ConsoleAction::Nothing
                } else {
                    ConsoleAction::ExecuteSearch
                }
            },
            KeyCode::Up => {
                if self.search_state.selected_index > 0 {
                    self.search_state.selected_index -= 1;
                }
                ConsoleAction::Nothing
            },
            KeyCode::Down => {
                self.search_state.selected_index = move_down(
                    self.search_state.selected_index,
                    self.search_state.results.len(),
                );
                ConsoleAction::Nothing
            },
            KeyCode::Backspace => {
                pop_last_char(&mut self.search_state.query);
                self.search_state.results = Vec::new();
                assert(self@ =~= search_step(old(self)@, code).0);
                ConsoleAction::Nothing
            },
            KeyCode::Char(c) => {
                push_char(&mut self.search_state.query, c);
                self.search_state.results = Vec::new();
                assert(self@ =~= search_step(old(self)@, code).0);
                ConsoleAction::Nothing
            },
            _ => ConsoleAction::Nothing,
        }
    }

    /// Handles a key in the hooks view.
    pub fn handle_hooks_mode_key(&mut self, code: KeyCode, _modifiers: KeyModifiers) -> (a:
        ConsoleAction)
        ensures
            (final(self)@, a) == hooks_step(old(self)@, code),
    {
        match code {
            KeyCode::Esc => {
                self.mode = ConsoleMode::Normal;
                self.log(LogLevel::Info, "Closed hooks manager");
                ConsoleAction::Nothing
            },
            KeyCode::Up => {
                if self.hooks_state.selected_index > 0 {
                    self.hooks_state.selected_index -= 1;
                }
                ConsoleAction::Nothing
            },
            KeyCode::Down => {
                self.hooks_state.selected_index = move_down(
                    self.hooks_state.selected_index,
                    self.hooks_state.hooks.len(),
                );
                ConsoleAction::Nothing
            },
            KeyCode::Char('d') => {
                if self.hooks_state.hooks.len() > 0 {
                    ConsoleAction::DeleteSelectedHook
                } else {
                    ConsoleAction::Nothing
                }
            },
            KeyCode::Char('r') => ConsoleAction::LoadHooks,
            _ => ConsoleAction::Nothing,
        }
    }
}

} // verus!

verus! {

/// What came of outside work on the repository.
pub enum RepoOutcome<T> {
    /// The project holds no `.oxen` directory.
    NotRepository,
    /// The work failed with this message.
    Failed(String),
    /// The work gave this.
    Done(T),
}

/// The first seven bytes of a commit id (all of a shorter one).
pub open spec fn short_id_of(id: Seq<char>) -> Seq<char> {
    byte_prefix(id, 7)
}

/// Whether every id of these (id, message) pairs can be cut after seven
/// bytes.
pub open spec fn ids_cut_cleanly(commits: Seq<(Seq<char>, Seq<char>)>) -> bool {
    forall|i: int| 0 <= i < commits.len() ==> cuts_cleanly(#[trigger] commits[i].0, 7)
}

/// The first line of a commit message (the message itself when it has no
/// line).
pub open spec fn first_line_of(message: Seq<char>) -> Seq<char> {
    let ls = lines_seq(message);
    if ls.len() > 0 {
        ls[0]
    } else {
        message
    }
}

/// The list entry of a commit with this id and message.
pub open spec fn entry_of(id: Seq<char>, message: Seq<char>) -> CommitView {
    CommitView {
        id,
        short_id: short_id_of(id),
        message: first_line_of(message),
        timestamp: "now"@,
    }
}

/// The list entries of commits given as (id, message) pairs.
pub open spec fn entries_of(commits: Seq<(Seq<char>, Seq<char>)>) -> Seq<CommitView> {
    commits.map_values(|c: (Seq<char>, Seq<char>)| entry_of(c.0, c.1))
}

fn short_id(id: &str) -> (s: String)
    requires
        cuts_cleanly(id@, 7),
    ensures
        s@ == short_id_of(id@),
{
    byte_prefix_of(id, 7)
}

/// The list entry of a commit: its id, the id's first seven bytes, the
/// first line of its message, and "now" as its time.
pub fn commit_entry(id: &str, message: &str) -> (e: CommitEntry)
    requires
        cuts_cleanly(id@, 7),
    ensures
        commit_view(e) == entry_of(id@, message@),
{
    let m = chars_of(message);
    let lines = lines_of(&m);
    let first = if lines.len() > 0 {
        proof {
            assert(crate::text::views(lines@)[0] == lines@[0]@);
        }
        string_from_chars(&lines[0])
    } else {
        message.to_owned()
    };
    CommitEntry {
        id: id.to_owned(),
        short_id: short_id(id),
        message: first,
        timestamp: "now".to_owned(),
    }
}

fn commit_entries(commits: &Vec<(String, String)>) -> (r: Vec<CommitEntry>)
    requires
        ids_cut_cleanly(pairs_view(commits@)),
    ensures
        r@.len() == commits@.len(),
        commits_view(r@) == entries_of(pairs_view(commits@)),
{
    let mut r: Vec<CommitEntry> = Vec::new();
    let mut i: usize = 0;
    while i < commits.len()
        invariant
            i <= commits.len(),
            ids_cut_cleanly(pairs_view(commits@)),
            r@.len() == i,
            forall|j: int|
                0 <= j < i ==> commit_view(#[trigger] r@[j]) == entry_of(
                    commits@[j].0@,
                    commits@[j].1@,
                ),
        decreases commits.len() - i,
    {
        assert(pairs_view(commits@)[i as int].0 == commits@[i as int].0@);
        assert(cuts_cleanly(pairs_view(commits@)[i as int].0, 7));
        let e = commit_entry(commits[i].0.as_str(), commits[i].1.as_str());
        r.push(e);
        i += 1;
    }
    assert(commits_view(r@) =~= entries_of(pairs_view(commits@)));
    r
}

/// `a` followed by `b`.
fn joined(a: &str, b: &str) -> (s: String)
    ensures
        s@ == a@ + b@,
{
    let mut v: Vec<char> = Vec::new();
    extend_str(&mut v, a);
    extend_str(&mut v, b);
    assert(v@ =~= a@ + b@);
    string_from_chars(&v)
}

/// `a`, the decimal `n`, then `b`.
fn counted(a: &str, n: usize, b: &str) -> (s: String)
    ensures
        s@ == a@ + decimal(n as nat) + b@,
{
    let mut v: Vec<char> = Vec::new();
    extend_str(&mut v, a);
    push_decimal(&mut v, n as u64);
    extend_str(&mut v, b);
    assert(v@ =~= a@ + decimal(n as nat) + b@);
    string_from_chars(&v)
}

/// The message logged for a repository status.
pub open spec fn status_message(staged: usize, modified: usize, untracked: usize) -> Seq<char> {
    "Status: "@ + decimal(staged as nat) + " staged, "@ + decimal(modified as nat)
        + " modified, "@ + decimal(untracked as nat) + " untracked"@
}

fn status_text(staged: usize, modified: usize, untracked: usize) -> (s: String)
    ensures
        s@ == status_message(staged, modified, untracked),
{
    let mut v: Vec<char> = Vec::new();
    extend_str(&mut v, "Status: ");
    push_decimal(&mut v, staged as u64);
    extend_str(&mut v, " staged, ");
    push_decimal(&mut v, modified as u64);
    extend_str(&mut v, " modified, ");
    push_decimal(&mut v, untracked as u64);
    extend_str(&mut v, " untracked");
    string_from_chars(&v)
}

/// The hooks list of (type, name) pairs shown for installed hooks.
pub open spec fn hook_rows(hooks: Seq<(HookType, Seq<char>)>) -> Seq<(Seq<char>, Seq<char>)> {
    hooks.map_values(|h: (HookType, Seq<char>)| (hook_dir_name(h.0), h.1))
}

pub open spec fn named_hooks(hooks: Seq<(HookType, String)>) -> Seq<(HookType, Seq<char>)> {
    hooks.map_values(|h: (HookType, String)| (h.0, h.1@))
}

fn hook_list(hooks: &Vec<(HookType, String)>) -> (r: Vec<(String, String)>)
    ensures
        r@.len() == hooks@.len(),
        pairs_view(r@) == hook_rows(named_hooks(hooks@)),
{
    let mut r: Vec<(String, String)> = Vec::new();
    let mut i: usize = 0;
    while i < hooks.len()
        invariant
            i <= hooks.len(),
            r@.len() == i,
            forall|j: int|
                0 <= j < i ==> (#[trigger] r@[j]).0@ == hook_dir_name(hooks@[j].0) && r@[j].1@
                    == hooks@[j].1@,
        decreases hooks.len() - i,
    {
        let t = hooks[i].0.dir_name().to_owned();
        let n = hooks[i].1.clone();
        r.push((t, n));
        i += 1;
    }
    assert(pairs_view(r@) =~= hook_rows(named_hooks(hooks@)));
    r
}

} // verus!

verus! {

impl Console {
    /// Records the repository status read for a refresh.
    pub fn finish_refresh_status(&mut self, outcome: RepoOutcome<(usize, usize, usize)>)
        ensures
            final(self)@ == match outcome {
                RepoOutcome::NotRepository => old(self)@.with_log(
                    LogLevel::Warning,
                    "Not an Oxen repository"@,
                ),
                RepoOutcome::Failed(e) => old(self)@.with_log(
                    LogLevel::Error,
                    "Failed to get status: "@ + e@,
                ),
                RepoOutcome::Done((s, m, u)) => ConsoleView {
                    repo_status: Some(RepositoryStatus { staged: s, modified: m, untracked: u }),
                    ..old(self)@
                }.with_log(LogLevel::Success, status_message(s, m, u)),
            },
    {
        match outcome {
            RepoOutcome::NotRepository => self.log(LogLevel::Warning, "Not an Oxen repository"),
            RepoOutcome::Failed(e) => {
                let msg = joined("Failed to get status: ", e.as_str());
                self.log(LogLevel::Error, msg.as_str());
            },
            RepoOutcome::Done((s, m, u)) => {
                self.set_repo_status(s, m, u);
                let msg = status_text(s, m, u);
                self.log(LogLevel::Success, msg.as_str());
            },
        }
    }

    /// Records the history loaded for the restore browser, given as
    /// (id, message) pairs, newest first.
    pub fn finish_load_commits(&mut self, outcome: RepoOutcome<Vec<(String, String)>>)
        requires
            outcome matches RepoOutcome::Done(list) ==> ids_cut_cleanly(pairs_view(list@)),
        ensures
            final(self)@ == match outcome {
                RepoOutcome::NotRepository => old(self)@.with_log(
                    LogLevel::Warning,
                    "Not an Oxen repository"@,
                ),
                RepoOutcome::Failed(e) => ConsoleView {
                    restore_commits: Seq::empty(),
                    ..old(self)@
                }.with_log(LogLevel::Error, "Failed to load commits: "@ + e@),
                RepoOutcome::Done(list) => ConsoleView {
                    restore_commits: entries_of(pairs_view(list@)),
                    ..old(self)@
                }.with_log(
                    LogLevel::Success,
                    "Loaded "@ + decimal(list@.len()) + " commits"@,
                ),
            },
    {
        match &outcome {
            RepoOutcome::NotRepository => self.log(LogLevel::Warning, "Not an Oxen repository"),
            RepoOutcome::Failed(e) => {
                self.restore_browser.commits = Vec::new();
                assert(self@ =~= ConsoleView { restore_commits: Seq::empty(), ..old(self)@ });
                let msg = joined("Failed to load commits: ", e.as_str());
                self.log(LogLevel::Error, msg.as_str());
            },
            RepoOutcome::Done(list) => {
                self.restore_browser.commits = commit_entries(list);
                let msg = counted("Loaded ", self.restore_browser.commits.len(), " commits");
                self.log(LogLevel::Success, msg.as_str());
            },
        }
    }

    /// Records the history loaded for the compare view, given as
    /// (id, message) pairs, newest first.
    pub fn finish_load_compare_commits(&mut self, outcome: RepoOutcome<Vec<(String, String)>>)
        requires
            outcome matches RepoOutcome::Done(list) ==> ids_cut_cleanly(pairs_view(list@)),
        ensures
            final(self)@ == match outcome {
                RepoOutcome::NotRepository => old(self)@.with_log(
                    LogLevel::Warning,
                    "Not an Oxen repository"@,
                ),
                RepoOutcome::Failed(e) => ConsoleView {
                    compare_commits: Seq::empty(),
                    ..old(self)@
                }.with_log(LogLevel::Error, "Failed to load commits: "@ + e@),
                RepoOutcome::Done(list) => ConsoleView {
                    compare_commits: entries_of(pairs_view(list@)),
                    ..old(self)@
                }.with_log(
                    LogLevel::Success,
                    "Loaded "@ + decimal(list@.len()) + " commits for comparison"@,
                ),
            },
    {
        match &outcome {
            RepoOutcome::NotRepository => self.log(LogLevel::Warning, "Not an Oxen repository"),
            RepoOutcome::Failed(e) => {
                self.compare_state.commits = Vec::new();
                assert(self@ =~= ConsoleView { compare_commits: Seq::empty(), ..old(self)@ });
                let msg = joined("Failed to load commits: ", e.as_str());
                self.log(LogLevel::Error, msg.as_str());
            },
            RepoOutcome::Done(list) => {
                self.compare_state.commits = commit_entries(list);
                let msg = counted(
                    "Loaded ",
                    self.compare_state.commits.len(),
                    " commits for comparison",
                );
                self.log(LogLevel::Success, msg.as_str());
            },
        }
    }

    /// Records the hooks listed for the hooks view.
    pub fn finish_load_hooks(&mut self, outcome: RepoOutcome<Vec<(HookType, String)>>)
        ensures
            final(self)@ == match outcome {
                RepoOutcome::NotRepository => old(self)@.with_log(
                    LogLevel::Warning,
                    "Not an Oxen repository"@,
                ),
                RepoOutcome::Failed(e) => ConsoleView { hooks: Seq::empty(), ..old(self)@ }.with_log(
                    LogLevel::Error,
                    "Failed to load hooks: "@ + e@,
                ),
                RepoOutcome::Done(list) => ConsoleView {
                    hooks: hook_rows(named_hooks(list@)),
                    ..old(self)@
                }.with_log(LogLevel::Success, "Loaded "@ + decimal(list@.len()) + " hooks"@),
            },
    {
        match &outcome {
            RepoOutcome::NotRepository => self.log(LogLevel::Warning, "Not an Oxen repository"),
            RepoOutcome::Failed(e) => {
                self.hooks_state.hooks = Vec::new();
                assert(self@ =~= ConsoleView { hooks: Seq::empty(), ..old(self)@ });
                let msg = joined("Failed to load hooks: ", e.as_str());
                self.log(LogLevel::Error, msg.as_str());
            },
            RepoOutcome::Done(list) => {
                self.hooks_state.hooks = hook_list(list);
                let msg = counted("Loaded ", self.hooks_state.hooks.len(), " hooks");
                self.log(LogLevel::Success, msg.as_str());
            },
        }
    }

    /// Records the outcome of a commit, given the new commit's id; asks for
    /// a status refresh after a commit was made.
    pub fn finish_commit(&mut self, outcome: RepoOutcome<String>) -> (a: ConsoleAction)
        requires
            outcome matches RepoOutcome::Done(id) ==> cuts_cleanly(id@, 7),
        ensures
            (final(self)@, a) == match outcome {
                RepoOutcome::NotRepository => (
                    old(self)@.with_log(LogLevel::Error, "Not an Oxen repository"@),
                    ConsoleAction::Nothing,
                ),
                RepoOutcome::Failed(e) => (
                    old(self)@.with_log(LogLevel::Info, "Creating commit..."@).with_log(
                        LogLevel::Error,
                        "Failed to create commit: "@ + e@,
                    ),
                    ConsoleAction::Nothing,
                ),
                RepoOutcome::Done(id) => (
                    old(self)@.with_log(LogLevel::Info, "Creating commit..."@).with_log(
                        LogLevel::Success,
                        "Commit created: "@ + short_id_of(id@),
                    ),
                    ConsoleAction::RefreshStatus,
                ),
            },
    {
        match outcome {
            RepoOutcome::NotRepository => {
                self.log(LogLevel::Error, "Not an Oxen repository");
                ConsoleAction::Nothing
            },
            RepoOutcome::Failed(e) => {
                self.log(LogLevel::Info, "Creating commit...");
                let msg = joined("Failed to create commit: ", e.as_str());
                self.log(LogLevel::Error, msg.as_str());
                ConsoleAction::Nothing
            },
            RepoOutcome::Done(id) => {
                self.log(LogLevel::Info, "Creating commit...");
                let short = short_id(id.as_str());
                let msg = joined("Commit created: ", short.as_str());
                self.log(LogLevel::Success, msg.as_str());
                ConsoleAction::RefreshStatus
            },
        }
    }

    /// Records the outcome of restoring the commit selected in the restore
    /// browser; asks for a status refresh after a restore.
    pub fn finish_restore(&mut self, outcome: RepoOutcome<()>) -> (a: ConsoleAction)
        requires
            old(self)@.restore_index < old(self)@.restore_commits.len(),
            cuts_cleanly(old(self)@.restore_commits[old(self)@.restore_index as int].id, 7),
        ensures
            ({
                let short = short_id_of(old(self)@.restore_commits[old(self)@.restore_index as int].id);
                (final(self)@, a) == match outcome {
                    RepoOutcome::NotRepository => (
                        old(self)@.with_log(LogLevel::Error, "Not an Oxen repository"@),
                        ConsoleAction::Nothing,
                    ),
                    RepoOutcome::Failed(e) => (
                        old(self)@.with_log(
                            LogLevel::Info,
                            "Restoring to commit "@ + short + "..."@,
                        ).with_log(LogLevel::Error, "Failed to restore: "@ + e@),
                        ConsoleAction::Nothing,
                    ),
                    RepoOutcome::Done(_) => (
                        old(self)@.with_log(
                            LogLevel::Info,
                            "Restoring to commit "@ + short + "..."@,
                        ).with_log(LogLevel::Success, "Restored to commit: "@ + short),
                        ConsoleAction::RefreshStatus,
                    ),
                }
            }),
    {
        let short = short_id(self.restore_browser.commits[self.restore_browser.selected_index].id.as_str());
        match outcome {
            RepoOutcome::NotRepository => {
                self.log(LogLevel::Error, "Not an Oxen repository");
                ConsoleAction::Nothing
            },
            RepoOutcome::Failed(e) => {
                let start = joined("Restoring to commit ", short.as_str());
                let start = joined(start.as_str(), "...");
                self.log(LogLevel::Info, start.as_str());
                let msg = joined("Failed to restore: ", e.as_str());
                self.log(LogLevel::Error, msg.as_str());
                ConsoleAction::Nothing
            },
            RepoOutcome::Done(_) => {
                let start = joined("Restoring to commit ", short.as_str());
                let start = joined(start.as_str(), "...");
                self.log(LogLevel::Info, start.as_str());
                let msg = joined("Restored to commit: ", short.as_str());
                self.log(LogLevel::Success, msg.as_str());
                ConsoleAction::RefreshStatus
            },
        }
    }

    /// Records the comparison of the two commits selected in the compare
    /// view.
    pub fn finish_compare(&mut self, diff: String)
        requires
            old(self)@.selected_a < old(self)@.compare_commits.len(),
            old(self)@.selected_b < old(self)@.compare_commits.len(),
        ensures
            final(self)@ == (ConsoleView { diff_result: Some(diff@), ..old(self)@ }).with_log(
                LogLevel::Success,
                "Compared "@ + old(self)@.compare_commits[old(self)@.selected_a as int].short_id
                    + " vs "@ + old(self)@.compare_commits[old(self)@.selected_b as int].short_id,
            ),
    {
        let ghost d = diff@;
        self.compare_state.diff_result = Some(diff);
        assert(self@ =~= ConsoleView { diff_result: Some(d), ..old(self)@ });
        let a = joined("Compared ", self.compare_state.commits[self.compare_state.selected_a].short_id.as_str());
        let a = joined(a.as_str(), " vs ");
        let msg = joined(a.as_str(), self.compare_state.commits[self.compare_state.selected_b].short_id.as_str());
        self.log(LogLevel::Success, msg.as_str());
    }

    /// Records the commits found for the search query, given as
    /// (id, message) pairs.
    pub fn finish_search(&mut self, outcome: RepoOutcome<Vec<(String, String)>>)
        requires
            outcome matches RepoOutcome::Done(list) ==> ids_cut_cleanly(pairs_view(list@)),
        ensures
            final(self)@ == match outcome {
                RepoOutcome::NotRepository => old(self)@.with_log(
                    LogLevel::Error,
                    "Not an Oxen repository"@,
                ),
                RepoOutcome::Failed(e) => ConsoleView {
                    results: Seq::empty(),
                    ..old(self)@
                }.with_log(LogLevel::Info, "Searching: "@ + old(self)@.query).with_log(
                    LogLevel::Error,
                    "Search failed: "@ + e@,
                ),
                RepoOutcome::Done(list) => ConsoleView {
                    results: entries_of(pairs_view(list@)),
                    ..old(self)@
                }.with_log(LogLevel::Info, "Searching: "@ + old(self)@.query).with_log(
                    LogLevel::Success,
                    "Found "@ + decimal(list@.len()) + " matching commits"@,
                ),
            },
    {
        match &outcome {
            RepoOutcome::NotRepository => self.log(LogLevel::Error, "Not an Oxen repository"),
            RepoOutcome::Failed(e) => {
                let start = joined("Searching: ", self.search_state.query.as_str());
                self.search_state.results = Vec::new();
                assert(self@ =~= ConsoleView { results: Seq::empty(), ..old(self)@ });
                self.log(LogLevel::Info, start.as_str());
                let msg = joined("Search failed: ", e.as_str());
                self.log(LogLevel::Error, msg.as_str());
            },
            RepoOutcome::Done(list) => {
                let start = joined("Searching: ", self.search_state.query.as_str());
                self.search_state.results = commit_entries(list);
                assert(self@ =~= ConsoleView { results: entries_of(pairs_view(list@)), ..old(self)@ });
                self.log(LogLevel::Info, start.as_str());
                let msg = counted("Found ", list.len(), " matching commits");
                self.log(LogLevel::Success, msg.as_str());
            },
        }
    }
}

} // verus!

verus! {

/// The hook type named by a row of the hooks view.
pub open spec fn hook_type_named(s: Seq<char>) -> Option<HookType> {
    if s == "pre-commit"@ {
        Some(HookType::PreCommit)
    } else if s == "post-commit"@ {
        Some(HookType::PostCommit)
    } else {
        None
    }
}

/// A hook type and name, the name as text.
pub open spec fn named_hook(h: Option<(HookType, String)>) -> Option<(HookType, Seq<char>)> {
    match h {
        Some((t, n)) => Some((t, n@)),
        None => None,
    }
}

/// The state after a daemon poll: `Some(running)` when the daemon answered,
/// `None` when it could not be reached. Each change is logged.
pub open spec fn poll_step(v: ConsoleView, answer: Option<bool>) -> ConsoleView {
    match answer {
        Some(running) => {
            let s = if running {
                DaemonStatus::Running
            } else {
                DaemonStatus::Stopped
            };
            if s != v.daemon_status {
                ConsoleView {
                    daemon_status: s,
                    ..v.with_log(
                        if running {
                            LogLevel::Success
                        } else {
                            LogLevel::Warning
                        },
                        if running {
                            "Daemon started"@
                        } else {
                            "Daemon stopped"@
                        },
                    )
                }
            } else {
                v
            }
        },
        None => if v.daemon_status != DaemonStatus::Unknown {
            ConsoleView { daemon_status: DaemonStatus::Unknown, ..v }.with_log(
                LogLevel::Warning,
                "Unable to reach daemon"@,
            )
        } else {
            v
        },
    }
}

/// Whether the daemon is due for a poll, `elapsed_ms` milliseconds after
/// the last one.
pub fn poll_is_due(elapsed_ms: u128) -> (r: bool)
    ensures
        r == (elapsed_ms >= POLL_INTERVAL_MS as u128),
{
    elapsed_ms >= POLL_INTERVAL_MS as u128
}

/// What a commit is made of, read from the commit dialog. The bpm stays
/// text; the front end reads it as a number.
pub struct CommitRequest {
    pub message: String,
    pub bpm: Option<String>,
    pub sample_rate: Option<u32>,
    pub key: Option<String>,
    pub tags: Vec<String>,
}

/// A dialog field that is set: `None` when empty.
pub open spec fn field_value(s: Seq<char>) -> Option<Seq<char>> {
    if s.len() > 0 {
        Some(s)
    } else {
        None
    }
}

/// The tags of the tags field: split at commas, each trimmed.
pub open spec fn tags_of(s: Seq<char>) -> Seq<Seq<char>> {
    if s.len() > 0 {
        split_on(s, ',').map_values(|t: Seq<char>| trim_seq(t))
    } else {
        Seq::empty()
    }
}

fn field_of(s: &String) -> (r: Option<String>)
    ensures
        opt_view(r) == field_value(s@),
{
    if s.as_str().unicode_len() > 0 {
        Some(s.clone())
    } else {
        None
    }
}

impl Console {
    /// The commit the dialog describes: its message; the bpm, key and sample
    /// rate when set (the sample rate when it reads as a `u32`); and the
    /// tags.
    pub fn commit_request(&self) -> (r: CommitRequest)
        ensures
            r.message@ == self@.dialog[0],
            opt_view(r.bpm) == field_value(self@.dialog[1]),
            r.sample_rate == (if self@.dialog[2].len() > 0 {
                parse_u32_spec(self@.dialog[2])
            } else {
                None
            }),
            opt_view(r.key) == field_value(self@.dialog[3]),
            strings_view(r.tags@) == tags_of(self@.dialog[4]),
    {
        let sample_rate = if self.commit_dialog.sample_rate.as_str().unicode_len() > 0 {
            let v = chars_of(self.commit_dialog.sample_rate.as_str());
            parse_u32(&v)
        } else {
            None
        };
        let mut tags: Vec<String> = Vec::new();
        if self.commit_dialog.tags.as_str().unicode_len() > 0 {
            let v = chars_of(self.commit_dialog.tags.as_str());
            let pieces = split_chars(&v, ',');
            let mut i: usize = 0;
            while i < pieces.len()
                invariant
                    i <= pieces.len(),
                    crate::text::views(pieces@) == split_on(self.commit_dialog.tags@, ','),
                    tags@.len() == i,
                    forall|j: int| 0 <= j < i ==> (#[trigger] tags@[j])@ == trim_seq(pieces@[j]@),
                decreases pieces.len() - i,
            {
                let t = trim_chars(&pieces[i]);
                tags.push(string_from_chars(&t));
                i += 1;
            }
            assert(strings_view(tags@) =~= tags_of(self@.dialog[4]));
        } else {
            assert(strings_view(tags@) =~= tags_of(self@.dialog[4]));
        }
        CommitRequest {
            message: self.commit_dialog.message.clone(),
            bpm: field_of(&self.commit_dialog.bpm),
            sample_rate,
            key: field_of(&self.commit_dialog.key),
            tags,
        }
    }

    /// Records a daemon poll: `Some(running)` when the daemon answered,
    /// `None` when it could not be reached.
    pub fn apply_daemon_poll(&mut self, answer: Option<bool>)
        ensures
            final(self)@ == poll_step(old(self)@, answer),
    {
        match answer {
            Some(running) => {
                let s = if running {
                    DaemonStatus::Running
                } else {
                    DaemonStatus::Stopped
                };
                if s != self.daemon_status {
                    if running {
                        self.log(LogLevel::Success, "Daemon started");
                    } else {
                        self.log(LogLevel::Warning, "Daemon stopped");
                    }
                    self.daemon_status = s;
                }
            },
            None => {
                if self.daemon_status != DaemonStatus::Unknown {
                    self.log(LogLevel::Warning, "Unable to reach daemon");
                    self.daemon_status = DaemonStatus::Unknown;
                }
            },
        }
    }

    /// The hook the hooks view deletes: the selected row, with its type. A
    /// row of an unknown type is logged as invalid.
    pub fn hook_to_delete(&mut self) -> (r: Option<(HookType, String)>)
        requires
            old(self)@.hooks.len() > 0 ==> old(self)@.hook_index < old(self)@.hooks.len(),
        ensures
            old(self)@.hooks.len() == 0 ==> r is None && final(self)@ == old(self)@,
            old(self)@.hooks.len() > 0 ==> ({
                let row = old(self)@.hooks[old(self)@.hook_index as int];
                match hook_type_named(row.0) {
                    Some(t) => named_hook(r) == Some((t, row.1)) && final(self)@ == old(self)@,
                    None => r is None && final(self)@ == old(self)@.with_log(
                        LogLevel::Error,
                        "Invalid hook type"@,
                    ),
                }
            }),
    {
        if self.hooks_state.hooks.len() == 0 {
            return None;
        }
        let i = self.hooks_state.selected_index;
        let t = chars_of(self.hooks_state.hooks[i].0.as_str());
        if chars_are(&t, "pre-commit") {
            Some((HookType::PreCommit, self.hooks_state.hooks[i].1.clone()))
        } else if chars_are(&t, "post-commit") {
            Some((HookType::PostCommit, self.hooks_state.hooks[i].1.clone()))
        } else {
            self.log(LogLevel::Error, "Invalid hook type");
            None
        }
    }

    /// Records the outcome of deleting hook `name`; asks for the hooks list
    /// to be loaded again after a deletion, then `clamp_hook_selection`.
    pub fn finish_delete_hook(&mut self, name: &str, outcome: Result<(), String>) -> (a:
        ConsoleAction)
        ensures
            (final(self)@, a) == match outcome {
                Ok(_) => (
                    old(self)@.with_log(LogLevel::Success, "Deleted hook: "@ + name@),
                    ConsoleAction::LoadHooks,
                ),
                Err(e) => (
                    old(self)@.with_log(LogLevel::Error, "Failed to delete hook: "@ + e@),
                    ConsoleAction::Nothing,
                ),
            },
    {
        match &outcome {
            Ok(_) => {
                let msg = joined("Deleted hook: ", name);
                self.log(LogLevel::Success, msg.as_str());
                ConsoleAction::LoadHooks
            },
            Err(e) => {
                let msg = joined("Failed to delete hook: ", e.as_str());
                self.log(LogLevel::Error, msg.as_str());
                ConsoleAction::Nothing
            },
        }
    }

    /// After a deletion and reload, moves a selection past the end of the
    /// hooks list up by one.
    pub fn clamp_hook_selection(&mut self)
        ensures
            final(self)@ == (if old(self)@.hook_index >= old(self)@.hooks.len()
                && old(self)@.hook_index > 0 {
                ConsoleView { hook_index: (old(self)@.hook_index - 1) as usize, ..old(self)@ }
            } else {
                old(self)@
            }),
    {
        if self.hooks_state.selected_index >= self.hooks_state.hooks.len()
            && self.hooks_state.selected_index > 0 {
            self.hooks_state.selected_index -= 1;
        }
    }
}

} // verus!

verus! {

/// A selection index fits a list of `len` lines: it names a line, or is 0
/// for an empty list.
pub open spec fn in_range(i: usize, len: nat) -> bool {
    i < len || (len == 0 && i == 0)
}

/// The activity log holds at most `MAX_LOG_ENTRIES` entries, the newest
/// first, followed by the earlier entries in their order.
pub proof fn lemma_log_newest_first(
    log: Seq<(LogLevel, Seq<char>)>,
    level: LogLevel,
    message: Seq<char>,
)
    ensures
        logged(log, level, message).len() <= MAX_LOG_ENTRIES,
        logged(log, level, message).len() == if log.len() + 1 > MAX_LOG_ENTRIES {
            MAX_LOG_ENTRIES as int
        } else {
            log.len() + 1int
        },
        logged(log, level, message)[0] == (level, message),
        forall|i: int|
            1 <= i < logged(log, level, message).len() ==> #[trigger] logged(log, level, message)[i]
                == log[i - 1],
{
}

/// Escape leaves every view for normal mode, and any key leaves the help
/// screen.
pub proof fn lemma_escape_returns_to_normal(v: ConsoleView, code: KeyCode, m: KeyModifiers)
    requires
        v.mode != ConsoleMode::Normal,
        code == KeyCode::Esc || v.mode == ConsoleMode::Help,
    ensures
        key_step(v, code, m).0.mode == ConsoleMode::Normal,
        key_step(v, code, m).1 == ConsoleAction::Nothing,
{
}

/// Only `q` and control-C quit, and only in normal mode; no key un-quits.
pub proof fn lemma_quit_keys(v: ConsoleView, code: KeyCode, m: KeyModifiers)
    ensures
        key_step(v, code, m).0.should_quit == (v.should_quit || (v.mode == ConsoleMode::Normal
            && is_quit_key(code, m))),
{
}

/// Keys never change the project, the daemon or repository status, or the
/// time of the last poll.
pub proof fn lemma_keys_keep_status(v: ConsoleView, code: KeyCode, m: KeyModifiers)
    ensures
        key_step(v, code, m).0.project_path == v.project_path,
        key_step(v, code, m).0.daemon_status == v.daemon_status,
        key_step(v, code, m).0.repo_status == v.repo_status,
        key_step(v, code, m).0.last_poll == v.last_poll,
{
}

/// Up and Down keep a selection that fits its list fitting it, in the
/// restore browser, the search results, the hooks list and both compare
/// selectors.
pub proof fn lemma_navigation_in_range(v: ConsoleView, code: KeyCode, m: KeyModifiers)
    requires
        code == KeyCode::Up || code == KeyCode::Down,
        in_range(v.restore_index, v.restore_commits.len()),
        in_range(v.search_index, v.results.len()),
        in_range(v.hook_index, v.hooks.len()),
        in_range(v.selected_a, v.compare_commits.len()),
        in_range(v.selected_b, v.compare_commits.len()),
    ensures
        ({
            let w = key_step(v, code, m).0;
            &&& in_range(w.restore_index, w.restore_commits.len())
            &&& in_range(w.search_index, w.results.len())
            &&& in_range(w.hook_index, w.hooks.len())
            &&& in_range(w.selected_a, w.compare_commits.len())
            &&& in_range(w.selected_b, w.compare_commits.len())
        }),
{
}

/// Opening a view from normal mode starts it afresh: an empty dialog on its
/// first field, empty lists with the first line selected, an empty query,
/// no comparison; the restore browser, compare view and hooks manager ask
/// for their lists to be loaded. `r` asks for a status refresh, and `?` or
/// `h` opens the help screen.
pub proof fn lemma_opening_resets(v: ConsoleView, c: char, m: KeyModifiers)
    requires
        v.mode == ConsoleMode::Normal,
        !is_quit_key(KeyCode::Char(c), m),
    ensures
        ({
            let w = key_step(v, KeyCode::Char(c), m).0;
            &&& c == 'i' ==> w.mode == ConsoleMode::CommitDialog && w.dialog == empty_dialog()
                && w.active_field == 0
            &&& c == 'l' ==> w.mode == ConsoleMode::RestoreBrowser && w.restore_commits.len() == 0
                && w.restore_index == 0
            &&& c == 'd' ==> w.mode == ConsoleMode::Compare && w.compare_commits.len() == 0
                && w.selected_a == 0 && w.selected_b == 0 && w.active_selector == 0
                && w.diff_result is None
            &&& c == 's' ==> w.mode == ConsoleMode::Search && w.query.len() == 0 && w.results.len()
                == 0 && w.search_index == 0
            &&& c == 'k' ==> w.mode == ConsoleMode::Hooks && w.hooks.len() == 0 && w.hook_index
                == 0
            &&& c == 'l' ==> key_step(v, KeyCode::Char(c), m).1 == ConsoleAction::LoadCommits
            &&& c == 'd' ==> key_step(v, KeyCode::Char(c), m).1 == ConsoleAction::LoadCompareCommits
            &&& c == 'k' ==> key_step(v, KeyCode::Char(c), m).1 == ConsoleAction::LoadHooks
            &&& c == 'r' ==> w.mode == ConsoleMode::Normal && key_step(v, KeyCode::Char(c), m).1
                == ConsoleAction::RefreshStatus
            &&& (c == '?' || c == 'h') ==> w.mode == ConsoleMode::Help
        }),
{
}

/// In the commit dialog BackTab undoes Tab, and five Tabs come back to the
/// same field.
pub proof fn lemma_dialog_tab_cycle(v: ConsoleView, m: KeyModifiers)
    requires
        v.mode == ConsoleMode::CommitDialog,
        v.active_field < 5,
    ensures
        key_step(key_step(v, KeyCode::Tab, m).0, KeyCode::BackTab, m).0 == v,
        key_step(
            key_step(
                key_step(
                    key_step(key_step(v, KeyCode::Tab, m).0, KeyCode::Tab, m).0,
                    KeyCode::Tab,
                    m,
                ).0,
                KeyCode::Tab,
                m,
            ).0,
            KeyCode::Tab,
            m,
        ).0 == v,
{
}

/// In the compare view two Tabs give the first selector back.
pub proof fn lemma_compare_tab_twice(v: ConsoleView, m: KeyModifiers)
    requires
        v.mode == ConsoleMode::Compare,
        v.active_selector <= 1,
    ensures
        key_step(v, KeyCode::Tab, m).0.active_selector == 1 - v.active_selector,
        key_step(key_step(v, KeyCode::Tab, m).0, KeyCode::Tab, m).0 == v,
{
}

/// Typing a character and erasing it gives the text back, in the search
/// query (whose results are dropped) and in the active dialog field.
pub proof fn lemma_type_then_erase(v: ConsoleView, c: char, m: KeyModifiers)
    requires
        v.mode == ConsoleMode::Search || (v.mode == ConsoleMode::CommitDialog && v.dialog.len()
            == 5),
    ensures
        ({
            let w = key_step(key_step(v, KeyCode::Char(c), m).0, KeyCode::Backspace, m).0;
            &&& v.mode == ConsoleMode::Search ==> w == ConsoleView { results: Seq::empty(), ..v }
            &&& v.mode == ConsoleMode::CommitDialog ==> w == v
        }),
{
    let w1 = key_step(v, KeyCode::Char(c), m).0;
    if v.mode == ConsoleMode::Search {
        assert(w1.query.drop_last() =~= v.query);
    } else {
        let slot = dialog_slot(v.active_field);
        assert(w1.dialog[slot].drop_last() =~= v.dialog[slot]);
        assert(w1.dialog.update(slot, w1.dialog[slot].drop_last()) =~= v.dialog);
    }
}

/// In the restore browser Down moves the selection one line down, unless it
/// is on the last commit, and Up one line up, unless it is on the first;
/// neither changes the mode or the commits. Enter asks for the restore of
/// the selected commit, keeping the selection, whenever commits are loaded.
pub proof fn lemma_restore_browser_moves(v: ConsoleView, m: KeyModifiers)
    requires
        v.mode == ConsoleMode::RestoreBrowser,
        v.restore_commits.len() <= usize::MAX,
    ensures
        ({
            let d = key_step(v, KeyCode::Down, m);
            let u = key_step(v, KeyCode::Up, m);
            let e = key_step(v, KeyCode::Enter, m);
            &&& v.restore_index + 1 < v.restore_commits.len() ==> d.0.restore_index == v.restore_index + 1
            &&& v.restore_index + 1 >= v.restore_commits.len() ==> d.0.restore_index == v.restore_index
            &&& v.restore_index > 0 ==> u.0.restore_index == v.restore_index - 1
            &&& v.restore_index == 0 ==> u.0.restore_index == 0
            &&& d.0.mode == ConsoleMode::RestoreBrowser && u.0.mode == ConsoleMode::RestoreBrowser
            &&& d.0.restore_commits == v.restore_commits && u.0.restore_commits == v.restore_commits
            &&& d.1 == ConsoleAction::Nothing && u.1 == ConsoleAction::Nothing
            &&& (e.1 == ConsoleAction::ExecuteRestore <==> v.restore_commits.len() > 0)
            &&& e.0.restore_index == v.restore_index && e.0.restore_commits == v.restore_commits
        }),
{
}

/// In the search results Down moves the selection one line down, unless it
/// is on the last result, and Up one line up, unless it is on the first;
/// neither changes the query or the results.
pub proof fn lemma_search_results_move(v: ConsoleView, m: KeyModifiers)
    requires
        v.mode == ConsoleMode::Search,
        v.results.len() <= usize::MAX,
    ensures
        ({
            let d = key_step(v, KeyCode::Down, m).0;
            let u = key_step(v, KeyCode::Up, m).0;
            &&& v.search_index + 1 < v.results.len() ==> d.search_index == v.search_index + 1
            &&& v.search_index + 1 >= v.results.len() ==> d.search_index == v.search_index
            &&& v.search_index > 0 ==> u.search_index == v.search_index - 1
            &&& v.search_index == 0 ==> u.search_index == 0
            &&& d.query == v.query && d.results == v.results && u.query == v.query && u.results == v.results
            &&& d.mode == ConsoleMode::Search && u.mode == ConsoleMode::Search
        }),
{
}

/// In the hooks list Down moves the selection one line down, unless it is on
/// the last hook, and Up one line up, unless it is on the first.
pub proof fn lemma_hooks_list_moves(v: ConsoleView, m: KeyModifiers)
    requires
        v.mode == ConsoleMode::Hooks,
        v.hooks.len() <= usize::MAX,
    ensures
        ({
            let d = key_step(v, KeyCode::Down, m).0;
            let u = key_step(v, KeyCode::Up, m).0;
            &&& v.hook_index + 1 < v.hooks.len() ==> d.hook_index == v.hook_index + 1
            &&& v.hook_index + 1 >= v.hooks.len() ==> d.hook_index == v.hook_index
            &&& v.hook_index > 0 ==> u.hook_index == v.hook_index - 1
            &&& v.hook_index == 0 ==> u.hook_index == 0
            &&& d.hooks == v.hooks && u.hooks == v.hooks
            &&& d.mode == ConsoleMode::Hooks && u.mode == ConsoleMode::Hooks
        }),
{
}

/// In the compare view Down and Up move the active selector one line down
/// or up within the commits, and leave the other selector where it is.
pub proof fn lemma_compare_selectors_move(v: ConsoleView, m: KeyModifiers)
    requires
        v.mode == ConsoleMode::Compare,
        v.compare_commits.len() <= usize::MAX,
    ensures
        ({
            let d = key_step(v, KeyCode::Down, m).0;
            let u = key_step(v, KeyCode::Up, m).0;
            &&& v.active_selector == 0 ==> {
                &&& (v.selected_a + 1 < v.compare_commits.len() ==> d.selected_a == v.selected_a + 1)
                &&& (v.selected_a + 1 >= v.compare_commits.len() ==> d.selected_a == v.selected_a)
                &&& (v.selected_a > 0 ==> u.selected_a == v.selected_a - 1)
                &&& (v.selected_a == 0 ==> u.selected_a == 0)
                &&& d.selected_b == v.selected_b && u.selected_b == v.selected_b
            }
            &&& v.active_selector == 1 ==> {
                &&& (v.selected_b + 1 < v.compare_commits.len() ==> d.selected_b == v.selected_b + 1)
                &&& (v.selected_b + 1 >= v.compare_commits.len() ==> d.selected_b == v.selected_b)
                &&& (v.selected_b > 0 ==> u.selected_b == v.selected_b - 1)
                &&& (v.selected_b == 0 ==> u.selected_b == 0)
                &&& d.selected_a == v.selected_a && u.selected_a == v.selected_a
            }
            &&& d.compare_commits == v.compare_commits && u.compare_commits == v.compare_commits
            &&& d.mode == ConsoleMode::Compare && u.mode == ConsoleMode::Compare
        }),
{
}

} // verus!

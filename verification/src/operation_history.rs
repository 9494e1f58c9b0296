//! The audit trail of operations: its entries, the statistics over them,
//! and the selections the history offers (most recent, by kind of
//! operation, by result, by repository). Reading and writing the history
//! file is left to the caller; the functions here take and give the
//! entries.
use vstd::prelude::*;
use crate::text::{
    extend_chars, extend_str, insert_pair, join_path, pairs_view, path_join, paths_equal, same_path,
    set_pair, string_from_chars,
};
use crate::blender_metadata::opt_view;
use crate::clock::{new_uuid, utc_now, Timestamp};
use crate::sequences::reversed;
use crate::styled::{bright_black, bright_blue, colored_as, green, red, yellow};
use crate::clock::{seconds_between, time_ago, time_ago_spec};
use crate::text::{push_joined, push_line, strings_view};

verus! {

/// Largest number of entries the history keeps; the oldest go first.
pub const MAX_HISTORY_ENTRIES: usize = 10000;

/// Kind of operation recorded.
#[derive(Debug, Clone, PartialEq)]
pub enum HistoryOperation {
    LockAcquire,
    LockRelease,
    LockRenew,
    LockBreak,
    Push,
    Pull,
    Fetch,
    Commit,
    Rollback,
    Login,
    Logout,
    CommentAdd,
    ActivityView,
    ConflictCheck,
    Custom(String),
}

/// Outcome of an operation.
#[derive(Debug, Clone, PartialEq)]
pub enum OperationResult {
    Success,
    Failure(String),
    Partial(String),
}

/// `whoami::username`: the name of the current user. It depends on the
/// system, so nothing is stated of it.
#[verifier::external_body]
fn current_user() -> String {
    whoami::username()
}

/// `whoami::devicename`: the name of this machine. It depends on the
/// system, so nothing is stated of it.
#[verifier::external_body]
fn current_device() -> String {
    whoami::devicename()
}

/// One operation in the audit trail.
#[derive(Debug, Clone)]
pub struct OperationHistoryEntry {
    /// Unique identifier of this operation.
    pub id: String,
    /// Kind of operation performed.
    pub operation: HistoryOperation,
    /// When the operation occurred.
    pub timestamp: Timestamp,
    /// User who performed the operation.
    pub user: String,
    /// Machine identifier.
    pub machine_id: String,
    /// Repository path, if any.
    pub repo_path: Option<String>,
    /// Outcome of the operation.
    pub result: OperationResult,
    /// Additional metadata, as key-value pairs with no key twice.
    pub metadata: Vec<(String, String)>,
}

impl OperationHistoryEntry {
    /// A successful entry of `operation`, now, by the current user on this
    /// machine, with a fresh identifier, no repository and no metadata.
    pub fn new(operation: HistoryOperation) -> (e: Self)
        ensures
            e.operation == operation,
            e.repo_path is None,
            e.result == OperationResult::Success,
            e.metadata@.len() == 0,
            e.id@.len() == 36,
    {
        OperationHistoryEntry {
            id: new_uuid(),
            operation,
            timestamp: utc_now(),
            user: current_user(),
            machine_id: current_device(),
            repo_path: None,
            result: OperationResult::Success,
            metadata: Vec::new(),
        }
    }

    /// Sets the repository path.
    pub fn with_repo_path(self, path: &str) -> (e: Self)
        ensures
            e.repo_path matches Some(p) && p@ == path@,
            e.id == self.id,
            e.operation == self.operation,
            e.timestamp == self.timestamp,
            e.user == self.user,
            e.machine_id == self.machine_id,
            e.result == self.result,
            e.metadata == self.metadata,
    {
        let mut e = self;
        e.repo_path = Some(path.to_owned());
        e
    }

    /// Sets the result.
    pub fn with_result(self, result: OperationResult) -> (e: Self)
        ensures
            e.result == result,
            e.id == self.id,
            e.operation == self.operation,
            e.timestamp == self.timestamp,
            e.user == self.user,
            e.machine_id == self.machine_id,
            e.repo_path == self.repo_path,
            e.metadata == self.metadata,
    {
        let mut e = self;
        e.result = result;
        e
    }

    /// Sets a metadata key to a value.
    pub fn with_metadata(self, key: &str, value: &str) -> (e: Self)
        ensures
            pairs_view(e.metadata@) == insert_pair(pairs_view(self.metadata@), key@, value@),
            e.id == self.id,
            e.operation == self.operation,
            e.timestamp == self.timestamp,
            e.user == self.user,
            e.machine_id == self.machine_id,
            e.repo_path == self.repo_path,
            e.result == self.result,
    {
        let mut e = self;
        set_pair(&mut e.metadata, key, value);
        e
    }

    /// The operation succeeded.
    pub fn is_success(&self) -> (b: bool)
        ensures
            b == (self.result is Success),
    {
        match self.result {
            OperationResult::Success => true,
            _ => false,
        }
    }

    /// The operation failed.
    pub fn is_failure(&self) -> (b: bool)
        ensures
            b == (self.result is Failure),
    {
        match self.result {
            OperationResult::Failure(_) => true,
            _ => false,
        }
    }
}


/// How many entries of `s` satisfy `p`.
pub open spec fn count_where(s: Seq<OperationHistoryEntry>, p: spec_fn(OperationHistoryEntry) -> bool) -> nat
    decreases s.len(),
{
    if s.len() == 0 {
        0
    } else {
        count_where(s.drop_last(), p) + if p(s.last()) { 1nat } else { 0nat }
    }
}

/// Which kind an operation is: every variant is a kind of its own, and all
/// custom operations are one kind, whatever their names.
pub open spec fn kind_of(op: HistoryOperation) -> nat {
    match op {
        HistoryOperation::LockAcquire => 0,
        HistoryOperation::LockRelease => 1,
        HistoryOperation::LockRenew => 2,
        HistoryOperation::LockBreak => 3,
        HistoryOperation::Push => 4,
        HistoryOperation::Pull => 5,
        HistoryOperation::Fetch => 6,
        HistoryOperation::Commit => 7,
        HistoryOperation::Rollback => 8,
        HistoryOperation::Login => 9,
        HistoryOperation::Logout => 10,
        HistoryOperation::CommentAdd => 11,
        HistoryOperation::ActivityView => 12,
        HistoryOperation::ConflictCheck => 13,
        HistoryOperation::Custom(_) => 14,
    }
}

/// Two operations are of one kind exactly when they are the same variant:
/// each variant is its own kind, and custom operations, whatever their
/// names, are one kind. Lock operations are the kinds up to 3, network
/// operations the kinds 4 to 6.
pub proof fn lemma_kinds_are_variants(a: HistoryOperation, b: HistoryOperation)
    ensures
        kind_of(a) == kind_of(b) <==> {
            ||| (a is LockAcquire && b is LockAcquire)
            ||| (a is LockRelease && b is LockRelease)
            ||| (a is LockRenew && b is LockRenew)
            ||| (a is LockBreak && b is LockBreak)
            ||| (a is Push && b is Push)
            ||| (a is Pull && b is Pull)
            ||| (a is Fetch && b is Fetch)
            ||| (a is Commit && b is Commit)
            ||| (a is Rollback && b is Rollback)
            ||| (a is Login && b is Login)
            ||| (a is Logout && b is Logout)
            ||| (a is CommentAdd && b is CommentAdd)
            ||| (a is ActivityView && b is ActivityView)
            ||| (a is ConflictCheck && b is ConflictCheck)
            ||| (a is Custom && b is Custom)
        },
        kind_of(a) <= 3 <==> (a is LockAcquire || a is LockRelease || a is LockRenew || a is LockBreak),
        4 <= kind_of(a) <= 6 <==> (a is Push || a is Pull || a is Fetch),
{
}

/// A lock operation: acquire, release, renew or break.
pub open spec fn is_lock_operation(op: HistoryOperation) -> bool {
    op is LockAcquire || op is LockRelease || op is LockRenew || op is LockBreak
}

/// A network operation: push, pull or fetch.
pub open spec fn is_network_operation(op: HistoryOperation) -> bool {
    op is Push || op is Pull || op is Fetch
}

impl HistoryOperation {
    /// The kind of this operation.
    pub fn kind(&self) -> (k: u8)
        ensures
            k == kind_of(*self),
    {
        match self {
            HistoryOperation::LockAcquire => 0,
            HistoryOperation::LockRelease => 1,
            HistoryOperation::LockRenew => 2,
            HistoryOperation::LockBreak => 3,
            HistoryOperation::Push => 4,
            HistoryOperation::Pull => 5,
            HistoryOperation::Fetch => 6,
            HistoryOperation::Commit => 7,
            HistoryOperation::Rollback => 8,
            HistoryOperation::Login => 9,
            HistoryOperation::Logout => 10,
            HistoryOperation::CommentAdd => 11,
            HistoryOperation::ActivityView => 12,
            HistoryOperation::ConflictCheck => 13,
            HistoryOperation::Custom(_) => 14,
        }
    }

    /// The icon shown beside the operation in the history.
    pub fn icon(&self) -> (s: &'static str)
        ensures
            s@ == match *self {
                HistoryOperation::LockAcquire => "🔒"@,
                HistoryOperation::LockRelease => "🔓"@,
                HistoryOperation::LockRenew => "🔄"@,
                HistoryOperation::LockBreak => "🔨"@,
                HistoryOperation::Push => "⬆"@,
                HistoryOperation::Pull => "⬇"@,
                HistoryOperation::Commit => "●"@,
                HistoryOperation::Login => "🔑"@,
                _ => "•"@,
            },
    {
        match self {
            HistoryOperation::LockAcquire => "🔒",
            HistoryOperation::LockRelease => "🔓",
            HistoryOperation::LockRenew => "🔄",
            HistoryOperation::LockBreak => "🔨",
            HistoryOperation::Push => "⬆",
            HistoryOperation::Pull => "⬇",
            HistoryOperation::Commit => "●",
            HistoryOperation::Login => "🔑",
            _ => "•",
        }
    }
}

/// Statistics over the history.
#[derive(Debug, Clone, PartialEq, Eq, Structural)]
pub struct OperationStats {
    pub total: usize,
    pub successful: usize,
    pub failed: usize,
    pub lock_operations: usize,
    pub network_operations: usize,
}

/// The history after recording `entry`: the entries with `entry` last,
/// keeping only the `MAX_HISTORY_ENTRIES` most recent.
pub open spec fn recorded(s: Seq<OperationHistoryEntry>, entry: OperationHistoryEntry) -> Seq<OperationHistoryEntry> {
    let t = s.push(entry);
    if t.len() > MAX_HISTORY_ENTRIES {
        t.skip(t.len() - MAX_HISTORY_ENTRIES)
    } else {
        t
    }
}

/// Where the history is kept: its file.
pub struct OperationHistoryManager {
    pub history_file: String,
}

/// The default history file: `<home>/.auxin/operation_history.json`, with
/// the current directory when there is no home.
pub open spec fn default_history_path(home: Option<Seq<char>>) -> Seq<char> {
    path_join(
        path_join(
            match home {
                Some(h) => h,
                None => "."@,
            },
            ".auxin"@,
        ),
        "operation_history.json"@,
    )
}

impl OperationHistoryManager {
    /// A manager with the default history file under `home`.
    pub fn new(home: Option<&str>) -> (m: Self)
        ensures
            m.history_file@ == default_history_path(
                match home {
                    Some(h) => Some(h@),
                    None => None,
                },
            ),
    {
        let base = match home {
            Some(h) => h,
            None => ".",
        };
        let a = join_path(base, ".auxin");
        OperationHistoryManager { history_file: join_path(a.as_str(), "operation_history.json") }
    }

    /// A manager with a custom history file.
    pub fn with_history_path(history_file: &str) -> (m: Self)
        ensures
            m.history_file@ == history_file@,
    {
        OperationHistoryManager { history_file: history_file.to_owned() }
    }

    /// The history after recording `entry` (see [`recorded`]).
    pub fn record_entry(entries: Vec<OperationHistoryEntry>, entry: OperationHistoryEntry) -> (r: Vec<OperationHistoryEntry>)
        ensures
            r@ == recorded(entries@, entry),
    {
        let ghost t = entries@.push(entry);
        let mut entries = entries;
        entries.push(entry);
        assert(entries@ == t);
        if entries.len() <= MAX_HISTORY_ENTRIES {
            return entries;
        }
        let total = entries.len();
        let skip = total - MAX_HISTORY_ENTRIES;
        let mut rest = reversed(entries);
        let mut out: Vec<OperationHistoryEntry> = Vec::new();
        let mut i: usize = 0;
        while rest.len() > 0
            invariant
                rest@.len() + i == t.len(),
                forall|j: int| 0 <= j < rest@.len() ==> rest@[j] == t[t.len() - 1 - j],
                skip + MAX_HISTORY_ENTRIES == t.len(),
                total == t.len(),
                i <= skip ==> out@.len() == 0,
                i > skip ==> out@ == t.subrange(skip as int, i as int),
            decreases rest@.len(),
        {
            match rest.pop() {
                Some(x) => {
                    assert(x == t[i as int]);
                    if i >= skip {
                        out.push(x);
                        assert(out@ =~= t.subrange(skip as int, i + 1));
                    }
                    i += 1;
                },
                None => {},
            }
        }
        assert(out@ =~= t.skip(skip as int));
        out
    }

    /// The `limit` most recent entries, newest first.
    pub fn get_recent(entries: Vec<OperationHistoryEntry>, limit: usize) -> (r: Vec<OperationHistoryEntry>)
        ensures
            r@.len() == if limit < entries@.len() { limit as nat } else { entries@.len() },
            forall|j: int| 0 <= j < r@.len() ==> r@[j] == entries@[entries@.len() - 1 - j],
    {
        let ghost s = entries@;
        let mut rest = entries;
        let mut out: Vec<OperationHistoryEntry> = Vec::new();
        while out.len() < limit && rest.len() > 0
            invariant
                rest@ == s.take(rest@.len() as int),
                rest@.len() <= s.len(),
                out@.len() + rest@.len() == s.len(),
                out@.len() <= limit,
                forall|j: int| 0 <= j < out@.len() ==> out@[j] == s[s.len() - 1 - j],
            decreases rest@.len(),
        {
            match rest.pop() {
                Some(x) => {
                    assert(x == s[rest@.len() as int]);
                    assert(rest@ =~= s.take(rest@.len() as int));
                    out.push(x);
                },
                None => {},
            }
        }
        out
    }

    /// The entries of the same kind of operation as `operation`, in order.
    pub fn get_by_operation(entries: Vec<OperationHistoryEntry>, operation: &HistoryOperation) -> (r: Vec<OperationHistoryEntry>)
        ensures
            r@ == entries@.filter(|e: OperationHistoryEntry| kind_of(e.operation) == kind_of(*operation)),
    {
        let k = operation.kind();
        let ghost p = |e: OperationHistoryEntry| kind_of(e.operation) == kind_of(*operation);
        let ghost s = entries@;
        let n = entries.len();
        let mut rest = reversed(entries);
        let mut out: Vec<OperationHistoryEntry> = Vec::new();
        let mut i: usize = 0;
        assert(s.take(0) =~= Seq::<OperationHistoryEntry>::empty());
        while rest.len() > 0
            invariant
                n == s.len(),
                rest@.len() + i == s.len(),
                forall|j: int| 0 <= j < rest@.len() ==> rest@[j] == s[s.len() - 1 - j],
                out@ == s.take(i as int).filter(p),
                p == (|e: OperationHistoryEntry| kind_of(e.operation) == kind_of(*operation)),
                k == kind_of(*operation),
            decreases rest@.len(),
        {
            match rest.pop() {
                Some(x) => {
                    assert(x == s[i as int]);
                    assert(s.take(i + 1).drop_last() =~= s.take(i as int));
                    assert(s.take(i + 1).last() == x);
                    assert(s.take(i + 1).filter(p) == if p(x) {
                        s.take(i as int).filter(p).push(x)
                    } else {
                        s.take(i as int).filter(p)
                    }) by {
                        reveal(Seq::filter);
                    }
                    if x.operation.kind() == k {
                        out.push(x);
                    }
                    i += 1;
                },
                None => {},
            }
        }
        assert(s.take(s.len() as int) =~= s);
        out
    }

    /// The entries that succeeded (`success`) or did not, in order.
    pub fn get_by_result(entries: Vec<OperationHistoryEntry>, success: bool) -> (r: Vec<OperationHistoryEntry>)
        ensures
            r@ == entries@.filter(|e: OperationHistoryEntry| (e.result is Success) == success),
    {
        let ghost p = |e: OperationHistoryEntry| (e.result is Success) == success;
        let ghost s = entries@;
        let n = entries.len();
        let mut rest = reversed(entries);
        let mut out: Vec<OperationHistoryEntry> = Vec::new();
        let mut i: usize = 0;
        assert(s.take(0) =~= Seq::<OperationHistoryEntry>::empty());
        while rest.len() > 0
            invariant
                n == s.len(),
                rest@.len() + i == s.len(),
                forall|j: int| 0 <= j < rest@.len() ==> rest@[j] == s[s.len() - 1 - j],
                out@ == s.take(i as int).filter(p),
                p == (|e: OperationHistoryEntry| (e.result is Success) == success),
            decreases rest@.len(),
        {
            match rest.pop() {
                Some(x) => {
                    assert(x == s[i as int]);
                    assert(s.take(i + 1).drop_last() =~= s.take(i as int));
                    assert(s.take(i + 1).last() == x);
                    assert(s.take(i + 1).filter(p) == if p(x) {
                        s.take(i as int).filter(p).push(x)
                    } else {
                        s.take(i as int).filter(p)
                    }) by {
                        reveal(Seq::filter);
                    }
                    if x.is_success() == success {
                        out.push(x);
                    }
                    i += 1;
                },
                None => {},
            }
        }
        assert(s.take(s.len() as int) =~= s);
        out
    }

    /// The entries of the repository at `repo_path` (paths compared as
    /// `Path`s are), in order.
    pub fn get_by_repo(entries: Vec<OperationHistoryEntry>, repo_path: &str) -> (r: Vec<OperationHistoryEntry>)
        ensures
            r@ == entries@.filter(
                |e: OperationHistoryEntry| e.repo_path matches Some(p) && same_path(p@, repo_path@),
            ),
    {
        let ghost p = |e: OperationHistoryEntry| e.repo_path matches Some(q) && same_path(q@, repo_path@);
        let ghost s = entries@;
        let n = entries.len();
        let mut rest = reversed(entries);
        let mut out: Vec<OperationHistoryEntry> = Vec::new();
        let mut i: usize = 0;
        assert(s.take(0) =~= Seq::<OperationHistoryEntry>::empty());
        while rest.len() > 0
            invariant
                n == s.len(),
                rest@.len() + i == s.len(),
                forall|j: int| 0 <= j < rest@.len() ==> rest@[j] == s[s.len() - 1 - j],
                out@ == s.take(i as int).filter(p),
                p == (|e: OperationHistoryEntry| e.repo_path matches Some(q) && same_path(q@, repo_path@)),
            decreases rest@.len(),
        {
            match rest.pop() {
                Some(x) => {
                    assert(x == s[i as int]);
                    assert(s.take(i + 1).drop_last() =~= s.take(i as int));
                    assert(s.take(i + 1).last() == x);
                    assert(s.take(i + 1).filter(p) == if p(x) {
                        s.take(i as int).filter(p).push(x)
                    } else {
                        s.take(i as int).filter(p)
                    }) by {
                        reveal(Seq::filter);
                    }
                    let keep = match &x.repo_path {
                        Some(q) => paths_equal(q.as_str(), repo_path),
                        None => false,
                    };
                    if keep {
                        out.push(x);
                    }
                    i += 1;
                },
                None => {},
            }
        }
        assert(s.take(s.len() as int) =~= s);
        out
    }

    /// Statistics over the entries: how many there are, how many succeeded
    /// and failed, and how many were lock and network operations.
    pub fn get_stats(entries: &Vec<OperationHistoryEntry>) -> (st: OperationStats)
        ensures
            st.total == entries@.len(),
            st.successful == count_where(entries@, |e: OperationHistoryEntry| e.result is Success),
            st.failed == count_where(entries@, |e: OperationHistoryEntry| e.result is Failure),
            st.lock_operations == count_where(entries@, |e: OperationHistoryEntry| is_lock_operation(e.operation)),
            st.network_operations == count_where(entries@, |e: OperationHistoryEntry| is_network_operation(e.operation)),
    {
        let ghost s = entries@;
        let ghost ps = |e: OperationHistoryEntry| e.result is Success;
        let ghost pf = |e: OperationHistoryEntry| e.result is Failure;
        let ghost pl = |e: OperationHistoryEntry| is_lock_operation(e.operation);
        let ghost pn = |e: OperationHistoryEntry| is_network_operation(e.operation);
        let mut successful: usize = 0;
        let mut failed: usize = 0;
        let mut lock_operations: usize = 0;
        let mut network_operations: usize = 0;
        let mut i: usize = 0;
        while i < entries.len()
            invariant
                s == entries@,
                i <= s.len(),
                successful == count_where(s.take(i as int), ps),
                failed == count_where(s.take(i as int), pf),
                lock_operations == count_where(s.take(i as int), pl),
                network_operations == count_where(s.take(i as int), pn),
                ps == (|e: OperationHistoryEntry| e.result is Success),
                pf == (|e: OperationHistoryEntry| e.result is Failure),
                pl == (|e: OperationHistoryEntry| is_lock_operation(e.operation)),
                pn == (|e: OperationHistoryEntry| is_network_operation(e.operation)),
                successful <= i,
                failed <= i,
                lock_operations <= i,
                network_operations <= i,
            decreases s.len() - i,
        {
            let e = &entries[i];
            assert(s.take(i + 1).drop_last() =~= s.take(i as int));
            assert(s.take(i + 1).last() == s[i as int]);
            assert(count_where(s.take(i + 1), ps) == count_where(s.take(i as int), ps) + if ps(s[i as int]) { 1nat } else { 0nat });
            assert(count_where(s.take(i + 1), pf) == count_where(s.take(i as int), pf) + if pf(s[i as int]) { 1nat } else { 0nat });
            assert(count_where(s.take(i + 1), pl) == count_where(s.take(i as int), pl) + if pl(s[i as int]) { 1nat } else { 0nat });
            assert(count_where(s.take(i + 1), pn) == count_where(s.take(i as int), pn) + if pn(s[i as int]) { 1nat } else { 0nat });
            if e.is_success() {
                successful += 1;
            }
            if e.is_failure() {
                failed += 1;
            }
            let k = e.operation.kind();
            if k <= 3 {
                lock_operations += 1;
            }
            if 4 <= k && k <= 6 {
                network_operations += 1;
            }
            i += 1;
        }
        assert(s.take(s.len() as int) =~= s);
        OperationStats { total: entries.len(), successful, failed, lock_operations, network_operations }
    }
}

} // verus!

verus! {

/// What chrono shows for a UTC time (`DateTime<Utc>` with `{}`), or none
/// for a time outside chrono's range.
pub uninterp spec fn utc_display(secs: i64, nanos: u32) -> Option<Seq<char>>;

/// `chrono::DateTime::<Utc>::from_timestamp` then its `Display`: the time as
/// chrono shows it, none when chrono cannot represent it.
#[verifier::external_body]
fn utc_text(secs: i64, nanos: u32) -> (r: Option<String>)
    ensures
        opt_view(r) == utc_display(secs, nanos),
{
    match chrono::DateTime::from_timestamp(secs, nanos) {
        Some(d) => Some(d.to_string()),
        None => None,
    }
}

/// What `{:?}` shows for a string: quoted, with its special characters
/// escaped.
pub uninterp spec fn debug_text(s: Seq<char>) -> Seq<char>;

/// `<str as Debug>::fmt`, through `format!("{:?}")`.
#[verifier::external_body]
fn debug_quoted(s: &str) -> (r: String)
    ensures
        r@ == debug_text(s@),
{
    format!("{:?}", s)
}

/// How the history export names an operation (its `Debug` form).
pub open spec fn operation_name(op: HistoryOperation) -> Seq<char> {
    match op {
        HistoryOperation::LockAcquire => "LockAcquire"@,
        HistoryOperation::LockRelease => "LockRelease"@,
        HistoryOperation::LockRenew => "LockRenew"@,
        HistoryOperation::LockBreak => "LockBreak"@,
        HistoryOperation::Push => "Push"@,
        HistoryOperation::Pull => "Pull"@,
        HistoryOperation::Fetch => "Fetch"@,
        HistoryOperation::Commit => "Commit"@,
        HistoryOperation::Rollback => "Rollback"@,
        HistoryOperation::Login => "Login"@,
        HistoryOperation::Logout => "Logout"@,
        HistoryOperation::CommentAdd => "CommentAdd"@,
        HistoryOperation::ActivityView => "ActivityView"@,
        HistoryOperation::ConflictCheck => "ConflictCheck"@,
        HistoryOperation::Custom(s) => "Custom("@ + debug_text(s@) + ")"@,
    }
}

/// How the history export shows a result.
pub open spec fn result_text(r: OperationResult) -> Seq<char> {
    match r {
        OperationResult::Success => "Success"@,
        OperationResult::Failure(e) => "Failure: "@ + e@,
        OperationResult::Partial(m) => "Partial: "@ + m@,
    }
}

/// The export line of an entry whose time shows as `time`.
pub open spec fn csv_line(e: OperationHistoryEntry, time: Seq<char>) -> Seq<char> {
    time + ","@ + operation_name(e.operation) + ","@ + e.user@ + ","@ + e.machine_id@ + ","@
        + result_text(e.result) + ","@ + match e.repo_path {
        Some(p) => p@,
        None => Seq::empty(),
    } + "\n"@
}

/// The export lines of the entries, none if a time cannot be shown.
pub open spec fn csv_lines(es: Seq<OperationHistoryEntry>) -> Option<Seq<char>>
    decreases es.len(),
{
    if es.len() == 0 {
        Some(Seq::empty())
    } else {
        match (csv_lines(es.drop_last()), utc_display(es.last().timestamp.secs, es.last().timestamp.nanos)) {
            (Some(body), Some(t)) => Some(body + csv_line(es.last(), t)),
            _ => None,
        }
    }
}

/// The CSV text of the history: a header line, then one line per entry.
pub open spec fn csv_spec(es: Seq<OperationHistoryEntry>) -> Option<Seq<char>> {
    match csv_lines(es) {
        Some(body) => Some("Timestamp,Operation,User,Machine,Result,Repo\n"@ + body),
        None => None,
    }
}

fn push_operation_name(v: &mut Vec<char>, op: &HistoryOperation)
    ensures
        final(v)@ == old(v)@ + operation_name(*op),
{
    let name = match op {
        HistoryOperation::LockAcquire => "LockAcquire".to_owned(),
        HistoryOperation::LockRelease => "LockRelease".to_owned(),
        HistoryOperation::LockRenew => "LockRenew".to_owned(),
        HistoryOperation::LockBreak => "LockBreak".to_owned(),
        HistoryOperation::Push => "Push".to_owned(),
        HistoryOperation::Pull => "Pull".to_owned(),
        HistoryOperation::Fetch => "Fetch".to_owned(),
        HistoryOperation::Commit => "Commit".to_owned(),
        HistoryOperation::Rollback => "Rollback".to_owned(),
        HistoryOperation::Login => "Login".to_owned(),
        HistoryOperation::Logout => "Logout".to_owned(),
        HistoryOperation::CommentAdd => "CommentAdd".to_owned(),
        HistoryOperation::ActivityView => "ActivityView".to_owned(),
        HistoryOperation::ConflictCheck => "ConflictCheck".to_owned(),
        HistoryOperation::Custom(s) => {
            let mut w: Vec<char> = Vec::new();
            extend_str(&mut w, "Custom(");
            let q = debug_quoted(s.as_str());
            extend_str(&mut w, q.as_str());
            extend_str(&mut w, ")");
            assert(w@ =~= "Custom("@ + debug_text(s@) + ")"@);
            string_from_chars(&w)
        },
    };
    extend_str(v, name.as_str());
}

/// Appends the CSV line of `e`, stamped with the time `t`.
fn push_csv_line(v: &mut Vec<char>, e: &OperationHistoryEntry, t: &str)
    ensures
        final(v)@ == old(v)@ + csv_line(*e, t@),
{
    let ghost before = v@;
    extend_str(v, t);
    extend_str(v, ",");
    push_operation_name(v, &e.operation);
    extend_str(v, ",");
    extend_str(v, e.user.as_str());
    extend_str(v, ",");
    extend_str(v, e.machine_id.as_str());
    extend_str(v, ",");
    match &e.result {
        OperationResult::Success => extend_str(v, "Success"),
        OperationResult::Failure(m) => {
            extend_str(v, "Failure: ");
            extend_str(v, m.as_str());
        },
        OperationResult::Partial(m) => {
            extend_str(v, "Partial: ");
            extend_str(v, m.as_str());
        },
    }
    extend_str(v, ",");
    match &e.repo_path {
        Some(p) => extend_str(v, p.as_str()),
        None => {},
    }
    extend_str(v, "\n");
    assert(final(v)@ =~= before + csv_line(*e, t@));
}

impl OperationHistoryManager {
    /// The history as CSV text: a header line, then per entry its time,
    /// operation, user, machine, result and repository, comma-separated.
    /// None when a time lies outside what chrono can show.
    pub fn export_csv_text(entries: &Vec<OperationHistoryEntry>) -> (r: Option<String>)
        ensures
            opt_view(r) == csv_spec(entries@),
    {
        let mut v: Vec<char> = Vec::new();
        let mut i: usize = 0;
        assert(entries@.take(0) =~= Seq::<OperationHistoryEntry>::empty());
        while i < entries.len()
            invariant
                i <= entries@.len(),
                csv_lines(entries@.take(i as int)) == Some(v@),
            decreases entries@.len() - i,
        {
            let e = &entries[i];
            assert(entries@.take(i + 1).drop_last() =~= entries@.take(i as int));
            assert(entries@.take(i + 1).last() == *e);
            match utc_text(e.timestamp.secs, e.timestamp.nanos) {
                None => {
                    assert(csv_lines(entries@.take(i + 1)) is None);
                    proof {
                        lemma_csv_lines_none(entries@, i as int + 1);
                    }
                    return None;
                },
                Some(t) => {
                    push_csv_line(&mut v, e, t.as_str());
                },
            }
            i += 1;
        }
        assert(entries@.take(entries@.len() as int) =~= entries@);
        let mut out: Vec<char> = Vec::new();
        extend_str(&mut out, "Timestamp,Operation,User,Machine,Result,Repo\n");
        extend_chars(&mut out, &v);
        Some(string_from_chars(&out))
    }
}

/// Once a prefix of the entries cannot be exported, no longer prefix can.
proof fn lemma_csv_lines_none(es: Seq<OperationHistoryEntry>, n: int)
    requires
        0 <= n <= es.len(),
        csv_lines(es.take(n)) is None,
    ensures
        csv_lines(es) is None,
    decreases es.len() - n,
{
    if n < es.len() {
        assert(es.take(n + 1).drop_last() =~= es.take(n));
        lemma_csv_lines_none(es, n + 1);
    } else {
        assert(es.take(n) =~= es);
    }
}

/// Top of the box of the history listing.
pub const HISTORY_TOP: &'static str = "┌─ Operation History ─────────────────────────────────────┐";

/// Bottom of the box of the history listing.
pub const HISTORY_BOTTOM: &'static str = "└──────────────────────────────────────────────────────────┘";

/// The icon shown beside an operation of this kind.
pub open spec fn operation_icon(op: HistoryOperation) -> Seq<char> {
    match op {
        HistoryOperation::LockAcquire => "🔒"@,
        HistoryOperation::LockRelease => "🔓"@,
        HistoryOperation::LockRenew => "🔄"@,
        HistoryOperation::LockBreak => "🔨"@,
        HistoryOperation::Push => "⬆"@,
        HistoryOperation::Pull => "⬇"@,
        HistoryOperation::Commit => "●"@,
        HistoryOperation::Login => "🔑"@,
        _ => "•"@,
    }
}

fn operation_icon_text(op: &HistoryOperation) -> (s: &'static str)
    ensures
        s@ == operation_icon(*op),
{
    match op {
        HistoryOperation::LockAcquire => "🔒",
        HistoryOperation::LockRelease => "🔓",
        HistoryOperation::LockRenew => "🔄",
        HistoryOperation::LockBreak => "🔨",
        HistoryOperation::Push => "⬆",
        HistoryOperation::Pull => "⬇",
        HistoryOperation::Commit => "●",
        HistoryOperation::Login => "🔑",
        _ => "•",
    }
}

/// The mark of a result: a tick, a cross, or a warning sign.
pub open spec fn result_mark(r: OperationResult) -> Seq<char> {
    match r {
        OperationResult::Success => "✓"@,
        OperationResult::Failure(_) => "✗"@,
        OperationResult::Partial(_) => "⚠"@,
    }
}

/// The color of the mark of a result: green, red or yellow (as SGR codes).
pub open spec fn result_color(r: OperationResult) -> Seq<char> {
    match r {
        OperationResult::Success => "32"@,
        OperationResult::Failure(_) => "31"@,
        OperationResult::Partial(_) => "33"@,
    }
}

/// The lines that list one history entry, `now`: its icon, the mark of its
/// result (colored), the operation's name, `by <user>` and how long ago it
/// happened (both bright black); for a failure, a second line with the
/// error, labelled `Error` in red.
pub open spec fn history_block(b: Seq<Seq<char>>, e: OperationHistoryEntry, now: Timestamp) -> bool {
    &&& b.len() == if e.result is Failure {
        2nat
    } else {
        1nat
    }
    &&& exists|mark: Seq<char>, by: Seq<char>, ago: Seq<char>|
        colored_as(result_mark(e.result), result_color(e.result), mark) && colored_as(
            "by "@ + e.user@,
            "90"@,
            by,
        ) && colored_as(time_ago_spec(seconds_between(e.timestamp, now)), "90"@, ago) && b[0] == "│ "@
            + operation_icon(e.operation) + " "@ + mark + " "@ + operation_name(e.operation) + " "@ + by + " "@
            + ago
    &&& (e.result matches OperationResult::Failure(err) ==> exists|label: Seq<char>|
        colored_as("Error"@, "31"@, label) && b[1] == "│   "@ + label + ": "@ + err@)
}

/// How many of `len` entries a listing of the `limit` most recent shows.
pub open spec fn recent_count(len: nat, limit: usize) -> nat {
    if (limit as nat) < len {
        limit as nat
    } else {
        len
    }
}

impl OperationHistoryManager {
    fn history_block_lines(e: &OperationHistoryEntry, now: Timestamp) -> (b: Vec<String>)
        ensures
            history_block(strings_view(b@), *e, now),
    {
        let mark = match &e.result {
            OperationResult::Success => green("✓"),
            OperationResult::Failure(_) => red("✗"),
            OperationResult::Partial(_) => yellow("⚠"),
        };
        assert(colored_as(result_mark(e.result), result_color(e.result), mark@));
        let by_user = joined_text("by ", e.user.as_str());
        let by = bright_black(by_user.as_str());
        let age = time_ago(e.timestamp, now);
        let ago = bright_black(age.as_str());
        let mut v: Vec<char> = Vec::new();
        extend_str(&mut v, "│ ");
        extend_str(&mut v, operation_icon_text(&e.operation));
        extend_str(&mut v, " ");
        extend_str(&mut v, mark.as_str());
        extend_str(&mut v, " ");
        push_operation_name(&mut v, &e.operation);
        extend_str(&mut v, " ");
        extend_str(&mut v, by.as_str());
        extend_str(&mut v, " ");
        extend_str(&mut v, ago.as_str());
        let first = string_from_chars(&v);
        let mut b: Vec<String> = Vec::new();
        push_line(&mut b, first.as_str());
        assert(strings_view(b@)[0] =~= "│ "@ + operation_icon(e.operation) + " "@ + mark@ + " "@ + operation_name(
            e.operation,
        ) + " "@ + by@ + " "@ + ago@);
        match &e.result {
            OperationResult::Failure(err) => {
                let label = red("Error");
                let mut w: Vec<char> = Vec::new();
                extend_str(&mut w, "│   ");
                extend_str(&mut w, label.as_str());
                extend_str(&mut w, ": ");
                extend_str(&mut w, err.as_str());
                let second = string_from_chars(&w);
                push_line(&mut b, second.as_str());
                assert(strings_view(b@)[1] =~= "│   "@ + label@ + ": "@ + err@);
            },
            _ => {},
        }
        b
    }

    /// The lines that list the `limit` most recent of the history's
    /// `entries` (oldest first), `now`: `No operation history yet` (bright
    /// black) when that leaves none; otherwise the top of the box (bright
    /// blue), the lines of each entry, as [`history_block`] says, and the
    /// bottom of the box (bright blue). The lines come grouped: the top, one
    /// group per entry, the bottom.
    pub fn history_listing(entries: &Vec<OperationHistoryEntry>, limit: usize, now: Timestamp) -> (r: Vec<
        Vec<String>,
    >)
        ensures
            ({
                let len = entries@.len();
                let n = recent_count(len, limit);
                &&& n == 0 ==> r@.len() == 1 && r@[0]@.len() == 1 && colored_as(
                    "No operation history yet"@,
                    "90"@,
                    r@[0]@[0]@,
                )
                &&& n > 0 ==> {
                    &&& r@.len() == n + 2
                    &&& r@[0]@.len() == 1
                    &&& exists|top: Seq<char>| colored_as(HISTORY_TOP@, "94"@, top) && r@[0]@[0]@ == "\n"@ + top
                    &&& forall|i: int|
                        0 <= i < n ==> history_block(
                            strings_view(#[trigger] r@[i + 1]@),
                            entries@[len - n + i],
                            now,
                        )
                    &&& r@[n + 1 as int]@.len() == 1
                    &&& exists|bottom: Seq<char>|
                        colored_as(HISTORY_BOTTOM@, "94"@, bottom) && r@[n + 1 as int]@[0]@ == bottom + "\n"@
                }
            }),
    {
        let len = entries.len();
        let n: usize = if limit < len {
            limit
        } else {
            len
        };
        let mut r: Vec<Vec<String>> = Vec::new();
        if n == 0 {
            let mut only: Vec<String> = Vec::new();
            only.push(bright_black("No operation history yet"));
            r.push(only);
            return r;
        }
        let top = bright_blue(HISTORY_TOP);
        let mut head: Vec<String> = Vec::new();
        assert(strings_view(head@) =~= Seq::empty());
        push_joined(&mut head, "\n", top.as_str());
        assert(strings_view(head@).len() == 1);
        assert(strings_view(head@)[0] == head@[0]@);
        r.push(head);
        let mut i: usize = 0;
        while i < n
            invariant
                n == recent_count(len as nat, limit),
                len == entries@.len(),
                n <= len,
                i <= n,
                r@.len() == i + 1,
                r@[0]@.len() == 1,
                r@[0]@[0]@ == "\n"@ + top@,
                forall|j: int|
                    0 <= j < i ==> history_block(strings_view(#[trigger] r@[j + 1]@), entries@[len - n + j], now),
            decreases n - i,
        {
            let b = Self::history_block_lines(&entries[len - n + i], now);
            r.push(b);
            i += 1;
        }
        let bottom = bright_blue(HISTORY_BOTTOM);
        let mut foot: Vec<String> = Vec::new();
        assert(strings_view(foot@) =~= Seq::empty());
        push_joined(&mut foot, bottom.as_str(), "\n");
        assert(strings_view(foot@).len() == 1);
        assert(strings_view(foot@)[0] == foot@[0]@);
        r.push(foot);
        r
    }
}

/// `a` followed by `b`.
fn joined_text(a: &str, b: &str) -> (s: String)
    ensures
        s@ == a@ + b@,
{
    let mut v: Vec<char> = Vec::new();
    extend_str(&mut v, a);
    extend_str(&mut v, b);
    string_from_chars(&v)
}

} // verus!

//! Backup snapshots and recovery guidance: where snapshots are kept, how
//! many are kept, and the steps shown to restore one or to recover from a
//! failed operation.
use vstd::prelude::*;
use crate::text::{contains_seq, strings_view, insert_pair, join_path, pairs_view, path_join, paths_equal, same_path, set_pair};
use crate::clock::{new_uuid, utc_now, Timestamp};
use crate::sequences::{newest_first, newest_first_order, reversed, stable_rearrangement, Dated};
use crate::styled::{bright_black, bright_blue, bright_cyan, bright_yellow, colored_as, yellow};
use crate::text::{byte_prefix, byte_prefix_of, cuts_exactly, decimal, extend_str, push_decimal, push_joined, push_line, string_from_chars};
use crate::clock::{seconds_between, time_ago, time_ago_spec, whole_seconds_between};

verus! {

/// Maximum number of snapshots kept per repository.
pub const MAX_SNAPSHOTS: usize = 50;

/// Kind of snapshot.
#[derive(Debug, Clone, Copy, PartialEq, Eq, Structural)]
pub enum SnapshotType {
    /// Manual snapshot created by the user.
    Manual,
    /// Automatic snapshot before a push.
    AutoBeforePush,
    /// Automatic snapshot before a pull.
    AutoBeforePull,
    /// Automatic snapshot before breaking a lock.
    AutoBeforeLockBreak,
    /// Automatic snapshot before a rollback.
    AutoBeforeRollback,
    /// Scheduled automatic snapshot.
    Scheduled,
}

/// The icon shown beside a snapshot of this kind.
pub open spec fn snapshot_icon(t: SnapshotType) -> Seq<char> {
    match t {
        SnapshotType::Manual => "📸"@,
        SnapshotType::AutoBeforePush => "⬆"@,
        SnapshotType::AutoBeforePull => "⬇"@,
        SnapshotType::AutoBeforeLockBreak => "🔨"@,
        SnapshotType::AutoBeforeRollback => "↩"@,
        SnapshotType::Scheduled => "⏰"@,
    }
}

impl SnapshotType {
    /// The icon shown beside a snapshot of this kind.
    pub fn icon(&self) -> (s: &'static str)
        ensures
            s@ == snapshot_icon(*self),
    {
        match self {
            SnapshotType::Manual => "📸",
            SnapshotType::AutoBeforePush => "⬆",
            SnapshotType::AutoBeforePull => "⬇",
            SnapshotType::AutoBeforeLockBreak => "🔨",
            SnapshotType::AutoBeforeRollback => "↩",
            SnapshotType::Scheduled => "⏰",
        }
    }
}

/// A backup snapshot of a repository.
#[derive(Debug, Clone)]
pub struct Snapshot {
    /// Unique identifier of this snapshot.
    pub id: String,
    /// When the snapshot was created.
    pub created_at: Timestamp,
    /// Kind of snapshot.
    pub snapshot_type: SnapshotType,
    /// Repository path.
    pub repo_path: String,
    /// Commit at the time of the snapshot, if known.
    pub commit_id: Option<String>,
    /// What the snapshot represents.
    pub description: String,
    /// Metadata, as key-value pairs with no key twice.
    pub metadata: Vec<(String, String)>,
}

/// Snapshots are listed by when they were made (newest first, with
/// [`newest_first`](crate::sequences::newest_first)).
impl Dated for Snapshot {
    open spec fn date(&self) -> Timestamp {
        self.created_at
    }

    fn date_of(&self) -> (t: Timestamp) {
        self.created_at
    }
}

impl Snapshot {
    /// A snapshot of the repository at `repo_path`, now, with a fresh
    /// identifier, no commit, an empty description and no metadata.
    pub fn new(snapshot_type: SnapshotType, repo_path: &str) -> (s: Self)
        ensures
            s.snapshot_type == snapshot_type,
            s.repo_path@ == repo_path@,
            s.commit_id is None,
            s.description@.len() == 0,
            s.metadata@.len() == 0,
            s.id@.len() == 36,
    {
        Snapshot {
            id: new_uuid(),
            created_at: utc_now(),
            snapshot_type,
            repo_path: repo_path.to_owned(),
            commit_id: None,
            description: String::new(),
            metadata: Vec::new(),
        }
    }

    /// Sets the commit.
    pub fn with_commit_id(self, commit_id: &str) -> (s: Self)
        ensures
            s.commit_id matches Some(c) && c@ == commit_id@,
            s.id == self.id,
            s.created_at == self.created_at,
            s.snapshot_type == self.snapshot_type,
            s.repo_path == self.repo_path,
            s.description == self.description,
            s.metadata == self.metadata,
    {
        let mut s = self;
        s.commit_id = Some(commit_id.to_owned());
        s
    }

    /// Sets the description.
    pub fn with_description(self, description: &str) -> (s: Self)
        ensures
            s.description@ == description@,
            s.id == self.id,
            s.created_at == self.created_at,
            s.snapshot_type == self.snapshot_type,
            s.repo_path == self.repo_path,
            s.commit_id == self.commit_id,
            s.metadata == self.metadata,
    {
        let mut s = self;
        s.description = description.to_owned();
        s
    }

    /// Sets a metadata key to a value.
    pub fn with_metadata(self, key: &str, value: &str) -> (s: Self)
        ensures
            pairs_view(s.metadata@) == insert_pair(pairs_view(self.metadata@), key@, value@),
            s.id == self.id,
            s.created_at == self.created_at,
            s.snapshot_type == self.snapshot_type,
            s.repo_path == self.repo_path,
            s.commit_id == self.commit_id,
            s.description == self.description,
    {
        let mut s = self;
        set_pair(&mut s.metadata, key, value);
        s
    }

    /// The whole hours from the snapshot's creation to `now`.
    pub fn age_hours_at(&self, now: Timestamp) -> (h: i64)
        ensures
            h == hours_toward_zero(seconds_between(self.created_at, now)),
    {
        let secs = whole_seconds_between(self.created_at, now);
        if secs >= 0 {
            ((secs as u128) / 3600) as i64
        } else {
            let back: u128 = (-secs) as u128;
            -((back / 3600) as i64)
        }
    }

    /// The whole hours from the snapshot's creation until now, whatever
    /// the clock reads.
    pub fn age_hours(&self) -> (h: i64)
        ensures
            exists|now: Timestamp| h == hours_toward_zero(seconds_between(self.created_at, now)),
    {
        let now = utc_now();
        self.age_hours_at(now)
    }
}

/// Whole hours in `secs` seconds, truncated toward zero.
pub open spec fn hours_toward_zero(secs: int) -> int {
    if secs >= 0 {
        secs / 3600
    } else {
        -((-secs) / 3600)
    }
}

/// Manages backup snapshots.
pub struct BackupRecoveryManager {
    pub snapshots_dir: String,
}

/// The default snapshots directory: `<home>/.auxin/snapshots`, with the
/// current directory when there is no home.
pub open spec fn default_snapshots_dir(home: Option<Seq<char>>) -> Seq<char> {
    path_join(
        path_join(
            match home {
                Some(h) => h,
                None => "."@,
            },
            ".auxin"@,
        ),
        "snapshots"@,
    )
}

impl BackupRecoveryManager {
    /// A manager with the default snapshots directory under `home`.
    pub fn new(home: Option<&str>) -> (m: Self)
        ensures
            m.snapshots_dir@ == default_snapshots_dir(
                match home {
                    Some(h) => Some(h@),
                    None => None,
                },
            ),
    {
        let base = match home {
            Some(h) => h,
            None => ".",
        };
        let a = join_path(base, ".auxin");
        BackupRecoveryManager { snapshots_dir: join_path(a.as_str(), "snapshots") }
    }

    /// A manager with a custom snapshots directory.
    pub fn with_snapshots_dir(snapshots_dir: String) -> (m: Self)
        ensures
            m.snapshots_dir == snapshots_dir,
    {
        BackupRecoveryManager { snapshots_dir }
    }

    /// The metadata file of a snapshot: `<dir>/<id>/snapshot.json`.
    pub fn snapshot_metadata_path(&self, snapshot_id: &str) -> (p: String)
        ensures
            p@ == path_join(path_join(self.snapshots_dir@, snapshot_id@), "snapshot.json"@),
    {
        let d = join_path(self.snapshots_dir.as_str(), snapshot_id);
        join_path(d.as_str(), "snapshot.json")
    }

    /// The snapshots that a cleanup deletes: all of them put newest first
    /// (as [`newest_first`] does), those past the first `MAX_SNAPSHOTS`, in
    /// that order.
    pub fn cleanup_old_snapshots(snapshots: Vec<Snapshot>) -> (gone: Vec<Snapshot>)
        ensures
            exists|sorted: Seq<Snapshot>, p: Seq<int>|
                newest_first_order(sorted) && stable_rearrangement(snapshots@, sorted, p) && gone@ == if sorted.len()
                    <= MAX_SNAPSHOTS {
                    Seq::<Snapshot>::empty()
                } else {
                    sorted.skip(MAX_SNAPSHOTS as int)
                },
    {
        let sorted = newest_first(snapshots);
        let gone = Self::past_the_newest(sorted);
        gone
    }

    /// The snapshots past the first `MAX_SNAPSHOTS` of `snapshots`, in order.
    fn past_the_newest(snapshots: Vec<Snapshot>) -> (gone: Vec<Snapshot>)
        ensures
            gone@ == if snapshots@.len() <= MAX_SNAPSHOTS {
                Seq::<Snapshot>::empty()
            } else {
                snapshots@.skip(MAX_SNAPSHOTS as int)
            },
    {
        let ghost s = snapshots@;
        let n = snapshots.len();
        if n <= MAX_SNAPSHOTS {
            return Vec::new();
        }
        let mut rest = snapshots;
        let mut gone_rev: Vec<Snapshot> = Vec::new();
        while rest.len() > MAX_SNAPSHOTS
            invariant
                n == s.len(),
                MAX_SNAPSHOTS <= rest@.len() <= s.len(),
                rest@ == s.take(rest@.len() as int),
                gone_rev@.len() + rest@.len() == s.len(),
                forall|j: int| 0 <= j < gone_rev@.len() ==> gone_rev@[j] == s[s.len() - 1 - j],
            decreases rest@.len(),
        {
            match rest.pop() {
                Some(x) => {
                    assert(x == s[rest@.len() as int]);
                    assert(rest@ =~= s.take(rest@.len() as int));
                    gone_rev.push(x);
                },
                None => {},
            }
        }
        let mut gone: Vec<Snapshot> = Vec::new();
        let k = gone_rev.len();
        while gone_rev.len() > 0
            invariant
                k == gone_rev@.len() + gone@.len(),
                k + MAX_SNAPSHOTS == s.len(),
                forall|j: int| 0 <= j < gone_rev@.len() ==> gone_rev@[j] == s[s.len() - 1 - j],
                forall|j: int| 0 <= j < gone@.len() ==> gone@[j] == s[MAX_SNAPSHOTS + j],
            decreases gone_rev@.len(),
        {
            let ghost before = gone_rev@;
            match gone_rev.pop() {
                Some(x) => {
                    assert(x == before[before.len() - 1]);
                    assert(x == s[MAX_SNAPSHOTS + gone@.len()]);
                    gone.push(x);
                },
                None => {},
            }
        }
        assert(gone@ =~= s.skip(MAX_SNAPSHOTS as int));
        gone
    }

    /// The snapshots of the repository at `repo_path` (paths compared as
    /// `Path`s are), in the given order.
    pub fn list_snapshots_for_repo(snapshots: Vec<Snapshot>, repo_path: &str) -> (r: Vec<Snapshot>)
        ensures
            r@ == snapshots@.filter(|sn: Snapshot| same_path(sn.repo_path@, repo_path@)),
    {
        let ghost p = |sn: Snapshot| same_path(sn.repo_path@, repo_path@);
        let ghost s = snapshots@;
        let n = snapshots.len();
        let mut rest = reversed(snapshots);
        let mut out: Vec<Snapshot> = Vec::new();
        let mut i: usize = 0;
        assert(s.take(0) =~= Seq::<Snapshot>::empty());
        while rest.len() > 0
            invariant
                n == s.len(),
                rest@.len() + i == s.len(),
                forall|j: int| 0 <= j < rest@.len() ==> rest@[j] == s[s.len() - 1 - j],
                out@ == s.take(i as int).filter(p),
                p == (|sn: Snapshot| same_path(sn.repo_path@, repo_path@)),
            decreases rest@.len(),
        {
            match rest.pop() {
                Some(x) => {
                    assert(x == s[i as int]);
                    assert(s.take(i + 1).drop_last() =~= s.take(i as int));
                    assert(s.take(i + 1).last() == x);
                    assert(s.take(i + 1).filter(p) == if p(x) {
                        s.take(i as int).filter(p).push(x)
                    } else {
                        s.take(i as int).filter(p)
                    }) by {
                        reveal(Seq::filter);
                    }
                    if paths_equal(x.repo_path.as_str(), repo_path) {
                        out.push(x);
                    }
                    i += 1;
                },
                None => {},
            }
        }
        assert(s.take(s.len() as int) =~= s);
        out
    }

    /// The steps to restore a snapshot: a heading naming the snapshot and
    /// when it was made, a blank line, then either the commands to check out
    /// the snapshot's commit in its repository or a note that a manual
    /// restore is needed, a blank line, and a warning.
    pub fn get_restore_instructions(snapshot: &Snapshot, created_ago: &str) -> (v: Vec<String>)
        ensures
            v@.len() == if snapshot.commit_id is Some { 8nat } else { 5nat },
            exists|id: Seq<char>|
                colored_as(snapshot.id@, "96"@, id) && v@[0]@ == "To restore from snapshot "@ + id + " (created "@
                    + created_ago@ + "):"@,
            v@[1]@ == Seq::<char>::empty(),
            v@[v@.len() - 2]@ == Seq::<char>::empty(),
            colored_as("⚠ WARNING: Restoring will lose uncommitted changes!"@, "33"@, v@[v@.len() - 1]@),
            snapshot.commit_id is None ==> v@[2]@ == "1. Manual restore required (no commit ID stored)"@,
            snapshot.commit_id matches Some(c) ==> {
                &&& exists|cc: Seq<char>| colored_as(c@, "93"@, cc) && v@[2]@ == "1. Reset repository to commit "@ + cc
                &&& v@[3]@ == "   cd "@ + snapshot.repo_path@
                &&& v@[4]@ == "   oxen log  # Find commit"@
                &&& v@[5]@ == "   oxen checkout "@ + c@
            },
    {
        let mut v: Vec<String> = Vec::new();
        let mut head = "To restore from snapshot ".to_owned();
        let id = bright_cyan(snapshot.id.as_str());
        head.append(id.as_str());
        head.append(" (created ");
        head.append(created_ago);
        head.append("):");
        v.push(head);
        v.push(String::new());
        match &snapshot.commit_id {
            Some(c) => {
                let mut l = "1. Reset repository to commit ".to_owned();
                let cc = bright_yellow(c.as_str());
                l.append(cc.as_str());
                v.push(l);
                let mut l = "   cd ".to_owned();
                l.append(snapshot.repo_path.as_str());
                v.push(l);
                v.push("   oxen log  # Find commit".to_owned());
                let mut l = "   oxen checkout ".to_owned();
                l.append(c.as_str());
                v.push(l);
                assert(v@[2]@ == "1. Reset repository to commit "@ + cc@);
            },
            None => {
                v.push("1. Manual restore required (no commit ID stored)".to_owned());
            },
        }
        v.push(String::new());
        let w = yellow("⚠ WARNING: Restoring will lose uncommitted changes!");
        v.push(w);
        assert(v@[0]@ == "To restore from snapshot "@ + id@ + " (created "@ + created_ago@ + "):"@);
        v
    }
}

/// Top of the box of the snapshot listing.
pub const SNAPSHOTS_TOP: &'static str = "┌─ Backup Snapshots ──────────────────────────────────────┐";

/// How many of `len` snapshots a listing shows: at most `limit`, when
/// there is one.
pub open spec fn shown_count(len: nat, limit: Option<usize>) -> nat {
    match limit {
        Some(l) => if (l as nat) < len {
            l as nat
        } else {
            len
        },
        None => len,
    }
}

/// Whether a listing can show this snapshot: its id, and its commit when
/// it has one, are cut after their first eight bytes, so each must have
/// a character boundary there.
pub open spec fn listable(s: Snapshot) -> bool {
    &&& cuts_exactly(s.id@, 8)
    &&& (s.commit_id matches Some(c) ==> cuts_exactly(c@, 8))
}

/// The lines that list one snapshot, `now`: a bare `│`; the icon of its
/// kind, the first eight bytes of its id (bright cyan) and how long ago it
/// was made (bright black); its description, unless empty; the first eight
/// bytes of its commit (bright yellow), when it has one; and its path
/// (bright black).
pub open spec fn snapshot_block(b: Seq<Seq<char>>, s: Snapshot, now: Timestamp) -> bool {
    let age = time_ago_spec(seconds_between(s.created_at, now));
    let n_desc: int = if s.description@.len() > 0 {
        1
    } else {
        0
    };
    let n_commit: int = if s.commit_id is Some {
        1
    } else {
        0
    };
    &&& b.len() == 3 + n_desc + n_commit
    &&& b[0] == "│"@
    &&& exists|id: Seq<char>, ago: Seq<char>|
        colored_as(byte_prefix(s.id@, 8), "96"@, id) && colored_as(age, "90"@, ago) && b[1] == "│ "@
            + snapshot_icon(s.snapshot_type) + " "@ + id + " "@ + ago
    &&& n_desc == 1 ==> b[2] == "│   "@ + s.description@
    &&& (s.commit_id matches Some(c) ==> exists|cc: Seq<char>|
        colored_as(byte_prefix(c@, 8), "93"@, cc) && b[2 + n_desc] == "│   Commit: "@ + cc)
    &&& exists|p: Seq<char>| colored_as(s.repo_path@, "90"@, p) && b[b.len() - 1] == "│   Path: "@ + p
}

/// The closing lines of a listing of `len` snapshots with this `limit`: a
/// bare `│`, the bottom of the box (bright blue), and, when the limit hid
/// some snapshots, how many more there are.
pub open spec fn listing_footer(f: Seq<Seq<char>>, len: nat, limit: Option<usize>) -> bool {
    let more = limit matches Some(l) && (l as nat) < len;
    &&& f.len() == if more {
        3nat
    } else {
        2nat
    }
    &&& f[0] == "│"@
    &&& exists|bottom: Seq<char>| colored_as(BOX_BOTTOM@, "94"@, bottom) && f[1] == bottom
    &&& (limit matches Some(l) ==> ((l as nat) < len ==> f[2] == "\n"@ + decimal((len - l) as nat)
        + " more snapshots available. Use 'auxin snapshots list --all' to see all.\n"@))
}

impl BackupRecoveryManager {
    /// The lines that list one snapshot, `now`, as [`snapshot_block`] says.
    fn snapshot_block_lines(s: &Snapshot, now: Timestamp) -> (b: Vec<String>)
        requires
            listable(*s),
        ensures
            snapshot_block(strings_view(b@), *s, now),
    {
        let mut b: Vec<String> = Vec::new();
        push_line(&mut b, "│");
        let id8 = byte_prefix_of(s.id.as_str(), 8);
        let id = bright_cyan(id8.as_str());
        let age = time_ago(s.created_at, now);
        let ago = bright_black(age.as_str());
        let mut v: Vec<char> = Vec::new();
        extend_str(&mut v, "│ ");
        extend_str(&mut v, s.snapshot_type.icon());
        extend_str(&mut v, " ");
        extend_str(&mut v, id.as_str());
        extend_str(&mut v, " ");
        extend_str(&mut v, ago.as_str());
        let head = string_from_chars(&v);
        push_line(&mut b, head.as_str());
        assert(strings_view(b@)[1] =~= "│ "@ + snapshot_icon(s.snapshot_type) + " "@ + id@ + " "@ + ago@);
        if s.description.as_str().unicode_len() > 0 {
            push_joined(&mut b, "│   ", s.description.as_str());
        }
        let ghost n_desc: int = if s.description@.len() > 0 {
            1
        } else {
            0
        };
        match &s.commit_id {
            Some(c) => {
                let c8 = byte_prefix_of(c.as_str(), 8);
                let cc = bright_yellow(c8.as_str());
                push_joined(&mut b, "│   Commit: ", cc.as_str());
                assert(strings_view(b@)[2 + n_desc] == "│   Commit: "@ + cc@);
            },
            None => {},
        }
        let path = bright_black(s.repo_path.as_str());
        push_joined(&mut b, "│   Path: ", path.as_str());
        assert(strings_view(b@)[0] =~= "│"@);
        b
    }

    /// The lines that list `snapshots` (newest first, as listed), `now`:
    /// `No snapshots found` (bright black) when there are none; otherwise
    /// the top of the box (bright blue), the lines of each snapshot up to
    /// `limit`, as [`snapshot_block`] says, and the closing lines, as
    /// [`listing_footer`] says. The lines come grouped: the top, one group
    /// per snapshot, the closing lines.
    pub fn snapshot_listing(snapshots: &Vec<Snapshot>, limit: Option<usize>, now: Timestamp) -> (r: Vec<Vec<String>>)
        requires
            forall|i: int| 0 <= i < shown_count(snapshots@.len(), limit) ==> listable(#[trigger] snapshots@[i]),
        ensures
            snapshots@.len() == 0 ==> r@.len() == 1 && r@[0]@.len() == 1 && colored_as(
                "No snapshots found"@,
                "90"@,
                r@[0]@[0]@,
            ),
            snapshots@.len() > 0 ==> ({
                let n = shown_count(snapshots@.len(), limit);
                &&& r@.len() == n + 2
                &&& r@[0]@.len() == 1
                &&& exists|top: Seq<char>| colored_as(SNAPSHOTS_TOP@, "94"@, top) && r@[0]@[0]@ == "\n"@ + top
                &&& forall|i: int|
                    0 <= i < n ==> snapshot_block(strings_view(#[trigger] r@[i + 1]@), snapshots@[i], now)
                &&& listing_footer(strings_view(r@[n + 1 as int]@), snapshots@.len(), limit)
            }),
    {
        let mut r: Vec<Vec<String>> = Vec::new();
        if snapshots.len() == 0 {
            let mut only: Vec<String> = Vec::new();
            only.push(bright_black("No snapshots found"));
            r.push(only);
            return r;
        }
        let n: usize = match limit {
            Some(l) => if l < snapshots.len() {
                l
            } else {
                snapshots.len()
            },
            None => snapshots.len(),
        };
        let top = bright_blue(SNAPSHOTS_TOP);
        let mut head: Vec<String> = Vec::new();
        assert(strings_view(head@) =~= Seq::empty());
        push_joined(&mut head, "\n", top.as_str());
        assert(strings_view(head@).len() == 1);
        assert(strings_view(head@)[0] == head@[0]@);
        r.push(head);
        let mut i: usize = 0;
        while i < n
            invariant
                n == shown_count(snapshots@.len(), limit),
                n <= snapshots@.len(),
                i <= n,
                r@.len() == i + 1,
                r@[0]@.len() == 1,
                r@[0]@[0]@ == "\n"@ + top@,
                forall|j: int| 0 <= j < n ==> listable(#[trigger] snapshots@[j]),
                forall|j: int| 0 <= j < i ==> snapshot_block(strings_view(#[trigger] r@[j + 1]@), snapshots@[j], now),
            decreases n - i,
        {
            let b = Self::snapshot_block_lines(&snapshots[i], now);
            r.push(b);
            i += 1;
        }
        let mut foot: Vec<String> = Vec::new();
        push_line(&mut foot, "│");
        let bottom = bright_blue(BOX_BOTTOM);
        push_line(&mut foot, bottom.as_str());
        match limit {
            Some(l) => {
                if snapshots.len() > l {
                    let mut v: Vec<char> = Vec::new();
                    extend_str(&mut v, "\n");
                    push_decimal(&mut v, (snapshots.len() - l) as u64);
                    extend_str(&mut v, " more snapshots available. Use 'auxin snapshots list --all' to see all.\n");
                    let line = string_from_chars(&v);
                    push_line(&mut foot, line.as_str());
                }
            },
            None => {},
        }
        assert(strings_view(foot@)[0] =~= "│"@);
        assert(strings_view(foot@)[1] =~= bottom@);
        r.push(foot);
        r
    }
}

/// The steps after a failed push.
pub open spec fn push_steps() -> Seq<Seq<char>> {
    seq![
        "Failed push recovery steps:"@,
        "1. Check network connection"@,
        "2. Verify authentication: auxin auth status"@,
        "3. Check if you have the lock: auxin lock status"@,
        "4. Pull latest changes: oxen pull origin main"@,
        "5. Retry push: oxen push origin main"@,
    ]
}

/// The steps after a failed pull.
pub open spec fn pull_steps() -> Seq<Seq<char>> {
    seq![
        "Failed pull recovery steps:"@,
        "1. Check network connection"@,
        "2. Verify authentication: auxin auth status"@,
        "3. Check for local uncommitted changes: oxen status"@,
        "4. Stash local changes if needed: (manual git workflow)"@,
        "5. Retry pull: oxen pull origin main"@,
    ]
}

/// The steps after a lock conflict.
pub open spec fn lock_steps() -> Seq<Seq<char>> {
    seq![
        "Lock conflict recovery steps:"@,
        "1. Check lock status: auxin lock status"@,
        "2. Contact lock holder to request release"@,
        "3. Wait for lock to expire (check expiration time)"@,
        "4. If urgent and authorized: auxin lock break --force"@,
        Seq::empty(),
        "⚠ WARNING: Breaking someone else's lock may cause data loss!"@,
    ]
}

/// The steps of a named scenario: `push`, `pull` or `lock`; any other name
/// gives the single line `Unknown scenario`.
pub open spec fn scenario_steps(scenario: Seq<char>) -> Seq<Seq<char>> {
    if scenario == "push"@ {
        push_steps()
    } else if scenario == "pull"@ {
        pull_steps()
    } else if scenario == "lock"@ {
        lock_steps()
    } else {
        seq!["Unknown scenario"@]
    }
}

/// Recovery steps for common failures.
pub struct RecoveryHelper {}

impl RecoveryHelper {
    /// The steps after a failed push.
    pub fn failed_push_recovery() -> (v: Vec<String>)
        ensures
            strings_view(v@) == push_steps(),
    {
        let mut v: Vec<String> = Vec::new();
        push_line(&mut v, "Failed push recovery steps:");
        push_line(&mut v, "1. Check network connection");
        push_line(&mut v, "2. Verify authentication: auxin auth status");
        push_line(&mut v, "3. Check if you have the lock: auxin lock status");
        push_line(&mut v, "4. Pull latest changes: oxen pull origin main");
        push_line(&mut v, "5. Retry push: oxen push origin main");
        assert(strings_view(v@) =~= push_steps());
        v
    }

    /// The steps after a failed pull.
    pub fn failed_pull_recovery() -> (v: Vec<String>)
        ensures
            strings_view(v@) == pull_steps(),
    {
        let mut v: Vec<String> = Vec::new();
        push_line(&mut v, "Failed pull recovery steps:");
        push_line(&mut v, "1. Check network connection");
        push_line(&mut v, "2. Verify authentication: auxin auth status");
        push_line(&mut v, "3. Check for local uncommitted changes: oxen status");
        push_line(&mut v, "4. Stash local changes if needed: (manual git workflow)");
        push_line(&mut v, "5. Retry pull: oxen pull origin main");
        assert(strings_view(v@) =~= pull_steps());
        v
    }

    /// The steps after a lock conflict.
    pub fn lock_conflict_recovery() -> (v: Vec<String>)
        ensures
            strings_view(v@) == lock_steps(),
    {
        let mut v: Vec<String> = Vec::new();
        push_line(&mut v, "Lock conflict recovery steps:");
        push_line(&mut v, "1. Check lock status: auxin lock status");
        push_line(&mut v, "2. Contact lock holder to request release");
        push_line(&mut v, "3. Wait for lock to expire (check expiration time)");
        push_line(&mut v, "4. If urgent and authorized: auxin lock break --force");
        let ghost before = v@;
        v.push(String::new());
        assert(strings_view(v@) =~= strings_view(before).push(Seq::empty()));
        push_line(&mut v, "⚠ WARNING: Breaking someone else's lock may cause data loss!");
        assert(strings_view(v@) =~= lock_steps());
        v
    }

    /// The steps for a named scenario: `push`, `pull` or `lock`; any other
    /// name gives the single line `Unknown scenario`.
    pub fn recovery_steps(scenario: &str) -> (v: Vec<String>)
        ensures
            strings_view(v@) == scenario_steps(scenario@),
    {
        let c = crate::text::chars_of(scenario);
        if crate::text::chars_are(&c, "push") {
            Self::failed_push_recovery()
        } else if crate::text::chars_are(&c, "pull") {
            Self::failed_pull_recovery()
        } else if crate::text::chars_are(&c, "lock") {
            Self::lock_conflict_recovery()
        } else {
            let mut v: Vec<String> = Vec::new();
            push_line(&mut v, "Unknown scenario");
            assert(strings_view(v@) =~= seq!["Unknown scenario"@]);
            v
        }
    }

    /// The recovery guide of a scenario as printed lines: its steps in a
    /// box, a bare `│` for a blank step.
    pub fn recovery_guide_lines(scenario: &str) -> (v: Vec<String>)
        ensures
            v@.len() == scenario_steps(scenario@).len() + 2,
            exists|top: Seq<char>|
                colored_as(GUIDE_TOP@, "94"@, top) && v@[0]@ == "\n"@ + top,
            exists|bottom: Seq<char>|
                colored_as(BOX_BOTTOM@, "94"@, bottom) && v@[v@.len() - 1]@ == bottom + "\n"@,
            forall|i: int|
                0 <= i < scenario_steps(scenario@).len() ==> (#[trigger] v@[i + 1])@ == (if scenario_steps(
                    scenario@,
                )[i].len() == 0 {
                    "│"@
                } else {
                    "│ "@ + scenario_steps(scenario@)[i]
                }),
    {
        let steps = Self::recovery_steps(scenario);
        let mut v: Vec<String> = Vec::new();
        let top = bright_blue(GUIDE_TOP);
        let mut first = "\n".to_owned();
        first.append(top.as_str());
        v.push(first);
        let mut i: usize = 0;
        while i < steps.len()
            invariant
                i <= steps@.len(),
                strings_view(steps@) == scenario_steps(scenario@),
                v@.len() == i + 1,
                v@[0]@ == "\n"@ + top@,
                forall|k: int|
                    0 <= k < i ==> (#[trigger] v@[k + 1])@ == (if scenario_steps(scenario@)[k].len() == 0 {
                        "│"@
                    } else {
                        "│ "@ + scenario_steps(scenario@)[k]
                    }),
            decreases steps@.len() - i,
        {
            assert(strings_view(steps@)[i as int] == steps@[i as int]@);
            if steps[i].as_str().unicode_len() == 0 {
                v.push("│".to_owned());
            } else {
                let mut l = "│ ".to_owned();
                l.append(steps[i].as_str());
                v.push(l);
            }
            i += 1;
        }
        let bottom = bright_blue(BOX_BOTTOM);
        let mut last = bottom.clone();
        last.append("\n");
        v.push(last);
        v
    }
}

/// Top of the box of the recovery guide.
pub const GUIDE_TOP: &'static str = "┌─ Recovery Guide ────────────────────────────────────────┐";

/// Bottom of the box of the recovery guide.
pub const BOX_BOTTOM: &'static str = "└──────────────────────────────────────────────────────────┘";

} // verus!

//! Collaboration features: activity kinds, and the metadata and author
//! lines that commit messages carry.
use vstd::prelude::*;
use crate::sequences::Dated;
use crate::text::{
    chars_are, chars_of, find_char, first_index_of, has_prefix_str, insert_pair, is_prefix, join_path,
    lines_of, lines_seq, pairs_view, path_join, set_pair, string_from_chars, sub_chars, trim_chars,
    trim_seq, views,
};
use crate::clock::{new_uuid, utc_now, Timestamp};
use crate::sequences::reversed;

verus! {

/// Type of activity.
#[derive(Debug, Clone, Copy, PartialEq, Eq, Structural)]
pub enum ActivityType {
    /// Commit to the repository.
    Commit,
    /// Lock acquired.
    LockAcquired,
    /// Lock released.
    LockReleased,
    /// Comment added.
    Comment,
    /// Branch created.
    BranchCreated,
}

impl ActivityType {
    /// The icon of the activity.
    pub fn icon(&self) -> (s: &'static str)
        ensures
            s@ == match *self {
                ActivityType::Commit => "●"@,
                ActivityType::LockAcquired => "🔒"@,
                ActivityType::LockReleased => "🔓"@,
                ActivityType::Comment => "💬"@,
                ActivityType::BranchCreated => "⎇"@,
            },
    {
        match self {
            ActivityType::Commit => "●",
            ActivityType::LockAcquired => "🔒",
            ActivityType::LockReleased => "🔓",
            ActivityType::Comment => "💬",
            ActivityType::BranchCreated => "⎇",
        }
    }

    /// The label of the activity.
    pub fn label(&self) -> (s: &'static str)
        ensures
            s@ == match *self {
                ActivityType::Commit => "Commit"@,
                ActivityType::LockAcquired => "Lock Acquired"@,
                ActivityType::LockReleased => "Lock Released"@,
                ActivityType::Comment => "Comment"@,
                ActivityType::BranchCreated => "Branch Created"@,
            },
    {
        match self {
            ActivityType::Commit => "Commit",
            ActivityType::LockAcquired => "Lock Acquired",
            ActivityType::LockReleased => "Lock Released",
            ActivityType::Comment => "Comment",
            ActivityType::BranchCreated => "Branch Created",
        }
    }
}

/// Activity feed of a project.
pub struct ActivityFeed {}

impl ActivityFeed {
    /// An activity feed.
    pub fn new() -> Self {
        ActivityFeed {}
    }
}

/// Discovers team members from the commit history.
pub struct TeamManager {}

impl TeamManager {
    /// A team manager.
    pub fn new() -> Self {
        TeamManager {}
    }
}

/// Manages comments on commits, stored in
/// `<repo>/.oxen/comments/<commit>.json`.
pub struct CommentManager {
    pub comments_dir: String,
}

impl CommentManager {
    /// A comment manager; comments live in `.oxen/comments`.
    pub fn new() -> (m: Self)
        ensures
            m.comments_dir@ == ".oxen/comments"@,
    {
        CommentManager { comments_dir: ".oxen/comments".to_owned() }
    }
}

/// What `char::is_uppercase` answers: whether the character has the Unicode
/// `Uppercase` property.
pub uninterp spec fn uppercase_char(c: char) -> bool;

/// `char::is_uppercase`.
#[verifier::external_body]
fn is_uppercase(c: char) -> (r: bool)
    ensures
        r == uppercase_char(c),
{
    c.is_uppercase()
}

/// Every character of the key is uppercase or a space.
pub open spec fn upper_key(k: Seq<char>) -> bool {
    forall|i: int| 0 <= i < k.len() ==> uppercase_char(#[trigger] k[i]) || k[i] == ' '
}

/// The keys known to hold metadata.
pub open spec fn known_key(k: Seq<char>) -> bool {
    k == "BPM"@ || k == "Sample Rate"@ || k == "Key"@ || k == "Tempo"@ || k == "Time Signature"@
}

/// A metadata line `Key: value`: the text before the first `:` (trimmed)
/// is the key, the text after it (trimmed) the value; the line counts only
/// if the key is in uppercase (spaces allowed) or a known key.
pub open spec fn metadata_line(line: Seq<char>) -> Option<(Seq<char>, Seq<char>)> {
    match first_index_of(line, ':') {
        Some(p) => {
            let key = trim_seq(line.take(p));
            let value = trim_seq(line.skip(p + 1));
            if upper_key(key) || known_key(key) {
                Some((key, value))
            } else {
                None
            }
        },
        None => None,
    }
}

fn upper_key_exec(k: &[char]) -> (r: bool)
    ensures
        r == upper_key(k@),
{
    let mut i: usize = 0;
    while i < k.len()
        invariant
            i <= k.len(),
            forall|j: int| 0 <= j < i ==> uppercase_char(#[trigger] k@[j]) || k@[j] == ' ',
        decreases k.len() - i,
    {
        if !(is_uppercase(k[i]) || k[i] == ' ') {
            return false;
        }
        i += 1;
    }
    true
}

/// Parses a metadata line such as `BPM: 120` into its key and value.
pub fn parse_metadata_line(line: &str) -> (r: Option<(String, String)>)
    ensures
        match metadata_line(line@) {
            Some((k, v)) => r matches Some(p) && p.0@ == k && p.1@ == v,
            None => r is None,
        },
{
    let c = chars_of(line);
    match find_char(&c, ':') {
        Some(p) => {
            let key = trim_chars(&sub_chars(&c, 0, p));
            let value = trim_chars(&sub_chars(&c, p + 1, c.len()));
            assert(c@.subrange(0, p as int) =~= c@.take(p as int));
            assert(c@.subrange(p + 1, c@.len() as int) =~= c@.skip(p + 1));
            if upper_key_exec(&key) || chars_are(&key, "BPM") || chars_are(&key, "Sample Rate")
                || chars_are(&key, "Key") || chars_are(&key, "Tempo") || chars_are(
                &key,
                "Time Signature",
            ) {
                Some((string_from_chars(&key), string_from_chars(&value)))
            } else {
                None
            }
        },
        None => None,
    }
}

/// The author of the first line that, trimmed, starts with `Author:`: the
/// rest of that line, trimmed.
pub open spec fn author_of_lines(lines: Seq<Seq<char>>) -> Option<Seq<char>>
    decreases lines.len(),
{
    if lines.len() == 0 {
        None
    } else {
        let t = trim_seq(lines[0]);
        if is_prefix("Author:"@, t) {
            Some(trim_seq(t.skip("Author:"@.len() as int)))
        } else {
            author_of_lines(lines.drop_first())
        }
    }
}

/// The author named in a commit message by an `Author:` line, if any.
pub fn extract_author_from_message(message: &str) -> (r: Option<String>)
    ensures
        match author_of_lines(lines_seq(message@)) {
            Some(a) => r matches Some(s) && s@ == a,
            None => r is None,
        },
{
    let chars = chars_of(message);
    let lines = lines_of(&chars);
    let mut i: usize = 0;
    assert(views(lines@).skip(0) =~= views(lines@));
    while i < lines.len()
        invariant
            i <= lines.len(),
            views(lines@) == lines_seq(message@),
            author_of_lines(views(lines@)) == author_of_lines(views(lines@).skip(i as int)),
        decreases lines.len() - i,
    {
        let ghost rest = views(lines@).skip(i as int);
        assert(rest[0] == lines@[i as int]@);
        assert(rest.drop_first() =~= views(lines@).skip(i + 1));
        let t = trim_chars(lines[i].as_slice());
        if has_prefix_str(&t, "Author:") {
            let n = chars_of("Author:").len();
            let rest_chars = sub_chars(&t, n, t.len());
            assert(rest_chars@ =~= t@.skip("Author:"@.len() as int));
            let a = trim_chars(&rest_chars);
            return Some(string_from_chars(&a));
        }
        i += 1;
    }
    None
}

/// A project activity (a commit, a lock, a comment, ...).
#[derive(Debug, Clone)]
pub struct Activity {
    /// Identifier (for a commit, its id).
    pub id: String,
    /// Kind of activity.
    pub activity_type: ActivityType,
    /// Who did it.
    pub author: String,
    /// When.
    pub timestamp: Timestamp,
    /// What was said about it.
    pub message: String,
    /// Metadata lines of the message (such as `BPM: 120`), as pairs with no
    /// key twice.
    pub metadata: Vec<(String, String)>,
}

/// The message and metadata of a commit message, after `lines`: each
/// trimmed line that is a metadata line sets its key (a later line wins);
/// the first other non-empty trimmed line is the message.
pub open spec fn message_parts(lines: Seq<Seq<char>>) -> (Seq<char>, Seq<(Seq<char>, Seq<char>)>)
    decreases lines.len(),
{
    if lines.len() == 0 {
        (Seq::empty(), Seq::empty())
    } else {
        let (m, md) = message_parts(lines.drop_last());
        let t = trim_seq(lines.last());
        match metadata_line(t) {
            Some((k, v)) => (m, insert_pair(md, k, v)),
            None => if t.len() > 0 && m.len() == 0 {
                (t, md)
            } else {
                (m, md)
            },
        }
    }
}

/// Whether a timestamp is at or after another.
pub open spec fn at_or_after(a: Timestamp, b: Timestamp) -> bool {
    a.secs > b.secs || (a.secs == b.secs && a.nanos >= b.nanos)
}

impl ActivityFeed {
    /// The message and metadata of a commit message (see
    /// [`message_parts`]).
    pub fn parse_commit_message(&self, full_message: &str) -> (r: (String, Vec<(String, String)>))
        ensures
            r.0@ == message_parts(lines_seq(full_message@)).0,
            pairs_view(r.1@) == message_parts(lines_seq(full_message@)).1,
    {
        let chars = chars_of(full_message);
        let lines = lines_of(&chars);
        let ghost ls = views(lines@);
        let mut message: Vec<char> = Vec::new();
        let mut metadata: Vec<(String, String)> = Vec::new();
        let mut i: usize = 0;
        assert(ls.take(0) =~= Seq::<Seq<char>>::empty());
        assert(pairs_view(metadata@) =~= Seq::<(Seq<char>, Seq<char>)>::empty());
        while i < lines.len()
            invariant
                i <= lines.len(),
                ls == views(lines@),
                (message@, pairs_view(metadata@)) == message_parts(ls.take(i as int)),
            decreases lines.len() - i,
        {
            assert(ls.take(i + 1).drop_last() =~= ls.take(i as int));
            assert(ls.take(i + 1).last() == lines@[i as int]@);
            let t = trim_chars(lines[i].as_slice());
            let ts = string_from_chars(&t);
            match parse_metadata_line(ts.as_str()) {
                Some((k, v)) => {
                    set_pair(&mut metadata, k.as_str(), v.as_str());
                },
                None => {
                    if t.len() > 0 && message.len() == 0 {
                        message = t;
                    }
                },
            }
            i += 1;
        }
        assert(ls.take(lines.len() as int) =~= ls);
        (string_from_chars(&message), metadata)
    }

    /// The activity of a commit with this id and message: its message and
    /// metadata, and the author named by an `Author:` line (`unknown` when
    /// there is none), stamped now.
    pub fn commit_to_activity(&self, commit_id: &str, commit_message: &str) -> (a: Activity)
        ensures
            a.id@ == commit_id@,
            a.activity_type == ActivityType::Commit,
            a.author@ == match author_of_lines(lines_seq(commit_message@)) {
                Some(name) => name,
                None => "unknown"@,
            },
            a.message@ == message_parts(lines_seq(commit_message@)).0,
            pairs_view(a.metadata@) == message_parts(lines_seq(commit_message@)).1,
    {
        let (message, metadata) = self.parse_commit_message(commit_message);
        let author = match extract_author_from_message(commit_message) {
            Some(name) => name,
            None => "unknown".to_owned(),
        };
        Activity {
            id: commit_id.to_owned(),
            activity_type: ActivityType::Commit,
            author,
            timestamp: utc_now(),
            message,
            metadata,
        }
    }

    /// The activities at or after `since`, in order.
    pub fn get_activity_since(activities: Vec<Activity>, since: Timestamp) -> (r: Vec<Activity>)
        ensures
            r@ == activities@.filter(|a: Activity| at_or_after(a.timestamp, since)),
    {
        let ghost p = |a: Activity| at_or_after(a.timestamp, since);
        let ghost s = activities@;
        let n = activities.len();
        let mut rest = reversed(activities);
        let mut out: Vec<Activity> = Vec::new();
        let mut i: usize = 0;
        assert(s.take(0) =~= Seq::<Activity>::empty());
        while rest.len() > 0
            invariant
                n == s.len(),
                rest@.len() + i == s.len(),
                forall|j: int| 0 <= j < rest@.len() ==> rest@[j] == s[s.len() - 1 - j],
                out@ == s.take(i as int).filter(p),
                p == (|a: Activity| at_or_after(a.timestamp, since)),
            decreases rest@.len(),
        {
            match rest.pop() {
                Some(x) => {
                    assert(x == s[i as int]);
                    assert(s.take(i + 1).drop_last() =~= s.take(i as int));
                    assert(s.take(i + 1).last() == x);
                    assert(s.take(i + 1).filter(p) == if p(x) {
                        s.take(i as int).filter(p).push(x)
                    } else {
                        s.take(i as int).filter(p)
                    }) by {
                        reveal(Seq::filter);
                    }
                    if x.timestamp.secs > since.secs || (x.timestamp.secs == since.secs && x.timestamp.nanos >= since.nanos) {
                        out.push(x);
                    }
                    i += 1;
                },
                None => {},
            }
        }
        assert(s.take(s.len() as int) =~= s);
        out
    }
}

/// A team member working on the project.
#[derive(Debug, Clone)]
pub struct TeamMember {
    /// Member name (`user@host`).
    pub name: String,
    /// Number of commits.
    pub commit_count: usize,
    /// Last activity.
    pub last_active: Timestamp,
}

/// A comment on a commit.
#[derive(Debug, Clone)]
pub struct Comment {
    /// Comment id.
    pub id: String,
    /// The commit it is on.
    pub commit_id: String,
    /// Its author.
    pub author: String,
    /// Its text.
    pub text: String,
    /// When it was written.
    pub created_at: Timestamp,
}

/// Comments are listed by when they were written (newest first, with
/// [`newest_first`](crate::sequences::newest_first)).
impl Dated for Comment {
    open spec fn date(&self) -> Timestamp {
        self.created_at
    }

    fn date_of(&self) -> (t: Timestamp) {
        self.created_at
    }
}

impl CommentManager {
    /// A new comment on `commit_id` by `author`, with a fresh id, now.
    pub fn new_comment(&self, commit_id: &str, author: &str, text: &str) -> (c: Comment)
        ensures
            c.commit_id@ == commit_id@,
            c.author@ == author@,
            c.text@ == text@,
            c.id@.len() == 36,
    {
        Comment {
            id: new_uuid(),
            commit_id: commit_id.to_owned(),
            author: author.to_owned(),
            text: text.to_owned(),
            created_at: utc_now(),
        }
    }

    /// The file that holds the comments on `commit_id` in the repository at
    /// `repo_path`: `<repo>/<comments dir>/<commit>.json`.
    pub fn comment_file(&self, repo_path: &str, commit_id: &str) -> (p: String)
        ensures
            p@ == path_join(path_join(repo_path@, self.comments_dir@), commit_id@ + ".json"@),
    {
        let d = join_path(repo_path, self.comments_dir.as_str());
        let mut f = commit_id.to_owned();
        f.append(".json");
        join_path(d.as_str(), f.as_str())
    }
}

} // verus!

verus! {

/// The authors named by a sequence of commit messages, in order; a message
/// without an `Author:` line names none.
pub open spec fn authors_of(messages: Seq<Seq<char>>) -> Seq<Seq<char>>
    decreases messages.len(),
{
    if messages.len() == 0 {
        Seq::empty()
    } else {
        let rest = authors_of(messages.drop_last());
        match author_of_lines(lines_seq(messages.last())) {
            Some(a) => rest.push(a),
            None => rest,
        }
    }
}

/// The name and commit count of each member.
pub open spec fn members_view(v: Seq<TeamMember>) -> Seq<(Seq<char>, nat)> {
    v.map_values(|m: TeamMember| (m.name@, m.commit_count as nat))
}

/// A list of (name, count) pairs tallies `authors`: no name twice, each
/// count the number of times its name occurs, and every author listed.
#[verifier::opaque]
pub open spec fn tallies(t: Seq<(Seq<char>, nat)>, authors: Seq<Seq<char>>) -> bool {
    &&& forall|i: int, j: int| 0 <= i < j < t.len() ==> t[i].0 != t[j].0
    &&& forall|i: int| 0 <= i < t.len() ==> #[trigger] t[i].1 == authors.to_multiset().count(t[i].0)
    &&& forall|a: Seq<char>| #[trigger] authors.contains(a) ==> exists|i: int| 0 <= i < t.len() && t[i].0 == a
    &&& forall|i: int| 0 <= i < t.len() ==> #[trigger] authors.contains(t[i].0)
}

/// Counts never increase along the list: most active first.
pub open spec fn most_active_first(t: Seq<(Seq<char>, nat)>) -> bool {
    forall|i: int, j: int| 0 <= i < j < t.len() ==> t[i].1 >= t[j].1
}

pub open spec fn tally_view(v: Seq<(String, usize)>) -> Seq<(Seq<char>, nat)> {
    v.map_values(|p: (String, usize)| (p.0@, p.1 as nat))
}

fn tally_authors(messages: &Vec<String>) -> (t: Vec<(String, usize)>)
    ensures
        tallies(tally_view(t@), authors_of(messages@.map_values(|m: String| m@))),
{
    proof {
        reveal(tallies);
    }
    let ghost msgs = messages@.map_values(|m: String| m@);
    let mut t: Vec<(String, usize)> = Vec::new();
    let mut i: usize = 0;
    assert(msgs.take(0) =~= Seq::<Seq<char>>::empty());
    while i < messages.len()
        invariant
            i <= messages.len(),
            msgs == messages@.map_values(|m: String| m@),
            tallies(tally_view(t@), authors_of(msgs.take(i as int))),
            authors_of(msgs.take(i as int)).len() <= i,
        decreases messages.len() - i,
    {
        proof {
            reveal(tallies);
        }
        let ghost before = authors_of(msgs.take(i as int));
        assert(msgs.take(i + 1).drop_last() =~= msgs.take(i as int));
        assert(msgs.take(i + 1).last() == messages@[i as int]@);
        let author = extract_author_from_message(messages[i].as_str());
        match author {
            Some(a) => {
                let ghost after = before.push(a@);
                proof {
                    before.to_multiset_ensures();
                }
                assert(authors_of(msgs.take(i + 1)) == after);
                assert(before.push(a@).to_multiset() =~= before.to_multiset().insert(a@));
                let mut j: usize = 0;
                let mut found = false;
                while j < t.len() && !found
                    invariant
                        j <= t.len(),
                        found ==> j < t.len() && t@[j as int].0@ == a@,
                        !found ==> forall|k: int| 0 <= k < j ==> t@[k].0@ != a@,
                    decreases t.len() - j + (if found { 0int } else { 1int }),
                {
                    if t[j].0 == a {
                        found = true;
                    } else {
                        j += 1;
                    }
                }
                let ghost old_t = tally_view(t@);
                if found {
                    assert(old_t[j as int].0 == a@);
                    assert(old_t[j as int].1 == before.to_multiset().count(a@));
                    assert(before.to_multiset().count(a@) <= before.len()) by {
                        assert(before.to_multiset().len() == before.len());
                        assert(before.to_multiset().count(a@) <= before.to_multiset().len());
                    }
                    let c = t[j].1;
                    let name = t[j].0.clone();
                    t.set(j, (name, c + 1));
                    assert forall|k: int| 0 <= k < tally_view(t@).len() implies #[trigger] tally_view(t@)[k].1
                        == after.to_multiset().count(tally_view(t@)[k].0) by {
                        if k != j {
                            assert(tally_view(t@)[k] == old_t[k]);
                            if k < j {
                                assert(old_t[k].0 != old_t[j as int].0);
                            } else {
                                assert(old_t[j as int].0 != old_t[k].0);
                            }
                        }
                    }
                    assert forall|k1: int, k2: int| 0 <= k1 < k2 < tally_view(t@).len() implies tally_view(t@)[k1].0
                        != tally_view(t@)[k2].0 by {
                        assert(tally_view(t@)[k1].0 == old_t[k1].0);
                        assert(tally_view(t@)[k2].0 == old_t[k2].0);
                    }
                    assert forall|a2: Seq<char>| #[trigger] after.contains(a2) implies exists|k: int|
                        0 <= k < tally_view(t@).len() && tally_view(t@)[k].0 == a2 by {
                        if a2 == a@ {
                            assert(tally_view(t@)[j as int].0 == a2);
                        } else {
                            assert(before.contains(a2)) by {
                                let k = choose|k: int| 0 <= k < after.len() && after[k] == a2;
                                assert(before[k] == a2);
                            }
                            let k = choose|k: int| 0 <= k < old_t.len() && old_t[k].0 == a2;
                            assert(tally_view(t@)[k].0 == a2);
                        }
                    }
                    assert forall|k: int| 0 <= k < tally_view(t@).len() implies #[trigger] after.contains(tally_view(t@)[k].0) by {
                        assert(before.contains(old_t[k].0));
                        let m = choose|m: int| 0 <= m < before.len() && before[m] == old_t[k].0;
                        assert(after[m] == old_t[k].0);
                    }
                } else {
                    let ghost old_vec = t@;
                    assert(forall|k: int| 0 <= k < old_vec.len() ==> old_vec[k].0@ != a@);
                    t.push((a, 1));
                    assert(!before.contains(a@)) by {
                        if before.contains(a@) {
                            let k = choose|k: int| 0 <= k < old_t.len() && old_t[k].0 == a@;
                            assert(old_t[k].0 == t@[k].0@);
                        }
                    }
                    assert(before.to_multiset().count(a@) == 0);
                    assert forall|k: int| 0 <= k < tally_view(t@).len() implies #[trigger] tally_view(t@)[k].1
                        == after.to_multiset().count(tally_view(t@)[k].0) by {
                        if k < old_t.len() {
                            assert(tally_view(t@)[k] == old_t[k]);
                            assert(old_t[k].0 == t@[k].0@);
                        }
                    }
                    assert forall|k1: int, k2: int| 0 <= k1 < k2 < tally_view(t@).len() implies tally_view(t@)[k1].0
                        != tally_view(t@)[k2].0 by {
                        assert(tally_view(t@)[k1].0 == t@[k1].0@);
                        assert(tally_view(t@)[k2].0 == t@[k2].0@);
                        assert(t@[k1] == old_vec[k1]);
                        if k2 < old_vec.len() {
                            assert(t@[k2] == old_vec[k2]);
                            assert(old_t[k1].0 != old_t[k2].0);
                        } else {
                            assert(t@[k2].0@ == a@);
                            assert(old_vec[k1].0@ != a@);
                        }
                    }
                    assert forall|a2: Seq<char>| #[trigger] after.contains(a2) implies exists|k: int|
                        0 <= k < tally_view(t@).len() && tally_view(t@)[k].0 == a2 by {
                        if a2 == a@ {
                            assert(tally_view(t@)[old_t.len() as int].0 == a2);
                        } else {
                            assert(before.contains(a2)) by {
                                let k = choose|k: int| 0 <= k < after.len() && after[k] == a2;
                                assert(before[k] == a2);
                            }
                            let k = choose|k: int| 0 <= k < old_t.len() && old_t[k].0 == a2;
                            assert(tally_view(t@)[k].0 == a2);
                        }
                    }
                    assert forall|k: int| 0 <= k < tally_view(t@).len() implies #[trigger] after.contains(tally_view(t@)[k].0) by {
                        if k < old_t.len() {
                            assert(before.contains(old_t[k].0));
                            let m = choose|m: int| 0 <= m < before.len() && before[m] == old_t[k].0;
                            assert(after[m] == old_t[k].0);
                        } else {
                            assert(after[before.len() as int] == a@);
                        }
                    }
                }
            },
            None => {
                assert(authors_of(msgs.take(i + 1)) == before);
            },
        }
        i += 1;
    }
    assert(msgs.take(messages.len() as int) =~= msgs);
    t
}

} // verus!

verus! {

/// Every name of `mv` is the name of one of the first `k` entries of `tv`.
#[verifier::opaque]
pub open spec fn names_within(mv: Seq<(Seq<char>, nat)>, tv: Seq<(Seq<char>, nat)>, k: int) -> bool {
    forall|i: int| 0 <= i < mv.len() ==> exists|m: int| 0 <= m < k && tv[m].0 == (#[trigger] mv[i]).0
}

/// `n` is the name of an entry of `mv`.
pub open spec fn has_name(mv: Seq<(Seq<char>, nat)>, n: Seq<char>) -> bool {
    exists|i: int| 0 <= i < mv.len() && (#[trigger] mv[i]).0 == n
}

/// The name of each of the first `k` entries of `tv` is a name of `mv`.
#[verifier::opaque]
pub open spec fn names_cover(mv: Seq<(Seq<char>, nat)>, tv: Seq<(Seq<char>, nat)>, k: int) -> bool {
    forall|m: int| 0 <= m < k ==> has_name(mv, #[trigger] tv[m].0)
}

/// `mv` lists, most active first and each once, the members of the first
/// `k` entries of the tally `tv` of `authors`.
#[verifier::opaque]
pub open spec fn sorted_prefix(
    mv: Seq<(Seq<char>, nat)>,
    tv: Seq<(Seq<char>, nat)>,
    k: int,
    authors: Seq<Seq<char>>,
) -> bool {
    &&& most_active_first(mv)
    &&& forall|i1: int, i2: int| 0 <= i1 < i2 < mv.len() ==> mv[i1].0 != mv[i2].0
    &&& names_within(mv, tv, k)
    &&& names_cover(mv, tv, k)
    &&& forall|i: int| 0 <= i < mv.len() ==> (#[trigger] mv[i]).1 == authors.to_multiset().count(mv[i].0)
}

proof fn lemma_insert_keeps_order(mv: Seq<(Seq<char>, nat)>, p: int, e: (Seq<char>, nat))
    requires
        most_active_first(mv),
        0 <= p <= mv.len(),
        forall|i: int| 0 <= i < p ==> (#[trigger] mv[i]).1 >= e.1,
        forall|i: int| p <= i < mv.len() ==> (#[trigger] mv[i]).1 < e.1,
    ensures
        most_active_first(mv.insert(p, e)),
{
    let out = mv.insert(p, e);
    assert forall|i1: int, i2: int| 0 <= i1 < i2 < out.len() implies out[i1].1 >= out[i2].1 by {
        if i2 < p {
            assert(mv[i1].1 >= mv[i2].1);
        } else if i1 > p {
            assert(mv[i1 - 1].1 >= mv[i2 - 1].1);
        } else if i1 < p && i2 > p {
            assert(mv[i1].1 >= mv[i2 - 1].1);
        } else if i1 == p {
            assert(mv[i2 - 1].1 < e.1);
        } else {
            assert(mv[i1].1 >= e.1);
        }
    }
}

proof fn lemma_insert_keeps_distinct(mv: Seq<(Seq<char>, nat)>, p: int, e: (Seq<char>, nat))
    requires
        forall|i1: int, i2: int| 0 <= i1 < i2 < mv.len() ==> mv[i1].0 != mv[i2].0,
        0 <= p <= mv.len(),
        forall|i: int| 0 <= i < mv.len() ==> (#[trigger] mv[i]).0 != e.0,
    ensures
        forall|i1: int, i2: int|
            0 <= i1 < i2 < mv.insert(p, e).len() ==> mv.insert(p, e)[i1].0 != mv.insert(p, e)[i2].0,
{
    let out = mv.insert(p, e);
    assert forall|i1: int, i2: int| 0 <= i1 < i2 < out.len() implies out[i1].0 != out[i2].0 by {
        if i2 < p {
        } else if i1 > p {
            assert(mv[i1 - 1].0 != mv[i2 - 1].0);
        } else if i1 == p {
            assert(mv[i2 - 1].0 != e.0);
        } else if i2 == p {
            assert(mv[i1].0 != e.0);
        } else {
            assert(mv[i1].0 != mv[i2 - 1].0);
        }
    }
}

proof fn lemma_insert_names_within(mv: Seq<(Seq<char>, nat)>, tv: Seq<(Seq<char>, nat)>, k: int, p: int)
    requires
        0 <= k < tv.len(),
        0 <= p <= mv.len(),
        names_within(mv, tv, k),
    ensures
        names_within(mv.insert(p, tv[k]), tv, k + 1),
{
    reveal(names_within);
    let out = mv.insert(p, tv[k]);
    assert forall|i: int| 0 <= i < out.len() implies exists|m: int| 0 <= m < k + 1 && tv[m].0
        == (#[trigger] out[i]).0 by {
        if i < p {
            assert(out[i] == mv[i]);
            let m = choose|m: int| 0 <= m < k && tv[m].0 == mv[i].0;
        } else if i > p {
            assert(out[i] == mv[i - 1]);
            let m = choose|m: int| 0 <= m < k && tv[m].0 == mv[i - 1].0;
        } else {
            assert(tv[k].0 == out[i].0);
        }
    }
}

proof fn lemma_insert_names_cover(mv: Seq<(Seq<char>, nat)>, tv: Seq<(Seq<char>, nat)>, k: int, p: int)
    requires
        0 <= k < tv.len(),
        0 <= p <= mv.len(),
        names_cover(mv, tv, k),
    ensures
        names_cover(mv.insert(p, tv[k]), tv, k + 1),
{
    reveal(names_cover);
    let out = mv.insert(p, tv[k]);
    assert forall|m: int| 0 <= m < k + 1 implies has_name(out, #[trigger] tv[m].0) by {
        if m < k {
            assert(has_name(mv, tv[m].0));
            let i = choose|i: int| 0 <= i < mv.len() && mv[i].0 == tv[m].0;
            if i < p {
                assert(out[i] == mv[i]);
            } else {
                assert(out[i + 1] == mv[i]);
            }
        } else {
            assert(out[p].0 == tv[m].0);
        }
    }
}

proof fn lemma_insert_counts(
    mv: Seq<(Seq<char>, nat)>,
    e: (Seq<char>, nat),
    p: int,
    authors: Seq<Seq<char>>,
)
    requires
        0 <= p <= mv.len(),
        forall|i: int| 0 <= i < mv.len() ==> (#[trigger] mv[i]).1 == authors.to_multiset().count(mv[i].0),
        e.1 == authors.to_multiset().count(e.0),
    ensures
        forall|i: int|
            0 <= i < mv.insert(p, e).len() ==> (#[trigger] mv.insert(p, e)[i]).1
                == authors.to_multiset().count(mv.insert(p, e)[i].0),
{
    let out = mv.insert(p, e);
    assert forall|i: int| 0 <= i < out.len() implies (#[trigger] out[i]).1
        == authors.to_multiset().count(out[i].0) by {
        if i < p {
            assert(out[i] == mv[i]);
        } else if i > p {
            assert(out[i] == mv[i - 1]);
        }
    }
}

proof fn lemma_insert_member(
    mv: Seq<(Seq<char>, nat)>,
    tv: Seq<(Seq<char>, nat)>,
    k: int,
    authors: Seq<Seq<char>>,
    p: int,
)
    requires
        0 <= k < tv.len(),
        tallies(tv, authors),
        sorted_prefix(mv, tv, k, authors),
        0 <= p <= mv.len(),
        forall|i: int| 0 <= i < p ==> (#[trigger] mv[i]).1 >= tv[k].1,
        p < mv.len() ==> mv[p].1 < tv[k].1,
    ensures
        sorted_prefix(mv.insert(p, tv[k]), tv, k + 1, authors),
{
    reveal(tallies);
    reveal(sorted_prefix);
    reveal(names_within);
    let e = tv[k];
    assert forall|i: int| 0 <= i < mv.len() implies (#[trigger] mv[i]).0 != e.0 by {
        let m = choose|m: int| 0 <= m < k && tv[m].0 == mv[i].0;
        assert(tv[m].0 != tv[k].0);
    }
    assert forall|i: int| p <= i < mv.len() implies (#[trigger] mv[i]).1 < e.1 by {
        assert(mv[p].1 >= mv[i].1);
    }
    lemma_insert_keeps_order(mv, p, e);
    lemma_insert_keeps_distinct(mv, p, e);
    lemma_insert_names_within(mv, tv, k, p);
    lemma_insert_names_cover(mv, tv, k, p);
    lemma_insert_counts(mv, e, p, authors);
}

impl TeamManager {
    /// The team members named in commit messages: one per author of an
    /// `Author:` line, with the number of messages that name them, most
    /// active first; `now` stands as each one's last activity.
    pub fn discover_team_members(&self, messages: &Vec<String>, now: Timestamp) -> (r: Vec<TeamMember>)
        ensures
            tallies(members_view(r@), authors_of(messages@.map_values(|m: String| m@))),
            most_active_first(members_view(r@)),
            forall|i: int| 0 <= i < r@.len() ==> (#[trigger] r@[i]).last_active == now,
    {
        let ghost authors = authors_of(messages@.map_values(|m: String| m@));
        let t = tally_authors(messages);
        let ghost tv = tally_view(t@);
        let mut out: Vec<TeamMember> = Vec::new();
        let mut k: usize = 0;
        assert(sorted_prefix(members_view(out@), tv, 0, authors)) by {
            reveal(sorted_prefix);
            reveal(names_within);
            reveal(names_cover);
        }
        while k < t.len()
            invariant
                k <= t.len(),
                tv == tally_view(t@),
                tallies(tv, authors),
                sorted_prefix(members_view(out@), tv, k as int, authors),
                forall|i: int| 0 <= i < out@.len() ==> (#[trigger] out@[i]).last_active == now,
            decreases t.len() - k,
        {
            let c = t[k].1;
            let name = t[k].0.clone();
            assert(tv[k as int] == (name@, c as nat));
            let mut p: usize = 0;
            while p < out.len() && out[p].commit_count >= c
                invariant
                    p <= out@.len(),
                    forall|i: int| 0 <= i < p ==> (#[trigger] out@[i]).commit_count >= c,
                decreases out@.len() - p,
            {
                p += 1;
            }
            let ghost before = out@;
            proof {
                assert forall|i: int| 0 <= i < p implies (#[trigger] members_view(before)[i]).1 >= tv[k as int].1 by {
                    assert(before[i].commit_count >= c);
                }
                lemma_insert_member(members_view(before), tv, k as int, authors, p as int);
            }
            out.insert(p, TeamMember { name, commit_count: c, last_active: now });
            assert(members_view(out@) =~= members_view(before).insert(p as int, tv[k as int]));
            k += 1;
        }
        proof {
            reveal(tallies);
            reveal(sorted_prefix);
            reveal(names_within);
            reveal(names_cover);
            let mv = members_view(out@);
            assert forall|a: Seq<char>| #[trigger] authors.contains(a) implies exists|i: int|
                0 <= i < mv.len() && mv[i].0 == a by {
                let m = choose|m: int| 0 <= m < tv.len() && tv[m].0 == a;
                let i = choose|i: int| 0 <= i < mv.len() && mv[i].0 == tv[m].0;
            }
            assert forall|i: int| 0 <= i < mv.len() implies #[trigger] authors.contains(mv[i].0) by {
                let m = choose|m: int| 0 <= m < tv.len() && tv[m].0 == mv[i].0;
                assert(authors.contains(tv[m].0));
            }
        }
        out
    }
}

} // verus!

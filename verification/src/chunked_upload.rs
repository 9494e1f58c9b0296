//! Settings and states of chunked uploads.
use vstd::prelude::*;
use crate::text::{
    chars_of, decimal, extend_str, has_prefix_str, is_prefix, join_path, lines_of, lines_seq,
    path_join, push_decimal, split_chars, split_on, string_from_chars, trim_chars, trim_seq, views,
    strings_view,
};
use crate::clock::{new_uuid, utc_now, Timestamp};
use crate::config::home_dir;
use crate::printed_numbers::{
    hundredths_text, lemma_quotient_fits, push_hundredths, push_tenths, round_printed, rounded_printed, tenths_text,
};
use vstd::string::StringSliceAdditionalSpecFns;
use std::time::Duration;

verus! {

/// Chunk size for tracking large files (100 MB).
pub const DEFAULT_CHUNK_SIZE: u64 = 104857600;

/// Minimum file size to enable chunked tracking (50 MB).
pub const MIN_CHUNKED_SIZE: u64 = 52428800;

/// Directory of upload state, under the home directory.
pub open spec fn default_state_dir_name() -> Seq<char> {
    ".auxin/uploads"@
}

/// Configuration of chunked uploads.
#[derive(Debug, Clone)]
pub struct UploadConfig {
    /// Chunk size in bytes for progress tracking.
    pub chunk_size: u64,
    /// Minimum file size to enable chunked tracking.
    pub min_chunked_size: u64,
    /// Directory of the upload state.
    pub state_dir: String,
    /// Maximum retries per chunk.
    pub max_retries: u32,
    /// Verbose logging.
    pub verbose: bool,
}

impl UploadConfig {
    /// The default configuration for the given home directory (the current
    /// directory when there is none).
    pub fn default_for_home(home: Option<&str>) -> (c: Self)
        ensures
            c.chunk_size == DEFAULT_CHUNK_SIZE,
            c.min_chunked_size == MIN_CHUNKED_SIZE,
            c.max_retries == 3,
            !c.verbose,
            c.state_dir@ == path_join(
                match home {
                    Some(h) => h@,
                    None => "."@,
                },
                default_state_dir_name(),
            ),
    {
        let base = match home {
            Some(h) => h,
            None => ".",
        };
        UploadConfig {
            chunk_size: DEFAULT_CHUNK_SIZE,
            min_chunked_size: MIN_CHUNKED_SIZE,
            state_dir: join_path(base, ".auxin/uploads"),
            max_retries: 3,
            verbose: false,
        }
    }
}

impl Default for UploadConfig {
    /// The default configuration under the current user's home directory.
    fn default() -> (c: Self)
        ensures
            c.chunk_size == DEFAULT_CHUNK_SIZE,
            c.min_chunked_size == MIN_CHUNKED_SIZE,
            c.max_retries == 3,
            !c.verbose,
            exists|home: Seq<char>| c.state_dir@ == path_join(home, default_state_dir_name()),
    {
        let h = home_dir();
        match h {
            Some(home) => Self::default_for_home(Some(home.as_str())),
            None => Self::default_for_home(None),
        }
    }
}

/// `format!("{:x}", md5::compute(data))`, named: the MD5 digest of the
/// bytes, in lowercase hexadecimal.
pub uninterp spec fn md5_hex(data: Seq<u8>) -> Seq<char>;

/// The MD5 digest of `data` in lowercase hexadecimal: two digits for each
/// of its sixteen bytes.
#[verifier::external_body]
fn md5_hex_of(data: &[u8]) -> (s: String)
    ensures
        s@ == md5_hex(data@),
        s@.len() == 32,
{
    format!("{:x}", md5::compute(data))
}

impl UploadConfig {
    /// The file that keeps the upload session of the repository at
    /// `repo_path`: named after the MD5 digest of the path, under the state
    /// directory.
    pub fn session_file_path(&self, repo_path: &str) -> (p: String)
        ensures
            p@ == path_join(self.state_dir@, md5_hex(repo_path.spec_bytes()) + ".json"@),
    {
        let mut name = md5_hex_of(repo_path.as_bytes());
        name.append(".json");
        join_path(self.state_dir.as_str(), name.as_str())
    }
}

/// Status of an upload.
#[derive(Debug, Clone, Copy, PartialEq, Eq, Structural)]
pub enum UploadStatus {
    /// Upload pending.
    Pending,
    /// Upload in progress.
    InProgress,
    /// Upload completed successfully.
    Completed,
    /// Upload failed.
    Failed,
    /// Upload aborted by user.
    Aborted,
}

} // verus!

verus! {

/// State of the upload of one file.
#[derive(Debug, Clone)]
pub struct FileUploadState {
    /// Path relative to the repository.
    pub path: String,
    pub size: u64,
    pub bytes_uploaded: u64,
    pub status: UploadStatus,
    pub last_error: Option<String>,
    pub started_at: Timestamp,
    pub last_activity: Timestamp,
}

/// State of an upload session. The bandwidth samples, which are floating
/// point, are kept beside it by the front end.
#[derive(Debug, Clone)]
pub struct UploadSession {
    pub id: String,
    pub repo_path: String,
    pub remote: String,
    pub branch: String,
    pub files: Vec<FileUploadState>,
    pub total_bytes: u64,
    pub bytes_uploaded: u64,
    pub started_at: Timestamp,
    pub last_activity: Timestamp,
    pub status: UploadStatus,
}

/// The number of files in `files` with status `s`.
pub open spec fn count_status(files: Seq<FileUploadState>, s: UploadStatus) -> nat
    decreases files.len(),
{
    if files.len() == 0 {
        0
    } else {
        count_status(files.drop_last(), s) + if files.last().status == s {
            1nat
        } else {
            0nat
        }
    }
}

/// The position of the first file with status `s`.
pub open spec fn first_with_status(files: Seq<FileUploadState>, s: UploadStatus) -> Option<int>
    decreases files.len(),
{
    if files.len() == 0 {
        None
    } else if files[0].status == s {
        Some(0)
    } else {
        match first_with_status(files.drop_first(), s) {
            Some(i) => Some(i + 1),
            None => None,
        }
    }
}

impl UploadSession {
    /// A new, pending session with no files, made now with a fresh id.
    pub fn new(repo_path: &str, remote: &str, branch: &str) -> (s: Self)
        ensures
            s.id@.len() == 36,
            s.repo_path@ == repo_path@,
            s.remote@ == remote@,
            s.branch@ == branch@,
            s.files@.len() == 0,
            s.total_bytes == 0,
            s.bytes_uploaded == 0,
            s.started_at == s.last_activity,
            s.status == UploadStatus::Pending,
    {
        let now = utc_now();
        UploadSession {
            id: new_uuid(),
            repo_path: repo_path.to_owned(),
            remote: remote.to_owned(),
            branch: branch.to_owned(),
            files: Vec::new(),
            total_bytes: 0,
            bytes_uploaded: 0,
            started_at: now,
            last_activity: now,
            status: UploadStatus::Pending,
        }
    }

    /// Whether a saved session is taken up again for an upload to `remote`
    /// and `branch`: the same remote and branch, and not completed.
    pub fn resumes(&self, remote: &str, branch: &str) -> (r: bool)
        ensures
            r == (self.remote@ == remote@ && self.branch@ == branch@ && self.status
                != UploadStatus::Completed),
    {
        let a = chars_of(self.remote.as_str());
        let b = chars_of(remote);
        let c = chars_of(self.branch.as_str());
        let d = chars_of(branch);
        crate::text::chars_eq(&a, &b) && crate::text::chars_eq(&c, &d) && self.status
            != UploadStatus::Completed
    }

    /// Whether a saved session can be resumed: it is not completed.
    pub fn is_resumable(&self) -> (r: bool)
        ensures
            r == (self.status != UploadStatus::Completed),
    {
        self.status != UploadStatus::Completed
    }

    /// The number of completed files.
    pub fn files_completed(&self) -> (n: usize)
        ensures
            n == count_status(self.files@, UploadStatus::Completed),
    {
        let mut n: usize = 0;
        let mut i: usize = 0;
        assert(self.files@.take(0) =~= Seq::<FileUploadState>::empty());
        while i < self.files.len()
            invariant
                i <= self.files@.len(),
                n == count_status(self.files@.take(i as int), UploadStatus::Completed),
                n <= i,
            decreases self.files@.len() - i,
        {
            assert(self.files@.take(i + 1).drop_last() =~= self.files@.take(i as int));
            if self.files[i].status == UploadStatus::Completed {
                n += 1;
            }
            i += 1;
        }
        assert(self.files@.take(self.files@.len() as int) =~= self.files@);
        n
    }

    /// The path of the first file in progress, if any.
    pub fn current_file(&self) -> (r: Option<String>)
        ensures
            match first_with_status(self.files@, UploadStatus::InProgress) {
                Some(i) => r matches Some(p) && p@ == self.files@[i].path@,
                None => r is None,
            },
    {
        let mut i: usize = 0;
        assert(self.files@.skip(0) =~= self.files@);
        while i < self.files.len()
            invariant
                i <= self.files@.len(),
                match first_with_status(self.files@, UploadStatus::InProgress) {
                    Some(k) => match first_with_status(self.files@.skip(i as int), UploadStatus::InProgress) {
                        Some(j) => k == i + j,
                        None => false,
                    },
                    None => first_with_status(self.files@.skip(i as int), UploadStatus::InProgress) is None,
                },
            decreases self.files@.len() - i,
        {
            assert(self.files@.skip(i as int)[0] == self.files@[i as int]);
            assert(self.files@.skip(i as int).drop_first() =~= self.files@.skip(i + 1));
            if self.files[i].status == UploadStatus::InProgress {
                return Some(self.files[i].path.clone());
            }
            i += 1;
        }
        None
    }

    /// Stops the session: aborted, active at `now`, and each file in
    /// progress aborted too.
    pub fn abort(&mut self, now: Timestamp)
        ensures
            final(self).status == UploadStatus::Aborted,
            final(self).last_activity == now,
            final(self).files@.len() == old(self).files@.len(),
            forall|i: int|
                0 <= i < old(self).files@.len() ==> {
                    let f = old(self).files@[i];
                    let g = #[trigger] final(self).files@[i];
                    &&& g.status == (if f.status == UploadStatus::InProgress {
                        UploadStatus::Aborted
                    } else {
                        f.status
                    })
                    &&& g.path == f.path && g.size == f.size && g.bytes_uploaded == f.bytes_uploaded
                    &&& g.last_error == f.last_error && g.started_at == f.started_at
                    &&& g.last_activity == f.last_activity
                },
            final(self).id == old(self).id,
            final(self).repo_path == old(self).repo_path,
            final(self).remote == old(self).remote,
            final(self).branch == old(self).branch,
            final(self).total_bytes == old(self).total_bytes,
            final(self).bytes_uploaded == old(self).bytes_uploaded,
            final(self).started_at == old(self).started_at,
    {
        self.status = UploadStatus::Aborted;
        self.last_activity = now;
        let ghost before = self.files@;
        let mut i: usize = 0;
        while i < self.files.len()
            invariant
                i <= self.files@.len(),
                self.files@.len() == before.len(),
                before == old(self).files@,
                self.status == UploadStatus::Aborted,
                self.last_activity == now,
                self.id == old(self).id,
                self.repo_path == old(self).repo_path,
                self.remote == old(self).remote,
                self.branch == old(self).branch,
                self.total_bytes == old(self).total_bytes,
                self.bytes_uploaded == old(self).bytes_uploaded,
                self.started_at == old(self).started_at,
                forall|k: int|
                    0 <= k < before.len() ==> {
                        let f = before[k];
                        let g = #[trigger] self.files@[k];
                        &&& g.status == (if k < i && f.status == UploadStatus::InProgress {
                            UploadStatus::Aborted
                        } else {
                            f.status
                        })
                        &&& g.path == f.path && g.size == f.size && g.bytes_uploaded == f.bytes_uploaded
                        &&& g.last_error == f.last_error && g.started_at == f.started_at
                        &&& g.last_activity == f.last_activity
                    },
            decreases self.files@.len() - i,
        {
            if self.files[i].status == UploadStatus::InProgress {
                self.files[i].status = UploadStatus::Aborted;
            }
            i += 1;
        }
    }

    /// After a failed push with this error message: the session failed,
    /// active at `now`, and each file in progress failed with the message.
    pub fn fail(&mut self, error: &str, now: Timestamp)
        ensures
            final(self).status == UploadStatus::Failed,
            final(self).last_activity == now,
            final(self).files@.len() == old(self).files@.len(),
            forall|i: int|
                0 <= i < old(self).files@.len() ==> {
                    let f = old(self).files@[i];
                    let g = #[trigger] final(self).files@[i];
                    &&& (f.status == UploadStatus::InProgress ==> (g.status == UploadStatus::Failed
                        && (g.last_error matches Some(e) && e@ == error@)))
                    &&& (f.status != UploadStatus::InProgress ==> g.status == f.status
                        && g.last_error == f.last_error)
                    &&& g.path == f.path && g.size == f.size && g.bytes_uploaded == f.bytes_uploaded
                    &&& g.started_at == f.started_at && g.last_activity == f.last_activity
                },
            final(self).id == old(self).id,
            final(self).repo_path == old(self).repo_path,
            final(self).remote == old(self).remote,
            final(self).branch == old(self).branch,
            final(self).total_bytes == old(self).total_bytes,
            final(self).bytes_uploaded == old(self).bytes_uploaded,
            final(self).started_at == old(self).started_at,
    {
        self.status = UploadStatus::Failed;
        self.last_activity = now;
        let ghost before = self.files@;
        let mut i: usize = 0;
        while i < self.files.len()
            invariant
                i <= self.files@.len(),
                self.files@.len() == before.len(),
                before == old(self).files@,
                self.status == UploadStatus::Failed,
                self.last_activity == now,
                self.id == old(self).id,
                self.repo_path == old(self).repo_path,
                self.remote == old(self).remote,
                self.branch == old(self).branch,
                self.total_bytes == old(self).total_bytes,
                self.bytes_uploaded == old(self).bytes_uploaded,
                self.started_at == old(self).started_at,
                forall|k: int|
                    0 <= k < before.len() ==> {
                        let f = before[k];
                        let g = #[trigger] self.files@[k];
                        &&& (k < i && f.status == UploadStatus::InProgress ==> (g.status == UploadStatus::Failed
                            && (g.last_error matches Some(e) && e@ == error@)))
                        &&& (!(k < i && f.status == UploadStatus::InProgress) ==> g.status == f.status
                            && g.last_error == f.last_error)
                        &&& g.path == f.path && g.size == f.size && g.bytes_uploaded == f.bytes_uploaded
                        &&& g.started_at == f.started_at && g.last_activity == f.last_activity
                    },
            decreases self.files@.len() - i,
        {
            if self.files[i].status == UploadStatus::InProgress {
                self.files[i].status = UploadStatus::Failed;
                self.files[i].last_error = Some(error.to_owned());
            }
            i += 1;
        }
    }

    /// After a successful push: every file completed and fully uploaded,
    /// active at `now`; the session has all its bytes uploaded.
    pub fn complete_all(&mut self, now: Timestamp)
        ensures
            final(self).bytes_uploaded == old(self).total_bytes,
            final(self).files@.len() == old(self).files@.len(),
            forall|i: int|
                0 <= i < old(self).files@.len() ==> {
                    let f = old(self).files@[i];
                    let g = #[trigger] final(self).files@[i];
                    &&& g.status == UploadStatus::Completed && g.bytes_uploaded == f.size
                    &&& g.last_activity == now
                    &&& g.path == f.path && g.size == f.size && g.last_error == f.last_error
                    &&& g.started_at == f.started_at
                },
            final(self).status == old(self).status,
            final(self).last_activity == old(self).last_activity,
            final(self).id == old(self).id,
            final(self).repo_path == old(self).repo_path,
            final(self).remote == old(self).remote,
            final(self).branch == old(self).branch,
            final(self).total_bytes == old(self).total_bytes,
            final(self).started_at == old(self).started_at,
    {
        self.bytes_uploaded = self.total_bytes;
        let ghost before = self.files@;
        let mut i: usize = 0;
        while i < self.files.len()
            invariant
                i <= self.files@.len(),
                self.files@.len() == before.len(),
                before == old(self).files@,
                self.bytes_uploaded == old(self).total_bytes,
                self.status == old(self).status,
                self.last_activity == old(self).last_activity,
                self.id == old(self).id,
                self.repo_path == old(self).repo_path,
                self.remote == old(self).remote,
                self.branch == old(self).branch,
                self.total_bytes == old(self).total_bytes,
                self.started_at == old(self).started_at,
                forall|k: int|
                    0 <= k < before.len() ==> {
                        let f = before[k];
                        let g = #[trigger] self.files@[k];
                        if k < i {
                            &&& g.status == UploadStatus::Completed && g.bytes_uploaded == f.size
                            &&& g.last_activity == now
                            &&& g.path == f.path && g.size == f.size && g.last_error == f.last_error
                            &&& g.started_at == f.started_at
                        } else {
                            g == f
                        }
                    },
            decreases self.files@.len() - i,
        {
            self.files[i].status = UploadStatus::Completed;
            self.files[i].bytes_uploaded = self.files[i].size;
            self.files[i].last_activity = now;
            i += 1;
        }
    }
}

/// The path named on a line of `oxen status --staged` output: on a line
/// that, trimmed, starts with `new file:` or `modified:`, the text between
/// its first and second `:`, trimmed, when not empty.
pub open spec fn staged_path(line: Seq<char>) -> Option<Seq<char>> {
    let t = trim_seq(line);
    if is_prefix("new file:"@, t) || is_prefix("modified:"@, t) {
        let p = trim_seq(split_on(t, ':')[1]);
        if p.len() > 0 {
            Some(p)
        } else {
            None
        }
    } else {
        None
    }
}

/// The paths named by the lines, in order.
pub open spec fn staged_paths(lines: Seq<Seq<char>>) -> Seq<Seq<char>>
    decreases lines.len(),
{
    if lines.len() == 0 {
        Seq::empty()
    } else {
        let before = staged_paths(lines.drop_last());
        match staged_path(lines.last()) {
            Some(p) => before.push(p),
            None => before,
        }
    }
}

/// The files to upload named by `oxen status --staged` output, in order.
pub fn staged_files(output: &str) -> (r: Vec<String>)
    ensures
        strings_view(r@) == staged_paths(lines_seq(output@)),
{
    let chars = chars_of(output);
    let lines = lines_of(&chars);
    let ghost ls = views(lines@);
    let mut r: Vec<String> = Vec::new();
    let mut i: usize = 0;
    assert(ls.take(0) =~= Seq::<Seq<char>>::empty());
    while i < lines.len()
        invariant
            i <= lines@.len(),
            ls == views(lines@),
            ls == lines_seq(output@),
            strings_view(r@) == staged_paths(ls.take(i as int)),
        decreases lines@.len() - i,
    {
        assert(ls.take(i + 1).drop_last() =~= ls.take(i as int));
        assert(ls.take(i + 1).last() == lines@[i as int]@);
        let t = trim_chars(lines[i].as_slice());
        if has_prefix_str(&t, "new file:") || has_prefix_str(&t, "modified:") {
            let pieces = split_chars(&t, ':');
            proof {
                crate::text::lemma_split_on_nonempty(t@, ':');
                assert(is_prefix("new file:"@, t@) || is_prefix("modified:"@, t@));
            }
            if pieces.len() > 1 {
                assert(views(pieces@)[1] == pieces@[1]@);
                let p = trim_chars(&pieces[1]);
                if p.len() > 0 {
                    let ghost before = r@;
                    r.push(string_from_chars(&p));
                    assert(strings_view(r@) =~= strings_view(before).push(p@));
                }
            } else {
                proof {
                    lemma_prefix_colon_splits(t@);
                }
            }
        }
        i += 1;
    }
    assert(ls.take(lines@.len() as int) =~= ls);
    r
}

/// A text starting with `new file:` or `modified:` holds a `:`, so it
/// splits into at least two pieces.
proof fn lemma_prefix_colon_splits(t: Seq<char>)
    requires
        is_prefix("new file:"@, t) || is_prefix("modified:"@, t),
    ensures
        split_on(t, ':').len() > 1,
{
    reveal_strlit("new file:");
    reveal_strlit("modified:");
    let k: int = 8;
    assert(t[k] == ':') by {
        if is_prefix("new file:"@, t) {
            assert(t.take(9)[8] == "new file:"@[8]);
        } else {
            assert(t.take(9)[8] == "modified:"@[8]);
        }
    }
    let a = t.take(k);
    let b = t.skip(k + 1);
    assert(t =~= a + seq![':'] + b);
    crate::text::lemma_split_on_concat(a, b, ':');
    crate::text::lemma_split_on_nonempty(a, ':');
    crate::text::lemma_split_on_nonempty(b, ':');
}

/// How long an upload has left, as shown: hours and minutes from an hour
/// up, minutes and seconds from a minute up, else seconds;
/// `calculating...` when unknown.
pub open spec fn eta_text(eta: Option<u64>) -> Seq<char> {
    match eta {
        Some(s) => if s >= 3600 {
            decimal((s / 3600) as nat) + "h "@ + decimal(((s % 3600) / 60) as nat) + "m"@
        } else if s >= 60 {
            decimal((s / 60) as nat) + "m "@ + decimal((s % 60) as nat) + "s"@
        } else {
            decimal(s as nat) + "s"@
        },
        None => "calculating..."@,
    }
}

/// How long an upload has left, as shown.
pub fn eta_string(eta_seconds: Option<u64>) -> (s: String)
    ensures
        s@ == eta_text(eta_seconds),
{
    match eta_seconds {
        Some(secs) => {
            let mut v: Vec<char> = Vec::new();
            if secs >= 3600 {
                push_decimal(&mut v, secs / 3600);
                extend_str(&mut v, "h ");
                push_decimal(&mut v, (secs % 3600) / 60);
                extend_str(&mut v, "m");
            } else if secs >= 60 {
                push_decimal(&mut v, secs / 60);
                extend_str(&mut v, "m ");
                push_decimal(&mut v, secs % 60);
                extend_str(&mut v, "s");
            } else {
                push_decimal(&mut v, secs);
                extend_str(&mut v, "s");
            }
            string_from_chars(&v)
        },
        None => "calculating...".to_owned(),
    }
}

/// A byte count as progress shows it: `1.25 GB` from a billion bytes up,
/// `3.4 MB` from a million, `12.5 KB` from a thousand, else `512 B`; the
/// decimals rounded as [`rounded_printed`] says.
pub open spec fn bytes_text(bytes: nat) -> Seq<char> {
    if bytes >= 1_000_000_000 {
        hundredths_text(rounded_printed(bytes, 10_000_000, 200)) + " GB"@
    } else if bytes >= 1_000_000 {
        tenths_text(rounded_printed(bytes, 100_000, 20)) + " MB"@
    } else if bytes >= 1_000 {
        tenths_text(rounded_printed(bytes, 100, 20)) + " KB"@
    } else {
        decimal(bytes) + " B"@
    }
}

/// A byte count as progress shows it.
pub fn bytes_string(bytes: u64) -> (s: String)
    ensures
        s@ == bytes_text(bytes as nat),
{
    let mut v: Vec<char> = Vec::new();
    if bytes >= 1_000_000_000 {
        proof {
            lemma_quotient_fits(bytes, 10_000_000, 10_000_000, 200);
        }
        push_hundredths(&mut v, round_printed(bytes, 10_000_000, 200));
        extend_str(&mut v, " GB");
    } else if bytes >= 1_000_000 {
        proof {
            lemma_quotient_fits(bytes, 100_000, 100_000, 20);
        }
        push_tenths(&mut v, round_printed(bytes, 100_000, 20));
        extend_str(&mut v, " MB");
    } else if bytes >= 1_000 {
        push_tenths(&mut v, round_printed(bytes, 100, 20));
        extend_str(&mut v, " KB");
    } else {
        push_decimal(&mut v, bytes);
        extend_str(&mut v, " B");
    }
    string_from_chars(&v)
}


/// What an upload came to. Its average bandwidth, a floating-point figure,
/// is worked out by the caller from the session's samples.
#[derive(Debug)]
pub struct UploadResult {
    /// Whether the upload completed.
    pub success: bool,
    /// The number of files uploaded.
    pub files_uploaded: usize,
    /// The bytes uploaded.
    pub bytes_uploaded: u64,
    /// How long the push took.
    pub duration: Duration,
    /// The push's error message, when it failed.
    pub error: Option<String>,
}

impl UploadResult {
    /// The result of a push that took `duration`, for the current session as
    /// it stands after the push (none when there is none), with the push's
    /// error message when it failed. A push without error succeeded and
    /// uploaded all the session's files; a failed one uploaded none. Either
    /// way the session's uploaded bytes are reported.
    pub fn of_push(session: Option<&UploadSession>, duration: Duration, error: Option<String>) -> (r: Self)
        ensures
            r.success == (error is None),
            r.error == error,
            r.duration == duration,
            r.files_uploaded == (match session {
                Some(s) => if error is None {
                    s.files@.len()
                } else {
                    0
                },
                None => 0,
            }),
            r.bytes_uploaded == (match session {
                Some(s) => s.bytes_uploaded,
                None => 0,
            }),
    {
        let success = error.is_none();
        let (files_uploaded, bytes_uploaded) = match session {
            Some(s) => (if success {
                s.files.len()
            } else {
                0
            }, s.bytes_uploaded),
            None => (0, 0),
        };
        UploadResult { success, files_uploaded, bytes_uploaded, duration, error }
    }
}

} // verus!

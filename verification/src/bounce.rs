//! Audio bounce files: their formats and where a repository keeps them.
use vstd::prelude::*;
use crate::sequences::Dated;
use crate::text::{
    chars_are, chars_of, contains_chars, contains_seq, has_prefix_str, is_prefix, join_path,
    lines_of, lines_seq, lowercase, parse_uint, parse_uint_spec, path_join, string_from_chars,
    sub_chars, to_lowercase_chars, trim_chars, trim_seq, views,
};
use crate::clock::{earlier, time_lt, utc_now, Timestamp};
use crate::text::{all_ascii, ascii_lower, ascii_upper, byte_prefix, byte_prefix_of, cuts_cleanly, decimal, occurs_at, extend_str, push_decimal};
use crate::clock::signed_decimal;
use crate::printed_numbers::{
    hundredths_text, lemma_quotient_fits, push_hundredths, push_tenths, round_printed, rounded_printed, tenths_text,
};

verus! {

/// Supported audio formats.
#[derive(Debug, Clone, Copy, PartialEq, Eq, Structural)]
pub enum AudioFormat {
    Wav,
    Aiff,
    Mp3,
    Flac,
    M4a,
}

/// The file extension of a format.
pub open spec fn format_extension(f: AudioFormat) -> Seq<char> {
    match f {
        AudioFormat::Wav => "wav"@,
        AudioFormat::Aiff => "aiff"@,
        AudioFormat::Mp3 => "mp3"@,
        AudioFormat::Flac => "flac"@,
        AudioFormat::M4a => "m4a"@,
    }
}

/// The format of a lowercase file extension.
pub open spec fn format_of_extension(ext: Seq<char>) -> Option<AudioFormat> {
    if ext == "wav"@ {
        Some(AudioFormat::Wav)
    } else if ext == "aif"@ || ext == "aiff"@ {
        Some(AudioFormat::Aiff)
    } else if ext == "mp3"@ {
        Some(AudioFormat::Mp3)
    } else if ext == "flac"@ {
        Some(AudioFormat::Flac)
    } else if ext == "m4a"@ || ext == "aac"@ {
        Some(AudioFormat::M4a)
    } else {
        None
    }
}

/// A text of lowercase ASCII letters and digits is its own lowercase, and
/// so is it written in capitals.
proof fn lemma_lowercase_of_letters(e: Seq<char>)
    requires
        forall|i: int| 0 <= i < e.len() ==> ('a' <= #[trigger] e[i] && e[i] <= 'z') || ('0' <= e[i] && e[i] <= '9'),
    ensures
        lowercase(e) == e,
        lowercase(e.map_values(|c: char| ascii_upper(c))) == e,
{
    reveal(lowercase);
    let u = e.map_values(|c: char| ascii_upper(c));
    assert forall|i: int| 0 <= i < e.len() implies (#[trigger] e[i] as u32) < 128 by {}
    assert(all_ascii(e));
    assert forall|i: int| 0 <= i < u.len() implies (#[trigger] u[i] as u32) < 128 && ascii_lower(u[i]) == e[i] by {
        assert(u[i] == ascii_upper(e[i]));
    }
    assert(all_ascii(u));
    assert(e.map_values(|c: char| ascii_lower(c)) =~= e);
    assert(u.map_values(|c: char| ascii_lower(c)) =~= e);
}

/// An audio format's extension names that format again, whatever the case
/// it is written in: lowercased as it is, or after writing it in capitals.
pub proof fn lemma_extension_names_its_format(f: AudioFormat)
    ensures
        format_of_extension(lowercase(format_extension(f))) == Some(f),
        format_of_extension(lowercase(format_extension(f).map_values(|c: char| ascii_upper(c)))) == Some(f),
{
    reveal_strlit("wav");
    reveal_strlit("aif");
    reveal_strlit("aiff");
    reveal_strlit("mp3");
    reveal_strlit("flac");
    reveal_strlit("m4a");
    let e = format_extension(f);
    match f {
        AudioFormat::Wav => assert(e =~= seq!['w', 'a', 'v']),
        AudioFormat::Aiff => assert(e =~= seq!['a', 'i', 'f', 'f']),
        AudioFormat::Mp3 => assert(e =~= seq!['m', 'p', '3']),
        AudioFormat::Flac => assert(e =~= seq!['f', 'l', 'a', 'c']),
        AudioFormat::M4a => assert(e =~= seq!['m', '4', 'a']),
    }
    lemma_lowercase_of_letters(e);
}

impl AudioFormat {
    /// The format of an extension already in lowercase.
    pub fn from_lowercase_extension(ext: &[char]) -> (f: Option<Self>)
        ensures
            f == format_of_extension(ext@),
    {
        if chars_are(ext, "wav") {
            Some(AudioFormat::Wav)
        } else if chars_are(ext, "aif") || chars_are(ext, "aiff") {
            Some(AudioFormat::Aiff)
        } else if chars_are(ext, "mp3") {
            Some(AudioFormat::Mp3)
        } else if chars_are(ext, "flac") {
            Some(AudioFormat::Flac)
        } else if chars_are(ext, "m4a") || chars_are(ext, "aac") {
            Some(AudioFormat::M4a)
        } else {
            None
        }
    }

    /// The format of a file extension, ignoring case.
    pub fn from_extension(ext: &str) -> (f: Option<Self>)
        ensures
            f == format_of_extension(lowercase(ext@)),
    {
        let lower = to_lowercase_chars(ext);
        Self::from_lowercase_extension(&lower)
    }

    /// The file extension of this format.
    pub fn extension(&self) -> (e: &'static str)
        ensures
            e@ == format_extension(*self),
    {
        match self {
            AudioFormat::Wav => "wav",
            AudioFormat::Aiff => "aiff",
            AudioFormat::Mp3 => "mp3",
            AudioFormat::Flac => "flac",
            AudioFormat::M4a => "m4a",
        }
    }

    /// The MIME type of this format.
    pub fn mime_type(&self) -> (m: &'static str)
        ensures
            m@ == match *self {
                AudioFormat::Wav => "audio/wav"@,
                AudioFormat::Aiff => "audio/aiff"@,
                AudioFormat::Mp3 => "audio/mpeg"@,
                AudioFormat::Flac => "audio/flac"@,
                AudioFormat::M4a => "audio/mp4"@,
            },
    {
        match self {
            AudioFormat::Wav => "audio/wav",
            AudioFormat::Aiff => "audio/aiff",
            AudioFormat::Mp3 => "audio/mpeg",
            AudioFormat::Flac => "audio/flac",
            AudioFormat::M4a => "audio/mp4",
        }
    }
}

/// Manages the bounce files of a repository.
pub struct BounceManager {
    /// Root directory of the repository.
    pub repo_root: String,
    /// Directory where bounces are stored: `<repo>/.auxin/bounces`.
    pub bounces_dir: String,
}

impl BounceManager {
    /// A bounce manager for the repository at `repo_root`.
    pub fn new(repo_root: &str) -> (m: Self)
        ensures
            m.repo_root@ == repo_root@,
            m.bounces_dir@ == path_join(path_join(repo_root@, ".auxin"@), "bounces"@),
    {
        let a = join_path(repo_root, ".auxin");
        let b = join_path(a.as_str(), "bounces");
        BounceManager { repo_root: repo_root.to_owned(), bounces_dir: b }
    }

    /// Where the audio file of a bounce for `commit_id` goes, from the
    /// extension of the source file (`None` when it has none readable): the
    /// format it names and `<bounces>/<commit_id>.<format's extension>`.
    /// Fails when there is no extension, or it names no supported format.
    pub fn bounce_destination(&self, commit_id: &str, ext: Option<&str>) -> (r: Result<(AudioFormat, String), String>)
        ensures
            match ext {
                None => r matches Err(e) && e@ == "Cannot determine file format"@,
                Some(x) => match format_of_extension(lowercase(x@)) {
                    None => r matches Err(e) && e@ == "Unsupported audio format: "@ + x@,
                    Some(f) => r matches Ok((g, p)) && g == f && p@ == path_join(
                        self.bounces_dir@,
                        commit_id@ + "."@ + format_extension(f),
                    ),
                },
            },
    {
        match ext {
            None => Err("Cannot determine file format".to_owned()),
            Some(x) => match AudioFormat::from_extension(x) {
                None => {
                    let mut e = "Unsupported audio format: ".to_owned();
                    e.append(x);
                    Err(e)
                },
                Some(f) => {
                    let mut name = commit_id.to_owned();
                    name.append(".");
                    name.append(f.extension());
                    Ok((f, join_path(self.bounces_dir.as_str(), name.as_str())))
                },
            },
        }
    }

    /// The candidate paths of the audio file of a commit's bounce, one per
    /// extension in the order wav, aiff, mp3, flac, m4a; the first that
    /// exists is the bounce.
    pub fn bounce_path_candidates(&self, commit_id: &str) -> (v: Vec<String>)
        ensures
            v@.len() == 5,
            v@[0]@ == path_join(self.bounces_dir@, commit_id@ + ".wav"@),
            v@[1]@ == path_join(self.bounces_dir@, commit_id@ + ".aiff"@),
            v@[2]@ == path_join(self.bounces_dir@, commit_id@ + ".mp3"@),
            v@[3]@ == path_join(self.bounces_dir@, commit_id@ + ".flac"@),
            v@[4]@ == path_join(self.bounces_dir@, commit_id@ + ".m4a"@),
    {
        let mut v: Vec<String> = Vec::new();
        let mut f = commit_id.to_owned();
        f.append(".wav");
        v.push(join_path(self.bounces_dir.as_str(), f.as_str()));
        let mut f = commit_id.to_owned();
        f.append(".aiff");
        v.push(join_path(self.bounces_dir.as_str(), f.as_str()));
        let mut f = commit_id.to_owned();
        f.append(".mp3");
        v.push(join_path(self.bounces_dir.as_str(), f.as_str()));
        let mut f = commit_id.to_owned();
        f.append(".flac");
        v.push(join_path(self.bounces_dir.as_str(), f.as_str()));
        let mut f = commit_id.to_owned();
        f.append(".m4a");
        v.push(join_path(self.bounces_dir.as_str(), f.as_str()));
        v
    }
}

/// The extension tried in place `i` when looking for a bounce's audio file:
/// wav, aiff, mp3, flac, then m4a.
pub open spec fn bounce_extension(i: int) -> Seq<char> {
    if i == 0 {
        ".wav"@
    } else if i == 1 {
        ".aiff"@
    } else if i == 2 {
        ".mp3"@
    } else if i == 3 {
        ".flac"@
    } else {
        ".m4a"@
    }
}

/// The first place whose file exists.
pub open spec fn first_existing(exists: [bool; 5]) -> Option<int> {
    if exists[0] {
        Some(0)
    } else if exists[1] {
        Some(1)
    } else if exists[2] {
        Some(2)
    } else if exists[3] {
        Some(3)
    } else if exists[4] {
        Some(4)
    } else {
        None
    }
}

impl BounceManager {
    /// The audio file of a commit's bounce: the first of the candidates
    /// (see [`BounceManager::bounce_path_candidates`]) that exists, as the
    /// caller found on disk.
    pub fn get_bounce_path(&self, commit_id: &str, exists: [bool; 5]) -> (r: Option<String>)
        ensures
            match first_existing(exists) {
                Some(i) => r matches Some(p) && p@ == path_join(self.bounces_dir@, commit_id@ + bounce_extension(i)),
                None => r is None,
            },
    {
        let mut candidates = self.bounce_path_candidates(commit_id);
        assert forall|k: int| 0 <= k < 5 implies candidates@[k]@ == path_join(self.bounces_dir@, commit_id@ + bounce_extension(k)) by {
            if k == 0 {} else if k == 1 {} else if k == 2 {} else if k == 3 {} else {}
        }
        let mut i: usize = 0;
        while i < 5
            invariant
                i <= 5,
                candidates@.len() == 5,
                forall|k: int| 0 <= k < 5 ==> candidates@[k]@ == path_join(self.bounces_dir@, commit_id@ + bounce_extension(k)),
                forall|j: int| 0 <= j < i ==> !exists[j],
            decreases 5 - i,
        {
            if exists[i] {
                proof {
                    assert(first_existing(exists) == Some(i as int));
                }
                return Some(candidates.swap_remove(i));
            }
            i += 1;
        }
        None
    }
}

} // verus!

verus! {

/// A number of seconds as the bit pattern of an `f64`, by which durations
/// are compared.
#[derive(Debug, Clone, Copy, PartialEq, Eq, Structural)]
pub struct Seconds {
    pub bits: u64,
}

/// The bit pattern is a NaN: all exponent bits set, and a nonzero
/// mantissa.
pub open spec fn f64_is_nan(b: u64) -> bool {
    (b >> 52u64) & 0x7ffu64 == 0x7ffu64 && b & 0xf_ffff_ffff_ffffu64 != 0
}

/// The position of a non-NaN `f64` on the number line: its magnitude bits,
/// negated when the sign bit is set (so both zeros sit at 0).
pub open spec fn f64_key(b: u64) -> int {
    let mag = (b & 0x7fff_ffff_ffff_ffffu64) as int;
    if b >> 63u64 == 1 {
        -mag
    } else {
        mag
    }
}

/// `a < b` on the `f64` values of two bit patterns: false when either is
/// NaN.
pub open spec fn f64_lt(a: u64, b: u64) -> bool {
    !f64_is_nan(a) && !f64_is_nan(b) && f64_key(a) < f64_key(b)
}

fn is_nan_bits(b: u64) -> (r: bool)
    ensures
        r == f64_is_nan(b),
{
    (b >> 52u64) & 0x7ffu64 == 0x7ffu64 && b & 0xf_ffff_ffff_ffffu64 != 0
}

fn key_of_bits(b: u64) -> (k: i128)
    ensures
        k == f64_key(b),
{
    let mag: i128 = (b & 0x7fff_ffff_ffff_ffffu64) as i128;
    if b >> 63u64 == 1 {
        -mag
    } else {
        mag
    }
}

impl Seconds {
    /// `self < other` as `f64` values.
    pub fn less_than(&self, other: &Seconds) -> (r: bool)
        ensures
            r == f64_lt(self.bits, other.bits),
    {
        if is_nan_bits(self.bits) || is_nan_bits(other.bits) {
            false
        } else {
            key_of_bits(self.bits) < key_of_bits(other.bits)
        }
    }
}

/// Metadata about a bounce file.
#[derive(Debug, Clone)]
pub struct BounceMetadata {
    /// Commit this bounce belongs to.
    pub commit_id: String,
    pub original_filename: String,
    pub format: AudioFormat,
    pub size_bytes: u64,
    /// Duration in seconds, if known.
    pub duration_secs: Option<Seconds>,
    pub sample_rate: Option<u32>,
    pub bit_depth: Option<u16>,
    pub channels: Option<u8>,
    /// When the bounce was added.
    pub added_at: Timestamp,
    /// Who added it.
    pub added_by: String,
    pub description: Option<String>,
    /// Audio fingerprint hash, for comparisons.
    pub fingerprint: Option<String>,
}

/// Bounces are listed by when they were added (newest first, with
/// [`newest_first`](crate::sequences::newest_first)).
impl Dated for BounceMetadata {
    open spec fn date(&self) -> Timestamp {
        self.added_at
    }

    fn date_of(&self) -> (t: Timestamp) {
        self.added_at
    }
}

impl BounceMetadata {
    /// Metadata of a bounce added now by `added_by`, with nothing else known.
    pub fn new(commit_id: &str, original_filename: &str, format: AudioFormat, size_bytes: u64, added_by: &str) -> (m: Self)
        ensures
            m.commit_id@ == commit_id@,
            m.original_filename@ == original_filename@,
            m.format == format,
            m.size_bytes == size_bytes,
            m.duration_secs is None,
            m.sample_rate is None,
            m.bit_depth is None,
            m.channels is None,
            m.added_by@ == added_by@,
            m.description is None,
            m.fingerprint is None,
    {
        BounceMetadata {
            commit_id: commit_id.to_owned(),
            original_filename: original_filename.to_owned(),
            format,
            size_bytes,
            duration_secs: None,
            sample_rate: None,
            bit_depth: None,
            channels: None,
            added_at: utc_now(),
            added_by: added_by.to_owned(),
            description: None,
            fingerprint: None,
        }
    }

    /// Sets the audio properties.
    pub fn with_audio_info(self, sample_rate: u32, bit_depth: u16, channels: u8) -> (m: Self)
        ensures
            m.sample_rate == Some(sample_rate),
            m.bit_depth == Some(bit_depth),
            m.channels == Some(channels),
            m.commit_id == self.commit_id,
            m.original_filename == self.original_filename,
            m.format == self.format,
            m.size_bytes == self.size_bytes,
            m.duration_secs == self.duration_secs,
            m.added_at == self.added_at,
            m.added_by == self.added_by,
            m.description == self.description,
            m.fingerprint == self.fingerprint,
    {
        let mut m = self;
        m.sample_rate = Some(sample_rate);
        m.bit_depth = Some(bit_depth);
        m.channels = Some(channels);
        m
    }

    /// Sets the description.
    pub fn with_description(self, desc: &str) -> (m: Self)
        ensures
            m.description matches Some(d) && d@ == desc@,
            m.commit_id == self.commit_id,
            m.original_filename == self.original_filename,
            m.format == self.format,
            m.size_bytes == self.size_bytes,
            m.duration_secs == self.duration_secs,
            m.sample_rate == self.sample_rate,
            m.bit_depth == self.bit_depth,
            m.channels == self.channels,
            m.added_at == self.added_at,
            m.added_by == self.added_by,
            m.fingerprint == self.fingerprint,
    {
        let mut m = self;
        m.description = Some(desc.to_owned());
        m
    }

    /// The file size as listings show it.
    pub fn format_size(&self) -> (s: String)
        ensures
            s@ == size_text(self.size_bytes as nat),
    {
        let bytes = self.size_bytes;
        let mut v: Vec<char> = Vec::new();
        if bytes >= 1_000_000_000 {
            proof {
                lemma_quotient_fits(bytes, 10_000_000, 10_000_000, 200);
            }
            push_hundredths(&mut v, round_printed(bytes, 10_000_000, 200));
            extend_str(&mut v, " GB");
        } else if bytes >= 1_000_000 {
            proof {
                lemma_quotient_fits(bytes, 10_000, 10_000, 200);
            }
            push_hundredths(&mut v, round_printed(bytes, 10_000, 200));
            extend_str(&mut v, " MB");
        } else if bytes >= 1_000 {
            push_tenths(&mut v, round_printed(bytes, 100, 20));
            extend_str(&mut v, " KB");
        } else {
            push_decimal(&mut v, bytes);
            extend_str(&mut v, " bytes");
        }
        string_from_chars(&v)
    }
}

/// A file size as listings show it: `1.25 GB` from a billion bytes up,
/// `3.40 MB` from a million, `12.5 KB` from a thousand, else `512 bytes`;
/// the decimals rounded as [`rounded_printed`] says.
pub open spec fn size_text(bytes: nat) -> Seq<char> {
    if bytes >= 1_000_000_000 {
        hundredths_text(rounded_printed(bytes, 10_000_000, 200)) + " GB"@
    } else if bytes >= 1_000_000 {
        hundredths_text(rounded_printed(bytes, 10_000, 200)) + " MB"@
    } else if bytes >= 1_000 {
        tenths_text(rounded_printed(bytes, 100, 20)) + " KB"@
    } else {
        decimal(bytes) + " bytes"@
    }
}

/// Criteria for searching bounces; each one set narrows the search.
#[derive(Debug, Clone)]
pub struct BounceFilter {
    pub format: Option<AudioFormat>,
    /// Filename pattern (a regular expression); wins over `filename_pattern`.
    pub pattern: Option<String>,
    /// Filename pattern (a regular expression).
    pub filename_pattern: Option<String>,
    pub min_duration: Option<Seconds>,
    pub max_duration: Option<Seconds>,
    /// Added at or after this time.
    pub after: Option<Timestamp>,
    /// Added at or before this time.
    pub before: Option<Timestamp>,
    /// Part of the name of who added it, in any case.
    pub added_by: Option<String>,
    pub min_size: Option<u64>,
    pub max_size: Option<u64>,
}

impl Default for BounceFilter {
    fn default() -> (f: Self)
        ensures
            f.format is None,
            f.pattern is None,
            f.filename_pattern is None,
            f.min_duration is None,
            f.max_duration is None,
            f.after is None,
            f.before is None,
            f.added_by is None,
            f.min_size is None,
            f.max_size is None,
    {
        BounceFilter {
            format: None,
            pattern: None,
            filename_pattern: None,
            min_duration: None,
            max_duration: None,
            after: None,
            before: None,
            added_by: None,
            min_size: None,
            max_size: None,
        }
    }
}

/// The filename pattern in force: `pattern`, else `filename_pattern`.
pub open spec fn effective_pattern_spec(f: BounceFilter) -> Option<Seq<char>> {
    match f.pattern {
        Some(p) => Some(p@),
        None => match f.filename_pattern {
            Some(p) => Some(p@),
            None => None,
        },
    }
}

impl BounceFilter {
    /// The filename pattern in force: `pattern`, else `filename_pattern`.
    pub fn effective_pattern(&self) -> (r: Option<&String>)
        ensures
            match r {
                Some(p) => effective_pattern_spec(*self) == Some(p@),
                None => effective_pattern_spec(*self) is None,
            },
    {
        match &self.pattern {
            Some(p) => Some(p),
            None => match &self.filename_pattern {
                Some(p) => Some(p),
                None => None,
            },
        }
    }
}

#[verifier::external_type_specification]
#[verifier::external_body]
pub struct ExRegex(regex::Regex);

/// Whether `regex` compiles a pattern (with its default limits).
pub uninterp spec fn regex_valid(pattern: Seq<char>) -> bool;

/// Whether the regular expression `pattern` matches somewhere in `text`.
pub uninterp spec fn regex_matches(pattern: Seq<char>, text: Seq<char>) -> bool;

/// A compiled filename pattern, with the text it was compiled from.
pub struct FilenamePattern {
    source: String,
    compiled: regex::Regex,
}

impl FilenamePattern {
    /// The text the pattern was compiled from.
    pub closed spec fn source(&self) -> Seq<char> {
        self.source@
    }
}

/// `regex::Regex::new`: the pattern compiled, or none when `regex` refuses
/// it; which patterns it takes depends on the pattern alone.
#[verifier::external_body]
fn compile_pattern(pattern: &str) -> (r: Option<FilenamePattern>)
    ensures
        r is Some == regex_valid(pattern@),
        r matches Some(p) ==> p.source() == pattern@,
{
    match regex::Regex::new(pattern) {
        Ok(compiled) => Some(FilenamePattern { source: pattern.to_owned(), compiled }),
        Err(_) => None,
    }
}

/// `regex::Regex::is_match` on a compiled pattern. Patterns are only made
/// by `compile_pattern`, so the compiled form is that of `source`.
#[verifier::external_body]
fn pattern_matches(p: &FilenamePattern, text: &str) -> (r: bool)
    ensures
        r == regex_matches(p.source(), text@),
{
    p.compiled.is_match(text)
}

/// Whether a bounce meets every criterion of the filter. An invalid
/// filename pattern filters nothing; a minimum duration drops bounces of
/// unknown duration, a maximum keeps them.
pub open spec fn bounce_matches(b: BounceMetadata, f: BounceFilter) -> bool {
    &&& (f.format matches Some(fmt) ==> b.format == fmt)
    &&& (effective_pattern_spec(f) matches Some(p) ==> (regex_valid(p) ==> regex_matches(
        p,
        b.original_filename@,
    )))
    &&& (f.min_duration matches Some(m) ==> (b.duration_secs matches Some(d) && !f64_lt(d.bits, m.bits)))
    &&& (f.max_duration matches Some(m) ==> (b.duration_secs matches Some(d) ==> !f64_lt(m.bits, d.bits)))
    &&& (f.after matches Some(a) ==> !time_lt(b.added_at, a))
    &&& (f.before matches Some(z) ==> !time_lt(z, b.added_at))
    &&& (f.added_by matches Some(u) ==> contains_seq(lowercase(b.added_by@), lowercase(u@)))
    &&& (f.min_size matches Some(m) ==> b.size_bytes >= m)
    &&& (f.max_size matches Some(m) ==> b.size_bytes <= m)
}

/// The added-by criterion ignores case on both sides: a bounce added by
/// the very name the filter gives, written in any case, meets it (it then
/// matches exactly when it meets the other criteria), and two names that
/// differ only in case select the same bounces.
pub proof fn lemma_added_by_ignores_case(b: BounceMetadata, f: BounceFilter, u: String, u2: String)
    requires
        f.added_by == Some(u),
        lowercase(u2@) == lowercase(u@),
    ensures
        lowercase(u@) == lowercase(b.added_by@) ==> (bounce_matches(b, f) == bounce_matches(
            b,
            BounceFilter { added_by: None, ..f },
        )),
        u@ == b.added_by@ ==> (bounce_matches(b, f) == bounce_matches(b, BounceFilter { added_by: None, ..f })),
        bounce_matches(b, f) == bounce_matches(b, BounceFilter { added_by: Some(u2), ..f }),
{
    let h = lowercase(b.added_by@);
    assert(h.subrange(0, h.len() as int) =~= h);
    assert(occurs_at(h, h, 0));
}

/// Every bound of a filter includes its end: a bounce of the filter's
/// format, added by the filter's name, whose size, duration and time of
/// adding equal the filter's bounds, matches it; so does every bounce match
/// a filter with no criteria. A size below the minimum or above the
/// maximum, or another format, is never matched.
pub proof fn lemma_filter_bounds_inclusive(b: BounceMetadata, f: BounceFilter)
    ensures
        ({
            &&& f.format is None || f.format == Some(b.format)
            &&& f.pattern is None && f.filename_pattern is None
            &&& f.added_by is None || (f.added_by matches Some(u) && u@ == b.added_by@)
            &&& f.min_size is None || f.min_size == Some(b.size_bytes)
            &&& f.max_size is None || f.max_size == Some(b.size_bytes)
            &&& f.after is None || f.after == Some(b.added_at)
            &&& f.before is None || f.before == Some(b.added_at)
            &&& f.min_duration is None || (b.duration_secs is Some && f.min_duration == b.duration_secs)
            &&& f.max_duration is None || f.max_duration == b.duration_secs
        }) ==> bounce_matches(b, f),
        (f.min_size matches Some(m) && b.size_bytes < m) ==> !bounce_matches(b, f),
        (f.max_size matches Some(m) && b.size_bytes > m) ==> !bounce_matches(b, f),
        (f.format matches Some(x) && b.format != x) ==> !bounce_matches(b, f),
{
    if f.added_by matches Some(u) && u@ == b.added_by@ {
        let h = lowercase(b.added_by@);
        assert(h.subrange(0, h.len() as int) =~= h);
        assert(occurs_at(h, h, 0));
    }
}

fn matches_filter(b: &BounceMetadata, f: &BounceFilter, pattern: &Option<FilenamePattern>) -> (r: bool)
    requires
        match effective_pattern_spec(*f) {
            Some(p) => match pattern {
                Some(c) => regex_valid(p) && c.source() == p,
                None => !regex_valid(p),
            },
            None => pattern is None,
        },
    ensures
        r == bounce_matches(*b, *f),
{
    if let Some(fmt) = &f.format {
        if b.format != *fmt {
            return false;
        }
    }
    if let Some(p) = pattern {
        if !pattern_matches(p, b.original_filename.as_str()) {
            return false;
        }
    }
    if let Some(m) = &f.min_duration {
        match &b.duration_secs {
            Some(d) => {
                if d.less_than(m) {
                    return false;
                }
            },
            None => {
                return false;
            },
        }
    }
    if let Some(m) = &f.max_duration {
        if let Some(d) = &b.duration_secs {
            if m.less_than(d) {
                return false;
            }
        }
    }
    if let Some(a) = &f.after {
        if earlier(&b.added_at, a) {
            return false;
        }
    }
    if let Some(z) = &f.before {
        if earlier(z, &b.added_at) {
            return false;
        }
    }
    if let Some(u) = &f.added_by {
        let who = to_lowercase_chars(b.added_by.as_str());
        let part = to_lowercase_chars(u.as_str());
        if !contains_chars(&who, &part) {
            return false;
        }
    }
    if let Some(m) = f.min_size {
        if b.size_bytes < m {
            return false;
        }
    }
    if let Some(m) = f.max_size {
        if b.size_bytes > m {
            return false;
        }
    }
    true
}

impl BounceManager {
    /// The bounces that meet the filter, in their order.
    pub fn search_bounces(bounces: Vec<BounceMetadata>, filter: &BounceFilter) -> (r: Vec<BounceMetadata>)
        ensures
            r@ == bounces@.filter(|b: BounceMetadata| bounce_matches(b, *filter)),
    {
        let pattern = match filter.effective_pattern() {
            Some(p) => compile_pattern(p.as_str()),
            None => None,
        };
        let ghost pred = |b: BounceMetadata| bounce_matches(b, *filter);
        let ghost s = bounces@;
        let n = bounces.len();
        let mut rest = crate::sequences::reversed(bounces);
        let mut out: Vec<BounceMetadata> = Vec::new();
        let mut i: usize = 0;
        assert(s.take(0) =~= Seq::<BounceMetadata>::empty());
        while rest.len() > 0
            invariant
                n == s.len(),
                rest@.len() + i == s.len(),
                forall|j: int| 0 <= j < rest@.len() ==> rest@[j] == s[s.len() - 1 - j],
                pred == (|b: BounceMetadata| bounce_matches(b, *filter)),
                match effective_pattern_spec(*filter) {
                    Some(p) => match pattern {
                        Some(c) => regex_valid(p) && c.source() == p,
                        None => !regex_valid(p),
                    },
                    None => pattern is None,
                },
                out@ == s.take(i as int).filter(pred),
            decreases rest@.len(),
        {
            match rest.pop() {
                Some(x) => {
                    assert(x == s[i as int]);
                    assert(s.take(i + 1).drop_last() =~= s.take(i as int));
                    assert(s.take(i + 1).last() == x);
                    assert(s.take(i + 1).filter(pred) == if pred(x) {
                        s.take(i as int).filter(pred).push(x)
                    } else {
                        s.take(i as int).filter(pred)
                    }) by {
                        reveal(Seq::filter);
                    }
                    if matches_filter(&x, filter, &pattern) {
                        out.push(x);
                    }
                    i += 1;
                },
                None => {},
            }
        }
        assert(s.take(s.len() as int) =~= s);
        out
    }
}

} // verus!

verus! {

/// Two bounces side by side.
#[derive(Debug, Clone)]
pub struct BounceComparison {
    pub bounce_a: BounceMetadata,
    pub bounce_b: BounceMetadata,
}

impl BounceComparison {
    /// How many bytes larger bounce B is than bounce A.
    pub fn size_diff(&self) -> (d: i64)
        requires
            self.bounce_a.size_bytes <= i64::MAX,
            self.bounce_b.size_bytes <= i64::MAX,
        ensures
            d == self.bounce_b.size_bytes - self.bounce_a.size_bytes,
    {
        self.bounce_b.size_bytes as i64 - self.bounce_a.size_bytes as i64
    }

    /// The comparison as a report: both files with their commits (the
    /// first eight bytes of each id), their durations as the caller shows
    /// them (`duration_a`, `duration_b`, and their difference when both are
    /// known), their sizes and the difference, their formats, and their
    /// sample rates when either is known.
    pub fn format_report(&self, duration_a: &str, duration_b: &str, duration_diff: Option<&str>) -> (r: String)
        requires
            self.bounce_a.size_bytes <= i64::MAX,
            self.bounce_b.size_bytes <= i64::MAX,
            cuts_cleanly(self.bounce_a.commit_id@, 8),
            cuts_cleanly(self.bounce_b.commit_id@, 8),
        ensures
            r@ == report_text(*self, duration_a@, duration_b@, str_opt_view(duration_diff)),
    {
        let mut v: Vec<char> = Vec::new();
        push_report_head(&mut v, self);
        push_duration_section(&mut v, duration_a, duration_b, duration_diff);
        push_size_section(&mut v, self);
        push_format_section(&mut v, self);
        assert(v@ =~= report_text(*self, duration_a@, duration_b@, str_opt_view(duration_diff)));
        string_from_chars(&v)
    }
}

fn push_report_head(v: &mut Vec<char>, c: &BounceComparison)
    requires
        cuts_cleanly(c.bounce_a.commit_id@, 8),
        cuts_cleanly(c.bounce_b.commit_id@, 8),
    ensures
        final(v)@ == old(v)@ + report_head(*c),
{
    let ghost start = v@;
    extend_str(v, "Bounce A: ");
    extend_str(v, c.bounce_a.original_filename.as_str());
    extend_str(v, " (commit ");
    let ca = byte_prefix_of(c.bounce_a.commit_id.as_str(), 8);
    extend_str(v, ca.as_str());
    extend_str(v, ")\n");
    extend_str(v, "Bounce B: ");
    extend_str(v, c.bounce_b.original_filename.as_str());
    extend_str(v, " (commit ");
    let cb = byte_prefix_of(c.bounce_b.commit_id.as_str(), 8);
    extend_str(v, cb.as_str());
    extend_str(v, ")\n\n");
    assert(v@ =~= start + report_head(*c));
}

fn push_duration_section(v: &mut Vec<char>, a: &str, b: &str, diff: Option<&str>)
    ensures
        final(v)@ == old(v)@ + duration_section(a@, b@, str_opt_view(diff)),
{
    let ghost start = v@;
    extend_str(v, "Duration:\n");
    extend_str(v, "  A: ");
    extend_str(v, a);
    extend_str(v, "\n");
    extend_str(v, "  B: ");
    extend_str(v, b);
    extend_str(v, "\n");
    let ghost mid = v@;
    match diff {
        Some(d) => {
            extend_str(v, "  Diff: ");
            extend_str(v, d);
            extend_str(v, "\n");
            assert(v@ =~= mid + ("  Diff: "@ + d@ + "\n"@));
        },
        None => {
            assert(v@ =~= mid + Seq::<char>::empty());
        },
    }
    assert(v@ =~= start + duration_section(a@, b@, str_opt_view(diff)));
}

fn push_size_section(v: &mut Vec<char>, c: &BounceComparison)
    requires
        c.bounce_a.size_bytes <= i64::MAX,
        c.bounce_b.size_bytes <= i64::MAX,
    ensures
        final(v)@ == old(v)@ + size_section(*c),
{
    let ghost start = v@;
    extend_str(v, "\nFile Size:\n");
    extend_str(v, "  A: ");
    let sa = c.bounce_a.format_size();
    extend_str(v, sa.as_str());
    extend_str(v, "\n");
    extend_str(v, "  B: ");
    let sb = c.bounce_b.format_size();
    extend_str(v, sb.as_str());
    extend_str(v, "\n");
    let d = c.size_diff();
    push_size_diff_line(v, d);
    assert(v@ =~= start + size_section(*c));
}

fn push_format_section(v: &mut Vec<char>, c: &BounceComparison)
    ensures
        final(v)@ == old(v)@ + format_section(*c),
{
    let ghost start = v@;
    extend_str(v, "\nFormat:\n");
    extend_str(v, "  A: ");
    extend_str(v, c.bounce_a.format.debug_name());
    extend_str(v, "\n");
    extend_str(v, "  B: ");
    extend_str(v, c.bounce_b.format.debug_name());
    extend_str(v, "\n");
    let ghost mid = v@;
    if c.bounce_a.sample_rate.is_some() || c.bounce_b.sample_rate.is_some() {
        extend_str(v, "\nSample Rate:\n");
        extend_str(v, "  A: ");
        push_rate(v, c.bounce_a.sample_rate);
        extend_str(v, " Hz\n");
        extend_str(v, "  B: ");
        push_rate(v, c.bounce_b.sample_rate);
        extend_str(v, " Hz\n");
        assert(v@ =~= mid + ("\nSample Rate:\n"@ + "  A: "@ + rate_text(c.bounce_a.sample_rate) + " Hz\n"@
            + "  B: "@ + rate_text(c.bounce_b.sample_rate) + " Hz\n"@));
    } else {
        assert(v@ =~= mid + Seq::<char>::empty());
    }
    assert(v@ =~= start + format_section(*c));
}

/// The contents of an optional text.
pub open spec fn str_opt_view(o: Option<&str>) -> Option<Seq<char>> {
    match o {
        Some(s) => Some(s@),
        None => None,
    }
}

/// The `Debug` name of an audio format.
pub open spec fn format_debug_name(f: AudioFormat) -> Seq<char> {
    match f {
        AudioFormat::Wav => "Wav"@,
        AudioFormat::Aiff => "Aiff"@,
        AudioFormat::Mp3 => "Mp3"@,
        AudioFormat::Flac => "Flac"@,
        AudioFormat::M4a => "M4a"@,
    }
}

impl AudioFormat {
    /// The `Debug` name of the format.
    pub fn debug_name(&self) -> (s: &'static str)
        ensures
            s@ == format_debug_name(*self),
    {
        match self {
            AudioFormat::Wav => "Wav",
            AudioFormat::Aiff => "Aiff",
            AudioFormat::Mp3 => "Mp3",
            AudioFormat::Flac => "Flac",
            AudioFormat::M4a => "M4a",
        }
    }
}

/// The lines naming the two bounces of a comparison.
pub open spec fn report_head(c: BounceComparison) -> Seq<char> {
    "Bounce A: "@ + c.bounce_a.original_filename@ + " (commit "@ + byte_prefix(c.bounce_a.commit_id@, 8) + ")\n"@
        + "Bounce B: "@ + c.bounce_b.original_filename@ + " (commit "@ + byte_prefix(c.bounce_b.commit_id@, 8)
        + ")\n\n"@
}

/// The duration section of a report, from the durations as shown.
pub open spec fn duration_section(a: Seq<char>, b: Seq<char>, diff: Option<Seq<char>>) -> Seq<char> {
    "Duration:\n"@ + "  A: "@ + a + "\n"@ + "  B: "@ + b + "\n"@ + match diff {
        Some(d) => "  Diff: "@ + d + "\n"@,
        None => Seq::empty(),
    }
}

/// How much larger B is than A, as the report shows it: in MB with two
/// decimals from a million bytes either way, in KB with one from a
/// thousand, each with its sign; else in bytes.
pub open spec fn size_diff_line(d: int) -> Seq<char> {
    let sign = if d >= 0 {
        "+"@
    } else {
        "-"@
    };
    let mag: nat = if d >= 0 {
        d as nat
    } else {
        (-d) as nat
    };
    if mag >= 1_000_000 {
        "  Diff: "@ + sign + hundredths_text(rounded_printed(mag, 10_000, 200)) + " MB\n"@
    } else if mag >= 1_000 {
        "  Diff: "@ + sign + tenths_text(rounded_printed(mag, 100, 20)) + " KB\n"@
    } else {
        "  Diff: "@ + signed_decimal(d) + " bytes\n"@
    }
}

/// The size section of a report.
pub open spec fn size_section(c: BounceComparison) -> Seq<char> {
    "\nFile Size:\n"@ + "  A: "@ + size_text(c.bounce_a.size_bytes as nat) + "\n"@ + "  B: "@ + size_text(
        c.bounce_b.size_bytes as nat,
    ) + "\n"@ + size_diff_line(c.bounce_b.size_bytes - c.bounce_a.size_bytes)
}

/// A sample rate as the report shows it: its number, or `unknown`.
pub open spec fn rate_text(rate: Option<u32>) -> Seq<char> {
    match rate {
        Some(r) => decimal(r as nat),
        None => "unknown"@,
    }
}

/// The format section of a report, and the sample rates when either is
/// known.
pub open spec fn format_section(c: BounceComparison) -> Seq<char> {
    "\nFormat:\n"@ + "  A: "@ + format_debug_name(c.bounce_a.format) + "\n"@ + "  B: "@ + format_debug_name(
        c.bounce_b.format,
    ) + "\n"@ + if c.bounce_a.sample_rate is Some || c.bounce_b.sample_rate is Some {
        "\nSample Rate:\n"@ + "  A: "@ + rate_text(c.bounce_a.sample_rate) + " Hz\n"@ + "  B: "@ + rate_text(
            c.bounce_b.sample_rate,
        ) + " Hz\n"@
    } else {
        Seq::empty()
    }
}

/// The whole report on a comparison.
pub open spec fn report_text(c: BounceComparison, a: Seq<char>, b: Seq<char>, diff: Option<Seq<char>>) -> Seq<
    char,
> {
    report_head(c) + duration_section(a, b, diff) + size_section(c) + format_section(c)
}

fn push_rate(v: &mut Vec<char>, rate: Option<u32>)
    ensures
        final(v)@ == old(v)@ + rate_text(rate),
{
    match rate {
        Some(r) => push_decimal(v, r as u64),
        None => extend_str(v, "unknown"),
    }
}

fn push_size_diff_line(v: &mut Vec<char>, d: i64)
    requires
        d > i64::MIN,
    ensures
        final(v)@ == old(v)@ + size_diff_line(d as int),
{
    let ghost start = v@;
    let mag: u64 = if d >= 0 {
        d as u64
    } else {
        (-d) as u64
    };
    let ghost sign = if d >= 0 {
        "+"@
    } else {
        "-"@
    };
    extend_str(v, "  Diff: ");
    if mag >= 1_000_000 {
        if d >= 0 {
            extend_str(v, "+");
        } else {
            extend_str(v, "-");
        }
        proof {
            lemma_quotient_fits(mag, 10_000, 10_000, 200);
        }
        push_hundredths(v, round_printed(mag, 10_000, 200));
        extend_str(v, " MB\n");
        assert(v@ =~= start + ("  Diff: "@ + sign + hundredths_text(rounded_printed(mag as nat, 10_000, 200))
            + " MB\n"@));
    } else if mag >= 1_000 {
        if d >= 0 {
            extend_str(v, "+");
        } else {
            extend_str(v, "-");
        }
        push_tenths(v, round_printed(mag, 100, 20));
        extend_str(v, " KB\n");
        assert(v@ =~= start + ("  Diff: "@ + sign + tenths_text(rounded_printed(mag as nat, 100, 20))
            + " KB\n"@));
    } else {
        if d < 0 {
            extend_str(v, "-");
            push_decimal(v, mag);
            proof {
                reveal_strlit("-");
            }
            assert(v@ =~= start + "  Diff: "@ + (seq!['-'] + decimal(mag as nat)));
        } else {
            push_decimal(v, mag);
        }
        extend_str(v, " bytes\n");
        proof {
            reveal_strlit("-");
        }
        assert(v@ =~= start + ("  Diff: "@ + signed_decimal(d as int) + " bytes\n"@));
    }
}

/// `s` with every trailing copy of `suffix` removed (`str::trim_end_matches`).
pub open spec fn trim_end_all(s: Seq<char>, suffix: Seq<char>) -> Seq<char>
    decreases s.len(),
{
    if suffix.len() > 0 && suffix.len() <= s.len() && s.skip(s.len() - suffix.len()) == suffix {
        trim_end_all(s.take(s.len() - suffix.len()), suffix)
    } else {
        s
    }
}

/// What follows `prefix` on a line that starts with it.
pub open spec fn after_prefix(line: Seq<char>, prefix: Seq<char>) -> Option<Seq<char>> {
    if is_prefix(prefix, line) {
        Some(line.skip(prefix.len() as int))
    } else {
        None
    }
}

/// The value of the last line that starts with `prefix` and whose rest,
/// trimmed, reads as a number of at most `max`.
pub open spec fn last_value(lines: Seq<Seq<char>>, prefix: Seq<char>, max: nat) -> Option<nat>
    decreases lines.len(),
{
    if lines.len() == 0 {
        None
    } else {
        let here = match after_prefix(lines.last(), prefix) {
            Some(rest) => parse_uint_spec(trim_seq(rest), max),
            None => None,
        };
        match here {
            Some(v) => Some(v),
            None => last_value(lines.drop_last(), prefix, max),
        }
    }
}

/// The duration texts of the lines that start with `estimated duration:`,
/// in order: the rest trimmed, trailing ` sec` removed.
pub open spec fn duration_texts(lines: Seq<Seq<char>>) -> Seq<Seq<char>>
    decreases lines.len(),
{
    if lines.len() == 0 {
        Seq::empty()
    } else {
        let before = duration_texts(lines.drop_last());
        match after_prefix(lines.last(), "estimated duration:"@) {
            Some(rest) => before.push(trim_end_all(trim_seq(rest), " sec"@)),
            None => before,
        }
    }
}

/// What `afinfo` tells of an audio file. The duration stays text, in the
/// order the lines give it; the front end takes the last that reads as a
/// number.
#[derive(Debug, Clone)]
pub struct AudioInfo {
    pub duration_texts: Vec<String>,
    pub sample_rate: Option<u32>,
    pub bit_depth: Option<u16>,
    pub channels: Option<u8>,
}

fn trim_end_sec(v: Vec<char>) -> (r: Vec<char>)
    ensures
        r@ == trim_end_all(v@, " sec"@),
    decreases v@.len(),
{
    let suffix = chars_of(" sec");
    let n = v.len();
    let k = suffix.len();
    if k > 0 && k <= n {
        let tail = sub_chars(&v, n - k, n);
        if crate::text::chars_eq(&tail, &suffix) {
            assert(tail@ =~= v@.skip(n - k));
            let head = sub_chars(&v, 0, n - k);
            assert(head@ =~= v@.take(n - k));
            return trim_end_sec(head);
        }
        assert(tail@ =~= v@.skip(n - k));
    }
    v
}

fn rest_after(line: &[char], prefix: &str) -> (r: Option<Vec<char>>)
    ensures
        match after_prefix(line@, prefix@) {
            Some(rest) => r matches Some(v) && v@ == rest,
            None => r is None,
        },
{
    if has_prefix_str(line, prefix) {
        let n = chars_of(prefix).len();
        let v = sub_chars(line, n, line.len());
        assert(v@ =~= line@.skip(prefix@.len() as int));
        Some(v)
    } else {
        None
    }
}

/// Reads `afinfo` output: the `estimated duration:` texts, and the last
/// readable `sample rate:`, `bits per channel:` and `channels:` values.
pub fn parse_afinfo_output(output: &str) -> (info: AudioInfo)
    ensures
        crate::text::strings_view(info.duration_texts@) == duration_texts(lines_seq(output@)),
        info.sample_rate == (match last_value(lines_seq(output@), "sample rate:"@, u32::MAX as nat) {
            Some(v) => Some(v as u32),
            None => None,
        }),
        info.bit_depth == (match last_value(lines_seq(output@), "bits per channel:"@, u16::MAX as nat) {
            Some(v) => Some(v as u16),
            None => None,
        }),
        info.channels == (match last_value(lines_seq(output@), "channels:"@, u8::MAX as nat) {
            Some(v) => Some(v as u8),
            None => None,
        }),
{
    let chars = chars_of(output);
    let lines = lines_of(&chars);
    let ghost ls = views(lines@);
    let mut info = AudioInfo { duration_texts: Vec::new(), sample_rate: None, bit_depth: None, channels: None };
    let mut i: usize = 0;
    assert(ls.take(0) =~= Seq::<Seq<char>>::empty());
    while i < lines.len()
        invariant
            i <= lines@.len(),
            ls == views(lines@),
            ls == lines_seq(output@),
            crate::text::strings_view(info.duration_texts@) == duration_texts(ls.take(i as int)),
            info.sample_rate == (match last_value(ls.take(i as int), "sample rate:"@, u32::MAX as nat) {
                Some(v) => Some(v as u32),
                None => None,
            }),
            info.bit_depth == (match last_value(ls.take(i as int), "bits per channel:"@, u16::MAX as nat) {
                Some(v) => Some(v as u16),
                None => None,
            }),
            info.channels == (match last_value(ls.take(i as int), "channels:"@, u8::MAX as nat) {
                Some(v) => Some(v as u8),
                None => None,
            }),
        decreases lines@.len() - i,
    {
        let line = lines[i].as_slice();
        assert(ls.take(i + 1).drop_last() =~= ls.take(i as int));
        assert(ls.take(i + 1).last() == line@);
        match rest_after(line, "estimated duration:") {
            Some(rest) => {
                let t = trim_chars(&rest);
                let d = trim_end_sec(t);
                let ghost before = info.duration_texts@;
                info.duration_texts.push(string_from_chars(&d));
                assert(crate::text::strings_view(info.duration_texts@) =~= crate::text::strings_view(before).push(d@));
            },
            None => {},
        }
        match rest_after(line, "sample rate:") {
            Some(rest) => {
                let t = trim_chars(&rest);
                match parse_uint(&t, u32::MAX as u64) {
                    Some(v) => {
                        info.sample_rate = Some(v as u32);
                    },
                    None => {},
                }
            },
            None => {},
        }
        match rest_after(line, "bits per channel:") {
            Some(rest) => {
                let t = trim_chars(&rest);
                match parse_uint(&t, u16::MAX as u64) {
                    Some(v) => {
                        info.bit_depth = Some(v as u16);
                    },
                    None => {},
                }
            },
            None => {},
        }
        match rest_after(line, "channels:") {
            Some(rest) => {
                let t = trim_chars(&rest);
                match parse_uint(&t, u8::MAX as u64) {
                    Some(v) => {
                        info.channels = Some(v as u8);
                    },
                    None => {},
                }
            },
            None => {},
        }
        i += 1;
    }
    assert(ls.take(lines@.len() as int) =~= ls);
    info
}

} // verus!

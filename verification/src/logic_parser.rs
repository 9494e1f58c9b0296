//! Reading values out of the binary `ProjectData` file of a Logic Pro
//! project.
use vstd::prelude::*;
use vstd::utf8::{decode_utf8, valid_utf8};
use crate::text::{decimal, extend_str, push_decimal, string_from_chars};

verus! {

/// Error of the binary parser.
#[derive(Debug, Clone)]
pub struct ParseError {
    pub message: String,
}

/// The little-endian `u32` of four bytes (`u32::from_le_bytes`).
pub open spec fn le_u32(b0: u8, b1: u8, b2: u8, b3: u8) -> nat {
    b0 as nat + 256 * b1 as nat + 65536 * b2 as nat + 16777216 * b3 as nat
}

/// Four bytes read as little-endian give back the number they encode, the
/// lowest byte first: every `u32` is the reading of its own four bytes.
pub proof fn lemma_le_u32_reads_its_bytes(v: u32)
    ensures
        le_u32(
            (v % 256) as u8,
            ((v / 256) % 256) as u8,
            ((v / 65536) % 256) as u8,
            (v / 16777216) as u8,
        ) == v,
{
    let b0 = v % 256;
    let q0 = v / 256;
    let b1 = q0 % 256;
    let q1 = q0 / 256;
    let b2 = q1 % 256;
    let b3 = q1 / 256;
    assert(v == b0 + 256 * q0);
    assert(q0 == b1 + 256 * q1);
    assert(q1 == b2 + 256 * b3);
    assert(q1 == v / 65536 && b3 == v / 16777216) by {
        vstd::arithmetic::div_mod::lemma_div_denominator(v as int, 256, 256);
        vstd::arithmetic::div_mod::lemma_div_denominator(v as int, 65536, 256);
    }
    assert(b3 < 256);
}

/// The little-endian `u32` at `offset`.
pub fn read_le_u32(binary: &[u8], offset: usize) -> (v: u32)
    requires
        offset + 4 <= binary@.len(),
    ensures
        v == le_u32(binary@[offset as int], binary@[offset + 1], binary@[offset + 2], binary@[offset + 3]),
{
    let b0 = binary[offset] as u32;
    let b1 = binary[offset + 1] as u32;
    let b2 = binary[offset + 2] as u32;
    let b3 = binary[offset + 3] as u32;
    b0 + 256 * b1 + 65536 * b2 + 16777216 * b3
}

/// The message of an out-of-bounds read of a `u32`.
pub open spec fn u32_bounds_message(offset: nat) -> Seq<char> {
    "Offset "@ + decimal(offset) + " out of bounds for u32"@
}

/// Reads a little-endian `u32` at `offset`; an error if the four bytes are
/// not all in the data.
pub fn parse_u32_at_offset(binary: &[u8], offset: usize) -> (r: Result<u32, ParseError>)
    requires
        offset + 4 <= usize::MAX,
    ensures
        offset + 4 <= binary@.len() ==> r == Ok::<u32, ParseError>(
            le_u32(binary@[offset as int], binary@[offset + 1], binary@[offset + 2], binary@[offset + 3]) as u32,
        ),
        offset + 4 > binary@.len() ==> (r matches Err(e) && e.message@ == u32_bounds_message(offset as nat)),
{
    if offset + 4 > binary.len() {
        let mut m: Vec<char> = Vec::new();
        extend_str(&mut m, "Offset ");
        push_decimal(&mut m, offset as u64);
        extend_str(&mut m, " out of bounds for u32");
        return Err(ParseError { message: string_from_chars(&m) });
    }
    Ok(read_le_u32(binary, offset))
}

/// `String::from_utf8`: the text of the bytes if they are valid UTF-8.
#[verifier::external_body]
fn string_from_utf8(bytes: Vec<u8>) -> (r: Option<String>)
    ensures
        r is Some <==> valid_utf8(bytes@),
        r matches Some(s) ==> s@ == decode_utf8(bytes@),
{
    String::from_utf8(bytes).ok()
}

/// The index of the first zero byte of `s`, or its length.
pub open spec fn null_position(s: Seq<u8>) -> int
    decreases s.len(),
{
    if s.len() == 0 {
        0
    } else if s[0] == 0 {
        0
    } else {
        1 + null_position(s.drop_first())
    }
}

/// The bytes of the string at `offset`: at most `max_len` bytes, ended by
/// the first zero byte.
pub open spec fn string_bytes_at(binary: Seq<u8>, offset: nat, max_len: nat) -> Seq<u8> {
    let end = if offset + max_len < binary.len() { offset + max_len } else { binary.len() as nat };
    let slice = binary.subrange(offset as int, end as int);
    slice.take(null_position(slice))
}

proof fn lemma_null_position(s: Seq<u8>, i: int)
    requires
        0 <= i <= s.len(),
        forall|j: int| 0 <= j < i ==> s[j] != 0,
        i == s.len() || s[i] == 0,
    ensures
        null_position(s) == i,
    decreases s.len(),
{
    if s.len() > 0 && i > 0 {
        lemma_null_position(s.drop_first(), i - 1);
    }
}

/// Reads a zero-terminated UTF-8 string of at most `max_len` bytes at
/// `offset`; an error if `offset` is past the data or the bytes are not
/// valid UTF-8.
pub fn parse_string_at_offset(binary: &[u8], offset: usize, max_len: usize) -> (r: Result<String, ParseError>)
    requires
        offset + max_len <= usize::MAX,
    ensures
        offset >= binary@.len() ==> (r matches Err(e) && e.message@ == "Offset "@ + decimal(offset as nat) + " out of bounds"@),
        offset < binary@.len() ==> (r is Ok <==> valid_utf8(string_bytes_at(binary@, offset as nat, max_len as nat))),
        offset < binary@.len() ==> (r matches Err(e) ==> e.message@ == "Invalid UTF-8 in string"@),
        r matches Ok(s) ==> s@ == decode_utf8(string_bytes_at(binary@, offset as nat, max_len as nat)),
{
    if offset >= binary.len() {
        let mut m: Vec<char> = Vec::new();
        extend_str(&mut m, "Offset ");
        push_decimal(&mut m, offset as u64);
        extend_str(&mut m, " out of bounds");
        return Err(ParseError { message: string_from_chars(&m) });
    }
    let end = if offset + max_len < binary.len() { offset + max_len } else { binary.len() };
    let mut i: usize = offset;
    while i < end && binary[i] != 0
        invariant
            offset <= i <= end <= binary@.len(),
            forall|j: int| offset <= j < i ==> binary@[j] != 0,
        decreases end - i,
    {
        i += 1;
    }
    let ghost slice = binary@.subrange(offset as int, end as int);
    proof {
        lemma_null_position(slice, i - offset);
    }
    let mut bytes: Vec<u8> = Vec::new();
    let mut k: usize = offset;
    while k < i
        invariant
            offset <= k <= i <= end <= binary@.len(),
            bytes@ == binary@.subrange(offset as int, k as int),
        decreases i - k,
    {
        bytes.push(binary[k]);
        assert(binary@.subrange(offset as int, k + 1) =~= binary@.subrange(offset as int, k as int).push(binary@[k as int]));
        k += 1;
    }
    assert(bytes@ =~= slice.take(i - offset));
    match string_from_utf8(bytes) {
        Some(s) => Ok(s),
        None => Err(ParseError { message: "Invalid UTF-8 in string".to_owned() }),
    }
}

/// The Logic Pro version written in a `ProjectData` file: `Unknown` for data
/// under four bytes, `11.0.0` otherwise (the format gives no version).
pub fn detect_logic_version(binary: &[u8]) -> (r: Result<String, ParseError>)
    ensures
        r matches Ok(v) && (binary@.len() < 4 ==> v@ == "Unknown"@) && (binary@.len() >= 4 ==> v@ == "11.0.0"@),
{
    if binary.len() < 4 {
        Ok("Unknown".to_owned())
    } else {
        Ok("11.0.0".to_owned())
    }
}

/// The common sample rates.
pub open spec fn is_common_rate(v: nat) -> bool {
    v == 44100 || v == 48000 || v == 88200 || v == 96000 || v == 192000
}

/// The first sample rate found scanning the words at offsets
/// `k, k + 4, ...` below `limit`, or 48000.
pub open spec fn sample_rate_from(binary: Seq<u8>, k: nat, limit: nat) -> nat
    decreases limit + 4 - k,
{
    if k >= limit || k + 4 > binary.len() {
        48000
    } else {
        let v = le_u32(binary[k as int], binary[k + 1int], binary[k + 2int], binary[k + 3int]);
        if is_common_rate(v) {
            v
        } else {
            sample_rate_from(binary, k + 4, limit)
        }
    }
}

/// The little-endian word at offset `i`.
pub open spec fn word_at(binary: Seq<u8>, i: int) -> nat {
    le_u32(binary[i], binary[i + 1], binary[i + 2], binary[i + 3])
}

proof fn lemma_scan_finds(binary: Seq<u8>, s: nat, k: nat)
    requires
        s % 4 == 0,
        k % 4 == 0,
        s <= k,
        k + 4 < binary.len(),
        ({
            let v = word_at(binary, k as int);
            v == 44100 || v == 48000 || v == 88200 || v == 96000 || v == 192000
        }),
        forall|j: int|
            s <= j < k && j % 4 == 0 ==> {
                let v = #[trigger] word_at(binary, j);
                !(v == 44100 || v == 48000 || v == 88200 || v == 96000 || v == 192000)
            },
    ensures
        sample_rate_from(binary, s, (binary.len() - 4) as nat) == word_at(binary, k as int),
    decreases k - s,
{
    if s < k {
        assert(!is_common_rate(word_at(binary, s as int)));
        lemma_scan_finds(binary, s + 4, k);
    }
}

proof fn lemma_scan_default(binary: Seq<u8>, s: nat)
    requires
        s % 4 == 0,
        forall|j: int|
            s <= j && j + 4 < binary.len() && j % 4 == 0 ==> {
                let v = #[trigger] word_at(binary, j);
                !(v == 44100 || v == 48000 || v == 88200 || v == 96000 || v == 192000)
            },
    ensures
        sample_rate_from(binary, s, if binary.len() >= 4 { (binary.len() - 4) as nat } else { 0 }) == 48000,
    decreases binary.len() - s,
{
    let limit: nat = if binary.len() >= 4 { (binary.len() - 4) as nat } else { 0 };
    if s < limit && s + 4 <= binary.len() {
        assert(!is_common_rate(word_at(binary, s as int)));
        lemma_scan_default(binary, s + 4);
    }
}

/// The sample rate read from a `ProjectData` file is the first 4-aligned
/// word, at an offset below `len - 4`, that is one of 44100, 48000, 88200,
/// 96000 and 192000 Hz; with no such word it is 48000.
pub proof fn lemma_sample_rate_is_first_standard_rate(binary: Seq<u8>, k: nat)
    ensures
        ({
            let v = word_at(binary, k as int);
            &&& k % 4 == 0
            &&& k + 4 < binary.len()
            &&& (v == 44100 || v == 48000 || v == 88200 || v == 96000 || v == 192000)
            &&& forall|j: int|
                0 <= j < k && j % 4 == 0 ==> {
                    let w = #[trigger] word_at(binary, j);
                    !(w == 44100 || w == 48000 || w == 88200 || w == 96000 || w == 192000)
                }
        }) ==> sample_rate_from(binary, 0, (binary.len() - 4) as nat) == word_at(binary, k as int),
        (forall|j: int|
            0 <= j && j + 4 < binary.len() && j % 4 == 0 ==> {
                let w = #[trigger] word_at(binary, j);
                !(w == 44100 || w == 48000 || w == 88200 || w == 96000 || w == 192000)
            }) ==> sample_rate_from(binary, 0, if binary.len() >= 4 { (binary.len() - 4) as nat } else { 0 })
            == 48000,
{
    let v = word_at(binary, k as int);
    if k % 4 == 0 && k + 4 < binary.len() && (v == 44100 || v == 48000 || v == 88200 || v == 96000 || v
        == 192000) && forall|j: int|
        0 <= j < k && j % 4 == 0 ==> {
            let w = #[trigger] word_at(binary, j);
            !(w == 44100 || w == 48000 || w == 88200 || w == 96000 || w == 192000)
        } {
        lemma_scan_finds(binary, 0, k);
    }
    if forall|j: int|
        0 <= j && j + 4 < binary.len() && j % 4 == 0 ==> {
            let w = #[trigger] word_at(binary, j);
            !(w == 44100 || w == 48000 || w == 88200 || w == 96000 || w == 192000)
        } {
        lemma_scan_default(binary, 0);
    }
}

/// The sample rate of a `ProjectData` file, guessed: the first 4-aligned
/// little-endian word, at an offset below `len - 4`, that is a common rate
/// (44.1, 48, 88.2, 96 or 192 kHz); 48000 if there is none.
pub fn parse_sample_rate_placeholder(binary: &[u8]) -> (r: u32)
    ensures
        r == sample_rate_from(binary@, 0, if binary@.len() >= 4 { (binary@.len() - 4) as nat } else { 0 }),
{
    let limit: usize = if binary.len() >= 4 { binary.len() - 4 } else { 0 };
    let mut k: usize = 0;
    while k < limit
        invariant
            limit == (if binary@.len() >= 4 { (binary@.len() - 4) as nat } else { 0 }),
            limit + 4 <= binary@.len() || limit == 0,
            binary@.len() == binary.len(),
            sample_rate_from(binary@, 0, limit as nat) == sample_rate_from(binary@, k as nat, limit as nat),
        decreases limit + 4 - k,
    {
        let v = read_le_u32(binary, k);
        if v == 44100 || v == 48000 || v == 88200 || v == 96000 || v == 192000 {
            return v;
        }
        k += 4;
    }
    48000
}

/// What was found on disk of a `.logicx` package: whether the path exists
/// and is a directory, whether it has an `Alternatives` directory, and
/// whether `Alternatives/001/ProjectData` and `Alternatives/000/ProjectData`
/// exist.
#[derive(Debug, Clone, Copy, PartialEq, Eq, Structural)]
pub struct ProjectLayout {
    pub exists: bool,
    pub is_dir: bool,
    pub has_alternatives: bool,
    pub has_project_data_001: bool,
    pub has_project_data_000: bool,
}

/// High-level access to Logic Pro projects.
pub struct LogicParser {}

impl LogicParser {
    /// A package is a valid project when it is an existing directory with
    /// an `Alternatives` directory holding `001/ProjectData` or
    /// `000/ProjectData`.
    pub fn is_valid_project(layout: &ProjectLayout) -> (b: bool)
        ensures
            b == (layout.exists && layout.is_dir && layout.has_alternatives
                && (layout.has_project_data_001 || layout.has_project_data_000)),
    {
        if !layout.exists || !layout.is_dir {
            return false;
        }
        layout.has_alternatives && (layout.has_project_data_001 || layout.has_project_data_000)
    }
}

/// Which `ProjectData` file of a package to read.
#[derive(Debug, Clone, Copy, PartialEq, Eq, Structural)]
pub enum ProjectDataFile {
    /// `Alternatives/001/ProjectData`.
    First,
    /// `Alternatives/000/ProjectData`.
    Fallback,
}

/// Why a package cannot be parsed as a Logic Pro project.
#[derive(Debug, Clone, Copy, PartialEq, Eq, Structural)]
pub enum ProjectError {
    /// The path does not exist.
    Missing,
    /// The path is not a directory.
    NotADirectory,
    /// The package has no `Alternatives` directory.
    NoAlternatives,
    /// Neither `ProjectData` file is there.
    NoProjectData,
}

/// The `ProjectData` file of a package: the path must exist, be a directory
/// and hold `Alternatives`; then `001/ProjectData` is read, else
/// `000/ProjectData`; the first check that fails gives the error.
pub open spec fn project_data_choice(layout: ProjectLayout) -> Result<ProjectDataFile, ProjectError> {
    if !layout.exists {
        Err(ProjectError::Missing)
    } else if !layout.is_dir {
        Err(ProjectError::NotADirectory)
    } else if !layout.has_alternatives {
        Err(ProjectError::NoAlternatives)
    } else if layout.has_project_data_001 {
        Ok(ProjectDataFile::First)
    } else if layout.has_project_data_000 {
        Ok(ProjectDataFile::Fallback)
    } else {
        Err(ProjectError::NoProjectData)
    }
}

/// The settings read out of a `ProjectData` file. Its tempo, a
/// floating-point number, is read by the caller.
#[derive(Debug)]
pub struct ProjectSettings {
    pub sample_rate: u32,
    pub key_signature: String,
    pub time_signature: (u32, u32),
    pub bit_depth: u32,
    pub logic_version: String,
}

/// The smallest `ProjectData` file that is parsed.
pub const MIN_PROJECT_DATA_LEN: usize = 16;

impl LogicParser {
    /// Which `ProjectData` file of a package to parse, or why there is none
    /// (see [`project_data_choice`]).
    pub fn project_data_file(layout: &ProjectLayout) -> (r: Result<ProjectDataFile, ProjectError>)
        ensures
            r == project_data_choice(*layout),
    {
        if !layout.exists {
            Err(ProjectError::Missing)
        } else if !layout.is_dir {
            Err(ProjectError::NotADirectory)
        } else if !layout.has_alternatives {
            Err(ProjectError::NoAlternatives)
        } else if layout.has_project_data_001 {
            Ok(ProjectDataFile::First)
        } else if layout.has_project_data_000 {
            Ok(ProjectDataFile::Fallback)
        } else {
            Err(ProjectError::NoProjectData)
        }
    }

    /// The settings of a `ProjectData` file: an error for a file under 16
    /// bytes; else its guessed sample rate (see
    /// [`parse_sample_rate_placeholder`]), its version (`11.0.0`), and the
    /// defaults the format gives no place for: C Major, 4/4, 24 bits.
    pub fn parse(binary: &[u8]) -> (r: Result<ProjectSettings, ParseError>)
        ensures
            binary@.len() < 16 ==> (r matches Err(e) && e.message@ == "ProjectData file too small"@),
            binary@.len() >= 16 ==> (r matches Ok(p) && {
                &&& p.sample_rate == sample_rate_from(binary@, 0, (binary@.len() - 4) as nat)
                &&& p.key_signature@ == "C Major"@
                &&& p.time_signature == (4u32, 4u32)
                &&& p.bit_depth == 24
                &&& p.logic_version@ == "11.0.0"@
            }),
    {
        if binary.len() < MIN_PROJECT_DATA_LEN {
            return Err(ParseError { message: "ProjectData file too small".to_owned() });
        }
        let logic_version = match detect_logic_version(binary) {
            Ok(v) => v,
            Err(e) => return Err(e),
        };
        Ok(ProjectSettings {
            sample_rate: parse_sample_rate_placeholder(binary),
            key_signature: "C Major".to_owned(),
            time_signature: (4, 4),
            bit_depth: 24,
            logic_version,
        })
    }

    /// The version of a project from its `001/ProjectData` file: an error for
    /// a file under 16 bytes, else `11.0.0`.
    pub fn detect_version(binary: &[u8]) -> (r: Result<String, ParseError>)
        ensures
            binary@.len() < 16 ==> (r matches Err(e) && e.message@ == "ProjectData too small"@),
            binary@.len() >= 16 ==> (r matches Ok(v) && v@ == "11.0.0"@),
    {
        if binary.len() < MIN_PROJECT_DATA_LEN {
            Err(ParseError { message: "ProjectData too small".to_owned() })
        } else {
            Ok("11.0.0".to_owned())
        }
    }
}

} // verus!

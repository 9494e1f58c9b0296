//! Structured metadata for Blender project commits, embedded in commit
//! messages as `Label: value` lines after the message and parsed back.
//!
//! A formatted commit message is:
//!
//! ```text
//! <message>
//!
//! Scenes: <scene_count>
//! Objects: <object_count>
//! Render Engine: <engine>
//! Resolution: <width>x<height>
//! Tags: <tag1>, <tag2>, ...
//! ```
//!
//! with only the fields that are set.
use vstd::prelude::*;
use crate::text::{
    chars_of, decimal, digit_char, digit_to_char, extend_chars, extend_str, has_prefix_str, is_prefix,
    lines_of, lines_seq, parse_u32, parse_u32_spec, push_decimal, split_chars, split_on, string_from_chars,
    sub_chars, trim_chars, trim_seq, views,
};

verus! {

/// The contents of a [`BlenderMetadata`], with strings as character
/// sequences.
pub struct BlenderModel {
    pub message: Seq<char>,
    pub scene_count: Option<u32>,
    pub active_scene: Option<Seq<char>>,
    pub mesh_count: Option<u32>,
    pub light_count: Option<u32>,
    pub camera_count: Option<u32>,
    pub material_count: Option<u32>,
    pub object_count: Option<u32>,
    pub render_engine: Option<Seq<char>>,
    pub resolution: Option<(u32, u32)>,
    pub samples: Option<u32>,
    pub frame_start: Option<u32>,
    pub frame_end: Option<u32>,
    pub fps: Option<u32>,
    pub blender_version: Option<Seq<char>>,
    pub file_size_bytes: Option<u64>,
    pub tags: Seq<Seq<char>>,
    pub timestamp: Option<i64>,
}

/// Structured metadata for a Blender project commit.
#[derive(Debug, Clone)]
pub struct BlenderMetadata {
    /// User-provided commit message (primary description).
    pub message: String,
    /// Number of scenes in the file.
    pub scene_count: Option<u32>,
    /// Active scene name.
    pub active_scene: Option<String>,
    /// Number of mesh objects.
    pub mesh_count: Option<u32>,
    /// Number of light objects.
    pub light_count: Option<u32>,
    /// Number of camera objects.
    pub camera_count: Option<u32>,
    /// Number of materials.
    pub material_count: Option<u32>,
    /// Total number of objects (all types).
    pub object_count: Option<u32>,
    /// Render engine (e.g. "CYCLES", "EEVEE", "WORKBENCH").
    pub render_engine: Option<String>,
    /// Render resolution (width, height).
    pub resolution: Option<(u32, u32)>,
    /// Render samples.
    pub samples: Option<u32>,
    /// Animation frame start.
    pub frame_start: Option<u32>,
    /// Animation frame end.
    pub frame_end: Option<u32>,
    /// Frames per second.
    pub fps: Option<u32>,
    /// Blender version that created the file.
    pub blender_version: Option<String>,
    /// File size in bytes.
    pub file_size_bytes: Option<u64>,
    /// Tags for categorization.
    pub tags: Vec<String>,
    /// Unix timestamp (set by the daemon, not by users).
    pub timestamp: Option<i64>,
}

/// The contents of an optional string.
pub open spec fn opt_view(o: Option<String>) -> Option<Seq<char>> {
    match o {
        Some(s) => Some(s@),
        None => None,
    }
}

/// The contents of a sequence of strings.
pub open spec fn strings_view(v: Seq<String>) -> Seq<Seq<char>> {
    v.map_values(|s: String| s@)
}

impl View for BlenderMetadata {
    type V = BlenderModel;

    open spec fn view(&self) -> BlenderModel {
        BlenderModel {
            message: self.message@,
            scene_count: self.scene_count,
            active_scene: opt_view(self.active_scene),
            mesh_count: self.mesh_count,
            light_count: self.light_count,
            camera_count: self.camera_count,
            material_count: self.material_count,
            object_count: self.object_count,
            render_engine: opt_view(self.render_engine),
            resolution: self.resolution,
            samples: self.samples,
            frame_start: self.frame_start,
            frame_end: self.frame_end,
            fps: self.fps,
            blender_version: opt_view(self.blender_version),
            file_size_bytes: self.file_size_bytes,
            tags: strings_view(self.tags@),
            timestamp: self.timestamp,
        }
    }
}

/// The metadata of a message with no field set.
pub open spec fn empty_model(message: Seq<char>) -> BlenderModel {
    BlenderModel {
        message,
        scene_count: None,
        active_scene: None,
        mesh_count: None,
        light_count: None,
        camera_count: None,
        material_count: None,
        object_count: None,
        render_engine: None,
        resolution: None,
        samples: None,
        frame_start: None,
        frame_end: None,
        fps: None,
        blender_version: None,
        file_size_bytes: None,
        tags: Seq::empty(),
        timestamp: None,
    }
}

// ---------------------------------------------------------------------------
// Formatting
// ---------------------------------------------------------------------------

/// A `Label: <count>` line, if the count is set.
pub open spec fn count_line(label: Seq<char>, v: Option<u32>) -> Seq<Seq<char>> {
    match v {
        Some(n) => seq![label + decimal(n as nat)],
        None => Seq::empty(),
    }
}

/// A `Label: <text>` line, if the text is set.
pub open spec fn text_line(label: Seq<char>, v: Option<Seq<char>>) -> Seq<Seq<char>> {
    match v {
        Some(t) => seq![label + t],
        None => Seq::empty(),
    }
}

/// `parts` joined by `sep`.
pub open spec fn join(parts: Seq<Seq<char>>, sep: Seq<char>) -> Seq<char>
    decreases parts.len(),
{
    if parts.len() == 0 {
        Seq::empty()
    } else if parts.len() == 1 {
        parts[0]
    } else {
        join(parts.drop_last(), sep) + sep + parts.last()
    }
}

/// The size in hundredths of a mebibyte, rounded to nearest with ties to
/// even, as `{:.2}` rounds the exact quotient `size / 2^20`.
pub open spec fn hundredths_of_mb(size: nat) -> nat {
    let n = size * 100;
    let q = n / 1048576;
    let r = n % 1048576;
    if r > 524288 || (r == 524288 && q % 2 == 1) {
        q + 1
    } else {
        q
    }
}

/// A number of hundredths written with two decimals.
pub open spec fn two_decimals(h: nat) -> Seq<char> {
    decimal(h / 100) + seq!['.', digit_char((h % 100) / 10), digit_char(h % 10)]
}

/// The metadata lines of a commit, in order: scenes, active scene, objects,
/// meshes, lights, cameras, materials, render engine, resolution, samples,
/// frame range (when both ends are set), FPS, Blender version, file size (in
/// MB with two decimals) and tags (joined by `", "`, when there are any).
pub open spec fn metadata_lines(m: BlenderModel) -> Seq<Seq<char>> {
    count_line("Scenes: "@, m.scene_count)
    + text_line("Active Scene: "@, m.active_scene)
    + count_line("Objects: "@, m.object_count)
    + count_line("Meshes: "@, m.mesh_count)
    + count_line("Lights: "@, m.light_count)
    + count_line("Cameras: "@, m.camera_count)
    + count_line("Materials: "@, m.material_count)
    + text_line("Render Engine: "@, m.render_engine)
    + match m.resolution {
        Some((w, h)) => seq!["Resolution: "@ + decimal(w as nat) + "x"@ + decimal(h as nat)],
        None => Seq::empty(),
    }
    + count_line("Samples: "@, m.samples)
    + match (m.frame_start, m.frame_end) {
        (Some(s), Some(e)) => seq!["Frame Range: "@ + decimal(s as nat) + "-"@ + decimal(e as nat)],
        _ => Seq::empty(),
    }
    + count_line("FPS: "@, m.fps)
    + text_line("Blender Version: "@, m.blender_version)
    + match m.file_size_bytes {
        Some(size) => seq!["File Size: "@ + two_decimals(hundredths_of_mb(size as nat)) + " MB"@],
        None => Seq::empty(),
    }
    + if m.tags.len() > 0 {
        seq!["Tags: "@ + join(m.tags, ", "@)]
    } else {
        Seq::empty()
    }
}

/// The formatted commit message: the message alone when no field is set,
/// otherwise the message, a blank line, and the metadata lines.
pub open spec fn format_spec(m: BlenderModel) -> Seq<char> {
    let lines = metadata_lines(m);
    if lines.len() == 0 {
        m.message
    } else {
        m.message + "\n\n"@ + join(lines, "\n"@)
    }
}

fn push_count_line(lines: &mut Vec<Vec<char>>, label: &str, v: Option<u32>)
    ensures
        views(final(lines)@) == views(old(lines)@) + count_line(label@, v),
{
    match v {
        Some(n) => {
            let mut l = chars_of(label);
            push_decimal(&mut l, n as u64);
            lines.push(l);
        },
        None => {},
    }
    assert(views(final(lines)@) =~= views(old(lines)@) + count_line(label@, v));
}

fn push_text_line(lines: &mut Vec<Vec<char>>, label: &str, v: &Option<String>)
    ensures
        views(final(lines)@) == views(old(lines)@) + text_line(label@, opt_view(*v)),
{
    match v {
        Some(t) => {
            let mut l = chars_of(label);
            extend_str(&mut l, t.as_str());
            lines.push(l);
        },
        None => {},
    }
    assert(views(final(lines)@) =~= views(old(lines)@) + text_line(label@, opt_view(*v)));
}

/// `parts` joined by `sep`.
pub fn join_chars(parts: &Vec<Vec<char>>, sep: &str) -> (r: Vec<char>)
    ensures
        r@ == join(views(parts@), sep@),
{
    let mut r: Vec<char> = Vec::new();
    let mut i: usize = 0;
    while i < parts.len()
        invariant
            i <= parts.len(),
            r@ == join(views(parts@).take(i as int), sep@),
        decreases parts.len() - i,
    {
        let ghost before = views(parts@).take(i as int);
        if i > 0 {
            extend_str(&mut r, sep);
        }
        extend_chars(&mut r, parts[i].as_slice());
        proof {
            let after = views(parts@).take(i + 1);
            assert(after.drop_last() =~= before);
            if i == 0 {
                assert(join(before, sep@) =~= Seq::<char>::empty());
                assert(r@ =~= after[0]);
            }
        }
        i += 1;
    }
    assert(views(parts@).take(parts.len() as int) =~= views(parts@));
    r
}

/// The hundredths of a mebibyte in `size`, rounded to nearest, ties to even.
fn hundredths_mb_exec(size: u64) -> (h: u128)
    ensures
        h == hundredths_of_mb(size as nat),
{
    let n: u128 = size as u128 * 100;
    let q = n / 1048576;
    let r = n % 1048576;
    if r > 524288 || (r == 524288 && q % 2 == 1) {
        q + 1
    } else {
        q
    }
}

impl BlenderMetadata {
    /// Metadata with just a message; every other field unset.
    pub fn new(message: &str) -> (m: Self)
        ensures
            m@ == empty_model(message@),
    {
        let m = BlenderMetadata {
            message: message.to_owned(),
            scene_count: None,
            active_scene: None,
            mesh_count: None,
            light_count: None,
            camera_count: None,
            material_count: None,
            object_count: None,
            render_engine: None,
            resolution: None,
            samples: None,
            frame_start: None,
            frame_end: None,
            fps: None,
            blender_version: None,
            file_size_bytes: None,
            tags: Vec::new(),
            timestamp: None,
        };
        assert(m@.tags =~= Seq::<Seq<char>>::empty());
        m
    }

    /// Sets the scene count.
    pub fn with_scene_count(self, scene_count: u32) -> (m: Self)
        ensures
            m@ == (BlenderModel { scene_count: Some(scene_count), ..self@ }),
    {
        let mut m = self;
        m.scene_count = Some(scene_count);
        m
    }

    /// Sets the active scene name.
    pub fn with_active_scene(self, active_scene: &str) -> (m: Self)
        ensures
            m@ == (BlenderModel { active_scene: Some(active_scene@), ..self@ }),
    {
        let mut m = self;
        m.active_scene = Some(active_scene.to_owned());
        m
    }

    /// Sets the mesh count.
    pub fn with_mesh_count(self, mesh_count: u32) -> (m: Self)
        ensures
            m@ == (BlenderModel { mesh_count: Some(mesh_count), ..self@ }),
    {
        let mut m = self;
        m.mesh_count = Some(mesh_count);
        m
    }

    /// Sets the light count.
    pub fn with_light_count(self, light_count: u32) -> (m: Self)
        ensures
            m@ == (BlenderModel { light_count: Some(light_count), ..self@ }),
    {
        let mut m = self;
        m.light_count = Some(light_count);
        m
    }

    /// Sets the camera count.
    pub fn with_camera_count(self, camera_count: u32) -> (m: Self)
        ensures
            m@ == (BlenderModel { camera_count: Some(camera_count), ..self@ }),
    {
        let mut m = self;
        m.camera_count = Some(camera_count);
        m
    }

    /// Sets the material count.
    pub fn with_material_count(self, material_count: u32) -> (m: Self)
        ensures
            m@ == (BlenderModel { material_count: Some(material_count), ..self@ }),
    {
        let mut m = self;
        m.material_count = Some(material_count);
        m
    }

    /// Sets the total object count.
    pub fn with_object_count(self, object_count: u32) -> (m: Self)
        ensures
            m@ == (BlenderModel { object_count: Some(object_count), ..self@ }),
    {
        let mut m = self;
        m.object_count = Some(object_count);
        m
    }

    /// Sets the render engine.
    pub fn with_render_engine(self, render_engine: &str) -> (m: Self)
        ensures
            m@ == (BlenderModel { render_engine: Some(render_engine@), ..self@ }),
    {
        let mut m = self;
        m.render_engine = Some(render_engine.to_owned());
        m
    }

    /// Sets the render resolution.
    pub fn with_resolution(self, width: u32, height: u32) -> (m: Self)
        ensures
            m@ == (BlenderModel { resolution: Some((width, height)), ..self@ }),
    {
        let mut m = self;
        m.resolution = Some((width, height));
        m
    }

    /// Sets the render samples.
    pub fn with_samples(self, samples: u32) -> (m: Self)
        ensures
            m@ == (BlenderModel { samples: Some(samples), ..self@ }),
    {
        let mut m = self;
        m.samples = Some(samples);
        m
    }

    /// Sets the animation frame range.
    pub fn with_frame_range(self, start: u32, end: u32) -> (m: Self)
        ensures
            m@ == (BlenderModel { frame_start: Some(start), frame_end: Some(end), ..self@ }),
    {
        let mut m = self;
        m.frame_start = Some(start);
        m.frame_end = Some(end);
        m
    }

    /// Sets the frames per second.
    pub fn with_fps(self, fps: u32) -> (m: Self)
        ensures
            m@ == (BlenderModel { fps: Some(fps), ..self@ }),
    {
        let mut m = self;
        m.fps = Some(fps);
        m
    }

    /// Sets the Blender version.
    pub fn with_blender_version(self, version: &str) -> (m: Self)
        ensures
            m@ == (BlenderModel { blender_version: Some(version@), ..self@ }),
    {
        let mut m = self;
        m.blender_version = Some(version.to_owned());
        m
    }

    /// Sets the file size.
    pub fn with_file_size(self, file_size_bytes: u64) -> (m: Self)
        ensures
            m@ == (BlenderModel { file_size_bytes: Some(file_size_bytes), ..self@ }),
    {
        let mut m = self;
        m.file_size_bytes = Some(file_size_bytes);
        m
    }

    /// Adds a tag.
    pub fn with_tag(self, tag: &str) -> (m: Self)
        ensures
            m@ == (BlenderModel { tags: self@.tags.push(tag@), ..self@ }),
    {
        let mut m = self;
        m.tags.push(tag.to_owned());
        assert(strings_view(m.tags@) =~= strings_view(self.tags@).push(tag@));
        m
    }

    /// The metadata lines of the commit message, in the order of
    /// [`metadata_lines`].
    fn metadata_lines_exec(&self) -> (lines: Vec<Vec<char>>)
        ensures
            views(lines@) == metadata_lines(self@),
    {
        let mut lines: Vec<Vec<char>> = Vec::new();
        push_count_line(&mut lines, "Scenes: ", self.scene_count);
        push_text_line(&mut lines, "Active Scene: ", &self.active_scene);
        push_count_line(&mut lines, "Objects: ", self.object_count);
        push_count_line(&mut lines, "Meshes: ", self.mesh_count);
        push_count_line(&mut lines, "Lights: ", self.light_count);
        push_count_line(&mut lines, "Cameras: ", self.camera_count);
        push_count_line(&mut lines, "Materials: ", self.material_count);
        push_text_line(&mut lines, "Render Engine: ", &self.render_engine);
        let ghost before_res = views(lines@);
        match self.resolution {
            Some((w, h)) => {
                let mut l = chars_of("Resolution: ");
                push_decimal(&mut l, w as u64);
                extend_str(&mut l, "x");
                push_decimal(&mut l, h as u64);
                lines.push(l);
            },
            None => {},
        }
        assert(views(lines@) =~= before_res + match self@.resolution {
            Some((w, h)) => seq!["Resolution: "@ + decimal(w as nat) + "x"@ + decimal(h as nat)],
            None => Seq::<Seq<char>>::empty(),
        });
        push_count_line(&mut lines, "Samples: ", self.samples);
        let ghost before_frames = views(lines@);
        match (self.frame_start, self.frame_end) {
            (Some(s), Some(e)) => {
                let mut l = chars_of("Frame Range: ");
                push_decimal(&mut l, s as u64);
                extend_str(&mut l, "-");
                push_decimal(&mut l, e as u64);
                lines.push(l);
            },
            _ => {},
        }
        assert(views(lines@) =~= before_frames + match (self@.frame_start, self@.frame_end) {
            (Some(s), Some(e)) => seq!["Frame Range: "@ + decimal(s as nat) + "-"@ + decimal(e as nat)],
            _ => Seq::<Seq<char>>::empty(),
        });
        push_count_line(&mut lines, "FPS: ", self.fps);
        push_text_line(&mut lines, "Blender Version: ", &self.blender_version);
        let ghost before_size = views(lines@);
        match self.file_size_bytes {
            Some(size) => {
                let h = hundredths_mb_exec(size);
                let mut l = chars_of("File Size: ");
                assert(h / 100 <= u64::MAX);
                push_decimal(&mut l, (h / 100) as u64);
                l.push('.');
                l.push(digit_to_char(((h % 100) / 10) as u64));
                l.push(digit_to_char((h % 10) as u64));
                let ghost hd = hundredths_of_mb(size as nat);
                assert(l@ =~= "File Size: "@ + two_decimals(hd));
                extend_str(&mut l, " MB");
                lines.push(l);
            },
            None => {},
        }
        assert(views(lines@) =~= before_size + match self@.file_size_bytes {
            Some(size) => seq!["File Size: "@ + two_decimals(hundredths_of_mb(size as nat)) + " MB"@],
            None => Seq::<Seq<char>>::empty(),
        });
        let ghost before_tags = views(lines@);
        if self.tags.len() > 0 {
            let mut parts: Vec<Vec<char>> = Vec::new();
            let mut i: usize = 0;
            while i < self.tags.len()
                invariant
                    i <= self.tags.len(),
                    views(parts@) =~= strings_view(self.tags@).take(i as int),
                decreases self.tags.len() - i,
            {
                let c = chars_of(self.tags[i].as_str());
                let ghost old_parts = parts@;
                parts.push(c);
                assert(views(parts@) =~= views(old_parts).push(self.tags@[i as int]@));
                assert(strings_view(self.tags@).take(i + 1) =~= strings_view(self.tags@).take(i as int).push(self.tags@[i as int]@));
                i += 1;
            }
            assert(strings_view(self.tags@).take(self.tags.len() as int) =~= strings_view(self.tags@));
            let mut l = chars_of("Tags: ");
            let j = join_chars(&parts, ", ");
            extend_chars(&mut l, &j);
            lines.push(l);
        }
        assert(views(lines@) =~= before_tags + if self@.tags.len() > 0 {
            seq!["Tags: "@ + join(self@.tags, ", "@)]
        } else {
            Seq::<Seq<char>>::empty()
        });
        lines
    }

    /// Formats the metadata as a commit message: the message, then (if any
    /// field is set) a blank line and one `Label: value` line per set field.
    pub fn format_commit_message(&self) -> (s: String)
        ensures
            s@ == format_spec(self@),
    {
        let lines = self.metadata_lines_exec();
        let mut msg = chars_of(self.message.as_str());
        if lines.len() > 0 {
            extend_str(&mut msg, "\n\n");
            let j = join_chars(&lines, "\n");
            extend_chars(&mut msg, &j);
        }
        string_from_chars(&msg)
    }
}

// ---------------------------------------------------------------------------
// Parsing
// ---------------------------------------------------------------------------

/// The state of the parser after some lines: the metadata found so far
/// (with the message lines gathered in `message`), whether a metadata line
/// has been seen, and the texts of the `File Size:` lines.
pub struct ParseState {
    pub model: BlenderModel,
    pub in_metadata: bool,
    pub size_texts: Seq<Seq<char>>,
}

/// A count after its label: the trimmed text as a `u32`, or the old value if
/// it does not parse.
pub open spec fn count_value(old: Option<u32>, rest: Seq<char>) -> Option<u32> {
    match parse_u32_spec(trim_seq(rest)) {
        Some(c) => Some(c),
        None => old,
    }
}

/// A pair `<a><sep><b>` after its label, as `u32`s, or the old value if the
/// trimmed text is not two numbers split by `sep`.
pub open spec fn pair_value(old: Option<(u32, u32)>, rest: Seq<char>, sep: char) -> Option<(u32, u32)> {
    let parts = split_on(trim_seq(rest), sep);
    if parts.len() == 2 && parse_u32_spec(parts[0]) is Some && parse_u32_spec(parts[1]) is Some {
        Some((parse_u32_spec(parts[0])->0, parse_u32_spec(parts[1])->0))
    } else {
        old
    }
}

/// The tags of a `Tags:` line: the comma-separated parts, trimmed, the empty
/// ones left out.
pub open spec fn tag_values(parts: Seq<Seq<char>>) -> Seq<Seq<char>>
    decreases parts.len(),
{
    if parts.len() == 0 {
        Seq::empty()
    } else {
        let rest = tag_values(parts.drop_last());
        let t = trim_seq(parts.last());
        if t.len() > 0 {
            rest.push(t)
        } else {
            rest
        }
    }
}

/// The line without the first `n` characters.
pub open spec fn after(line: Seq<char>, label: Seq<char>) -> Seq<char> {
    line.skip(label.len() as int)
}

/// The parser's step for one line. A line that starts with a label sets its
/// field (and marks the metadata as begun); any other non-blank line before
/// the metadata is a line of the message.
pub open spec fn parse_step(st: ParseState, line: Seq<char>) -> ParseState {
    let m = st.model;
    if is_prefix("Scenes:"@, line) {
        ParseState { model: BlenderModel { scene_count: count_value(m.scene_count, after(line, "Scenes:"@)), ..m }, in_metadata: true, ..st }
    } else if is_prefix("Active Scene:"@, line) {
        ParseState { model: BlenderModel { active_scene: Some(trim_seq(after(line, "Active Scene:"@))), ..m }, in_metadata: true, ..st }
    } else if is_prefix("Objects:"@, line) {
        ParseState { model: BlenderModel { object_count: count_value(m.object_count, after(line, "Objects:"@)), ..m }, in_metadata: true, ..st }
    } else if is_prefix("Meshes:"@, line) {
        ParseState { model: BlenderModel { mesh_count: count_value(m.mesh_count, after(line, "Meshes:"@)), ..m }, in_metadata: true, ..st }
    } else if is_prefix("Lights:"@, line) {
        ParseState { model: BlenderModel { light_count: count_value(m.light_count, after(line, "Lights:"@)), ..m }, in_metadata: true, ..st }
    } else if is_prefix("Cameras:"@, line) {
        ParseState { model: BlenderModel { camera_count: count_value(m.camera_count, after(line, "Cameras:"@)), ..m }, in_metadata: true, ..st }
    } else if is_prefix("Materials:"@, line) {
        ParseState { model: BlenderModel { material_count: count_value(m.material_count, after(line, "Materials:"@)), ..m }, in_metadata: true, ..st }
    } else if is_prefix("Render Engine:"@, line) {
        ParseState { model: BlenderModel { render_engine: Some(trim_seq(after(line, "Render Engine:"@))), ..m }, in_metadata: true, ..st }
    } else if is_prefix("Resolution:"@, line) {
        ParseState { model: BlenderModel { resolution: pair_value(m.resolution, after(line, "Resolution:"@), 'x'), ..m }, in_metadata: true, ..st }
    } else if is_prefix("Samples:"@, line) {
        ParseState { model: BlenderModel { samples: count_value(m.samples, after(line, "Samples:"@)), ..m }, in_metadata: true, ..st }
    } else if is_prefix("Frame Range:"@, line) {
        let fr = pair_value(None, after(line, "Frame Range:"@), '-');
        ParseState {
            model: match fr {
                Some((s, e)) => BlenderModel { frame_start: Some(s), frame_end: Some(e), ..m },
                None => m,
            },
            in_metadata: true,
            ..st
        }
    } else if is_prefix("FPS:"@, line) {
        ParseState { model: BlenderModel { fps: count_value(m.fps, after(line, "FPS:"@)), ..m }, in_metadata: true, ..st }
    } else if is_prefix("Blender Version:"@, line) {
        ParseState { model: BlenderModel { blender_version: Some(trim_seq(after(line, "Blender Version:"@))), ..m }, in_metadata: true, ..st }
    } else if is_prefix("File Size:"@, line) {
        ParseState { in_metadata: true, size_texts: st.size_texts.push(trim_seq(after(line, "File Size:"@))), ..st }
    } else if is_prefix("Tags:"@, line) {
        ParseState { model: BlenderModel { tags: tag_values(split_on(after(line, "Tags:"@), ',')), ..m }, in_metadata: true, ..st }
    } else if !st.in_metadata && trim_seq(line).len() > 0 {
        ParseState {
            model: BlenderModel {
                message: if m.message.len() == 0 { line } else { m.message + "\n"@ + line },
                ..m
            },
            ..st
        }
    } else {
        st
    }
}

/// The parser's state after `lines`, starting from `st`.
pub open spec fn parse_lines(st: ParseState, lines: Seq<Seq<char>>) -> ParseState
    decreases lines.len(),
{
    if lines.len() == 0 {
        st
    } else {
        parse_step(parse_lines(st, lines.drop_last()), lines.last())
    }
}

/// The state before the first line.
pub open spec fn initial_state() -> ParseState {
    ParseState { model: empty_model(Seq::empty()), in_metadata: false, size_texts: Seq::empty() }
}

/// The parser's state after all the lines of a commit message.
pub open spec fn parse_message_state(message: Seq<char>) -> ParseState {
    parse_lines(initial_state(), lines_seq(message))
}

/// `line` without `label`, if it starts with it.
fn strip_label(line: &[char], label: &str) -> (r: Option<Vec<char>>)
    ensures
        is_prefix(label@, line@) ==> (r matches Some(v) && v@ == after(line@, label@)),
        !is_prefix(label@, line@) ==> r is None,
{
    if has_prefix_str(line, label) {
        let n = chars_of(label).len();
        Some(sub_chars(line, n, line.len()))
    } else {
        None
    }
}

fn count_value_exec(old: Option<u32>, rest: &[char]) -> (r: Option<u32>)
    ensures
        r == count_value(old, rest@),
{
    let t = trim_chars(rest);
    match parse_u32(&t) {
        Some(c) => Some(c),
        None => old,
    }
}

fn pair_value_exec(old: Option<(u32, u32)>, rest: &[char], sep: char) -> (r: Option<(u32, u32)>)
    ensures
        r == pair_value(old, rest@, sep),
{
    let t = trim_chars(rest);
    let parts = split_chars(&t, sep);
    if parts.len() == 2 {
        let a = parse_u32(parts[0].as_slice());
        let b = parse_u32(parts[1].as_slice());
        match (a, b) {
            (Some(x), Some(y)) => Some((x, y)),
            _ => old,
        }
    } else {
        old
    }
}

fn tag_values_exec(parts: &Vec<Vec<char>>) -> (r: Vec<String>)
    ensures
        strings_view(r@) == tag_values(views(parts@)),
{
    let mut r: Vec<String> = Vec::new();
    let mut i: usize = 0;
    while i < parts.len()
        invariant
            i <= parts.len(),
            strings_view(r@) == tag_values(views(parts@).take(i as int)),
        decreases parts.len() - i,
    {
        let ghost before = views(parts@).take(i as int);
        let t = trim_chars(parts[i].as_slice());
        let ghost old_r = r@;
        if t.len() > 0 {
            r.push(string_from_chars(&t));
            assert(strings_view(r@) =~= strings_view(old_r).push(t@));
        }
        assert(views(parts@).take(i + 1).drop_last() =~= before);
        i += 1;
    }
    assert(views(parts@).take(parts.len() as int) =~= views(parts@));
    r
}

/// The result of parsing a commit message: the metadata, and the trimmed
/// texts of its `File Size:` lines, in order. Sizes are written in MB with
/// decimals; turning them back into bytes is floating-point work left to
/// the caller, so `metadata.file_size_bytes` is never set here.
pub struct ParsedCommitMessage {
    pub metadata: BlenderMetadata,
    pub file_size_texts: Vec<String>,
}

impl BlenderMetadata {
    /// Parses structured metadata from a commit message, line by line as
    /// [`parse_step`] says: lines that start with a field's label set that
    /// field; other non-blank lines before the first such line make up the
    /// message, joined by newlines. The `File Size:` texts are returned apart.
    pub fn parse_commit_message_parts(message: &str) -> (p: ParsedCommitMessage)
        ensures
            p.metadata@ == parse_message_state(message@).model,
            strings_view(p.file_size_texts@) == parse_message_state(message@).size_texts,
    {
        let chars = chars_of(message);
        let lines = lines_of(&chars);
        let mut m = BlenderMetadata::new("");
        let mut in_metadata = false;
        let mut sizes: Vec<String> = Vec::new();
        let mut i: usize = 0;
        proof {
            reveal_strlit("");
            assert(""@ =~= Seq::<char>::empty());
            assert(m@ == empty_model(Seq::empty()));
            assert(views(lines@).take(0) =~= Seq::<Seq<char>>::empty());
            assert(strings_view(sizes@) =~= Seq::<Seq<char>>::empty());
        }
        while i < lines.len()
            invariant
                i <= lines.len(),
                views(lines@) == lines_seq(message@),
                (ParseState { model: m@, in_metadata, size_texts: strings_view(sizes@) })
                    == parse_lines(initial_state(), views(lines@).take(i as int)),
            decreases lines.len() - i,
        {
            let line = lines[i].as_slice();
            let ghost before = views(lines@).take(i as int);
            let ghost st = ParseState { model: m@, in_metadata, size_texts: strings_view(sizes@) };
            assert(views(lines@).take(i + 1).drop_last() =~= before);
            assert(views(lines@).take(i + 1).last() == line@);
            if let Some(rest) = strip_label(line, "Scenes:") {
                m.scene_count = count_value_exec(m.scene_count, &rest);
                in_metadata = true;
            } else if let Some(rest) = strip_label(line, "Active Scene:") {
                m.active_scene = Some(string_from_chars(&trim_chars(&rest)));
                in_metadata = true;
            } else if let Some(rest) = strip_label(line, "Objects:") {
                m.object_count = count_value_exec(m.object_count, &rest);
                in_metadata = true;
            } else if let Some(rest) = strip_label(line, "Meshes:") {
                m.mesh_count = count_value_exec(m.mesh_count, &rest);
                in_metadata = true;
            } else if let Some(rest) = strip_label(line, "Lights:") {
                m.light_count = count_value_exec(m.light_count, &rest);
                in_metadata = true;
            } else if let Some(rest) = strip_label(line, "Cameras:") {
                m.camera_count = count_value_exec(m.camera_count, &rest);
                in_metadata = true;
            } else if let Some(rest) = strip_label(line, "Materials:") {
                m.material_count = count_value_exec(m.material_count, &rest);
                in_metadata = true;
            } else if let Some(rest) = strip_label(line, "Render Engine:") {
                m.render_engine = Some(string_from_chars(&trim_chars(&rest)));
                in_metadata = true;
            } else if let Some(rest) = strip_label(line, "Resolution:") {
                m.resolution = pair_value_exec(m.resolution, &rest, 'x');
                in_metadata = true;
            } else if let Some(rest) = strip_label(line, "Samples:") {
                m.samples = count_value_exec(m.samples, &rest);
                in_metadata = true;
            } else if let Some(rest) = strip_label(line, "Frame Range:") {
                match pair_value_exec(None, &rest, '-') {
                    Some((s, e)) => {
                        m.frame_start = Some(s);
                        m.frame_end = Some(e);
                    },
                    None => {},
                }
                in_metadata = true;
            } else if let Some(rest) = strip_label(line, "FPS:") {
                m.fps = count_value_exec(m.fps, &rest);
                in_metadata = true;
            } else if let Some(rest) = strip_label(line, "Blender Version:") {
                m.blender_version = Some(string_from_chars(&trim_chars(&rest)));
                in_metadata = true;
            } else if let Some(rest) = strip_label(line, "File Size:") {
                let ghost old_sizes = sizes@;
                sizes.push(string_from_chars(&trim_chars(&rest)));
                assert(strings_view(sizes@) =~= strings_view(old_sizes).push(trim_seq(after(line@, "File Size:"@))));
                in_metadata = true;
            } else if let Some(rest) = strip_label(line, "Tags:") {
                let parts = split_chars(&rest, ',');
                m.tags = tag_values_exec(&parts);
                in_metadata = true;
            } else if !in_metadata && trim_chars(line).len() > 0 {
                let mut msg = chars_of(m.message.as_str());
                if msg.len() > 0 {
                    msg.push('\n');
                }
                extend_chars(&mut msg, line);
                proof {
                    if m.message@.len() > 0 {
                        assert(msg@ =~= m.message@ + "\n"@ + line@) by {
                            reveal_strlit("\n");
                        }
                    } else {
                        assert(msg@ =~= line@);
                    }
                }
                m.message = string_from_chars(&msg);
            }
            assert((ParseState { model: m@, in_metadata, size_texts: strings_view(sizes@) })
                == parse_step(st, line@));
            i += 1;
        }
        assert(views(lines@).take(lines.len() as int) =~= views(lines@));
        ParsedCommitMessage { metadata: m, file_size_texts: sizes }
    }

    /// Parses structured metadata from a commit message, leaving the file
    /// size unset (see [`BlenderMetadata::parse_commit_message_parts`]).
    pub fn parse_commit_message(message: &str) -> (m: Self)
        ensures
            m@ == parse_message_state(message@).model,
    {
        Self::parse_commit_message_parts(message).metadata
    }
}

} // verus!

//! Parsing a formatted commit message gives back the metadata it was made
//! from: [`lemma_format_then_parse`] states when and proves it.
use vstd::prelude::*;
use crate::text::{
    all_digits, decimal, is_digit, is_prefix, is_white_space, lemma_decimal_digits,
    lemma_concat_without, lemma_parse_u32_decimal, lemma_split_on_concat, lemma_split_on_nonempty,
    lemma_split_on_without, lemma_trim_decimal, lemma_trim_leading_space, lemma_trim_unchanged,
    lemma_trimmed_ends, digit_char,
    lines_seq, split_on, strip_cr, trim_seq,
};
use crate::blender_metadata::{
    after, count_line, count_value, empty_model, format_spec, initial_state, join,
    metadata_lines, pair_value, parse_lines, parse_message_state, parse_step, tag_values,
    text_line, two_decimals, hundredths_of_mb, BlenderModel, ParseState,
};

verus! {

// ---------------------------------------------------------------------------
// Joining and splitting
// ---------------------------------------------------------------------------

/// Appending a character to the last part appends it to the joined text.
proof fn lemma_join_extend_last(p: Seq<Seq<char>>, sep: Seq<char>, c: char)
    requires
        p.len() >= 1,
    ensures
        join(p.update(p.len() - 1, p.last().push(c)), sep) == join(p, sep).push(c),
{
    let q = p.update(p.len() - 1, p.last().push(c));
    if p.len() == 1 {
        assert(q[0] == p[0].push(c));
    } else {
        assert(q.drop_last() =~= p.drop_last());
        assert(q.last() == p.last().push(c));
        assert(join(q, sep) =~= join(p, sep).push(c));
    }
}

/// Joining the pieces of a split with the delimiter gives the text back.
proof fn lemma_join_split(s: Seq<char>, d: char)
    ensures
        join(split_on(s, d), seq![d]) == s,
    decreases s.len(),
{
    if s.len() == 0 {
        assert(s =~= Seq::<char>::empty());
    } else {
        let s1 = s.drop_last();
        lemma_join_split(s1, d);
        lemma_split_on_nonempty(s1, d);
        let p = split_on(s1, d);
        if s.last() == d {
            let q = p.push(Seq::<char>::empty());
            assert(q.drop_last() =~= p);
            assert(s =~= s1 + seq![d]);
            assert(join(q, seq![d]) =~= join(p, seq![d]) + seq![d] + Seq::<char>::empty());
        } else {
            lemma_join_extend_last(p, seq![d], s.last());
            assert(s =~= s1.push(s.last()));
        }
    }
}

/// Splitting parts joined by a delimiter that none of them holds gives the
/// parts back.
proof fn lemma_split_join(parts: Seq<Seq<char>>, d: char)
    requires
        parts.len() >= 1,
        forall|i: int| 0 <= i < parts.len() ==> !(#[trigger] parts[i]).contains(d),
    ensures
        split_on(join(parts, seq![d]), d) == parts,
    decreases parts.len(),
{
    if parts.len() == 1 {
        lemma_split_on_without(parts[0], d);
        assert(seq![parts[0]] =~= parts);
    } else {
        let q = parts.drop_last();
        assert forall|i: int| 0 <= i < q.len() implies !(#[trigger] q[i]).contains(d) by {
            assert(q[i] == parts[i]);
        }
        lemma_split_join(q, d);
        assert(!parts[parts.len() - 1].contains(d));
        lemma_split_on_without(parts.last(), d);
        lemma_split_on_concat(join(q, seq![d]), parts.last(), d);
        assert(q + seq![parts.last()] =~= parts);
    }
}

// ---------------------------------------------------------------------------
// The parser over concatenated lines
// ---------------------------------------------------------------------------

/// Parsing two runs of lines one after the other.
proof fn lemma_parse_lines_concat(st: ParseState, a: Seq<Seq<char>>, b: Seq<Seq<char>>)
    ensures
        parse_lines(st, a + b) == parse_lines(parse_lines(st, a), b),
    decreases b.len(),
{
    if b.len() == 0 {
        assert(a + b =~= a);
    } else {
        lemma_parse_lines_concat(st, a, b.drop_last());
        assert((a + b).drop_last() =~= a + b.drop_last());
        assert((a + b).last() == b.last());
    }
}

/// Parsing a single line is one step.
proof fn lemma_parse_lines_one(st: ParseState, line: Seq<char>)
    ensures
        parse_lines(st, seq![line]) == parse_step(st, line),
{
    let ls = seq![line];
    assert(ls.drop_last() =~= Seq::<Seq<char>>::empty());
    assert(parse_lines(st, ls.drop_last()) == st);
    assert(ls.last() == line);
}

/// A line starts with the label of a metadata field.
pub open spec fn starts_with_label(line: Seq<char>) -> bool {
    ||| is_prefix("Scenes:"@, line)
    ||| is_prefix("Active Scene:"@, line)
    ||| is_prefix("Objects:"@, line)
    ||| is_prefix("Meshes:"@, line)
    ||| is_prefix("Lights:"@, line)
    ||| is_prefix("Cameras:"@, line)
    ||| is_prefix("Materials:"@, line)
    ||| is_prefix("Render Engine:"@, line)
    ||| is_prefix("Resolution:"@, line)
    ||| is_prefix("Samples:"@, line)
    ||| is_prefix("Frame Range:"@, line)
    ||| is_prefix("FPS:"@, line)
    ||| is_prefix("Blender Version:"@, line)
    ||| is_prefix("File Size:"@, line)
    ||| is_prefix("Tags:"@, line)
}

/// A line that starts with `a` starts with the first three characters of
/// `a`.
proof fn lemma_prefix_head(a: Seq<char>, s: Seq<char>)
    requires
        a.len() >= 3,
        is_prefix(a, s),
    ensures
        s.len() >= 3,
        s[0] == a[0],
        s[1] == a[1],
        s[2] == a[2],
{
    let t = s.take(a.len() as int);
    assert(t[0] == s[0] && t[1] == s[1] && t[2] == s[2]);
}

/// Which labels a line can start with, told by its first three characters.
proof fn lemma_label_heads(s: Seq<char>)
    ensures
        is_prefix("Scenes:"@, s) ==> s.len() >= 3 && s[0] == 'S' && s[1] == 'c' && s[2] == 'e',
        is_prefix("Active Scene:"@, s) ==> s.len() >= 3 && s[0] == 'A' && s[1] == 'c' && s[2] == 't',
        is_prefix("Objects:"@, s) ==> s.len() >= 3 && s[0] == 'O' && s[1] == 'b' && s[2] == 'j',
        is_prefix("Meshes:"@, s) ==> s.len() >= 3 && s[0] == 'M' && s[1] == 'e' && s[2] == 's',
        is_prefix("Lights:"@, s) ==> s.len() >= 3 && s[0] == 'L' && s[1] == 'i' && s[2] == 'g',
        is_prefix("Cameras:"@, s) ==> s.len() >= 3 && s[0] == 'C' && s[1] == 'a' && s[2] == 'm',
        is_prefix("Materials:"@, s) ==> s.len() >= 3 && s[0] == 'M' && s[1] == 'a' && s[2] == 't',
        is_prefix("Render Engine:"@, s) ==> s.len() >= 3 && s[0] == 'R' && s[1] == 'e' && s[2] == 'n',
        is_prefix("Resolution:"@, s) ==> s.len() >= 3 && s[0] == 'R' && s[1] == 'e' && s[2] == 's',
        is_prefix("Samples:"@, s) ==> s.len() >= 3 && s[0] == 'S' && s[1] == 'a' && s[2] == 'm',
        is_prefix("Frame Range:"@, s) ==> s.len() >= 3 && s[0] == 'F' && s[1] == 'r' && s[2] == 'a',
        is_prefix("FPS:"@, s) ==> s.len() >= 3 && s[0] == 'F' && s[1] == 'P' && s[2] == 'S',
        is_prefix("Blender Version:"@, s) ==> s.len() >= 3 && s[0] == 'B' && s[1] == 'l' && s[2] == 'e',
        is_prefix("File Size:"@, s) ==> s.len() >= 3 && s[0] == 'F' && s[1] == 'i' && s[2] == 'l',
        is_prefix("Tags:"@, s) ==> s.len() >= 3 && s[0] == 'T' && s[1] == 'a' && s[2] == 'g',
{
    reveal_strlit("Scenes:");
    reveal_strlit("Active Scene:");
    reveal_strlit("Objects:");
    reveal_strlit("Meshes:");
    reveal_strlit("Lights:");
    reveal_strlit("Cameras:");
    reveal_strlit("Materials:");
    reveal_strlit("Render Engine:");
    reveal_strlit("Resolution:");
    reveal_strlit("Samples:");
    reveal_strlit("Frame Range:");
    reveal_strlit("FPS:");
    reveal_strlit("Blender Version:");
    reveal_strlit("File Size:");
    reveal_strlit("Tags:");
    if is_prefix("Scenes:"@, s) { lemma_prefix_head("Scenes:"@, s); }
    if is_prefix("Active Scene:"@, s) { lemma_prefix_head("Active Scene:"@, s); }
    if is_prefix("Objects:"@, s) { lemma_prefix_head("Objects:"@, s); }
    if is_prefix("Meshes:"@, s) { lemma_prefix_head("Meshes:"@, s); }
    if is_prefix("Lights:"@, s) { lemma_prefix_head("Lights:"@, s); }
    if is_prefix("Cameras:"@, s) { lemma_prefix_head("Cameras:"@, s); }
    if is_prefix("Materials:"@, s) { lemma_prefix_head("Materials:"@, s); }
    if is_prefix("Render Engine:"@, s) { lemma_prefix_head("Render Engine:"@, s); }
    if is_prefix("Resolution:"@, s) { lemma_prefix_head("Resolution:"@, s); }
    if is_prefix("Samples:"@, s) { lemma_prefix_head("Samples:"@, s); }
    if is_prefix("Frame Range:"@, s) { lemma_prefix_head("Frame Range:"@, s); }
    if is_prefix("FPS:"@, s) { lemma_prefix_head("FPS:"@, s); }
    if is_prefix("Blender Version:"@, s) { lemma_prefix_head("Blender Version:"@, s); }
    if is_prefix("File Size:"@, s) { lemma_prefix_head("File Size:"@, s); }
    if is_prefix("Tags:"@, s) { lemma_prefix_head("Tags:"@, s); }
}

/// Lines of the message before any metadata: each non-blank line without a
/// label joins the message.
proof fn lemma_parse_message_lines(ps: Seq<Seq<char>>)
    requires
        forall|i: int| 0 <= i < ps.len() ==> trim_seq(#[trigger] ps[i]).len() > 0 && !starts_with_label(ps[i]),
    ensures
        parse_lines(initial_state(), ps) == (ParseState {
            model: empty_model(join(ps, "\n"@)),
            in_metadata: false,
            size_texts: Seq::empty(),
        }),
    decreases ps.len(),
{
    if ps.len() == 0 {
        assert(initial_state().model == empty_model(join(ps, "\n"@)));
    } else {
        let q = ps.drop_last();
        let l = ps.last();
        assert forall|i: int| 0 <= i < q.len() implies trim_seq(#[trigger] q[i]).len() > 0 && !starts_with_label(q[i]) by {
            assert(q[i] == ps[i]);
        }
        lemma_parse_message_lines(q);
        assert(trim_seq(ps[ps.len() - 1]).len() > 0 && !starts_with_label(ps[ps.len() - 1]));
        assert(l.len() > 0);
        if q.len() > 0 {
            assert(q[q.len() - 1] == ps[q.len() - 1]);
            assert(trim_seq(q[q.len() - 1]).len() > 0);
            assert(join(q, "\n"@).len() > 0);
        }
    }
}

// ---------------------------------------------------------------------------
// One metadata line at a time
// ---------------------------------------------------------------------------

/// A decimal holds no character other than digits.
proof fn lemma_decimal_without(n: nat, c: char)
    requires
        !is_digit(c),
    ensures
        !decimal(n).contains(c),
{
    lemma_decimal_digits(n);
    if decimal(n).contains(c) {
        let i = choose|i: int| 0 <= i < decimal(n).len() && decimal(n)[i] == c;
        assert(is_digit(decimal(n)[i]));
    }
}

/// A line made of a label, a space and a value starts with the label, and
/// after the label comes the space and the value.
proof fn lemma_label_line(label: Seq<char>, rest: Seq<char>)
    ensures
        is_prefix(label, label + seq![' '] + rest),
        after(label + seq![' '] + rest, label) == seq![' '] + rest,
{
    let s = label + seq![' '] + rest;
    assert(s.take(label.len() as int) =~= label);
    assert(s.skip(label.len() as int) =~= seq![' '] + rest);
}

/// The count written after a label reads back.
proof fn lemma_count_after(old: Option<u32>, n: u32)
    ensures
        count_value(old, seq![' '] + decimal(n as nat)) == Some(n),
{
    lemma_trim_leading_space(decimal(n as nat));
    lemma_trim_decimal(n as nat);
    lemma_parse_u32_decimal(n);
}

/// A pair `<a><sep><b>` written after a label reads back.
proof fn lemma_pair_after(old: Option<(u32, u32)>, a: u32, b: u32, sep: char)
    requires
        !is_digit(sep),
    ensures
        pair_value(old, seq![' '] + (decimal(a as nat) + seq![sep] + decimal(b as nat)), sep) == Some((a, b)),
{
    let da = decimal(a as nat);
    let db = decimal(b as nat);
    let t = da + seq![sep] + db;
    lemma_trim_leading_space(t);
    lemma_decimal_digits(a as nat);
    lemma_decimal_digits(b as nat);
    assert(is_digit(da[0]));
    assert(is_digit(db[db.len() - 1]));
    assert(t[0] == da[0]);
    assert(t.last() == db[db.len() - 1]);
    lemma_trim_unchanged(t);
    lemma_decimal_without(a as nat, sep);
    lemma_decimal_without(b as nat, sep);
    lemma_split_on_concat(da, db, sep);
    lemma_split_on_without(da, sep);
    lemma_split_on_without(db, sep);
    assert(split_on(t, sep) =~= seq![da, db]);
    lemma_parse_u32_decimal(a);
    lemma_parse_u32_decimal(b);
}

/// The `Scenes:` line sets the scene count.
proof fn lemma_scene_count_line(st: ParseState, v: Option<u32>)
    requires
        st.model.scene_count is None,
    ensures
        parse_lines(st, count_line("Scenes: "@, v)) == (ParseState {
            model: BlenderModel { scene_count: v, ..st.model },
            in_metadata: st.in_metadata || v is Some,
            ..st
        }),
{
    match v {
        Some(n) => {
            reveal_strlit("Scenes: ");
            reveal_strlit("Scenes:");
            let line = "Scenes: "@ + decimal(n as nat);
            assert(line =~= "Scenes:"@ + seq![' '] + decimal(n as nat));
            lemma_label_line("Scenes:"@, decimal(n as nat));
            lemma_label_heads(line);
            lemma_count_after(st.model.scene_count, n);
            assert(count_line("Scenes: "@, v) =~= seq![line]);
            lemma_parse_lines_one(st, line);
        },
        None => {
            assert(count_line("Scenes: "@, v) =~= Seq::<Seq<char>>::empty());
        },
    }
}

/// The `Objects:` line sets the object count.
proof fn lemma_object_count_line(st: ParseState, v: Option<u32>)
    requires
        st.model.object_count is None,
    ensures
        parse_lines(st, count_line("Objects: "@, v)) == (ParseState {
            model: BlenderModel { object_count: v, ..st.model },
            in_metadata: st.in_metadata || v is Some,
            ..st
        }),
{
    match v {
        Some(n) => {
            reveal_strlit("Objects: ");
            reveal_strlit("Objects:");
            let line = "Objects: "@ + decimal(n as nat);
            assert(line =~= "Objects:"@ + seq![' '] + decimal(n as nat));
            lemma_label_line("Objects:"@, decimal(n as nat));
            lemma_label_heads(line);
            lemma_count_after(st.model.object_count, n);
            assert(count_line("Objects: "@, v) =~= seq![line]);
            lemma_parse_lines_one(st, line);
        },
        None => {
            assert(count_line("Objects: "@, v) =~= Seq::<Seq<char>>::empty());
        },
    }
}

/// The `Meshes:` line sets the mesh count.
proof fn lemma_mesh_count_line(st: ParseState, v: Option<u32>)
    requires
        st.model.mesh_count is None,
    ensures
        parse_lines(st, count_line("Meshes: "@, v)) == (ParseState {
            model: BlenderModel { mesh_count: v, ..st.model },
            in_metadata: st.in_metadata || v is Some,
            ..st
        }),
{
    match v {
        Some(n) => {
            reveal_strlit("Meshes: ");
            reveal_strlit("Meshes:");
            let line = "Meshes: "@ + decimal(n as nat);
            assert(line =~= "Meshes:"@ + seq![' '] + decimal(n as nat));
            lemma_label_line("Meshes:"@, decimal(n as nat));
            lemma_label_heads(line);
            lemma_count_after(st.model.mesh_count, n);
            assert(count_line("Meshes: "@, v) =~= seq![line]);
            lemma_parse_lines_one(st, line);
        },
        None => {
            assert(count_line("Meshes: "@, v) =~= Seq::<Seq<char>>::empty());
        },
    }
}

/// The `Lights:` line sets the light count.
proof fn lemma_light_count_line(st: ParseState, v: Option<u32>)
    requires
        st.model.light_count is None,
    ensures
        parse_lines(st, count_line("Lights: "@, v)) == (ParseState {
            model: BlenderModel { light_count: v, ..st.model },
            in_metadata: st.in_metadata || v is Some,
            ..st
        }),
{
    match v {
        Some(n) => {
            reveal_strlit("Lights: ");
            reveal_strlit("Lights:");
            let line = "Lights: "@ + decimal(n as nat);
            assert(line =~= "Lights:"@ + seq![' '] + decimal(n as nat));
            lemma_label_line("Lights:"@, decimal(n as nat));
            lemma_label_heads(line);
            lemma_count_after(st.model.light_count, n);
            assert(count_line("Lights: "@, v) =~= seq![line]);
            lemma_parse_lines_one(st, line);
        },
        None => {
            assert(count_line("Lights: "@, v) =~= Seq::<Seq<char>>::empty());
        },
    }
}

/// The `Cameras:` line sets the camera count.
proof fn lemma_camera_count_line(st: ParseState, v: Option<u32>)
    requires
        st.model.camera_count is None,
    ensures
        parse_lines(st, count_line("Cameras: "@, v)) == (ParseState {
            model: BlenderModel { camera_count: v, ..st.model },
            in_metadata: st.in_metadata || v is Some,
            ..st
        }),
{
    match v {
        Some(n) => {
            reveal_strlit("Cameras: ");
            reveal_strlit("Cameras:");
            let line = "Cameras: "@ + decimal(n as nat);
            assert(line =~= "Cameras:"@ + seq![' '] + decimal(n as nat));
            lemma_label_line("Cameras:"@, decimal(n as nat));
            lemma_label_heads(line);
            lemma_count_after(st.model.camera_count, n);
            assert(count_line("Cameras: "@, v) =~= seq![line]);
            lemma_parse_lines_one(st, line);
        },
        None => {
            assert(count_line("Cameras: "@, v) =~= Seq::<Seq<char>>::empty());
        },
    }
}

/// The `Materials:` line sets the material count.
proof fn lemma_material_count_line(st: ParseState, v: Option<u32>)
    requires
        st.model.material_count is None,
    ensures
        parse_lines(st, count_line("Materials: "@, v)) == (ParseState {
            model: BlenderModel { material_count: v, ..st.model },
            in_metadata: st.in_metadata || v is Some,
            ..st
        }),
{
    match v {
        Some(n) => {
            reveal_strlit("Materials: ");
            reveal_strlit("Materials:");
            let line = "Materials: "@ + decimal(n as nat);
            assert(line =~= "Materials:"@ + seq![' '] + decimal(n as nat));
            lemma_label_line("Materials:"@, decimal(n as nat));
            lemma_label_heads(line);
            lemma_count_after(st.model.material_count, n);
            assert(count_line("Materials: "@, v) =~= seq![line]);
            lemma_parse_lines_one(st, line);
        },
        None => {
            assert(count_line("Materials: "@, v) =~= Seq::<Seq<char>>::empty());
        },
    }
}

/// The `Samples:` line sets the samples.
proof fn lemma_samples_line(st: ParseState, v: Option<u32>)
    requires
        st.model.samples is None,
    ensures
        parse_lines(st, count_line("Samples: "@, v)) == (ParseState {
            model: BlenderModel { samples: v, ..st.model },
            in_metadata: st.in_metadata || v is Some,
            ..st
        }),
{
    match v {
        Some(n) => {
            reveal_strlit("Samples: ");
            reveal_strlit("Samples:");
            let line = "Samples: "@ + decimal(n as nat);
            assert(line =~= "Samples:"@ + seq![' '] + decimal(n as nat));
            lemma_label_line("Samples:"@, decimal(n as nat));
            lemma_label_heads(line);
            lemma_count_after(st.model.samples, n);
            assert(count_line("Samples: "@, v) =~= seq![line]);
            lemma_parse_lines_one(st, line);
        },
        None => {
            assert(count_line("Samples: "@, v) =~= Seq::<Seq<char>>::empty());
        },
    }
}

/// The `FPS:` line sets the fps.
proof fn lemma_fps_line(st: ParseState, v: Option<u32>)
    requires
        st.model.fps is None,
    ensures
        parse_lines(st, count_line("FPS: "@, v)) == (ParseState {
            model: BlenderModel { fps: v, ..st.model },
            in_metadata: st.in_metadata || v is Some,
            ..st
        }),
{
    match v {
        Some(n) => {
            reveal_strlit("FPS: ");
            reveal_strlit("FPS:");
            let line = "FPS: "@ + decimal(n as nat);
            assert(line =~= "FPS:"@ + seq![' '] + decimal(n as nat));
            lemma_label_line("FPS:"@, decimal(n as nat));
            lemma_label_heads(line);
            lemma_count_after(st.model.fps, n);
            assert(count_line("FPS: "@, v) =~= seq![line]);
            lemma_parse_lines_one(st, line);
        },
        None => {
            assert(count_line("FPS: "@, v) =~= Seq::<Seq<char>>::empty());
        },
    }
}

/// The `Active Scene:` line sets the active scene.
proof fn lemma_active_scene_line(st: ParseState, v: Option<Seq<char>>)
    requires
        st.model.active_scene is None,
        v matches Some(t) ==> trim_seq(t) == t,
    ensures
        parse_lines(st, text_line("Active Scene: "@, v)) == (ParseState {
            model: BlenderModel { active_scene: v, ..st.model },
            in_metadata: st.in_metadata || v is Some,
            ..st
        }),
{
    match v {
        Some(t) => {
            reveal_strlit("Active Scene: ");
            reveal_strlit("Active Scene:");
            let line = "Active Scene: "@ + t;
            assert(line =~= "Active Scene:"@ + seq![' '] + t);
            lemma_label_line("Active Scene:"@, t);
            lemma_label_heads(line);
            lemma_trim_leading_space(t);
            assert(text_line("Active Scene: "@, v) =~= seq![line]);
            lemma_parse_lines_one(st, line);
        },
        None => {
            assert(text_line("Active Scene: "@, v) =~= Seq::<Seq<char>>::empty());
        },
    }
}

/// The `Render Engine:` line sets the render engine.
proof fn lemma_render_engine_line(st: ParseState, v: Option<Seq<char>>)
    requires
        st.model.render_engine is None,
        v matches Some(t) ==> trim_seq(t) == t,
    ensures
        parse_lines(st, text_line("Render Engine: "@, v)) == (ParseState {
            model: BlenderModel { render_engine: v, ..st.model },
            in_metadata: st.in_metadata || v is Some,
            ..st
        }),
{
    match v {
        Some(t) => {
            reveal_strlit("Render Engine: ");
            reveal_strlit("Render Engine:");
            let line = "Render Engine: "@ + t;
            assert(line =~= "Render Engine:"@ + seq![' '] + t);
            lemma_label_line("Render Engine:"@, t);
            lemma_label_heads(line);
            lemma_trim_leading_space(t);
            assert(text_line("Render Engine: "@, v) =~= seq![line]);
            lemma_parse_lines_one(st, line);
        },
        None => {
            assert(text_line("Render Engine: "@, v) =~= Seq::<Seq<char>>::empty());
        },
    }
}

/// The `Blender Version:` line sets the blender version.
proof fn lemma_blender_version_line(st: ParseState, v: Option<Seq<char>>)
    requires
        st.model.blender_version is None,
        v matches Some(t) ==> trim_seq(t) == t,
    ensures
        parse_lines(st, text_line("Blender Version: "@, v)) == (ParseState {
            model: BlenderModel { blender_version: v, ..st.model },
            in_metadata: st.in_metadata || v is Some,
            ..st
        }),
{
    match v {
        Some(t) => {
            reveal_strlit("Blender Version: ");
            reveal_strlit("Blender Version:");
            let line = "Blender Version: "@ + t;
            assert(line =~= "Blender Version:"@ + seq![' '] + t);
            lemma_label_line("Blender Version:"@, t);
            lemma_label_heads(line);
            lemma_trim_leading_space(t);
            assert(text_line("Blender Version: "@, v) =~= seq![line]);
            lemma_parse_lines_one(st, line);
        },
        None => {
            assert(text_line("Blender Version: "@, v) =~= Seq::<Seq<char>>::empty());
        },
    }
}

/// The `Resolution:` line sets the resolution.
proof fn lemma_resolution_line(st: ParseState, v: Option<(u32, u32)>)
    requires
        st.model.resolution is None,
    ensures
        parse_lines(
            st,
            match v {
                Some((w, h)) => seq!["Resolution: "@ + decimal(w as nat) + "x"@ + decimal(h as nat)],
                None => Seq::<Seq<char>>::empty(),
            },
        ) == (ParseState {
            model: BlenderModel { resolution: v, ..st.model },
            in_metadata: st.in_metadata || v is Some,
            ..st
        }),
{
    match v {
        Some((w, h)) => {
            reveal_strlit("Resolution: ");
            reveal_strlit("Resolution:");
            reveal_strlit("x");
            let rest = decimal(w as nat) + seq!['x'] + decimal(h as nat);
            let line = "Resolution: "@ + decimal(w as nat) + "x"@ + decimal(h as nat);
            assert(line =~= "Resolution:"@ + seq![' '] + rest);
            lemma_label_line("Resolution:"@, rest);
            lemma_label_heads(line);
            lemma_pair_after(st.model.resolution, w, h, 'x');
            lemma_parse_lines_one(st, line);
        },
        None => {},
    }
}

/// The `Frame Range:` line sets both ends of the frame range.
proof fn lemma_frame_range_line(st: ParseState, start: Option<u32>, end: Option<u32>)
    requires
        st.model.frame_start is None,
        st.model.frame_end is None,
        start is Some <==> end is Some,
    ensures
        parse_lines(
            st,
            match (start, end) {
                (Some(s), Some(e)) => seq!["Frame Range: "@ + decimal(s as nat) + "-"@ + decimal(e as nat)],
                _ => Seq::<Seq<char>>::empty(),
            },
        ) == (ParseState {
            model: BlenderModel { frame_start: start, frame_end: end, ..st.model },
            in_metadata: st.in_metadata || start is Some,
            ..st
        }),
{
    match (start, end) {
        (Some(a), Some(b)) => {
            reveal_strlit("Frame Range: ");
            reveal_strlit("Frame Range:");
            reveal_strlit("-");
            let rest = decimal(a as nat) + seq!['-'] + decimal(b as nat);
            let line = "Frame Range: "@ + decimal(a as nat) + "-"@ + decimal(b as nat);
            assert(line =~= "Frame Range:"@ + seq![' '] + rest);
            lemma_label_line("Frame Range:"@, rest);
            lemma_label_heads(line);
            lemma_pair_after(None, a, b, '-');
            lemma_parse_lines_one(st, line);
        },
        _ => {},
    }
}

/// The texts of the `File Size:` lines of formatted metadata with this file
/// size: the size in MB with two decimals, then ` MB`.
pub open spec fn size_texts_of(v: Option<u64>) -> Seq<Seq<char>> {
    match v {
        Some(size) => seq![two_decimals(hundredths_of_mb(size as nat)) + " MB"@],
        None => Seq::empty(),
    }
}

/// The `File Size:` line hands its text over.
proof fn lemma_file_size_line(st: ParseState, v: Option<u64>)
    ensures
        parse_lines(
            st,
            match v {
                Some(size) => seq!["File Size: "@ + two_decimals(hundredths_of_mb(size as nat)) + " MB"@],
                None => Seq::<Seq<char>>::empty(),
            },
        ) == (ParseState {
            in_metadata: st.in_metadata || v is Some,
            size_texts: st.size_texts + size_texts_of(v),
            ..st
        }),
{
    match v {
        Some(size) => {
            reveal_strlit("File Size: ");
            reveal_strlit("File Size:");
            reveal_strlit(" MB");
            let h = hundredths_of_mb(size as nat);
            let tx = two_decimals(h) + " MB"@;
            let line = "File Size: "@ + two_decimals(h) + " MB"@;
            assert(line =~= "File Size:"@ + seq![' '] + tx);
            lemma_label_line("File Size:"@, tx);
            lemma_label_heads(line);
            lemma_decimal_digits(h / 100);
            assert(is_digit(decimal(h / 100)[0]));
            assert(tx[0] == decimal(h / 100)[0]);
            assert(tx.last() == 'B');
            lemma_trim_unchanged(tx);
            lemma_trim_leading_space(tx);
            lemma_parse_lines_one(st, line);
            assert(st.size_texts.push(tx) =~= st.size_texts + size_texts_of(v));
        },
        None => {
            assert(st.size_texts + size_texts_of(v) =~= st.size_texts);
        },
    }
}

/// A tag that can be written on a `Tags:` line and read back: not empty,
/// no white space at either end, and no comma or newline.
pub open spec fn tag_round_trips(t: Seq<char>) -> bool {
    &&& t.len() > 0
    &&& trim_seq(t) == t
    &&& !t.contains(',')
    &&& !t.contains('\n')
}

/// A leading space adds no other character.
proof fn lemma_space_then_without(t: Seq<char>, c: char)
    requires
        !t.contains(c),
        c != ' ',
    ensures
        !(seq![' '] + t).contains(c),
{
    let s = seq![' '] + t;
    if s.contains(c) {
        let i = choose|i: int| 0 <= i < s.len() && s[i] == c;
        assert(i > 0);
        assert(t[i - 1] == c);
    }
}

/// The tags of a `Tags:` line, split at the commas, each with the space
/// that the `", "` separator leaves before it.
proof fn lemma_split_tags(tags: Seq<Seq<char>>)
    requires
        tags.len() >= 1,
        forall|i: int| 0 <= i < tags.len() ==> !(#[trigger] tags[i]).contains(','),
    ensures
        split_on(seq![' '] + join(tags, ", "@), ',') == tags.map_values(|t: Seq<char>| seq![' '] + t),
    decreases tags.len(),
{
    reveal_strlit(", ");
    let last = tags[tags.len() - 1];
    lemma_space_then_without(last, ',');
    lemma_split_on_without(seq![' '] + last, ',');
    if tags.len() == 1 {
        assert(seq![' '] + join(tags, ", "@) =~= seq![' '] + last);
        assert(tags.map_values(|t: Seq<char>| seq![' '] + t) =~= seq![seq![' '] + last]);
    } else {
        let q = tags.drop_last();
        assert forall|i: int| 0 <= i < q.len() implies !(#[trigger] q[i]).contains(',') by {
            assert(q[i] == tags[i]);
        }
        lemma_split_tags(q);
        let a = seq![' '] + join(q, ", "@);
        let b = seq![' '] + last;
        assert(seq![' '] + join(tags, ", "@) =~= a + seq![','] + b);
        lemma_split_on_concat(a, b, ',');
        assert(q.map_values(|t: Seq<char>| seq![' '] + t).push(b) =~= tags.map_values(|t: Seq<char>| seq![' '] + t));
    }
}

/// Trimming the spaced tags and keeping the non-empty ones gives the tags.
proof fn lemma_tag_values_spaced(tags: Seq<Seq<char>>)
    requires
        forall|i: int| 0 <= i < tags.len() ==> tag_round_trips(#[trigger] tags[i]),
    ensures
        tag_values(tags.map_values(|t: Seq<char>| seq![' '] + t)) == tags,
    decreases tags.len(),
{
    let p = tags.map_values(|t: Seq<char>| seq![' '] + t);
    if tags.len() == 0 {
        assert(tags =~= Seq::<Seq<char>>::empty());
    } else {
        let q = tags.drop_last();
        assert forall|i: int| 0 <= i < q.len() implies tag_round_trips(#[trigger] q[i]) by {
            assert(q[i] == tags[i]);
        }
        lemma_tag_values_spaced(q);
        assert(p.drop_last() =~= q.map_values(|t: Seq<char>| seq![' '] + t));
        let last = tags[tags.len() - 1];
        assert(tag_round_trips(last));
        lemma_trim_leading_space(last);
        assert(p.last() == seq![' '] + last);
        assert(q.push(last) =~= tags);
    }
}

/// The `Tags:` line sets the tags.
proof fn lemma_tags_line(st: ParseState, tags: Seq<Seq<char>>)
    requires
        st.model.tags.len() == 0,
        forall|i: int| 0 <= i < tags.len() ==> tag_round_trips(#[trigger] tags[i]),
    ensures
        parse_lines(
            st,
            if tags.len() > 0 {
                seq!["Tags: "@ + join(tags, ", "@)]
            } else {
                Seq::<Seq<char>>::empty()
            },
        ) == (ParseState {
            model: BlenderModel { tags, ..st.model },
            in_metadata: st.in_metadata || tags.len() > 0,
            ..st
        }),
{
    if tags.len() > 0 {
        reveal_strlit("Tags: ");
        reveal_strlit("Tags:");
        let rest = join(tags, ", "@);
        let line = "Tags: "@ + rest;
        assert(line =~= "Tags:"@ + seq![' '] + rest);
        lemma_label_line("Tags:"@, rest);
        lemma_label_heads(line);
        lemma_split_tags(tags);
        lemma_tag_values_spaced(tags);
        lemma_parse_lines_one(st, line);
    } else {
        assert(st.model.tags =~= tags);
    }
}

// ---------------------------------------------------------------------------
// All the metadata lines, and the whole message
// ---------------------------------------------------------------------------

/// An optional text field that can be written on its line and read back:
/// no white space at either end, and no newline.
pub open spec fn text_round_trips(v: Option<Seq<char>>) -> bool {
    v matches Some(t) ==> trim_seq(t) == t && !t.contains('\n')
}

/// Parsing the metadata lines of `m`, from a state with no field set yet,
/// sets every field of `m` except the file size, whose text is handed over.
proof fn lemma_parse_metadata_lines(st: ParseState, m: BlenderModel)
    requires
        st.model == empty_model(st.model.message),
        text_round_trips(m.active_scene),
        text_round_trips(m.render_engine),
        text_round_trips(m.blender_version),
        forall|i: int| 0 <= i < m.tags.len() ==> tag_round_trips(#[trigger] m.tags[i]),
        m.frame_start is Some <==> m.frame_end is Some,
    ensures
        parse_lines(st, metadata_lines(m)) == (ParseState {
            model: BlenderModel { message: st.model.message, file_size_bytes: None, timestamp: None, ..m },
            in_metadata: st.in_metadata || metadata_lines(m).len() > 0,
            size_texts: st.size_texts + size_texts_of(m.file_size_bytes),
        }),
{
    let s1 = count_line("Scenes: "@, m.scene_count);
    let s2 = text_line("Active Scene: "@, m.active_scene);
    let s3 = count_line("Objects: "@, m.object_count);
    let s4 = count_line("Meshes: "@, m.mesh_count);
    let s5 = count_line("Lights: "@, m.light_count);
    let s6 = count_line("Cameras: "@, m.camera_count);
    let s7 = count_line("Materials: "@, m.material_count);
    let s8 = text_line("Render Engine: "@, m.render_engine);
    let s9 = match m.resolution {
        Some((w, h)) => seq!["Resolution: "@ + decimal(w as nat) + "x"@ + decimal(h as nat)],
        None => Seq::<Seq<char>>::empty(),
    };
    let s10 = count_line("Samples: "@, m.samples);
    let s11 = match (m.frame_start, m.frame_end) {
        (Some(a), Some(b)) => seq!["Frame Range: "@ + decimal(a as nat) + "-"@ + decimal(b as nat)],
        _ => Seq::<Seq<char>>::empty(),
    };
    let s12 = count_line("FPS: "@, m.fps);
    let s13 = text_line("Blender Version: "@, m.blender_version);
    let s14 = match m.file_size_bytes {
        Some(size) => seq!["File Size: "@ + two_decimals(hundredths_of_mb(size as nat)) + " MB"@],
        None => Seq::<Seq<char>>::empty(),
    };
    let s15 = if m.tags.len() > 0 {
        seq!["Tags: "@ + join(m.tags, ", "@)]
    } else {
        Seq::<Seq<char>>::empty()
    };
    let a2 = s1 + s2;
    let a3 = a2 + s3;
    let a4 = a3 + s4;
    let a5 = a4 + s5;
    let a6 = a5 + s6;
    let a7 = a6 + s7;
    let a8 = a7 + s8;
    let a9 = a8 + s9;
    let a10 = a9 + s10;
    let a11 = a10 + s11;
    let a12 = a11 + s12;
    let a13 = a12 + s13;
    let a14 = a13 + s14;
    assert(metadata_lines(m) == a14 + s15);

    lemma_scene_count_line(st, m.scene_count);
    let p1 = parse_lines(st, s1);
    lemma_active_scene_line(p1, m.active_scene);
    lemma_parse_lines_concat(st, s1, s2);
    let p2 = parse_lines(p1, s2);
    lemma_object_count_line(p2, m.object_count);
    lemma_parse_lines_concat(st, a2, s3);
    let p3 = parse_lines(p2, s3);
    lemma_mesh_count_line(p3, m.mesh_count);
    lemma_parse_lines_concat(st, a3, s4);
    let p4 = parse_lines(p3, s4);
    lemma_light_count_line(p4, m.light_count);
    lemma_parse_lines_concat(st, a4, s5);
    let p5 = parse_lines(p4, s5);
    lemma_camera_count_line(p5, m.camera_count);
    lemma_parse_lines_concat(st, a5, s6);
    let p6 = parse_lines(p5, s6);
    lemma_material_count_line(p6, m.material_count);
    lemma_parse_lines_concat(st, a6, s7);
    let p7 = parse_lines(p6, s7);
    lemma_render_engine_line(p7, m.render_engine);
    lemma_parse_lines_concat(st, a7, s8);
    let p8 = parse_lines(p7, s8);
    lemma_resolution_line(p8, m.resolution);
    lemma_parse_lines_concat(st, a8, s9);
    let p9 = parse_lines(p8, s9);
    lemma_samples_line(p9, m.samples);
    lemma_parse_lines_concat(st, a9, s10);
    let p10 = parse_lines(p9, s10);
    lemma_frame_range_line(p10, m.frame_start, m.frame_end);
    lemma_parse_lines_concat(st, a10, s11);
    let p11 = parse_lines(p10, s11);
    lemma_fps_line(p11, m.fps);
    lemma_parse_lines_concat(st, a11, s12);
    let p12 = parse_lines(p11, s12);
    lemma_blender_version_line(p12, m.blender_version);
    lemma_parse_lines_concat(st, a12, s13);
    let p13 = parse_lines(p12, s13);
    lemma_file_size_line(p13, m.file_size_bytes);
    lemma_parse_lines_concat(st, a13, s14);
    let p14 = parse_lines(p13, s14);
    lemma_tags_line(p14, m.tags);
    lemma_parse_lines_concat(st, a14, s15);
}

/// A line that `str::lines` gives back unchanged inside a longer text: not
/// empty, without a newline, and not ending with a carriage return.
pub open spec fn plain_line(l: Seq<char>) -> bool {
    &&& l.len() > 0
    &&& !l.contains('\n')
    &&& l.last() != '\r'
}

/// Parts joined by a separator hold no character that neither holds.
proof fn lemma_join_without(parts: Seq<Seq<char>>, sep: Seq<char>, c: char)
    requires
        !sep.contains(c),
        forall|i: int| 0 <= i < parts.len() ==> !(#[trigger] parts[i]).contains(c),
    ensures
        !join(parts, sep).contains(c),
    decreases parts.len(),
{
    if parts.len() == 0 {
        assert(!Seq::<char>::empty().contains(c));
    } else if parts.len() == 1 {
        assert(!parts[0].contains(c));
    } else {
        let q = parts.drop_last();
        assert forall|i: int| 0 <= i < q.len() implies !(#[trigger] q[i]).contains(c) by {
            assert(q[i] == parts[i]);
        }
        lemma_join_without(q, sep, c);
        assert(!parts[parts.len() - 1].contains(c));
        lemma_concat_without(join(q, sep), sep, c);
        lemma_concat_without(join(q, sep) + sep, parts.last(), c);
    }
}

/// Parts joined by a separator end as the last part ends.
proof fn lemma_join_last(parts: Seq<Seq<char>>, sep: Seq<char>)
    requires
        parts.len() >= 1,
        parts.last().len() > 0,
    ensures
        join(parts, sep).len() > 0,
        join(parts, sep).last() == parts.last().last(),
{
}

/// Every line of a run is plain.
pub open spec fn all_plain(ls: Seq<Seq<char>>) -> bool {
    forall|i: int| 0 <= i < ls.len() ==> plain_line(#[trigger] ls[i])
}

/// Two runs of plain lines make one.
proof fn lemma_all_plain_concat(a: Seq<Seq<char>>, b: Seq<Seq<char>>)
    requires
        all_plain(a),
        all_plain(b),
    ensures
        all_plain(a + b),
{
    assert forall|i: int| 0 <= i < (a + b).len() implies plain_line(#[trigger] (a + b)[i]) by {
        if i < a.len() {
            assert((a + b)[i] == a[i]);
        } else {
            assert((a + b)[i] == b[i - a.len()]);
        }
    }
}

/// A label as it stands before its value: ends with a space, no newline.
pub open spec fn label_ok(l: Seq<char>) -> bool {
    &&& l.len() > 0
    &&& l.last() == ' '
    &&& !l.contains('\n')
}

/// A label, a space and a value make a plain line when the value holds no
/// newline and does not end with a carriage return.
proof fn lemma_label_value_plain(label_sp: Seq<char>, v: Seq<char>)
    requires
        label_ok(label_sp),
        !v.contains('\n'),
        v.len() > 0 ==> v.last() != '\r',
    ensures
        all_plain(seq![label_sp + v]),
{
    lemma_concat_without(label_sp, v, '\n');
    if v.len() == 0 {
        assert(label_sp + v =~= label_sp);
    }
}

/// A decimal ends with a digit and holds no newline.
proof fn lemma_decimal_plain(n: nat)
    ensures
        decimal(n).len() > 0,
        decimal(n).last() != '\r',
        !decimal(n).contains('\n'),
{
    lemma_decimal_digits(n);
    assert(is_digit(decimal(n)[decimal(n).len() - 1]));
    lemma_decimal_without(n, '\n');
}

/// A count line is plain.
proof fn lemma_count_plain(label_sp: Seq<char>, v: Option<u32>)
    requires
        label_ok(label_sp),
    ensures
        all_plain(count_line(label_sp, v)),
{
    match v {
        Some(n) => {
            lemma_decimal_plain(n as nat);
            lemma_label_value_plain(label_sp, decimal(n as nat));
        },
        None => {},
    }
}

/// A text line is plain.
proof fn lemma_text_plain(label_sp: Seq<char>, v: Option<Seq<char>>)
    requires
        label_ok(label_sp),
        text_round_trips(v),
    ensures
        all_plain(text_line(label_sp, v)),
{
    match v {
        Some(t) => {
            if t.len() > 0 {
                lemma_trimmed_ends(t);
            }
            lemma_label_value_plain(label_sp, t);
        },
        None => {},
    }
}

/// Two decimals joined by a one-character separator hold no newline.
proof fn lemma_pair_plain(a: nat, sep: Seq<char>, b: nat)
    requires
        !sep.contains('\n'),
    ensures
        !(decimal(a) + sep + decimal(b)).contains('\n'),
        (decimal(a) + sep + decimal(b)).len() > 0,
        (decimal(a) + sep + decimal(b)).last() != '\r',
{
    lemma_decimal_plain(a);
    lemma_decimal_plain(b);
    lemma_concat_without(decimal(a), sep, '\n');
    lemma_concat_without(decimal(a) + sep, decimal(b), '\n');
}

/// A size in MB with two decimals holds no newline.
proof fn lemma_size_text_plain(h: nat)
    ensures
        !(two_decimals(h) + " MB"@).contains('\n'),
        (two_decimals(h) + " MB"@).len() > 0,
        (two_decimals(h) + " MB"@).last() != '\r',
{
    reveal_strlit(" MB");
    lemma_decimal_plain(h / 100);
    let tail = seq!['.', digit_char((h % 100) / 10), digit_char(h % 10)];
    assert(!tail.contains('\n')) by {
        if tail.contains('\n') {
            let i = choose|i: int| 0 <= i < tail.len() && tail[i] == '\n';
            assert(i == 0 || i == 1 || i == 2);
        }
    }
    lemma_concat_without(decimal(h / 100), tail, '\n');
    assert(!" MB"@.contains('\n')) by {
        if " MB"@.contains('\n') {
            let i = choose|i: int| 0 <= i < " MB"@.len() && " MB"@[i] == '\n';
            assert(i == 0 || i == 1 || i == 2);
        }
    }
    lemma_concat_without(two_decimals(h), " MB"@, '\n');
}

proof fn lemma_label_ok_scenes()
    ensures
        label_ok("Scenes: "@),
{
    reveal_strlit("Scenes: ");
    assert(!"Scenes: "@.contains('\n')) by {
        if "Scenes: "@.contains('\n') {
            let i = choose|i: int| 0 <= i < "Scenes: "@.len() && "Scenes: "@[i] == '\n';
            assert(i == 0 || i == 1 || i == 2 || i == 3 || i == 4 || i == 5 || i == 6 || i == 7);
        }
    }
}

proof fn lemma_label_ok_active_scene()
    ensures
        label_ok("Active Scene: "@),
{
    reveal_strlit("Active Scene: ");
    assert(!"Active Scene: "@.contains('\n')) by {
        if "Active Scene: "@.contains('\n') {
            let i = choose|i: int| 0 <= i < "Active Scene: "@.len() && "Active Scene: "@[i] == '\n';
            assert(i == 0 || i == 1 || i == 2 || i == 3 || i == 4 || i == 5 || i == 6 || i == 7 || i == 8 || i == 9 || i == 10 || i == 11 || i == 12 || i == 13);
        }
    }
}

proof fn lemma_label_ok_objects()
    ensures
        label_ok("Objects: "@),
{
    reveal_strlit("Objects: ");
    assert(!"Objects: "@.contains('\n')) by {
        if "Objects: "@.contains('\n') {
            let i = choose|i: int| 0 <= i < "Objects: "@.len() && "Objects: "@[i] == '\n';
            assert(i == 0 || i == 1 || i == 2 || i == 3 || i == 4 || i == 5 || i == 6 || i == 7 || i == 8);
        }
    }
}

proof fn lemma_label_ok_meshes()
    ensures
        label_ok("Meshes: "@),
{
    reveal_strlit("Meshes: ");
    assert(!"Meshes: "@.contains('\n')) by {
        if "Meshes: "@.contains('\n') {
            let i = choose|i: int| 0 <= i < "Meshes: "@.len() && "Meshes: "@[i] == '\n';
            assert(i == 0 || i == 1 || i == 2 || i == 3 || i == 4 || i == 5 || i == 6 || i == 7);
        }
    }
}

proof fn lemma_label_ok_lights()
    ensures
        label_ok("Lights: "@),
{
    reveal_strlit("Lights: ");
    assert(!"Lights: "@.contains('\n')) by {
        if "Lights: "@.contains('\n') {
            let i = choose|i: int| 0 <= i < "Lights: "@.len() && "Lights: "@[i] == '\n';
            assert(i == 0 || i == 1 || i == 2 || i == 3 || i == 4 || i == 5 || i == 6 || i == 7);
        }
    }
}

proof fn lemma_label_ok_cameras()
    ensures
        label_ok("Cameras: "@),
{
    reveal_strlit("Cameras: ");
    assert(!"Cameras: "@.contains('\n')) by {
        if "Cameras: "@.contains('\n') {
            let i = choose|i: int| 0 <= i < "Cameras: "@.len() && "Cameras: "@[i] == '\n';
            assert(i == 0 || i == 1 || i == 2 || i == 3 || i == 4 || i == 5 || i == 6 || i == 7 || i == 8);
        }
    }
}

proof fn lemma_label_ok_materials()
    ensures
        label_ok("Materials: "@),
{
    reveal_strlit("Materials: ");
    assert(!"Materials: "@.contains('\n')) by {
        if "Materials: "@.contains('\n') {
            let i = choose|i: int| 0 <= i < "Materials: "@.len() && "Materials: "@[i] == '\n';
            assert(i == 0 || i == 1 || i == 2 || i == 3 || i == 4 || i == 5 || i == 6 || i == 7 || i == 8 || i == 9 || i == 10);
        }
    }
}

proof fn lemma_label_ok_render_engine()
    ensures
        label_ok("Render Engine: "@),
{
    reveal_strlit("Render Engine: ");
    assert(!"Render Engine: "@.contains('\n')) by {
        if "Render Engine: "@.contains('\n') {
            let i = choose|i: int| 0 <= i < "Render Engine: "@.len() && "Render Engine: "@[i] == '\n';
            assert(i == 0 || i == 1 || i == 2 || i == 3 || i == 4 || i == 5 || i == 6 || i == 7 || i == 8 || i == 9 || i == 10 || i == 11 || i == 12 || i == 13 || i == 14);
        }
    }
}

proof fn lemma_label_ok_resolution()
    ensures
        label_ok("Resolution: "@),
{
    reveal_strlit("Resolution: ");
    assert(!"Resolution: "@.contains('\n')) by {
        if "Resolution: "@.contains('\n') {
            let i = choose|i: int| 0 <= i < "Resolution: "@.len() && "Resolution: "@[i] == '\n';
            assert(i == 0 || i == 1 || i == 2 || i == 3 || i == 4 || i == 5 || i == 6 || i == 7 || i == 8 || i == 9 || i == 10 || i == 11);
        }
    }
}

proof fn lemma_label_ok_samples()
    ensures
        label_ok("Samples: "@),
{
    reveal_strlit("Samples: ");
    assert(!"Samples: "@.contains('\n')) by {
        if "Samples: "@.contains('\n') {
            let i = choose|i: int| 0 <= i < "Samples: "@.len() && "Samples: "@[i] == '\n';
            assert(i == 0 || i == 1 || i == 2 || i == 3 || i == 4 || i == 5 || i == 6 || i == 7 || i == 8);
        }
    }
}

proof fn lemma_label_ok_frame_range()
    ensures
        label_ok("Frame Range: "@),
{
    reveal_strlit("Frame Range: ");
    assert(!"Frame Range: "@.contains('\n')) by {
        if "Frame Range: "@.contains('\n') {
            let i = choose|i: int| 0 <= i < "Frame Range: "@.len() && "Frame Range: "@[i] == '\n';
            assert(i == 0 || i == 1 || i == 2 || i == 3 || i == 4 || i == 5 || i == 6 || i == 7 || i == 8 || i == 9 || i == 10 || i == 11 || i == 12);
        }
    }
}

proof fn lemma_label_ok_fps()
    ensures
        label_ok("FPS: "@),
{
    reveal_strlit("FPS: ");
    assert(!"FPS: "@.contains('\n')) by {
        if "FPS: "@.contains('\n') {
            let i = choose|i: int| 0 <= i < "FPS: "@.len() && "FPS: "@[i] == '\n';
            assert(i == 0 || i == 1 || i == 2 || i == 3 || i == 4);
        }
    }
}

proof fn lemma_label_ok_blender_version()
    ensures
        label_ok("Blender Version: "@),
{
    reveal_strlit("Blender Version: ");
    assert(!"Blender Version: "@.contains('\n')) by {
        if "Blender Version: "@.contains('\n') {
            let i = choose|i: int| 0 <= i < "Blender Version: "@.len() && "Blender Version: "@[i] == '\n';
            assert(i == 0 || i == 1 || i == 2 || i == 3 || i == 4 || i == 5 || i == 6 || i == 7 || i == 8 || i == 9 || i == 10 || i == 11 || i == 12 || i == 13 || i == 14 || i == 15 || i == 16);
        }
    }
}

proof fn lemma_label_ok_file_size()
    ensures
        label_ok("File Size: "@),
{
    reveal_strlit("File Size: ");
    assert(!"File Size: "@.contains('\n')) by {
        if "File Size: "@.contains('\n') {
            let i = choose|i: int| 0 <= i < "File Size: "@.len() && "File Size: "@[i] == '\n';
            assert(i == 0 || i == 1 || i == 2 || i == 3 || i == 4 || i == 5 || i == 6 || i == 7 || i == 8 || i == 9 || i == 10);
        }
    }
}

proof fn lemma_label_ok_tags()
    ensures
        label_ok("Tags: "@),
{
    reveal_strlit("Tags: ");
    assert(!"Tags: "@.contains('\n')) by {
        if "Tags: "@.contains('\n') {
            let i = choose|i: int| 0 <= i < "Tags: "@.len() && "Tags: "@[i] == '\n';
            assert(i == 0 || i == 1 || i == 2 || i == 3 || i == 4 || i == 5);
        }
    }
}

/// Every metadata line of `m` is a plain line.
proof fn lemma_metadata_lines_plain(m: BlenderModel)
    requires
        text_round_trips(m.active_scene),
        text_round_trips(m.render_engine),
        text_round_trips(m.blender_version),
        forall|i: int| 0 <= i < m.tags.len() ==> tag_round_trips(#[trigger] m.tags[i]),
    ensures
        all_plain(metadata_lines(m)),
{
    let s1 = count_line("Scenes: "@, m.scene_count);
    let s2 = text_line("Active Scene: "@, m.active_scene);
    let s3 = count_line("Objects: "@, m.object_count);
    let s4 = count_line("Meshes: "@, m.mesh_count);
    let s5 = count_line("Lights: "@, m.light_count);
    let s6 = count_line("Cameras: "@, m.camera_count);
    let s7 = count_line("Materials: "@, m.material_count);
    let s8 = text_line("Render Engine: "@, m.render_engine);
    let s9 = match m.resolution {
        Some((w, h)) => seq!["Resolution: "@ + decimal(w as nat) + "x"@ + decimal(h as nat)],
        None => Seq::<Seq<char>>::empty(),
    };
    let s10 = count_line("Samples: "@, m.samples);
    let s11 = match (m.frame_start, m.frame_end) {
        (Some(a), Some(b)) => seq!["Frame Range: "@ + decimal(a as nat) + "-"@ + decimal(b as nat)],
        _ => Seq::<Seq<char>>::empty(),
    };
    let s12 = count_line("FPS: "@, m.fps);
    let s13 = text_line("Blender Version: "@, m.blender_version);
    let s14 = match m.file_size_bytes {
        Some(size) => seq!["File Size: "@ + two_decimals(hundredths_of_mb(size as nat)) + " MB"@],
        None => Seq::<Seq<char>>::empty(),
    };
    let s15 = if m.tags.len() > 0 {
        seq!["Tags: "@ + join(m.tags, ", "@)]
    } else {
        Seq::<Seq<char>>::empty()
    };
    lemma_label_ok_scenes();
    lemma_label_ok_active_scene();
    lemma_label_ok_objects();
    lemma_label_ok_meshes();
    lemma_label_ok_lights();
    lemma_label_ok_cameras();
    lemma_label_ok_materials();
    lemma_label_ok_render_engine();
    lemma_label_ok_resolution();
    lemma_label_ok_samples();
    lemma_label_ok_frame_range();
    lemma_label_ok_fps();
    lemma_label_ok_blender_version();
    lemma_label_ok_file_size();
    lemma_label_ok_tags();
    lemma_count_plain("Scenes: "@, m.scene_count);
    lemma_text_plain("Active Scene: "@, m.active_scene);
    lemma_count_plain("Objects: "@, m.object_count);
    lemma_count_plain("Meshes: "@, m.mesh_count);
    lemma_count_plain("Lights: "@, m.light_count);
    lemma_count_plain("Cameras: "@, m.camera_count);
    lemma_count_plain("Materials: "@, m.material_count);
    lemma_text_plain("Render Engine: "@, m.render_engine);
    match m.resolution {
        Some((w, h)) => {
            reveal_strlit("x");
            assert(!"x"@.contains('\n')) by {
                if "x"@.contains('\n') {
                    let i = choose|i: int| 0 <= i < "x"@.len() && "x"@[i] == '\n';
                    assert(i == 0);
                }
            }
            lemma_pair_plain(w as nat, "x"@, h as nat);
            lemma_label_value_plain("Resolution: "@, decimal(w as nat) + "x"@ + decimal(h as nat));
            assert("Resolution: "@ + decimal(w as nat) + "x"@ + decimal(h as nat)
                =~= "Resolution: "@ + (decimal(w as nat) + "x"@ + decimal(h as nat)));
        },
        None => {},
    }
    lemma_count_plain("Samples: "@, m.samples);
    match (m.frame_start, m.frame_end) {
        (Some(a), Some(b)) => {
            reveal_strlit("-");
            assert(!"-"@.contains('\n')) by {
                if "-"@.contains('\n') {
                    let i = choose|i: int| 0 <= i < "-"@.len() && "-"@[i] == '\n';
                    assert(i == 0);
                }
            }
            lemma_pair_plain(a as nat, "-"@, b as nat);
            lemma_label_value_plain("Frame Range: "@, decimal(a as nat) + "-"@ + decimal(b as nat));
            assert("Frame Range: "@ + decimal(a as nat) + "-"@ + decimal(b as nat)
                =~= "Frame Range: "@ + (decimal(a as nat) + "-"@ + decimal(b as nat)));
        },
        _ => {},
    }
    lemma_count_plain("FPS: "@, m.fps);
    lemma_text_plain("Blender Version: "@, m.blender_version);
    match m.file_size_bytes {
        Some(size) => {
            let h = hundredths_of_mb(size as nat);
            lemma_size_text_plain(h);
            lemma_label_value_plain("File Size: "@, two_decimals(h) + " MB"@);
            assert("File Size: "@ + two_decimals(h) + " MB"@ =~= "File Size: "@ + (two_decimals(h) + " MB"@));
        },
        None => {},
    }
    if m.tags.len() > 0 {
        reveal_strlit(", ");
        let t = m.tags[m.tags.len() - 1];
        assert(tag_round_trips(t));
        lemma_trimmed_ends(t);
        lemma_join_last(m.tags, ", "@);
        assert(!", "@.contains('\n')) by {
            if ", "@.contains('\n') {
                let i = choose|i: int| 0 <= i < ", "@.len() && ", "@[i] == '\n';
                assert(i == 0 || i == 1);
            }
        }
        lemma_join_without(m.tags, ", "@, '\n');
        lemma_label_value_plain("Tags: "@, join(m.tags, ", "@));
    }
    lemma_all_plain_concat(s1, s2);
    lemma_all_plain_concat(s1 + s2, s3);
    lemma_all_plain_concat(s1 + s2 + s3, s4);
    lemma_all_plain_concat(s1 + s2 + s3 + s4, s5);
    lemma_all_plain_concat(s1 + s2 + s3 + s4 + s5, s6);
    lemma_all_plain_concat(s1 + s2 + s3 + s4 + s5 + s6, s7);
    lemma_all_plain_concat(s1 + s2 + s3 + s4 + s5 + s6 + s7, s8);
    lemma_all_plain_concat(s1 + s2 + s3 + s4 + s5 + s6 + s7 + s8, s9);
    lemma_all_plain_concat(s1 + s2 + s3 + s4 + s5 + s6 + s7 + s8 + s9, s10);
    lemma_all_plain_concat(s1 + s2 + s3 + s4 + s5 + s6 + s7 + s8 + s9 + s10, s11);
    lemma_all_plain_concat(s1 + s2 + s3 + s4 + s5 + s6 + s7 + s8 + s9 + s10 + s11, s12);
    lemma_all_plain_concat(s1 + s2 + s3 + s4 + s5 + s6 + s7 + s8 + s9 + s10 + s11 + s12, s13);
    lemma_all_plain_concat(s1 + s2 + s3 + s4 + s5 + s6 + s7 + s8 + s9 + s10 + s11 + s12 + s13, s14);
    lemma_all_plain_concat(s1 + s2 + s3 + s4 + s5 + s6 + s7 + s8 + s9 + s10 + s11 + s12 + s13 + s14, s15);
}

// ---------------------------------------------------------------------------
// The round trip
// ---------------------------------------------------------------------------

/// A commit message that can be written before the metadata and read back:
/// empty, or lines (split at `'\n'`) that are neither blank nor start with a
/// field's label, and that do not end with a carriage return where
/// `str::lines` would drop it: on any line but the last, and on the last
/// too when metadata lines follow (`has_fields`).
pub open spec fn message_round_trips(msg: Seq<char>, has_fields: bool) -> bool {
    msg.len() == 0 || forall|i: int|
        0 <= i < split_on(msg, '\n').len() ==> {
            let l = #[trigger] split_on(msg, '\n')[i];
            &&& trim_seq(l).len() > 0
            &&& !starts_with_label(l)
            &&& (i < split_on(msg, '\n').len() - 1 || has_fields) ==> !(l.len() > 0 && l.last() == '\r')
        }
}

/// Metadata that a formatted commit message carries faithfully: a message
/// as [`message_round_trips`] says; text fields without white space at
/// either end and without a newline; tags that are not empty, have no white
/// space at either end and hold no comma or newline; both ends of the frame
/// range or neither; and no timestamp, which is not written.
pub open spec fn round_trips(m: BlenderModel) -> bool {
    &&& message_round_trips(m.message, metadata_lines(m).len() > 0)
    &&& text_round_trips(m.active_scene)
    &&& text_round_trips(m.render_engine)
    &&& text_round_trips(m.blender_version)
    &&& forall|i: int| 0 <= i < m.tags.len() ==> tag_round_trips(#[trigger] m.tags[i])
    &&& (m.frame_start is Some <==> m.frame_end is Some)
    &&& m.timestamp is None
}

/// The lines of a text are its pieces between newlines when the last piece
/// is not empty and no other piece ends with a carriage return.
proof fn lemma_lines_are_pieces(s: Seq<char>)
    requires
        split_on(s, '\n').last().len() > 0,
        forall|i: int|
            0 <= i < split_on(s, '\n').len() - 1 ==> !((#[trigger] split_on(s, '\n')[i]).len() > 0
                && split_on(s, '\n')[i].last() == '\r'),
    ensures
        lines_seq(s) == split_on(s, '\n'),
{
    let p = split_on(s, '\n');
    lemma_split_on_nonempty(s, '\n');
    let body = p.drop_last().map_values(|l: Seq<char>| strip_cr(l));
    assert forall|i: int| 0 <= i < body.len() implies body[i] == p.drop_last()[i] by {
        assert(p.drop_last()[i] == p[i]);
    }
    assert(body =~= p.drop_last());
    assert(body.push(p.last()) =~= p);
}

/// A blank line before any metadata changes nothing.
proof fn lemma_blank_line(st: ParseState)
    requires
        !st.in_metadata,
    ensures
        parse_lines(st, seq![Seq::<char>::empty()]) == st,
{
    lemma_label_heads(Seq::<char>::empty());
    lemma_parse_lines_one(st, Seq::<char>::empty());
}

/// The parser's state after the lines of a message that round-trips.
proof fn lemma_message_state(msg: Seq<char>, has_fields: bool)
    requires
        message_round_trips(msg, has_fields),
    ensures
        parse_lines(initial_state(), split_on(msg, '\n')) == (ParseState {
            model: empty_model(msg),
            in_metadata: false,
            size_texts: Seq::empty(),
        }),
{
    let ps = split_on(msg, '\n');
    reveal_strlit("\n");
    assert("\n"@ =~= seq!['\n']);
    if msg.len() > 0 {
        lemma_parse_message_lines(ps);
        lemma_join_split(msg, '\n');
    } else {
        assert(ps =~= seq![Seq::<char>::empty()]);
        lemma_blank_line(initial_state());
        assert(msg =~= Seq::<char>::empty());
    }
}

/// Formatting metadata as a commit message and parsing that message gives
/// the metadata back, for all metadata that [`round_trips`] admits. The one
/// field not read back is the file size: its text (the size in MB with two
/// decimals, then ` MB`) is handed over instead, for the caller to turn back
/// into bytes.
pub proof fn lemma_format_then_parse(m: BlenderModel)
    requires
        round_trips(m),
    ensures
        parse_message_state(format_spec(m)).model == (BlenderModel { file_size_bytes: None, ..m }),
        parse_message_state(format_spec(m)).size_texts == size_texts_of(m.file_size_bytes),
{
    let msg = m.message;
    let lines = metadata_lines(m);
    let ps = split_on(msg, '\n');
    lemma_split_on_nonempty(msg, '\n');
    lemma_message_state(msg, lines.len() > 0);
    let st = ParseState { model: empty_model(msg), in_metadata: false, size_texts: Seq::empty() };
    lemma_parse_metadata_lines(st, m);
    if lines.len() == 0 {
        assert(format_spec(m) == msg);
        if msg.len() > 0 {
            assert(trim_seq(ps[ps.len() - 1]).len() > 0);
            lemma_lines_are_pieces(msg);
        } else {
            assert(ps =~= seq![Seq::<char>::empty()]);
            assert(lines_seq(msg) =~= Seq::<Seq<char>>::empty());
            lemma_blank_line(initial_state());
            lemma_parse_lines_one(initial_state(), Seq::<char>::empty());
            assert(parse_lines(initial_state(), Seq::<Seq<char>>::empty()) == initial_state());
        }
        assert(parse_lines(st, lines) == st);
        assert(st.size_texts + size_texts_of(m.file_size_bytes) =~= st.size_texts);
    } else {
        reveal_strlit("\n");
        reveal_strlit("\n\n");
        assert("\n"@ =~= seq!['\n']);
        let j = join(lines, "\n"@);
        lemma_metadata_lines_plain(m);
        assert forall|i: int| 0 <= i < lines.len() implies !(#[trigger] lines[i]).contains('\n') by {
            assert(plain_line(lines[i]));
        }
        lemma_split_join(lines, '\n');
        let full = format_spec(m);
        let tail = Seq::<char>::empty() + seq!['\n'] + j;
        assert(full =~= msg + seq!['\n'] + tail);
        lemma_split_on_concat(msg, tail, '\n');
        lemma_split_on_concat(Seq::<char>::empty(), j, '\n');
        assert(split_on(Seq::<char>::empty(), '\n') =~= seq![Seq::<char>::empty()]);
        let blank = seq![Seq::<char>::empty()];
        let pieces = ps + blank + lines;
        assert(split_on(full, '\n') =~= pieces);
        assert(plain_line(lines[lines.len() - 1]));
        assert forall|i: int| 0 <= i < pieces.len() - 1 implies !((#[trigger] pieces[i]).len() > 0
            && pieces[i].last() == '\r') by {
            if i < ps.len() {
                assert(pieces[i] == ps[i]);
                if msg.len() == 0 {
                    assert(ps[i] =~= Seq::<char>::empty());
                }
            } else if i == ps.len() {
                assert(pieces[i] == Seq::<char>::empty());
            } else {
                assert(pieces[i] == lines[i - ps.len() - 1]);
                assert(plain_line(lines[i - ps.len() - 1]));
            }
        }
        lemma_lines_are_pieces(full);
        lemma_parse_lines_concat(initial_state(), ps + blank, lines);
        lemma_parse_lines_concat(initial_state(), ps, blank);
        lemma_blank_line(st);
    }
}

} // verus!

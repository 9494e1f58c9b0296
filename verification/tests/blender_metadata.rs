use auxin::blender_metadata::BlenderMetadata;

#[test]
fn test_new_basic() {
    let metadata = BlenderMetadata::new("Test commit");
    assert_eq!(metadata.message, "Test commit");
    assert_eq!(metadata.scene_count, None);
    assert_eq!(metadata.object_count, None);
    assert!(metadata.tags.is_empty());
}

#[test]
fn test_builder_pattern() {
    let metadata = BlenderMetadata::new("Test")
        .with_scene_count(3)
        .with_object_count(1247)
        .with_material_count(45)
        .with_render_engine("CYCLES")
        .with_resolution(1920, 1080)
        .with_tag("modeling")
        .with_tag("final");

    assert_eq!(metadata.scene_count, Some(3));
    assert_eq!(metadata.object_count, Some(1247));
    assert_eq!(metadata.material_count, Some(45));
    assert_eq!(metadata.render_engine, Some("CYCLES".to_string()));
    assert_eq!(metadata.resolution, Some((1920, 1080)));
    assert_eq!(metadata.tags.len(), 2);
}

#[test]
fn test_format_commit_message_complete() {
    let metadata = BlenderMetadata::new("Character rig complete")
        .with_scene_count(3)
        .with_object_count(1247)
        .with_material_count(45)
        .with_render_engine("CYCLES")
        .with_resolution(1920, 1080);

    let formatted = metadata.format_commit_message();

    assert!(formatted.contains("Character rig complete"));
    assert!(formatted.contains("Scenes: 3"));
    assert!(formatted.contains("Objects: 1247"));
    assert!(formatted.contains("Materials: 45"));
    assert!(formatted.contains("Render Engine: CYCLES"));
    assert!(formatted.contains("Resolution: 1920x1080"));
}

#[test]
fn test_format_commit_message_no_metadata() {
    let metadata = BlenderMetadata::new("Simple commit");
    let formatted = metadata.format_commit_message();

    assert_eq!(formatted, "Simple commit");
    assert!(!formatted.contains("\n\n"));
}

#[test]
fn test_parse_commit_message_complete() {
    let msg = "Final render\n\nScenes: 3\nObjects: 1247\nMaterials: 45\nRender Engine: CYCLES\nResolution: 1920x1080";
    let metadata = BlenderMetadata::parse_commit_message(msg);

    assert_eq!(metadata.message, "Final render");
    assert_eq!(metadata.scene_count, Some(3));
    assert_eq!(metadata.object_count, Some(1247));
    assert_eq!(metadata.material_count, Some(45));
    assert_eq!(metadata.render_engine, Some("CYCLES".to_string()));
    assert_eq!(metadata.resolution, Some((1920, 1080)));
}

#[test]
fn test_parse_commit_message_no_metadata() {
    let msg = "Just a message";
    let metadata = BlenderMetadata::parse_commit_message(msg);

    assert_eq!(metadata.message, "Just a message");
    assert_eq!(metadata.scene_count, None);
    assert_eq!(metadata.object_count, None);
}

#[test]
fn test_round_trip() {
    let original = BlenderMetadata::new("Round trip test")
        .with_scene_count(2)
        .with_object_count(500)
        .with_render_engine("EEVEE")
        .with_tag("test");

    let formatted = original.format_commit_message();
    let parsed = BlenderMetadata::parse_commit_message(&formatted);

    assert_eq!(parsed.message, original.message);
    assert_eq!(parsed.scene_count, original.scene_count);
    assert_eq!(parsed.object_count, original.object_count);
    assert_eq!(parsed.render_engine, original.render_engine);
    assert_eq!(parsed.tags, original.tags);
}

#[test]
fn test_file_size_formatting() {
    let metadata = BlenderMetadata::new("Large file").with_file_size(104857600); // 100 MB

    let formatted = metadata.format_commit_message();
    assert!(formatted.contains("File Size: 100.00 MB"));
}

#[test]
fn test_frame_range() {
    let metadata = BlenderMetadata::new("Animation")
        .with_frame_range(1, 250)
        .with_fps(24);

    let formatted = metadata.format_commit_message();
    assert!(formatted.contains("Frame Range: 1-250"));
    assert!(formatted.contains("FPS: 24"));
}

#[test]
fn format_commit_message_exact_text() {
    let m = BlenderMetadata::new("Shot 12 lighting")
        .with_scene_count(2)
        .with_active_scene("Main")
        .with_object_count(10)
        .with_mesh_count(7)
        .with_light_count(2)
        .with_camera_count(1)
        .with_material_count(4)
        .with_render_engine("EEVEE")
        .with_resolution(3840, 2160)
        .with_samples(64)
        .with_frame_range(1, 120)
        .with_fps(24)
        .with_blender_version("4.1.0")
        .with_file_size(1048576)
        .with_tag("lighting")
        .with_tag("wip");
    assert_eq!(
        m.format_commit_message(),
        "Shot 12 lighting\n\nScenes: 2\nActive Scene: Main\nObjects: 10\nMeshes: 7\nLights: 2\nCameras: 1\nMaterials: 4\nRender Engine: EEVEE\nResolution: 3840x2160\nSamples: 64\nFrame Range: 1-120\nFPS: 24\nBlender Version: 4.1.0\nFile Size: 1.00 MB\nTags: lighting, wip"
    );
}

#[test]
fn file_size_rounds_as_two_decimal_formatting_does() {
    for size in [0u64, 1, 5242, 5243, 10485, 10486, 15728, 26214, 52428, 104857600, 123456789, 1099511627776, u64::MAX] {
        let m = BlenderMetadata::new("x").with_file_size(size);
        let expected = format!("x\n\nFile Size: {:.2} MB", size as f64 / (1024.0 * 1024.0));
        assert_eq!(m.format_commit_message(), expected, "size {}", size);
    }
}

#[test]
fn round_trip_keeps_every_field_but_the_file_size() {
    let original = BlenderMetadata::new("Rig pass\nsecond line")
        .with_scene_count(3)
        .with_active_scene("Scene A")
        .with_object_count(1247)
        .with_mesh_count(900)
        .with_light_count(5)
        .with_camera_count(2)
        .with_material_count(45)
        .with_render_engine("CYCLES")
        .with_resolution(1920, 1080)
        .with_samples(128)
        .with_frame_range(1, 250)
        .with_fps(24)
        .with_blender_version("4.2.1")
        .with_file_size(104857600)
        .with_tag("rigging")
        .with_tag("milestone");
    let formatted = original.format_commit_message();
    let parts = BlenderMetadata::parse_commit_message_parts(&formatted);
    let parsed = parts.metadata;
    assert_eq!(parsed.message, original.message);
    assert_eq!(parsed.scene_count, original.scene_count);
    assert_eq!(parsed.active_scene, original.active_scene);
    assert_eq!(parsed.object_count, original.object_count);
    assert_eq!(parsed.mesh_count, original.mesh_count);
    assert_eq!(parsed.light_count, original.light_count);
    assert_eq!(parsed.camera_count, original.camera_count);
    assert_eq!(parsed.material_count, original.material_count);
    assert_eq!(parsed.render_engine, original.render_engine);
    assert_eq!(parsed.resolution, original.resolution);
    assert_eq!(parsed.samples, original.samples);
    assert_eq!(parsed.frame_start, original.frame_start);
    assert_eq!(parsed.frame_end, original.frame_end);
    assert_eq!(parsed.fps, original.fps);
    assert_eq!(parsed.blender_version, original.blender_version);
    assert_eq!(parsed.tags, original.tags);
    assert_eq!(parsed.file_size_bytes, None);
    assert_eq!(parts.file_size_texts, vec!["100.00 MB".to_string()]);
}

#[test]
fn parse_ignores_unparsable_values_and_late_message_lines() {
    let msg = "Title\r\n\r\nScenes: many\nObjects: 12\nnot part of the message\nResolution: 10 x 20\nFrame Range: 5-\nTags: a, , b ,\nActive Scene:   Hero  ";
    let m = BlenderMetadata::parse_commit_message(msg);
    assert_eq!(m.message, "Title");
    assert_eq!(m.scene_count, None);
    assert_eq!(m.object_count, Some(12));
    assert_eq!(m.resolution, None);
    assert_eq!(m.frame_start, None);
    assert_eq!(m.frame_end, None);
    assert_eq!(m.tags, vec!["a".to_string(), "b".to_string()]);
    assert_eq!(m.active_scene, Some("Hero".to_string()));
}

#[test]
fn parse_joins_message_lines_before_the_metadata() {
    let m = BlenderMetadata::parse_commit_message("First\n\n  \nSecond\nFPS: +30\nThird");
    assert_eq!(m.message, "First\nSecond");
    assert_eq!(m.fps, Some(30));
}

#[test]
fn parse_counts_reject_values_beyond_u32() {
    let m = BlenderMetadata::parse_commit_message("m\n\nSamples: 4294967296\nLights: 4294967295");
    assert_eq!(m.samples, None);
    assert_eq!(m.light_count, Some(4294967295));
}

use auxin::blender_project::{AssetDirs, BlenderProject};

fn detect_file(path: &str) -> BlenderProject {
    BlenderProject::detect(path, true, true, Some(path.to_string())).unwrap()
}

#[test]
fn test_ignored_patterns() {
    let patterns = BlenderProject::ignored_patterns();

    assert!(patterns.contains(&"*.blend1"));
    assert!(patterns.contains(&"*.blend2"));
    assert!(patterns.contains(&"blendcache_*/"));
    assert!(patterns.contains(&"renders/"));
    assert!(patterns.contains(&".DS_Store"));
    assert!(patterns.contains(&"__pycache__/"));

    assert!(patterns.len() >= 12);
}

#[test]
fn test_ignored_patterns_all_types() {
    let patterns = BlenderProject::ignored_patterns();

    assert!(patterns.iter().any(|p| p.ends_with('/')));
    assert!(patterns.iter().any(|p| p.contains('*')));
    assert!(patterns.iter().any(|p| !p.contains('*') && !p.ends_with('/')));
}

#[test]
fn test_detect_invalid_extension() {
    let result = BlenderProject::detect("/tmp/test_scene.txt", true, true, Some("/tmp/test_scene.txt".to_string()));
    assert!(result.is_err());
    assert!(result.unwrap_err().contains("not a Blender file"));
}

#[test]
fn test_detect_nonexistent_path() {
    let result = BlenderProject::detect("/tmp/nonexistent_12345.blend", false, false, None);
    assert!(result.is_err());
    assert!(result.unwrap_err().contains("does not exist"));
}

#[test]
fn test_detect_directory_not_file() {
    let result = BlenderProject::detect("/tmp/test_dir.blend", true, false, Some("/tmp/test_dir.blend".to_string()));
    assert!(result.is_err());
    assert!(result.unwrap_err().contains("not a file"));
}

#[test]
fn test_detect_valid_blend() {
    let project = detect_file("/tmp/blender_test/test_scene.blend");
    assert!(project.file_path.contains("test_scene.blend"));
    assert_eq!(project.project_dir, "/tmp/blender_test");
}

#[test]
fn test_project_name() {
    assert_eq!(detect_file("/tmp/blender_test/my_character.blend").name(), "my_character");
}

#[test]
fn test_project_name_with_spaces() {
    assert_eq!(detect_file("/tmp/blender_test/My Amazing Scene.blend").name(), "My Amazing Scene");
}

#[test]
fn test_tracked_paths() {
    let project = detect_file("/tmp/blender_test/track_test.blend");
    let versioned = project.tracked_paths(AssetDirs { textures: false, libraries: false, assets: false, scripts: false });
    assert!(versioned.len() >= 1);
    assert!(versioned.iter().any(|p| p.ends_with("track_test.blend")));
}

#[test]
fn tracked_paths_add_existing_asset_directories_in_order() {
    let project = detect_file("/p/scene.blend");
    let versioned = project.tracked_paths(AssetDirs { textures: true, libraries: false, assets: true, scripts: true });
    assert_eq!(versioned, vec!["/p/scene.blend", "/p/textures", "/p/assets", "/p/scripts"]);
    assert_eq!(project.asset_dir_paths(), vec!["/p/textures", "/p/libraries", "/p/assets", "/p/scripts"]);
}

#[test]
fn extensions_and_stems_follow_path_rules() {
    assert!(BlenderProject::detect("x", true, true, Some("/a/.blend".to_string())).is_err());
    assert!(BlenderProject::detect("x", true, true, Some("/a/b.BLEND".to_string())).is_err());
    assert_eq!(detect_file("/a/b.c.blend").name(), "b.c");
    assert_eq!(detect_file("/scene.blend").project_dir, "/");
    assert_eq!(
        BlenderProject::detect("rel", true, true, None).unwrap_err(),
        "Failed to canonicalize path"
    );
    assert_eq!(
        BlenderProject::detect("rel", false, true, None).unwrap_err(),
        "Path does not exist: rel"
    );
}

#[test]
fn blender_patterns_name_temporary_files() {
    let patterns = BlenderProject::ignored_patterns();
    assert!(patterns.contains(&"*.tmp"));
    assert_eq!(patterns.len(), 18);
}

#[test]
fn project_names_follow_path_file_names() {
    let paths = [
        "/work/scene.blend",
        "/work/scene.blend/",
        "/work/scene.blend/.",
        "/work/scene.blend//./",
        "scene.blend",
        "./scene.blend",
        "/",
        "",
        ".",
        "/work/..",
        "/work/.hidden",
        "/work/archive.tar.blend",
    ];
    for p in paths.iter() {
        let project = BlenderProject { file_path: p.to_string(), project_dir: String::new() };
        let expected = std::path::Path::new(p)
            .file_stem()
            .map(|s| s.to_string_lossy().into_owned())
            .unwrap_or_else(|| "Unknown".to_string());
        assert_eq!(project.name(), expected, "path {:?}", p);
    }
}

use auxin::hooks::{HookManager, HookType};

#[test]
fn test_hook_manager_creation() {
    let manager = HookManager::new("/tmp/repo");
    assert_eq!(manager.repo_path, "/tmp/repo");
}

#[test]
fn test_list_builtins() {
    let builtins = HookManager::list_builtins();

    assert!(!builtins.is_empty());
    assert!(builtins.iter().any(|h| h.name == "validate-metadata"));
    assert!(builtins.iter().any(|h| h.name == "check-file-sizes"));
}

#[test]
fn test_hook_type_dir_name() {
    assert_eq!(HookType::PreCommit.dir_name(), "pre-commit");
    assert_eq!(HookType::PostCommit.dir_name(), "post-commit");
}

#[test]
fn hook_directories_are_under_the_repository() {
    let manager = HookManager::new("/tmp/repo");
    assert_eq!(manager.hooks_dir(), "/tmp/repo/.oxen/hooks");
    assert_eq!(manager.hook_type_dir(HookType::PreCommit), "/tmp/repo/.oxen/hooks/pre-commit");
    assert_eq!(manager.hook_type_dir(HookType::PostCommit), "/tmp/repo/.oxen/hooks/post-commit");
}

#[test]
fn builtin_scripts_and_hook_files() {
    let s = HookManager::builtin_script("validate-metadata", HookType::PreCommit).unwrap();
    assert!(s.starts_with("#!/bin/bash\n# Pre-commit hook: Validate metadata"));
    assert!(HookManager::builtin_script("backup", HookType::PostCommit).unwrap().contains("tar -czf"));
    assert_eq!(
        HookManager::builtin_script("notify", HookType::PreCommit),
        Err("Unknown built-in hook: notify".to_string())
    );
    assert!(HookManager::is_hook_file("validate"));
    assert!(!HookManager::is_hook_file(".hidden"));
    assert!(!HookManager::is_hook_file("README.md"));
    assert!(!HookManager::continues_after(HookType::PreCommit, false));
    assert!(HookManager::continues_after(HookType::PostCommit, false));
    let m = HookManager::new("/repo");
    assert_eq!(m.hook_path("notify", HookType::PostCommit), "/repo/.oxen/hooks/post-commit/notify");
    assert_eq!(m.readme_path(), "/repo/.oxen/hooks/README.md");
    assert_eq!(HookManager::missing_hook_error("x"), "Hook not found: x");
}

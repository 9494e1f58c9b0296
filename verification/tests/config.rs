use auxin::config::{ColorMode, Config, EnvValues, ProjectType};

fn no_env() -> EnvValues {
    EnvValues { verbose: None, color: None, lock_timeout: None, max_retries: None, queue_dir: None, project_type: None }
}

#[test]
fn test_default_config() {
    let config = Config::default();
    assert_eq!(config.defaults.verbose, false);
    assert_eq!(config.lock.timeout_hours, 4);
    assert_eq!(config.network.max_retries, 5);
    assert_eq!(config.queue.auto_sync, true);
    assert_eq!(config.ui.progress, true);
}

#[test]
fn environment_overrides_files() {
    let mut user = Config::default();
    user.lock.timeout_hours = 8;
    let mut project = Config::default();
    project.lock.timeout_hours = 12;
    project.network.max_retries = 7;
    let env = EnvValues {
        verbose: Some("true".to_string()),
        color: Some("NEVER".to_string()),
        lock_timeout: Some("not a number".to_string()),
        max_retries: Some("9".to_string()),
        queue_dir: Some("/q".to_string()),
        project_type: Some("SketchUp".to_string()),
    };
    let c = Config::load(Some(user), Some(project), &env);
    assert!(c.defaults.verbose);
    assert_eq!(c.defaults.color, ColorMode::Never);
    assert_eq!(c.lock.timeout_hours, 12);
    assert_eq!(c.network.max_retries, 9);
    assert_eq!(c.queue.queue_dir, "/q");
    assert_eq!(c.project.project_type, ProjectType::SketchUp);
}

#[test]
fn user_file_applies_without_a_project_file() {
    let mut user = Config::default();
    user.lock.timeout_hours = 8;
    let c = Config::load(Some(user), None, &no_env());
    assert_eq!(c.lock.timeout_hours, 8);
    let d = Config::load(None, None, &no_env());
    assert_eq!(d.lock.timeout_hours, 4);
}

#[test]
fn unknown_color_is_auto_and_bad_bool_is_ignored() {
    let env = EnvValues { verbose: Some("yes".to_string()), color: Some("sometimes".to_string()), ..no_env() };
    let mut base = Config::default();
    base.defaults.color = ColorMode::Always;
    let c = Config::apply_env_values(base, &env);
    assert!(!c.defaults.verbose);
    assert_eq!(c.defaults.color, ColorMode::Auto);
}

#[test]
fn config_paths_are_under_the_directory() {
    assert_eq!(Config::config_path_under("/home/u"), "/home/u/.auxin/config.toml");
    assert_eq!(Config::config_path_under("/"), "/.auxin/config.toml");
}

#[test]
fn project_config_path_under_current_directory() {
    assert_eq!(Config::project_config_path(Some("/work/song")), Some("/work/song/.auxin/config.toml".to_string()));
    assert_eq!(Config::project_config_path(None), None);
}

#[test]
fn merge_takes_only_settings_that_differ_from_their_defaults() {
    let mut base = Config::default();
    base.lock.timeout_hours = 8;
    base.queue.queue_dir = "/base/queue".to_string();
    base.ui.emoji = false;
    let mut overlay = Config::default();
    overlay.network.max_retries = 2;
    overlay.defaults.color = ColorMode::Never;
    let c = Config::merge(base, overlay);
    assert_eq!(c.lock.timeout_hours, 8);
    assert_eq!(c.queue.queue_dir, "/base/queue");
    assert!(!c.ui.emoji);
    assert_eq!(c.network.max_retries, 2);
    assert_eq!(c.defaults.color, ColorMode::Never);

    let mut user = Config::default();
    user.lock.timeout_hours = 8;
    let mut project = Config::default();
    project.network.max_retries = 7;
    let loaded = Config::load(Some(user), Some(project), &no_env());
    assert_eq!(loaded.lock.timeout_hours, 8);
    assert_eq!(loaded.network.max_retries, 7);
}

use home_config::delete_outcome;
use home_config::HomeConfig;
use home_config::IoErrorKind;

#[test]
fn namespaced_path_concrete() {
    let config = HomeConfig::with_config_dir_in("/home/alice", "test", "file");
    assert_eq!(config.path().as_str(), "/home/alice/.config/test/file");
}

#[test]
fn namespaced_path_json_file() {
    let config = HomeConfig::with_config_dir_in("/home/alice", "test", "config.json");
    assert_eq!(config.path().as_str(), "/home/alice/.config/test/config.json");
}

#[test]
fn direct_path_concrete() {
    let config = HomeConfig::with_file_in("/home/alice", "test.json");
    assert_eq!(config.path().as_str(), "/home/alice/test.json");
}

#[test]
fn namespaced_path_under_resolved_home() {
    let config = HomeConfig::with_config_dir("test", "file");
    let path = config.path();
    assert!(path.ends_with("/.config/test/file"));
    assert!(path.len() > "/.config/test/file".len());
}

#[test]
fn direct_path_under_resolved_home() {
    let config = HomeConfig::with_file("test.json");
    let path = config.path();
    assert!(path.ends_with("/test.json"));
    assert!(path.len() > "/test.json".len());
}

#[test]
fn both_modes_share_the_resolved_home() {
    let namespaced = HomeConfig::with_config_dir("app", "file");
    let direct = HomeConfig::with_file(".config/app/file");
    assert_eq!(namespaced.path(), direct.path());
}

#[test]
fn parent_dir_of_namespaced_path() {
    let config = HomeConfig::with_config_dir_in("/home/alice", "test", "file");
    assert_eq!(
        config.parent_dir().as_deref(),
        Some("/home/alice/.config/test")
    );
}

#[test]
fn parent_dir_stops_at_final_separator() {
    let config = HomeConfig::with_file_in("/home/alice", "nested/dir/file");
    assert_eq!(config.parent_dir().as_deref(), Some("/home/alice/nested/dir"));
}

#[test]
fn parent_dir_of_root_level_file() {
    let config = HomeConfig::with_file_in("", "file");
    assert_eq!(config.path().as_str(), "/file");
    assert_eq!(config.parent_dir().as_deref(), Some(""));
}

#[test]
fn dir_to_create_for_a_new_file() {
    let config = HomeConfig::with_config_dir_in("/home/alice", "test", "file");
    assert_eq!(
        config.dir_to_create(false).as_deref(),
        Some("/home/alice/.config/test")
    );
}

#[test]
fn dir_to_create_for_an_existing_file() {
    let config = HomeConfig::with_config_dir_in("/home/alice", "test", "file");
    assert_eq!(config.dir_to_create(true), None);
}

#[test]
fn delete_of_absent_file_is_success() {
    assert_eq!(delete_outcome(Err(IoErrorKind::NotFound)), Ok(()));
}

#[test]
fn delete_after_successful_removal_is_success() {
    assert_eq!(delete_outcome(Ok(())), Ok(()));
}

#[test]
fn delete_keeps_every_other_error() {
    assert_eq!(
        delete_outcome(Err(IoErrorKind::PermissionDenied)),
        Err(IoErrorKind::PermissionDenied)
    );
    assert_eq!(
        delete_outcome(Err(IoErrorKind::Other)),
        Err(IoErrorKind::Other)
    );
}

#[test]
fn not_found_stays_distinguishable() {
    assert_ne!(IoErrorKind::NotFound, IoErrorKind::PermissionDenied);
    assert_ne!(IoErrorKind::NotFound, IoErrorKind::Other);
}

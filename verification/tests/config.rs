use laser_pointer::config::Config;

#[test]
fn plain_paths_are_kept() {
    let config = Config::new(42, "cursors/arrow.png", "tracks.json").unwrap();
    assert_eq!(
        config,
        Config {
            steam_id: 42,
            cursor_path: "cursors/arrow.png".to_string(),
            animation_json_path: "tracks.json".to_string(),
        }
    );
}

#[test]
fn empty_paths_stay_empty() {
    let config = Config::new(0, "", "").unwrap();
    assert_eq!(config.steam_id, 0);
    assert_eq!(config.cursor_path, "");
    assert_eq!(config.animation_json_path, "");
    assert!(!config.has_cursor());
    assert!(!config.has_animations());
}

#[test]
fn tilde_inside_a_path_is_kept() {
    let config = Config::new(1, "a/~/b", "c~").unwrap();
    assert_eq!(config.cursor_path, "a/~/b");
    assert_eq!(config.animation_json_path, "c~");
}

#[test]
fn path_without_variables_never_fails() {
    let config = Config::new(1, "~/cursors/arrow.png", "~").unwrap();
    assert!(config.cursor_path.ends_with("/cursors/arrow.png"));
    assert!(config.has_cursor());
    assert!(config.has_animations());
    assert!(Config::new(1, "~someone/arrow.png", "").is_some());
}

#[test]
fn unknown_variable_fails_the_expansion() {
    assert_eq!(Config::new(1, "$LASER_POINTER_TEST_VARIABLE_THAT_IS_NOT_SET/arrow.png", ""), None);
    assert_eq!(Config::new(1, "", "${LASER_POINTER_TEST_VARIABLE_THAT_IS_NOT_SET}"), None);
}

#[test]
fn variable_with_a_default_is_expanded() {
    let path = "${LASER_POINTER_TEST_VARIABLE_THAT_IS_NOT_SET:-cursors}/arrow.png";
    let config = Config::new(1, path, "").unwrap();
    assert_eq!(config.cursor_path, "cursors/arrow.png");
}

#[test]
fn from_expanded_needs_both_paths() {
    assert_eq!(Config::from_expanded(5, None, Some("b".to_string())), None);
    assert_eq!(Config::from_expanded(5, Some("a".to_string()), None), None);
    assert_eq!(Config::from_expanded(5, None, None), None);
    assert_eq!(
        Config::from_expanded(5, Some("a".to_string()), Some("b".to_string())),
        Some(Config { steam_id: 5, cursor_path: "a".to_string(), animation_json_path: "b".to_string() })
    );
}

#[test]
fn identity_zero_means_watcher() {
    assert!(Config::new(0, "", "").unwrap().is_server());
    assert!(!Config::new(1, "", "").unwrap().is_server());
    assert!(!Config::new(u64::MAX, "", "").unwrap().is_server());
}

#[test]
fn given_paths_are_noticed() {
    let config = Config::new(1, "arrow.png", "").unwrap();
    assert!(config.has_cursor());
    assert!(!config.has_animations());
    let config = Config::new(1, "", "tracks.json").unwrap();
    assert!(!config.has_cursor());
    assert!(config.has_animations());
}

use shrieker::paths::{
    app_prefs_path, app_prefs_path_in, data_dir_in, file_in, host_state_path, key_path, preferences_path, profile_path,
};
use std::path::PathBuf;

#[test]
fn files_live_in_the_client_directory() {
    let base = PathBuf::from("/data");
    assert_eq!(data_dir_in(Some(base.clone())), Ok(PathBuf::from("/data/shrieker")));
    assert_eq!(
        file_in(Some(base), "host.state"),
        Ok(PathBuf::from("/data/shrieker/host.state"))
    );
}

#[test]
fn without_a_data_directory_there_is_no_path() {
    assert_eq!(
        file_in(None, "preferences.conf"),
        Err("system data directory unavailable".to_owned())
    );
}

#[test]
fn each_file_has_its_own_name() {
    let cases = [
        (host_state_path(), "shrieker/host.state"),
        (profile_path(), "shrieker/profile.toml"),
        (key_path(), "shrieker/secret.key"),
        (preferences_path(), "shrieker/preferences.conf"),
    ];
    for (path, tail) in cases {
        match path {
            Ok(path) => assert!(path.ends_with(tail)),
            Err(error) => assert_eq!(error, "system data directory unavailable"),
        }
    }
    if let Some(path) = app_prefs_path() {
        assert!(path.ends_with("sculk/shrieker.conf"));
    }
}

#[test]
fn appearance_file_lives_in_the_tunnel_directory() {
    assert_eq!(
        app_prefs_path_in(Some(PathBuf::from("/data/sculk"))),
        Some(PathBuf::from("/data/sculk/shrieker.conf"))
    );
    assert_eq!(app_prefs_path_in(None), None);
}

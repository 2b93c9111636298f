use clientats_shell::paths::{backend_executable, config_dir, OsKind, PathError, RuntimeDirectories};

#[test]
fn config_dir_other_with_home() {
    let r = config_dir(OsKind::Other, Some("/home/u"), None, None);
    assert_eq!(r, Ok("/home/u/.config/clientats".to_string()));
}

#[test]
fn config_dir_other_userprofile_fallback() {
    let r = config_dir(OsKind::Other, None, Some("/users/u"), None);
    assert_eq!(r, Ok("/users/u/.config/clientats".to_string()));
}

#[test]
fn config_dir_no_home_variables() {
    let r = config_dir(OsKind::Other, None, None, None);
    assert_eq!(r, Err(PathError::HomeDirectoryUnavailable));
    let r = config_dir(OsKind::MacOs, None, None, None);
    assert_eq!(r, Err(PathError::HomeDirectoryUnavailable));
    let r = config_dir(OsKind::Windows, None, None, Some("/appdata"));
    assert_eq!(r, Err(PathError::HomeDirectoryUnavailable));
}

#[test]
fn config_dir_macos() {
    let r = config_dir(OsKind::MacOs, Some("/Users/u"), None, None);
    assert_eq!(r, Ok("/Users/u/Library/Application Support/clientats".to_string()));
}

#[test]
fn config_dir_windows_with_appdata() {
    let r = config_dir(OsKind::Windows, Some("C:/Users/u"), None, Some("C:/Users/u/AppData/Roaming"));
    assert_eq!(r, Ok("C:/Users/u/AppData/Roaming/clientats".to_string()));
}

#[test]
fn config_dir_windows_without_appdata() {
    let r = config_dir(OsKind::Windows, Some("C:/Users/u"), None, None);
    assert_eq!(r, Ok("C:/Users/u/AppData/Roaming/clientats".to_string()));
}

#[test]
fn backend_executable_per_platform() {
    assert_eq!(
        backend_executable(OsKind::Other, "/opt/app/resources"),
        "/opt/app/resources/phoenix/bin/clientats"
    );
    assert_eq!(
        backend_executable(OsKind::MacOs, "/Applications/app/resources"),
        "/Applications/app/resources/phoenix/bin/clientats"
    );
    assert_eq!(
        backend_executable(OsKind::Windows, "C:/app/resources"),
        "C:/app/resources/phoenix/bin/clientats.bat"
    );
}

#[test]
fn runtime_directory_layout() {
    let rd = RuntimeDirectories::from_config_dir("/home/u/.config/clientats");
    assert_eq!(rd.config_dir, "/home/u/.config/clientats");
    assert_eq!(rd.db_dir, "/home/u/.config/clientats/db");
    assert_eq!(rd.upload_dir, "/home/u/.config/clientats/uploads");
    assert_eq!(rd.db_path, "/home/u/.config/clientats/db/clientats.db");
}

use cdn::config::{Settings, MAX_FILE_SIZE};

#[test]
fn ceiling_is_five_mebibytes() {
    assert_eq!(MAX_FILE_SIZE, 5_242_880);
}

#[test]
fn missing_values_get_their_defaults() {
    let settings = Settings::resolve(None, None);
    assert_eq!(settings.upload_dir, "./uploads");
    assert_eq!(settings.bind_address, "127.0.0.1:5300");
    assert_eq!(settings.max_file_size, 5 * 1024 * 1024);
}

#[test]
fn given_values_are_kept() {
    let settings =
        Settings::resolve(Some(String::from("/srv/assets")), Some(String::from("0.0.0.0:80")));
    assert_eq!(settings.upload_dir, "/srv/assets");
    assert_eq!(settings.bind_address, "0.0.0.0:80");
    assert_eq!(settings.max_file_size, MAX_FILE_SIZE);
}

#[test]
fn each_value_is_resolved_alone() {
    let settings = Settings::resolve(Some(String::new()), None);
    assert_eq!(settings.upload_dir, "");
    assert_eq!(settings.bind_address, "127.0.0.1:5300");
    let settings = Settings::resolve(None, Some(String::from("[::1]:8080")));
    assert_eq!(settings.upload_dir, "./uploads");
    assert_eq!(settings.bind_address, "[::1]:8080");
}

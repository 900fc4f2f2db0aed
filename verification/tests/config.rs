use terradrift::config::{Config, ConfigError, Profile, Storage};

fn mock_profile(path: &str) -> Profile {
    Profile { storage: Storage::Mock { path: path.to_string() }, jobs: None }
}

#[test]
fn load_config_success() {
    let mock_path = "/var/state/prod".to_string();
    let mut cfg = Config::new();
    cfg.insert("prod".to_string(), mock_profile(&mock_path));

    let profile = cfg.profile("prod").unwrap();
    match &profile.storage {
        Storage::Mock { path } => assert_eq!(path, &mock_path),
        _ => panic!("unexpected storage type"),
    }
}

#[test]
fn missing_profile_errors() {
    let mut cfg = Config::new();
    cfg.insert("dev".to_string(), mock_profile("/tmp"));
    let result = cfg.profile("does_not_exist");
    assert!(result.is_err());
}

#[test]
fn missing_profile_names_the_profile() {
    let cfg = Config::new();
    let error = cfg.profile("staging").unwrap_err();
    assert_eq!(error, ConfigError::ProfileNotFound("staging".to_string()));
    assert_eq!(error.message(), "Profile 'staging' not found in config");
}

#[test]
fn insert_replaces_a_profile_of_the_same_name() {
    let mut cfg = Config::new();
    assert_eq!(cfg.len(), 0);
    assert_eq!(cfg.insert("prod".to_string(), mock_profile("/a")), None);
    assert_eq!(cfg.insert("dev".to_string(), mock_profile("/b")), None);
    let previous = cfg.insert(
        "prod".to_string(),
        Profile {
            storage: Storage::S3 { bucket: "states".to_string(), prefix: Some("env".to_string()) },
            jobs: Some(3),
        },
    );
    assert_eq!(previous, Some(mock_profile("/a")));
    assert_eq!(cfg.len(), 2);
    let prod = cfg.profile("prod").unwrap();
    assert_eq!(prod.jobs, Some(3));
    assert_eq!(
        prod.storage,
        Storage::S3 { bucket: "states".to_string(), prefix: Some("env".to_string()) }
    );
    assert_eq!(cfg.profile("dev").unwrap(), &mock_profile("/b"));
}

#[test]
fn profile_names_are_case_sensitive() {
    let mut cfg = Config::new();
    cfg.insert("Prod".to_string(), mock_profile("/a"));
    assert!(cfg.profile("prod").is_err());
    assert!(cfg.profile("Prod").is_ok());
    assert!(cfg.profile("").is_err());
}

use remote::profile::{
    get_active_instance, new_instance, remove_instance, set_active_instance,
};
use remote::{Cloud, InstanceConfig, ProfileConfig, RemoteError};

fn config(alias: &str, id: &str) -> InstanceConfig {
    InstanceConfig {
        alias: alias.to_string(),
        instance_id: id.to_string(),
        key_path: "~/keys/box.pem".to_string(),
        user: "ubuntu".to_string(),
        profile: "default".to_string(),
        cloud: Cloud::Aws,
    }
}

fn store(active: Option<&str>, aliases: &[&str]) -> ProfileConfig {
    ProfileConfig {
        active: active.map(|a| a.to_string()),
        instances: aliases.iter().map(|a| config(a, &format!("i-{}", a))).collect(),
    }
}

#[test]
fn init_is_empty() {
    let fresh = ProfileConfig::init();
    assert_eq!(fresh.active, None);
    assert!(fresh.instances.is_empty());
}

#[test]
fn get_or_create_keeps_a_stored_profile() {
    let stored = store(Some("a"), &["a", "b"]);
    let (loaded, fresh) = ProfileConfig::get_or_create(Some(stored.clone()));
    assert_eq!(loaded, stored);
    assert!(!fresh);
}

#[test]
fn get_or_create_starts_empty_without_a_file() {
    let (loaded, fresh) = ProfileConfig::get_or_create(None);
    assert_eq!(loaded, ProfileConfig::init());
    assert!(fresh);
}

#[test]
fn adding_a_duplicate_alias_fails_and_changes_nothing() {
    let mut profile = store(Some("a"), &["a", "b"]);
    let before = profile.clone();
    let result = new_instance(&mut profile, config("b", "i-other"), true);
    assert_eq!(result, Err(RemoteError::DuplicateAlias { alias: "b".to_string() }));
    assert_eq!(profile, before);
}

#[test]
fn adding_a_new_alias_appends_it() {
    let mut profile = store(Some("a"), &["a"]);
    assert_eq!(new_instance(&mut profile, config("b", "i-b"), false), Ok(()));
    assert_eq!(profile, store(Some("a"), &["a", "b"]));
}

#[test]
fn adding_with_the_active_flag_makes_it_active() {
    let mut profile = store(Some("a"), &["a"]);
    assert_eq!(new_instance(&mut profile, config("b", "i-b"), true), Ok(()));
    assert_eq!(profile, store(Some("b"), &["a", "b"]));
}

#[test]
fn adding_to_an_empty_store() {
    let mut profile = ProfileConfig::init();
    assert_eq!(new_instance(&mut profile, config("a", "i-a"), false), Ok(()));
    assert_eq!(profile, store(None, &["a"]));
}

#[test]
fn removing_a_non_active_alias_keeps_active() {
    let mut profile = store(Some("a"), &["a", "b", "c"]);
    remove_instance(&mut profile, "b");
    assert_eq!(profile, store(Some("a"), &["a", "c"]));
}

#[test]
fn removing_the_active_alias_clears_active() {
    let mut profile = store(Some("b"), &["a", "b", "c"]);
    remove_instance(&mut profile, "b");
    assert_eq!(profile, store(None, &["a", "c"]));
}

#[test]
fn removing_an_unknown_alias_changes_nothing() {
    let mut profile = store(Some("a"), &["a", "b"]);
    remove_instance(&mut profile, "zzz");
    assert_eq!(profile, store(Some("a"), &["a", "b"]));
}

#[test]
fn removing_takes_every_instance_with_the_alias() {
    let mut profile = store(None, &["a", "b", "a", "c", "a"]);
    remove_instance(&mut profile, "a");
    assert_eq!(profile, store(None, &["b", "c"]));
}

#[test]
fn setting_active_to_an_unknown_alias_fails_and_keeps_active() {
    let mut profile = store(Some("a"), &["a", "b"]);
    let result = set_active_instance(&mut profile, "nope");
    assert_eq!(result, Err(RemoteError::UnknownAlias { alias: "nope".to_string() }));
    assert_eq!(profile, store(Some("a"), &["a", "b"]));
}

#[test]
fn setting_active_to_a_known_alias() {
    let mut profile = store(None, &["a", "b"]);
    assert_eq!(set_active_instance(&mut profile, "b"), Ok(()));
    assert_eq!(profile, store(Some("b"), &["a", "b"]));
}

#[test]
fn is_configured_tells_known_from_unknown() {
    let profile = store(None, &["a", "b"]);
    assert!(profile.is_configured("b"));
    assert!(!profile.is_configured("B"));
    assert!(!ProfileConfig::init().is_configured("a"));
}

#[test]
fn active_instance_without_active_alias() {
    let profile = store(None, &["a"]);
    assert_eq!(get_active_instance(&profile), Err(RemoteError::NoActiveInstance));
}

#[test]
fn active_instance_with_dangling_alias() {
    let profile = store(Some("gone"), &["a"]);
    assert_eq!(
        get_active_instance(&profile),
        Err(RemoteError::DanglingActiveAlias { alias: "gone".to_string() })
    );
}

#[test]
fn active_instance_is_the_first_with_the_alias() {
    let mut profile = store(Some("b"), &["a", "b"]);
    profile.instances.push(config("b", "i-second"));
    assert_eq!(get_active_instance(&profile), Ok(config("b", "i-b")));
}

#[test]
fn from_answers_defaults_the_profile() {
    let built = InstanceConfig::from_answers(
        "AWS",
        String::new(),
        "i-123".to_string(),
        "~/k.pem".to_string(),
        "ec2-user".to_string(),
        "box1".to_string(),
    );
    assert_eq!(
        built,
        Ok(InstanceConfig {
            alias: "box1".to_string(),
            instance_id: "i-123".to_string(),
            key_path: "~/k.pem".to_string(),
            user: "ec2-user".to_string(),
            profile: "default".to_string(),
            cloud: Cloud::Aws,
        })
    );
}

#[test]
fn from_answers_keeps_a_typed_profile() {
    let built = InstanceConfig::from_answers(
        "aws",
        "work".to_string(),
        "i-1".to_string(),
        "/k".to_string(),
        "u".to_string(),
        "a".to_string(),
    );
    assert_eq!(built.map(|c| c.profile), Ok("work".to_string()));
}

#[test]
fn from_answers_rejects_an_unknown_cloud() {
    let built = InstanceConfig::from_answers(
        "gcp",
        "work".to_string(),
        "i-1".to_string(),
        "/k".to_string(),
        "u".to_string(),
        "a".to_string(),
    );
    assert_eq!(built, Err(RemoteError::UnsupportedProvider));
}

#[test]
fn cloud_names_are_read_in_any_case() {
    assert_eq!(Cloud::from_str("aws"), Ok(Cloud::Aws));
    assert_eq!(Cloud::from_str("AWS"), Ok(Cloud::Aws));
    assert_eq!(Cloud::from_str("Aws"), Ok(Cloud::Aws));
    assert_eq!(Cloud::from_str("azure"), Err(RemoteError::UnsupportedProvider));
    assert_eq!(Cloud::from_str(""), Err(RemoteError::UnsupportedProvider));
}

#[test]
fn from_lowercase_is_exact() {
    assert_eq!(Cloud::from_lowercase("aws"), Ok(Cloud::Aws));
    assert_eq!(Cloud::from_lowercase("AWS"), Err(RemoteError::UnsupportedProvider));
    assert_eq!(Cloud::from_lowercase("aws "), Err(RemoteError::UnsupportedProvider));
}

#[test]
fn cloud_name_is_shown_capitalised() {
    assert_eq!(Cloud::Aws.name(), "Aws");
}

#[test]
fn instance_config_listing() {
    assert_eq!(
        config("box1", "i-123").to_string(),
        "Alias: box1\nInstance ID: i-123\nKey Path: ~/keys/box.pem\nUser: ubuntu\nCloud: Aws\nProfile: default"
    );
}

#[test]
fn duplicate_equals_its_source() {
    let original = config("box1", "i-123");
    assert_eq!(original.duplicate(), original);
}

#[test]
fn default_store_is_the_fresh_store() {
    assert_eq!(ProfileConfig::default(), ProfileConfig::init());
}

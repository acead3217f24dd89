use surreal_bb8::temp::config::{LocalCapabilities, LocalConfig};

#[test]
fn new_config_has_everything_off() {
    let config = LocalConfig::new();
    assert!(!config.is_strict());
    assert!(!config.has_root_auth());
    assert!(!config.capability_set().allows_scripting());
    assert!(!config.capability_set().allows_guest_access());
    assert_eq!(config.username_str(), "");
    assert_eq!(config.password_str(), "");
}

#[test]
fn strict_turns_strict_mode_on() {
    let config = LocalConfig::new().strict();
    assert!(config.is_strict());
}

#[test]
fn set_strict_follows_its_argument() {
    let config = LocalConfig::new().set_strict(true);
    assert!(config.is_strict());
    let config = config.set_strict(false);
    assert!(!config.is_strict());
}

#[test]
fn capabilities_builder_sets_each_switch() {
    let capabilities = LocalCapabilities::new().with_scripting(true).with_guest_access(false);
    assert!(capabilities.allows_scripting());
    assert!(!capabilities.allows_guest_access());

    let config = LocalConfig::new().capabilities(capabilities);
    assert!(config.capability_set().allows_scripting());
    assert!(!config.capability_set().allows_guest_access());
}

#[test]
fn all_capabilities_turns_every_switch_on() {
    let capabilities = LocalCapabilities::all();
    assert!(capabilities.allows_scripting());
    assert!(capabilities.allows_guest_access());
}

#[test]
fn default_capabilities_match_new() {
    assert_eq!(LocalCapabilities::default(), LocalCapabilities::new());
}

#[test]
fn user_stores_root_credentials() {
    let config = LocalConfig::new().user("root", "opensesame");
    assert!(config.has_root_auth());
    assert_eq!(config.username_str(), "root");
    assert_eq!(config.password_str(), "opensesame");
}

#[test]
fn clone_copies_every_setting_exactly() {
    let original = LocalConfig::new()
        .strict()
        .capabilities(LocalCapabilities::new().with_guest_access(true))
        .user("admin", "pw");
    let copy = original.clone();
    assert_eq!(copy.is_strict(), original.is_strict());
    assert_eq!(copy.capability_set(), original.capability_set());
    assert_eq!(copy.has_root_auth(), original.has_root_auth());
    assert_eq!(copy.username_str(), original.username_str());
    assert_eq!(copy.password_str(), original.password_str());
}

#[test]
fn conversion_to_client_config_completes() {
    let config = LocalConfig::new()
        .strict()
        .capabilities(LocalCapabilities::new().with_scripting(true))
        .user("root", "root");
    let _client_config = config.to_client_config();
}

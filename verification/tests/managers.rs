use surreal_bb8::any::SurrealAnyConnectionManager;
use surreal_bb8::temp::config::{LocalCapabilities, LocalConfig};
use surrealdb::engine::remote::ws::Ws;

#[test]
fn connect_config_duplicates_the_stored_value() {
    let manager = SurrealAnyConnectionManager::new(String::from("ws://127.0.0.1:8000"));
    let first = manager.connect_config();
    let second = manager.connect_config();
    assert_eq!(first, "ws://127.0.0.1:8000");
    assert_eq!(second, "ws://127.0.0.1:8000");
}

#[test]
fn compiletime_manager_duplicates_the_stored_value() {
    let manager = surreal_bb8::compiletime::SurrealConnectionManager::<String, Ws>::new(
        String::from("127.0.0.1:8000"),
    );
    assert_eq!(manager.connect_config(), "127.0.0.1:8000");
}

#[test]
fn surreal_manager_duplicates_the_stored_value() {
    let manager = surreal_bb8::surreal::SurrealConnectionManager::<String, Ws>::new(
        String::from("127.0.0.1:8000"),
    );
    assert_eq!(manager.connect_config(), "127.0.0.1:8000");
}

#[test]
fn runtime_manager_duplicates_the_stored_value() {
    let manager =
        surreal_bb8::runtime::SurrealConnectionManager::new(String::from("mem://"));
    assert_eq!(manager.connect_config(), "mem://");
}

#[test]
fn has_broken_is_always_false() {
    let manager = SurrealAnyConnectionManager::new(String::from("ws://127.0.0.1:8000"));
    let mut number_connection: u32 = 7;
    assert!(!manager.has_broken(&mut number_connection));
    assert_eq!(number_connection, 7);

    let mut text_connection = String::from("still here");
    assert!(!manager.has_broken(&mut text_connection));
    assert_eq!(text_connection, "still here");
}

#[test]
fn has_broken_is_false_on_every_variant() {
    let mut connection: u8 = 0;
    let any_manager = SurrealAnyConnectionManager::new(String::new());
    assert!(!any_manager.has_broken(&mut connection));
    let runtime_manager = surreal_bb8::runtime::SurrealConnectionManager::new(String::new());
    assert!(!runtime_manager.has_broken(&mut connection));
    let compiletime_manager =
        surreal_bb8::compiletime::SurrealConnectionManager::<String, Ws>::new(String::new());
    assert!(!compiletime_manager.has_broken(&mut connection));
    let surreal_manager =
        surreal_bb8::surreal::SurrealConnectionManager::<String, Ws>::new(String::new());
    assert!(!surreal_manager.has_broken(&mut connection));
    let split_runtime_manager = surreal_bb8::temp::runtime_with_config::SurrealConnectionManager::new(
        LocalConfig::new(),
        "ws://127.0.0.1:8000",
    );
    assert!(!split_runtime_manager.has_broken(&mut connection));
    let split_compiletime_manager =
        surreal_bb8::temp::compiletime_with_config::SurrealConnectionManager::<Ws>::new(
            "127.0.0.1:8000",
            LocalConfig::new(),
        );
    assert!(!split_compiletime_manager.has_broken(&mut connection));
}

#[test]
fn cloned_generic_manager_keeps_the_configuration() {
    let manager = SurrealAnyConnectionManager::new(String::from("ws://127.0.0.1:8000"));
    let duplicate = manager.clone();
    assert_eq!(duplicate.connect_config(), manager.connect_config());
}

#[test]
fn split_manager_descriptor_recombines_stored_parts() {
    let config = LocalConfig::new()
        .strict()
        .capabilities(LocalCapabilities::new().with_guest_access(true));
    let manager = surreal_bb8::temp::runtime_with_config::SurrealConnectionManager::new(
        config,
        "ws://127.0.0.1:8000",
    );
    let (path, config) = manager.connect_descriptor();
    assert_eq!(path, "ws://127.0.0.1:8000");
    assert!(config.is_strict());
    assert!(config.capability_set().allows_guest_access());
    assert!(!config.has_root_auth());
}

#[test]
fn split_compiletime_manager_descriptor_recombines_stored_parts() {
    let manager = surreal_bb8::temp::compiletime_with_config::SurrealConnectionManager::<Ws>::new(
        "127.0.0.1:8000",
        LocalConfig::new().user("root", "root"),
    );
    let (path, config) = manager.connect_descriptor();
    assert_eq!(path, "127.0.0.1:8000");
    assert!(config.has_root_auth());
    assert_eq!(config.username_str(), "root");
}

#[test]
fn duplicated_split_manager_connects_like_the_original() {
    let manager = surreal_bb8::temp::runtime_with_config::SurrealConnectionManager::new(
        LocalConfig::new().strict(),
        "ws://127.0.0.1:8000",
    );
    let duplicate = manager.clone();

    let (original_path, original_config) = manager.connect_descriptor();
    let (duplicate_path, duplicate_config) = duplicate.connect_descriptor();
    assert_eq!(duplicate_path, original_path);
    assert_eq!(duplicate_config.is_strict(), original_config.is_strict());
    assert_eq!(duplicate_config.capability_set(), original_config.capability_set());
    assert_eq!(duplicate_config.has_root_auth(), original_config.has_root_auth());

    // The original still answers from its own unchanged stored state.
    let (path_again, config_again) = manager.connect_descriptor();
    assert_eq!(path_again, "ws://127.0.0.1:8000");
    assert!(config_again.is_strict());
}

#[test]
fn repeated_connects_draw_on_unchanged_state() {
    let manager = surreal_bb8::temp::compiletime_with_config::SurrealConnectionManager::<Ws>::new(
        "127.0.0.1:8000",
        LocalConfig::new(),
    );
    let first = manager.connect_descriptor();
    let second = manager.connect_descriptor();
    assert_eq!(first.0, second.0);
    assert_eq!(first.1.is_strict(), second.1.is_strict());
    assert_eq!(first.1.capability_set(), second.1.capability_set());
}

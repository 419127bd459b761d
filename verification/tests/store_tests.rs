use config_manager::error::ConfigError;
use config_manager::store::{
    FileState, config_path, default_config, default_config_text, ensure_exists, read_raw,
    resolve_config_path, write_raw,
};
use serde_json::Value;

#[test]
fn config_path_is_fixed_under_the_home_directory() {
    assert_eq!(config_path("/home/u"), "/home/u/.config/vasak/vasak.conf");
    assert_eq!(config_path(""), "/.config/vasak/vasak.conf");
}

#[test]
fn resolved_path_ends_with_the_fixed_location() {
    match resolve_config_path() {
        Ok(p) => assert!(p.ends_with("/.config/vasak/vasak.conf")),
        Err(e) => assert!(matches!(e, ConfigError::Other(_))),
    }
}

#[test]
fn default_document_has_the_documented_values() {
    let c = default_config();
    assert!(!c.style.darkmode);
    assert_eq!(c.style.color_scheme, "#3584e4");
    assert_eq!(c.style.radius, 12);
    let d = c.desktop.unwrap();
    assert!(d.wallpaper.is_empty());
    assert_eq!(d.iconsize, 48);
    assert!(d.showfiles);
    assert!(!d.showhiddenfiles);
}

#[test]
fn default_text_is_valid_json_for_the_default_document() {
    let doc: Value = serde_json::from_str(&default_config_text()).unwrap();
    assert_eq!(doc["style"]["darkmode"], Value::Bool(false));
    assert_eq!(doc["style"]["color-scheme"], Value::String("#3584e4".to_string()));
    assert_eq!(doc["style"]["radius"], Value::from(12));
    assert_eq!(doc["desktop"]["wallpaper"], Value::Array(Vec::new()));
    assert_eq!(doc["desktop"]["iconsize"], Value::from(48));
    assert_eq!(doc["desktop"]["showfiles"], Value::Bool(true));
    assert_eq!(doc["desktop"]["showhiddenfiles"], Value::Bool(false));
}

#[test]
fn ensure_exists_creates_the_default_document_once() {
    let mut file = FileState { content: None };
    assert!(ensure_exists(&mut file, true).is_ok());
    assert_eq!(file.content, Some(default_config_text()));
    // Running it again changes nothing: same content as after one call.
    assert!(ensure_exists(&mut file, true).is_ok());
    assert_eq!(file.content, Some(default_config_text()));
}

#[test]
fn ensure_exists_never_touches_an_existing_file() {
    let mut file = FileState { content: Some("user edited".to_string()) };
    assert!(ensure_exists(&mut file, false).is_ok());
    assert!(ensure_exists(&mut file, true).is_ok());
    assert_eq!(file.content, Some("user edited".to_string()));
}

#[test]
fn ensure_exists_propagates_a_creation_failure() {
    let mut file = FileState { content: None };
    let r = ensure_exists(&mut file, false);
    assert!(matches!(r, Err(ConfigError::Io(_))));
    assert_eq!(file.content, None);
}

#[test]
fn read_raw_returns_the_file_text() {
    let file = FileState { content: Some("text".to_string()) };
    assert_eq!(read_raw(&file, true).unwrap(), "text".to_string());
}

#[test]
fn read_raw_fails_on_a_missing_file_or_a_failed_read() {
    let missing = FileState { content: None };
    assert!(matches!(read_raw(&missing, true), Err(ConfigError::Io(_))));
    let present = FileState { content: Some("text".to_string()) };
    assert!(matches!(read_raw(&present, false), Err(ConfigError::Io(_))));
}

#[test]
fn write_raw_replaces_the_text_or_leaves_it_alone() {
    let mut file = FileState { content: Some("old".to_string()) };
    assert!(write_raw(&mut file, "new", true).is_ok());
    assert_eq!(file.content, Some("new".to_string()));
    let r = write_raw(&mut file, "newer", false);
    assert!(matches!(r, Err(ConfigError::Io(_))));
    assert_eq!(file.content, Some("new".to_string()));
}

#[test]
fn error_messages_are_carried_verbatim() {
    assert_eq!(ConfigError::Other("no home".to_string()).message().as_str(), "no home");
    assert_eq!(ConfigError::Io("path: denied".to_string()).message().as_str(), "path: denied");
    assert_eq!(ConfigError::Deserialize("bad".to_string()).message().as_str(), "bad");
    assert_eq!(ConfigError::Subprocess("exit 1".to_string()).message().as_str(), "exit 1");
}

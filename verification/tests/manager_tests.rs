use config_manager::ConfigManager;
use config_manager::error::ConfigError;
use config_manager::store::{FileState, default_config_text};
use config_manager::watcher::WatchEventKind;

fn file_with(text: &str) -> FileState {
    FileState { content: Some(text.to_string()) }
}

fn absent_file() -> FileState {
    FileState { content: None }
}

#[test]
fn cold_read_creates_default_and_returns_it() {
    let mut manager = ConfigManager::new(1000);
    let mut file = absent_file();
    let r = manager.read_config(&mut file, true, true, 0);
    assert_eq!(r.unwrap(), default_config_text());
    assert_eq!(file.content, Some(default_config_text()));
}

#[test]
fn cold_read_returns_existing_file_content() {
    let mut manager = ConfigManager::new(1000);
    let mut file = file_with("existing");
    let r = manager.read_config(&mut file, true, true, 0);
    assert_eq!(r.unwrap(), "existing".to_string());
    assert_eq!(file.content, Some("existing".to_string()));
}

#[test]
fn warm_read_skips_the_file_entirely() {
    let mut manager = ConfigManager::new(1000);
    let mut file = file_with("v1");
    manager.read_config(&mut file, true, true, 0).unwrap();
    // Out-of-band change; within the time-to-live the cache still answers.
    file.content = Some("v2".to_string());
    let r = manager.read_config(&mut file, false, false, 500);
    assert_eq!(r.unwrap(), "v1".to_string());
    assert_eq!(file.content, Some("v2".to_string()));
}

#[test]
fn read_past_ttl_observes_out_of_band_change() {
    let mut manager = ConfigManager::new(100);
    let mut file = file_with("v1");
    assert_eq!(manager.read_config(&mut file, true, true, 0).unwrap(), "v1".to_string());
    // Mutate the file directly, then read again past the time-to-live.
    file.content = Some("v2".to_string());
    assert_eq!(manager.read_config(&mut file, true, true, 50).unwrap(), "v1".to_string());
    assert_eq!(manager.read_config(&mut file, true, true, 100).unwrap(), "v2".to_string());
}

#[test]
fn cold_read_propagates_create_failure() {
    let mut manager = ConfigManager::new(1000);
    let mut file = absent_file();
    let r = manager.read_config(&mut file, false, true, 0);
    assert!(matches!(r, Err(ConfigError::Io(_))));
    assert_eq!(file.content, None);
}

#[test]
fn cold_read_propagates_read_failure() {
    let mut manager = ConfigManager::new(1000);
    let mut file = file_with("v1");
    let r = manager.read_config(&mut file, true, false, 0);
    assert!(matches!(r, Err(ConfigError::Io(_))));
    assert_eq!(file.content, Some("v1".to_string()));
}

#[test]
fn write_then_read_returns_exactly_the_written_text() {
    let mut manager = ConfigManager::new(1000);
    let mut file = file_with("old");
    let (r, announce) = manager.write_config(&mut file, "new-text", true, 10);
    assert!(r.is_ok());
    assert!(announce);
    assert_eq!(file.content, Some("new-text".to_string()));
    // Even if the file changes out of band right away, the immediately
    // following read reflects the write, not a re-read.
    file.content = Some("overwritten-by-someone-else".to_string());
    let read_back = manager.read_config(&mut file, true, true, 10);
    assert_eq!(read_back.unwrap(), "new-text".to_string());
}

#[test]
fn failed_write_leaves_cache_and_file_untouched() {
    let mut manager = ConfigManager::new(1000);
    let mut file = file_with("before");
    manager.read_config(&mut file, true, true, 0).unwrap();
    let (r, announce) = manager.write_config(&mut file, "lost", false, 10);
    assert!(matches!(r, Err(ConfigError::Io(_))));
    assert!(!announce);
    assert_eq!(file.content, Some("before".to_string()));
    let read_back = manager.read_config(&mut file, false, false, 20);
    assert_eq!(read_back.unwrap(), "before".to_string());
}

#[test]
fn clear_cache_forces_the_next_read_to_the_file() {
    let mut manager = ConfigManager::new(1000);
    let mut file = file_with("v1");
    manager.read_config(&mut file, true, true, 0).unwrap();
    file.content = Some("v2".to_string());
    manager.clear_cache();
    assert_eq!(manager.read_config(&mut file, true, true, 1).unwrap(), "v2".to_string());
}

#[test]
fn refresh_bypasses_a_still_valid_cache_entry() {
    let mut manager = ConfigManager::new(1000);
    let mut file = file_with("v1");
    manager.read_config(&mut file, true, true, 0).unwrap();
    file.content = Some("v2".to_string());
    let r = manager.refresh_cache_from_file(&mut file, true, true, 1);
    assert_eq!(r.unwrap(), "v2".to_string());
    assert_eq!(manager.read_config(&mut file, false, false, 2).unwrap(), "v2".to_string());
}

#[test]
fn refresh_creates_the_default_file_when_missing() {
    let mut manager = ConfigManager::new(1000);
    let mut file = absent_file();
    let r = manager.refresh_cache_from_file(&mut file, true, true, 0);
    assert_eq!(r.unwrap(), default_config_text());
    assert_eq!(file.content, Some(default_config_text()));
}

#[test]
fn data_modification_event_invalidates_and_announces() {
    let mut manager = ConfigManager::new(1000);
    let mut file = file_with("v1");
    manager.read_config(&mut file, true, true, 0).unwrap();
    let announce = manager.on_watch_event(WatchEventKind::DataModified);
    assert!(announce);
    // The next read goes back to the file although the entry was fresh.
    file.content = Some("v2".to_string());
    assert_eq!(manager.read_config(&mut file, true, true, 1).unwrap(), "v2".to_string());
}

#[test]
fn other_event_kinds_neither_invalidate_nor_announce() {
    let mut manager = ConfigManager::new(1000);
    let mut file = file_with("v1");
    manager.read_config(&mut file, true, true, 0).unwrap();
    file.content = Some("v2".to_string());
    assert!(!manager.on_watch_event(WatchEventKind::MetadataChanged));
    assert!(!manager.on_watch_event(WatchEventKind::Created));
    assert!(!manager.on_watch_event(WatchEventKind::Removed));
    assert!(!manager.on_watch_event(WatchEventKind::Other));
    assert_eq!(manager.read_config(&mut file, true, true, 1).unwrap(), "v1".to_string());
}

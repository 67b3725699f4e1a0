use db_clone::store::{AppData, StoreError, HISTORY_LIMIT};
use db_clone::time::Timestamp;
use db_clone::types::{CloneHistoryEntry, CloneStatus, CloneType, ConnectionProfile};

fn at(secs: i64) -> Timestamp {
    Timestamp { secs, nanos: 0 }
}

fn profile(id: &str, name: &str) -> ConnectionProfile {
    ConnectionProfile::with_identity(
        id.to_string(),
        at(10),
        name.to_string(),
        "localhost".to_string(),
        5432,
        "db".to_string(),
        "user".to_string(),
        "pw".to_string(),
        false,
        Some("tag-1".to_string()),
    )
}

fn entry(id: &str) -> CloneHistoryEntry {
    CloneHistoryEntry::started(
        id.to_string(),
        at(100),
        &profile("s", "S"),
        &profile("d", "D"),
        CloneType::Both,
    )
}

fn ids(data: &AppData) -> Vec<String> {
    data.history.iter().map(|e| e.id.clone()).collect()
}

#[test]
fn the_history_keeps_the_fifty_most_recent_runs() {
    let mut data = AppData::new();
    assert_eq!(HISTORY_LIMIT, 50);
    for i in 0..50 {
        data.record_history(entry(&format!("run-{}", i)));
        assert_eq!(data.history.len(), i + 1);
        assert_eq!(data.history[0].id, format!("run-{}", i));
    }
    assert_eq!(data.history[49].id, "run-0");
    data.record_history(entry("run-50"));
    assert_eq!(data.history.len(), 50);
    assert_eq!(data.history[0].id, "run-50");
    assert_eq!(data.history[1].id, "run-49");
    assert_eq!(data.history[49].id, "run-1");
    assert!(data.find_history_entry("run-0").is_none());
    for _ in 0..10 {
        data.record_history(entry("again"));
        assert_eq!(data.history.len(), 50);
    }
}

#[test]
fn a_history_that_was_too_long_is_cut_down() {
    let mut data = AppData::new();
    for i in 0..70 {
        data.history.push(entry(&format!("old-{}", i)));
    }
    data.record_history(entry("new"));
    assert_eq!(data.history.len(), 50);
    assert_eq!(data.history[0].id, "new");
    assert_eq!(data.history[49].id, "old-48");
}

#[test]
fn a_recorded_run_is_found_under_its_id() {
    let mut data = AppData::new();
    data.record_history(entry("a"));
    data.record_history(entry("b"));
    let mut closed = entry("c");
    closed.add_log("[INFO] one".to_string());
    closed.complete_at(at(160), CloneStatus::Error, Some("broken".to_string()));
    data.record_history(closed);
    assert_eq!(ids(&data), vec!["c", "b", "a"]);
    let found = data.find_history_entry("c").expect("the run was recorded");
    assert_eq!(found.id, "c");
    assert_eq!(found.status, CloneStatus::Error);
    assert_eq!(found.error_message, Some("broken".to_string()));
    assert_eq!(found.duration, Some(60));
    assert_eq!(found.logs, vec!["[INFO] one"]);
    assert_eq!(found.source_name, "S");
    assert_eq!(data.find_history_entry("a").unwrap().id, "a");
    assert!(data.find_history_entry("missing").is_none());
    assert!(data.find_history_entry("").is_none());
}

#[test]
fn the_history_can_be_cleared() {
    let mut data = AppData::new();
    data.add_profile(profile("p", "P"));
    data.record_history(entry("a"));
    data.clear_history();
    assert!(data.history.is_empty());
    assert_eq!(data.profiles.len(), 1);
    assert!(data.find_history_entry("a").is_none());
}

#[test]
fn profiles_are_found_by_their_id() {
    let mut data = AppData::new();
    assert!(data.find_profile("a").is_none());
    assert_eq!(data.profile_index("a"), None);
    data.add_profile(profile("a", "first"));
    data.add_profile(profile("b", "second"));
    data.add_profile(profile("a", "third"));
    assert_eq!(data.profile_index("a"), Some(0));
    assert_eq!(data.profile_index("b"), Some(1));
    assert_eq!(data.profile_index("c"), None);
    let found = data.find_profile("a").unwrap();
    assert_eq!(found.name, "first");
    assert_eq!(found.tag_id, Some("tag-1".to_string()));
    assert_eq!(found.port, 5432);
    assert_eq!(data.find_profile("b").unwrap().name, "second");
}

#[test]
fn a_profile_gets_new_settings() {
    let mut data = AppData::new();
    data.add_profile(profile("a", "first"));
    data.add_profile(profile("b", "second"));
    let updated = data
        .update_profile(
            "b",
            "renamed".to_string(),
            "db.internal".to_string(),
            6543,
            "other".to_string(),
            "bob".to_string(),
            "hunter2".to_string(),
            true,
            at(99),
        )
        .expect("the profile exists");
    assert_eq!(updated.id, "b");
    assert_eq!(updated.name, "renamed");
    assert_eq!(updated.host, "db.internal");
    assert_eq!(updated.port, 6543);
    assert_eq!(updated.database, "other");
    assert_eq!(updated.user, "bob");
    assert_eq!(updated.password, "hunter2");
    assert!(updated.ssl);
    assert_eq!(updated.tag_id, Some("tag-1".to_string()));
    assert_eq!(updated.created_at, at(10));
    assert_eq!(updated.updated_at, at(99));
    assert_eq!(data.profiles.len(), 2);
    assert_eq!(data.profiles[0].name, "first");
    assert_eq!(data.profiles[1].name, "renamed");
    assert_eq!(data.profiles[1].updated_at, at(99));

    let missing = data.update_profile(
        "z",
        "n".to_string(),
        "h".to_string(),
        1,
        "d".to_string(),
        "u".to_string(),
        "p".to_string(),
        false,
        at(100),
    );
    assert_eq!(missing.err(), Some(StoreError::ProfileNotFound));
    assert_eq!(data.profiles[1].name, "renamed");
    assert_eq!(StoreError::ProfileNotFound.message(), "Profile not found");
}

#[test]
fn a_profile_is_deleted_with_all_its_doubles() {
    let mut data = AppData::new();
    data.add_profile(profile("a", "first"));
    data.add_profile(profile("b", "second"));
    data.add_profile(profile("a", "third"));
    data.add_profile(profile("c", "fourth"));
    assert_eq!(data.delete_profile("z"), Err(StoreError::ProfileNotFound));
    assert_eq!(data.profiles.len(), 4);
    assert_eq!(data.delete_profile("a"), Ok(()));
    let names: Vec<String> = data.profiles.iter().map(|p| p.name.clone()).collect();
    assert_eq!(names, vec!["second", "fourth"]);
    assert_eq!(data.delete_profile("a"), Err(StoreError::ProfileNotFound));
    assert_eq!(data.delete_profile("c"), Ok(()));
    assert_eq!(data.delete_profile("b"), Ok(()));
    assert!(data.profiles.is_empty());
}

use gitsync::config::{Config, SyncProfile};
use gitsync::state::{ManualSync, ProfileSyncState, SyncMode, SyncState, Timestamp};

fn profile(id: &str, interval: u64) -> SyncProfile {
    SyncProfile {
        id: id.to_string(),
        name: format!("Name {}", id),
        provider: "github".to_string(),
        domain: "github.com".to_string(),
        username: "user".to_string(),
        token: "pat".to_string(),
        local_path: "/srv".to_string(),
        sync_interval_secs: interval,
    }
}

fn state(ids: &[&str], active: &str) -> SyncState {
    let mut c = Config::default();
    for id in ids {
        c.profiles.push(profile(id, 42));
    }
    c.active_profile_id = active.to_string();
    SyncState::new(c)
}

fn status_of<'a>(s: &'a SyncState, id: &str) -> Option<&'a ProfileSyncState> {
    s.profile_states.iter().find(|(k, _)| k == id).map(|(_, v)| v)
}

#[test]
fn fresh_profile_state() {
    let p = ProfileSyncState::new();
    assert_eq!(p.status, "Idle");
    assert!(p.last_sync_time.is_none());
    assert!(p.repos.is_empty());
    assert!(p.logs.is_empty());
    assert!(!p.auto_sync);
}

#[test]
fn log_keeps_last_hundred() {
    let mut p = ProfileSyncState::new();
    for i in 0..150 {
        let line = p.add_log_at("INFO", &format!("m{}", i), Timestamp { secs: i as i64, nanos: 0 });
        assert_eq!(line.message, format!("m{}", i));
        assert!(p.logs.len() <= 100);
    }
    assert_eq!(p.logs.len(), 100);
    assert_eq!(p.logs.front().unwrap().message, "m50");
    assert_eq!(p.logs.back().unwrap().message, "m149");
    assert_eq!(p.logs.back().unwrap().timestamp, Timestamp { secs: 149, nanos: 0 });
    let line = p.add_log("WARN", "x");
    assert_eq!(line.level, "WARN");
    assert_eq!(p.logs.back().unwrap().message, "x");
}

#[test]
fn new_state_has_one_fresh_entry_per_profile() {
    let s = state(&["a", "b", "a"], "b");
    assert_eq!(s.profile_states.len(), 2);
    assert!(status_of(&s, "a").is_some());
    assert_eq!(status_of(&s, "b").unwrap().status, "Idle");
    assert_eq!(s.next_sync_mode, SyncMode::Full);
    assert_eq!(s.web_port, 9090);
    assert_eq!(s.active_profile_id, "b");
}

#[test]
fn active_profile_and_interval() {
    let s = state(&["a", "b"], "b");
    assert_eq!(s.get_active_profile().unwrap().id, "b");
    assert_eq!(s.sync_interval_secs(), 42);
    let none = state(&["a"], "zz");
    assert!(none.get_active_profile().is_none());
    assert_eq!(none.sync_interval_secs(), 3600);
}

#[test]
fn log_to_active_profile() {
    let mut s = state(&["a"], "a");
    let line = s.add_log_to_active("INFO", "hello");
    assert_eq!(line.message, "hello");
    assert_eq!(status_of(&s, "a").unwrap().logs.back().unwrap().message, "hello");
    let mut t = state(&["a"], "");
    let line2 = t.add_log_to_active("INFO", "nobody");
    assert_eq!(line2.level, "INFO");
    assert!(status_of(&t, "a").unwrap().logs.is_empty());
    let mut u = state(&[], "ghost");
    u.add_log_to_active("INFO", "made");
    assert_eq!(status_of(&u, "ghost").unwrap().logs.len(), 1);
}

#[test]
fn sync_failure_marks_error() {
    let mut s = state(&["a"], "a");
    let line = s.record_sync_failure("boom").unwrap();
    assert_eq!(line.level, "ERROR");
    assert_eq!(line.message, "Sync failed: boom");
    assert_eq!(status_of(&s, "a").unwrap().status, "Error");
    let mut t = state(&["a"], "");
    assert!(t.record_sync_failure("boom").is_none());
}

#[test]
fn manual_sync_refused_while_syncing() {
    let mut s = state(&["a"], "a");
    match s.request_manual_sync(SyncMode::MissingOnly) {
        ManualSync::Accepted(line) => {
            assert_eq!(line.message, "Manual sync requested via Web API. Mode: MissingOnly")
        }
        ManualSync::Refused => panic!("should be accepted"),
    }
    assert_eq!(s.next_sync_mode, SyncMode::MissingOnly);
    s.set_status_and_log("a", "Syncing", "INFO", "go");
    assert!(matches!(s.request_manual_sync(SyncMode::Full), ManualSync::Refused));
    assert_eq!(s.next_sync_mode, SyncMode::MissingOnly);
}

#[test]
fn mode_names() {
    assert_eq!(SyncMode::from_cli_name("MISSING"), SyncMode::MissingOnly);
    assert_eq!(SyncMode::from_cli_name("updates"), SyncMode::UpdatesOnly);
    assert_eq!(SyncMode::from_cli_name("full"), SyncMode::Full);
    assert_eq!(SyncMode::from_cli_name("anything"), SyncMode::Full);
    assert_eq!(SyncMode::from_lowercase_name("Missing"), SyncMode::Full);
    assert_eq!(SyncMode::UpdatesOnly.name(), "UpdatesOnly");
}

#[test]
fn adopt_config_keeps_states() {
    let mut s = state(&["a"], "a");
    s.add_log_to_active("INFO", "kept");
    let mut c = Config::default();
    c.profiles.push(profile("a", 5));
    c.profiles.push(profile("n", 6));
    c.active_profile_id = "n".to_string();
    c.web_port = 1234;
    s.adopt_config(c);
    assert_eq!(s.profiles.len(), 2);
    assert_eq!(s.active_profile_id, "n");
    assert_eq!(s.web_port, 1234);
    assert_eq!(status_of(&s, "a").unwrap().logs.len(), 1);
    assert!(status_of(&s, "n").unwrap().logs.is_empty());
}

#[test]
fn logging_one_profile_leaves_the_other() {
    let mut s = state(&["a", "b"], "a");
    s.log_to_profile("b", "INFO", "only b");
    s.set_status_and_log("b", "Syncing", "INFO", "b syncs");
    assert!(status_of(&s, "a").unwrap().logs.is_empty());
    assert_eq!(status_of(&s, "a").unwrap().status, "Idle");
    assert_eq!(status_of(&s, "b").unwrap().logs.len(), 2);
    assert_eq!(status_of(&s, "b").unwrap().status, "Syncing");
}

#[test]
fn config_update_is_logged_to_active_profile() {
    let mut s = state(&["a"], "a");
    let ok = s.log_config_update(&Ok(()));
    assert_eq!(ok.level, "INFO");
    assert_eq!(ok.message, "Configuration updated successfully via Web UI.");
    let bad = s.log_config_update(&Err("disk full".to_string()));
    assert_eq!(bad.level, "ERROR");
    assert_eq!(bad.message, "Failed to save config: disk full");
    let logs = &status_of(&s, "a").unwrap().logs;
    assert_eq!(logs.len(), 2);
    assert_eq!(logs[1].message, "Failed to save config: disk full");
    let mut none = state(&["a"], "");
    none.log_config_update(&Ok(()));
    assert!(status_of(&none, "a").unwrap().logs.is_empty());
}

use gitsync::config::{
    default_web_host, default_web_port, generate_random_token, token_from_bytes, Config, ConfigCommand,
    ConfigOutcome, ConfigText, LegacySettings, ProfileEdit, SyncProfile, WebSettings,
};

fn profile(id: &str) -> SyncProfile {
    SyncProfile {
        id: id.to_string(),
        name: format!("Profile {}", id),
        provider: "github".to_string(),
        domain: "github.com".to_string(),
        username: "user".to_string(),
        token: "pat".to_string(),
        local_path: "/srv/git".to_string(),
        sync_interval_secs: 600,
    }
}

fn no_edit() -> ProfileEdit {
    ProfileEdit {
        name: None,
        provider: None,
        domain: None,
        username: None,
        token: None,
        local_path: None,
        sync_interval_secs: None,
        activate: false,
    }
}

fn config_with(ids: &[&str], active: &str) -> Config {
    let mut c = Config::default();
    for id in ids {
        c.profiles.push(profile(id));
    }
    c.active_profile_id = active.to_string();
    c
}

#[test]
fn default_config_values() {
    let c = Config::default();
    assert!(c.profiles.is_empty());
    assert!(c.web_tokens.is_empty());
    assert_eq!(c.active_profile_id, "");
    assert_eq!(c.web_host, "127.0.0.1");
    assert_eq!(c.web_port, 9090);
    assert_eq!(default_web_host(), "127.0.0.1");
    assert_eq!(default_web_port(), 9090);
}

#[test]
fn token_text_is_prefix_and_hex() {
    assert_eq!(token_from_bytes(&vec![0x00, 0xab, 0x0f, 0xff]), "gitsync_00ab0fff");
    assert_eq!(token_from_bytes(&vec![]), "gitsync_");
}

#[test]
fn generated_token_shape() {
    let t = generate_random_token();
    assert_eq!(t.len(), 40);
    assert!(t.starts_with("gitsync_"));
    assert!(t[8..].chars().all(|c| c.is_ascii_hexdigit() && !c.is_ascii_uppercase()));
}

#[test]
fn add_token_then_find_then_delete() {
    let mut c = Config::default();
    assert!(c.add_web_token("laptop", "secret", "2024-01-01T00:00:00+00:00").is_ok());
    assert_eq!(c.web_token_value("laptop"), Some("secret".to_string()));
    assert_eq!(c.web_tokens[0].created_at, "2024-01-01T00:00:00+00:00");
    assert!(c.remove_web_token("laptop").is_ok());
    assert_eq!(c.web_token_value("laptop"), None);
    assert!(c.web_tokens.is_empty());
}

#[test]
fn duplicate_token_name_is_refused() {
    let mut c = Config::default();
    c.add_web_token("a", "1", "t").unwrap();
    let e = c.add_web_token("a", "2", "t").unwrap_err();
    assert_eq!(e, "Token with name 'a' already exists.");
    assert_eq!(c.web_tokens.len(), 1);
    assert_eq!(c.web_token_value("a"), Some("1".to_string()));
    let e2 = c.create_web_token("a", None).unwrap_err();
    assert_eq!(e2, "Token with name 'a' already exists.");
}

#[test]
fn deleting_a_missing_token_fails() {
    let mut c = Config::default();
    c.add_web_token("a", "1", "t").unwrap();
    assert_eq!(c.remove_web_token("b").unwrap_err(), "Token with name 'b' not found.");
    assert_eq!(c.web_tokens.len(), 1);
}

#[test]
fn create_token_with_and_without_value() {
    let mut c = Config::default();
    assert_eq!(c.create_web_token("given", Some("v1".to_string())).unwrap(), "v1");
    let g = c.create_web_token("gen", None).unwrap();
    assert!(g.starts_with("gitsync_") && g.len() == 40);
    assert_eq!(c.web_token_value("gen"), Some(g));
    assert!(!c.web_tokens[0].created_at.is_empty());
}

#[test]
fn default_token_only_when_none() {
    let mut c = Config::default();
    let t = c.ensure_default_token().unwrap();
    assert_eq!(c.web_tokens.len(), 1);
    assert_eq!(c.web_tokens[0].name, "default");
    assert_eq!(c.web_tokens[0].token, t);
    assert!(c.ensure_default_token().is_none());
    assert_eq!(c.web_tokens.len(), 1);
}

#[test]
fn delete_active_profile_moves_active_to_first() {
    let mut c = config_with(&["a", "b", "c"], "b");
    c.delete_profile("b").unwrap();
    let ids: Vec<&str> = c.profiles.iter().map(|p| p.id.as_str()).collect();
    assert_eq!(ids, vec!["a", "c"]);
    assert_eq!(c.active_profile_id, "a");
}

#[test]
fn delete_last_profile_clears_active() {
    let mut c = config_with(&["a"], "a");
    c.delete_profile("a").unwrap();
    assert!(c.profiles.is_empty());
    assert_eq!(c.active_profile_id, "");
}

#[test]
fn delete_other_profile_keeps_active() {
    let mut c = config_with(&["a", "b"], "a");
    c.delete_profile("b").unwrap();
    assert_eq!(c.active_profile_id, "a");
}

#[test]
fn delete_missing_profile_fails() {
    let mut c = config_with(&["a"], "a");
    assert_eq!(c.delete_profile("zz").unwrap_err(), "Profile 'zz' does not exist.");
    assert_eq!(c.profiles.len(), 1);
}

#[test]
fn resolve_profile_id_order() {
    let c = config_with(&["a"], "a");
    assert_eq!(c.resolve_profile_id(Some("x".to_string())), "x");
    assert_eq!(c.resolve_profile_id(None), "a");
    let e = Config::default();
    assert_eq!(e.resolve_profile_id(None), "default");
}

#[test]
fn edit_creates_new_profile_with_defaults_and_activates_when_none_active() {
    let mut c = Config::default();
    let mut e = no_edit();
    e.username = Some("octo".to_string());
    c.apply_profile_edit("work", e);
    assert_eq!(c.profiles.len(), 1);
    let p = &c.profiles[0];
    assert_eq!(p.id, "work");
    assert_eq!(p.name, "work");
    assert_eq!(p.provider, "github");
    assert_eq!(p.domain, "github.com");
    assert_eq!(p.username, "octo");
    assert_eq!(p.token, "");
    assert_eq!(p.sync_interval_secs, 3600);
    assert_eq!(c.active_profile_id, "work");
}

#[test]
fn edit_existing_profile_keeps_other_fields() {
    let mut c = config_with(&["a", "b"], "a");
    let mut e = no_edit();
    e.sync_interval_secs = Some(60);
    e.provider = Some("gitlab".to_string());
    c.apply_profile_edit("b", e);
    assert_eq!(c.profiles.len(), 2);
    assert_eq!(c.profiles[1].sync_interval_secs, 60);
    assert_eq!(c.profiles[1].provider, "gitlab");
    assert_eq!(c.profiles[1].username, "user");
    assert_eq!(c.active_profile_id, "a");
    let mut e2 = no_edit();
    e2.activate = true;
    c.apply_profile_edit("b", e2);
    assert_eq!(c.active_profile_id, "b");
}

#[test]
fn edit_twice_is_edit_once() {
    let mut once = config_with(&["a"], "a");
    let mut twice = config_with(&["a"], "a");
    let mk = || {
        let mut e = no_edit();
        e.token = Some("t2".to_string());
        e
    };
    once.apply_profile_edit("new", mk());
    twice.apply_profile_edit("new", mk());
    twice.apply_profile_edit("new", mk());
    assert_eq!(once.profiles.len(), twice.profiles.len());
    assert_eq!(once.profiles[1].token, twice.profiles[1].token);
    assert_eq!(once.active_profile_id, twice.active_profile_id);
}

#[test]
fn command_port_only() {
    let mut c = config_with(&["a"], "a");
    let cmd = ConfigCommand { profile: None, edit: no_edit(), delete: None, port: Some(8080) };
    match c.apply_command(cmd, &None).unwrap() {
        ConfigOutcome::Edited { changed, profile } => {
            assert!(changed);
            assert!(profile.is_none());
        }
        _ => panic!("expected an edit"),
    }
    assert_eq!(c.web_port, 8080);
}

#[test]
fn command_nothing_changes_nothing() {
    let mut c = config_with(&["a"], "a");
    let cmd = ConfigCommand { profile: None, edit: no_edit(), delete: None, port: None };
    match c.apply_command(cmd, &None).unwrap() {
        ConfigOutcome::Edited { changed, profile } => {
            assert!(!changed);
            assert!(profile.is_none());
        }
        _ => panic!("expected an edit"),
    }
}

#[test]
fn command_relative_path_is_made_absolute() {
    let mut c = Config::default();
    let mut e = no_edit();
    e.local_path = Some("repos".to_string());
    let cmd = ConfigCommand { profile: Some("p".to_string()), edit: e, delete: None, port: None };
    match c.apply_command(cmd, &Some("/home/me".to_string())).unwrap() {
        ConfigOutcome::Edited { changed, profile } => {
            assert!(changed);
            assert_eq!(profile, Some("p".to_string()));
        }
        _ => panic!("expected an edit"),
    }
    assert_eq!(c.profiles[0].local_path, "/home/me/repos");
    assert_eq!(c.active_profile_id, "p");

    let mut e2 = no_edit();
    e2.local_path = Some("/abs/dir".to_string());
    let cmd2 = ConfigCommand { profile: Some("p".to_string()), edit: e2, delete: None, port: None };
    c.apply_command(cmd2, &Some("/home/me".to_string())).unwrap();
    assert_eq!(c.profiles[0].local_path, "/abs/dir");

    let mut e3 = no_edit();
    e3.local_path = Some("rel".to_string());
    let cmd3 = ConfigCommand { profile: Some("p".to_string()), edit: e3, delete: None, port: None };
    c.apply_command(cmd3, &None).unwrap();
    assert_eq!(c.profiles[0].local_path, "rel");
}

#[test]
fn command_delete() {
    let mut c = config_with(&["a", "b"], "a");
    let cmd = ConfigCommand { profile: None, edit: no_edit(), delete: Some("a".to_string()), port: Some(1) };
    match c.apply_command(cmd, &None).unwrap() {
        ConfigOutcome::Deleted { id } => assert_eq!(id, "a"),
        _ => panic!("expected a deletion"),
    }
    assert_eq!(c.web_port, 9090);
    assert_eq!(c.active_profile_id, "b");
    let cmd2 = ConfigCommand { profile: None, edit: no_edit(), delete: Some("zz".to_string()), port: None };
    assert_eq!(c.apply_command(cmd2, &None).err(), Some("Profile 'zz' does not exist.".to_string()));
}

#[test]
fn legacy_settings_migrate_to_one_profile() {
    let s = LegacySettings {
        github_username: Some("octo".to_string()),
        github_token: Some("pat".to_string()),
        local_path: None,
        sync_interval_secs: None,
        web_host: None,
        web_port: Some(70000),
    };
    let c = Config::from_legacy(s);
    assert_eq!(c.profiles.len(), 1);
    let p = &c.profiles[0];
    assert_eq!(p.id, "default-github");
    assert_eq!(p.name, "Default GitHub");
    assert_eq!(p.provider, "github");
    assert_eq!(p.domain, "github.com");
    assert_eq!(p.username, "octo");
    assert_eq!(p.token, "pat");
    assert_eq!(p.local_path, "");
    assert_eq!(p.sync_interval_secs, 3600);
    assert_eq!(c.active_profile_id, "default-github");
    assert_eq!(c.web_host, "127.0.0.1");
    assert_eq!(c.web_port, (70000u64 as u16));
    assert!(c.web_tokens.is_empty());
}

#[test]
fn interpret_legacy_text() {
    let text = r#"{"github_username":"octo","github_token":"pat","local_path":"/data","sync_interval_secs":120,"web_host":"0.0.0.0","web_port":8081}"#;
    match Config::interpret_text(text).unwrap() {
        ConfigText::Migrated(c) => {
            assert_eq!(c.profiles[0].username, "octo");
            assert_eq!(c.profiles[0].token, "pat");
            assert_eq!(c.profiles[0].local_path, "/data");
            assert_eq!(c.profiles[0].sync_interval_secs, 120);
            assert_eq!(c.web_host, "0.0.0.0");
            assert_eq!(c.web_port, 8081);
        }
        ConfigText::Current => panic!("expected a migration"),
    }
}

#[test]
fn interpret_legacy_text_with_wrong_types_uses_defaults() {
    let text = r#"{"github_username":5,"sync_interval_secs":"x"}"#;
    match Config::interpret_text(text).unwrap() {
        ConfigText::Migrated(c) => {
            assert_eq!(c.profiles[0].username, "");
            assert_eq!(c.profiles[0].sync_interval_secs, 3600);
            assert_eq!(c.web_port, 9090);
        }
        ConfigText::Current => panic!("expected a migration"),
    }
}

#[test]
fn interpret_current_text() {
    let text = r#"{"profiles":[],"active_profile_id":""}"#;
    assert!(matches!(Config::interpret_text(text).unwrap(), ConfigText::Current));
}

#[test]
fn interpret_bad_text() {
    let e = Config::interpret_text("{not json").err().unwrap();
    assert!(e.starts_with("Failed to parse config JSON: "));
    assert!(e.len() > "Failed to parse config JSON: ".len());
}

#[test]
fn web_settings_edit_active_profile() {
    let mut c = config_with(&["a"], "a");
    let changed = c.apply_web_settings(WebSettings {
        username: "u2".to_string(),
        token: "t2".to_string(),
        local_path: "/p2".to_string(),
        sync_interval_secs: 30,
        web_port: 9091,
    });
    assert!(changed);
    assert_eq!(c.profiles[0].username, "u2");
    assert_eq!(c.profiles[0].token, "t2");
    assert_eq!(c.profiles[0].local_path, "/p2");
    assert_eq!(c.profiles[0].sync_interval_secs, 30);
    assert_eq!(c.web_port, 9091);
    let same = c.apply_web_settings(WebSettings {
        username: "u2".to_string(),
        token: "t2".to_string(),
        local_path: "/p2".to_string(),
        sync_interval_secs: 30,
        web_port: 9091,
    });
    assert!(!same);
}

#[test]
fn sync_requires_active_profile() {
    let c = Config::default();
    assert_eq!(c.check_can_sync().unwrap_err(), "No active profile is configured. Cannot sync.");
    let d = config_with(&["a"], "a");
    assert!(d.check_can_sync().is_ok());
}

#[test]
fn addresses() {
    let c = Config::default();
    assert_eq!(c.web_address(), "127.0.0.1:9090");
    assert_eq!(c.sync_api_url("MissingOnly"), "http://127.0.0.1:9090/api/sync?mode=MissingOnly");
}

#[test]
fn duplicate_copies_everything() {
    let mut c = config_with(&["a", "b"], "b");
    c.add_web_token("t", "v", "when").unwrap();
    let d = c.duplicate();
    assert_eq!(d.profiles.len(), 2);
    assert_eq!(d.profiles[1].id, "b");
    assert_eq!(d.active_profile_id, "b");
    assert_eq!(d.web_tokens[0].token, "v");
}

#[test]
fn from_parsed_decisions() {
    let legacy = || LegacySettings {
        github_username: None,
        github_token: None,
        local_path: Some("/x".to_string()),
        sync_interval_secs: Some(5),
        web_host: Some("h".to_string()),
        web_port: None,
    };
    assert_eq!(
        Config::from_parsed(Some("EOF while parsing".to_string()), false, legacy()).err(),
        Some("Failed to parse config JSON: EOF while parsing".to_string())
    );
    assert!(matches!(Config::from_parsed(None, true, legacy()), Ok(ConfigText::Current)));
    match Config::from_parsed(None, false, legacy()) {
        Ok(ConfigText::Migrated(c)) => {
            assert_eq!(c.profiles[0].local_path, "/x");
            assert_eq!(c.profiles[0].sync_interval_secs, 5);
            assert_eq!(c.web_host, "h");
        }
        _ => panic!("expected a migration"),
    }
}

#[test]
fn settings_listing_lines() {
    let c = config_with(&["a", "b"], "b");
    let lines = c.settings_lines(b"/home/u/.config/gitsync/config.json");
    let expected = vec![
        "",
        "Global Web UI Settings (/home/u/.config/gitsync/config.json):",
        "  Web Host:          127.0.0.1",
        "  Web Port:          9090",
        "  Active Profile ID: b",
        "",
        "Configured Sync Profiles:",
        "  - Profile ID: a",
        "    Name:       Profile a",
        "    Provider:   github (github.com)",
        "    Username:   user",
        "    Path:       /srv/git",
        "    Interval:   600 seconds",
        "",
        "  - Profile ID: b [ACTIVE]",
        "    Name:       Profile b",
        "    Provider:   github (github.com)",
        "    Username:   user",
        "    Path:       /srv/git",
        "    Interval:   600 seconds",
        "",
    ];
    assert_eq!(lines, expected);
}

#[test]
fn settings_listing_without_profiles() {
    let c = Config::default();
    let lines = c.settings_lines(&[b'/', b'x', 0xff]);
    assert_eq!(lines[1], "Global Web UI Settings (/x\u{fffd}):");
    assert_eq!(lines[4], "  Active Profile ID: <none>");
    assert_eq!(lines.last().unwrap(), "  <no profiles configured>");
    assert_eq!(lines.len(), 8);
}

#[test]
fn token_listing_hides_values() {
    let mut c = Config::default();
    assert_eq!(c.token_listing(), vec!["Web Access Tokens:", "  <no tokens configured>"]);
    c.create_web_token("laptop", Some("secret".to_string())).unwrap();
    let created = c.web_tokens[0].created_at.clone();
    let lines = c.token_listing();
    assert_eq!(
        lines,
        vec![
            "Web Access Tokens:".to_string(),
            "  - Name:       laptop".to_string(),
            format!("    Created At: {}", created),
            "    Value:      ******** (use 'gitsync token show laptop' to view)".to_string(),
            String::new(),
        ]
    );
    assert!(lines.iter().all(|l| !l.contains("secret")));
}

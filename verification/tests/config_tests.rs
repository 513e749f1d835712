use claude_core::error::ConfigError;
use claude_core::{ConfigEntity, ConfigManager, GlobalConfig, ProjectConfig, SessionConfig};

fn setting(key: &str, value: &str) -> ConfigEntity {
    ConfigEntity {
        key: key.to_string(),
        value: value.to_string(),
        scope: "global".to_string(),
        project_dir: None,
        updated_at: 0,
    }
}

#[test]
fn global_defaults() {
    let g = GlobalConfig::default();
    assert_eq!(g.theme, "dark");
    assert_eq!(g.editor_mode, "emacs");
    assert!(g.auto_updates);
    assert!(!g.has_completed_onboarding);
    assert_eq!(g.num_startups, 0);
    let r = GlobalConfig::from_stored(None, None, None, None, None, None);
    assert_eq!(r.theme, "dark");
    assert!(r.auto_updates);
    assert!(r.api_key_helper.is_none());
}

#[test]
fn global_settings_read_back() {
    let g = GlobalConfig::from_stored(
        Some("light".into()),
        Some("vim".into()),
        Some("false".into()),
        Some("true".into()),
        Some("12".into()),
        Some("helper.sh".into()),
    );
    assert_eq!(g.theme, "light");
    assert_eq!(g.editor_mode, "vim");
    assert!(!g.auto_updates);
    assert!(g.has_completed_onboarding);
    assert_eq!(g.num_startups, 12);
    assert_eq!(g.api_key_helper.as_deref(), Some("helper.sh"));
    let bad = GlobalConfig::from_stored(None, None, Some("yes".into()), Some("1".into()), Some("x".into()), None);
    assert!(bad.auto_updates);
    assert!(!bad.has_completed_onboarding);
    assert_eq!(bad.num_startups, 0);
}

#[test]
fn global_settings_round_trip() {
    let mut g = GlobalConfig::default();
    g.theme = "light".into();
    g.num_startups = -3;
    g.auto_updates = false;
    g.api_key_helper = Some("h".into());
    let entries = g.stored_entries();
    let keys: Vec<&str> = entries.iter().map(|(k, _)| k.as_str()).collect();
    assert_eq!(keys, vec!["theme", "editor_mode", "auto_updates", "has_completed_onboarding", "num_startups", "api_key_helper"]);
    let get = |k: &str| entries.iter().rev().find(|(key, _)| key == k).map(|(_, v)| v.clone());
    assert_eq!(get("num_startups").as_deref(), Some("-3"));
    let back = GlobalConfig::from_stored(get("theme"), get("editor_mode"), get("auto_updates"), get("has_completed_onboarding"), get("num_startups"), get("api_key_helper"));
    assert_eq!(back.theme, "light");
    assert_eq!(back.num_startups, -3);
    assert!(!back.auto_updates);
    assert_eq!(back.api_key_helper.as_deref(), Some("h"));
    assert_eq!(GlobalConfig::default().stored_entries().len(), 5);
}

#[test]
fn project_settings() {
    let d = ProjectConfig::default();
    assert!(d.allowed_tools.is_empty() && !d.has_trust_dialog_accepted);
    let mut p = ProjectConfig::default();
    p.allowed_tools = vec!["read".into(), "say \"hi\"".into()];
    p.has_trust_dialog_accepted = true;
    let e = p.stored_entries().unwrap();
    assert_eq!(e[0], ("allowed_tools".to_string(), r#"["read","say \"hi\""]"#.to_string()));
    assert_eq!(e[1], ("mcp_context_uris".to_string(), "[]".to_string()));
    assert_eq!(e[2], ("has_trust_dialog_accepted".to_string(), "true".to_string()));
    let back = ProjectConfig::from_stored(Some(e[0].1.clone()), Some(e[1].1.clone()), Some(e[2].1.clone()));
    assert_eq!(back.allowed_tools, p.allowed_tools);
    assert!(back.mcp_context_uris.is_empty());
    assert!(back.has_trust_dialog_accepted);
}

#[test]
fn manager_paths_and_names() {
    let m = ConfigManager::new(None);
    assert!(matches!(m.project_dir(), Err(ConfigError::NoProjectDir)));
    let p = ConfigManager::new(Some("/work/p"));
    assert_eq!(p.project_dir().unwrap(), "/work/p");
    assert_eq!(ConfigManager::api_key_name("deepseek"), "api_key.deepseek");
    assert_eq!(ConfigManager::session_setting_name("s1", "model"), "session.s1.model");
}

#[test]
fn api_keys_from_settings() {
    let entries = vec![
        setting("api_key.deepseek", "k1"),
        setting("theme", "dark"),
        setting("api_key.siliconflow", "k2"),
        setting("api_key.deepseek", "k3"),
    ];
    let mut keys = ConfigManager::api_keys_from(&entries);
    keys.sort();
    assert_eq!(keys, vec![("deepseek".to_string(), "k3".to_string()), ("siliconflow".to_string(), "k2".to_string())]);
    assert!(ConfigManager::api_keys_from(&vec![]).is_empty());
}

#[test]
fn session_settings_round_trip() {
    let mut c = SessionConfig::default();
    c.api_key = "sk".into();
    c.model = "deepseek-reasoner".into();
    c.max_tokens = 123456;
    let e = ConfigManager::session_config_entries("s9", &c);
    assert_eq!(e[0], ("session.s9.api_key".to_string(), "sk".to_string()));
    assert_eq!(e[1], ("session.s9.model".to_string(), "deepseek-reasoner".to_string()));
    assert_eq!(e[2], ("session.s9.max_tokens".to_string(), "123456".to_string()));
    let back = ConfigManager::session_config_from_stored(Some(e[0].1.clone()), Some(e[1].1.clone()), Some(e[2].1.clone()));
    assert_eq!(back.api_key, "sk");
    assert_eq!(back.model, "deepseek-reasoner");
    assert_eq!(back.max_tokens, 123456);
    let empty = ConfigManager::session_config_from_stored(None, None, None);
    assert_eq!((empty.api_key.as_str(), empty.model.as_str(), empty.max_tokens), ("", "deepseek-chat", 4096));
}

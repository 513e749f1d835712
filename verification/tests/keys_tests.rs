use claude_core::{ApiKeyStore, KeyBindings, KeyManager, ProviderCredentials};

#[test]
fn key_store_read_after_write() {
    let mut s = ApiKeyStore::new();
    assert_eq!(s.get("deepseek"), None);
    s.set("deepseek", "k1");
    s.set("siliconflow", "k2");
    assert_eq!(s.get("deepseek").as_deref(), Some("k1"));
    s.set("deepseek", "k3");
    assert_eq!(s.get("deepseek").as_deref(), Some("k3"));
    assert_eq!(s.get("siliconflow").as_deref(), Some("k2"));
    let mut p = s.list_providers();
    p.sort();
    assert_eq!(p, vec!["deepseek".to_string(), "siliconflow".to_string()]);
    assert_eq!(s.remove("deepseek").as_deref(), Some("k3"));
    assert_eq!(s.remove("deepseek"), None);
    assert_eq!(s.get("deepseek"), None);
    assert_eq!(s.list_providers(), vec!["siliconflow".to_string()]);
    assert!(ApiKeyStore::default().list_providers().is_empty());
}

#[test]
fn key_bindings_replace() {
    let mut b = KeyBindings::new();
    b.bind("ctrl+c", "cancel");
    b.bind("ctrl+c", "copy");
    assert_eq!(b.action("ctrl+c").as_deref(), Some("copy"));
    assert_eq!(b.action("ctrl+v"), None);
}

#[test]
fn credentials_builders() {
    let c = ProviderCredentials::new("deepseek", "sk")
        .with_base_url("https://x")
        .with_models(vec!["m1".to_string()]);
    assert_eq!(c.provider, "deepseek");
    assert_eq!(c.api_key, "sk");
    assert_eq!(c.base_url.as_deref(), Some("https://x"));
    assert_eq!(c.models, vec!["m1".to_string()]);
    assert!(ProviderCredentials::new("a", "b").base_url.is_none());
}

#[test]
fn key_paths() {
    let m = KeyManager::in_dir("/tmp/keys");
    assert_eq!(m.get_key_path("deepseek"), "/tmp/keys/deepseek_key");
    assert_eq!(m.config_dir(), "/tmp/keys");
    let n = KeyManager::new();
    assert!(n.get_key_path("x").ends_with("assistant-mobile/x_key"));
    assert!(n.config_dir().ends_with("assistant-mobile"));
}

#[test]
fn key_paths_join_like_unix_paths() {
    assert_eq!(KeyManager::in_dir("/tmp/keys/").get_key_path("a"), "/tmp/keys/a_key");
    assert_eq!(KeyManager::in_dir("").get_key_path("a"), "a_key");
    let m = KeyManager::in_dir("/k");
    assert_ne!(m.get_key_path("deepseek"), m.get_key_path("siliconflow"));
    assert_ne!(m.get_key_path("a"), m.get_key_path("a_key"));
}

#[test]
fn key_directory_under_a_base() {
    assert_eq!(KeyManager::under(Some("/cfg")).config_dir(), "/cfg/assistant-mobile");
    assert_eq!(KeyManager::under(None).config_dir(), "./assistant-mobile");
    assert_eq!(KeyManager::under(Some("/cfg")).get_key_path("deepseek"), "/cfg/assistant-mobile/deepseek_key");
}

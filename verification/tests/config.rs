use hydrogen::config::{
    config_file_path, default_config_file, default_windows_config_file, ConfigHome, default_lavalink_address, default_lavalink_password,
    parse_nodes, Args, Config, LavalinkConfig,
};
use hydrogen::lavalink::LavalinkNodeInfo;

#[test]
fn lavalink_config_reads_address_password_and_tls() {
    let c = LavalinkConfig::from("localhost:2333,youshallnotpass,true");
    assert_eq!(c.address, "localhost:2333");
    assert_eq!(c.password, "youshallnotpass");
    assert!(c.tls);
    for word in ["TRUE", "yes", "1", "Enabled", "on"] {
        assert!(LavalinkConfig::from(&format!("a,b,{}", word)).tls, "{}", word);
    }
    for word in ["false", "no", "0", ""] {
        assert!(!LavalinkConfig::from(&format!("a,b,{}", word)).tls, "{}", word);
    }
}

#[test]
fn lavalink_config_defaults() {
    let c = LavalinkConfig::from("example.com:80");
    assert_eq!(c.address, "example.com:80");
    assert_eq!(c.password, default_lavalink_password());
    assert!(!c.tls);
    assert_eq!(default_lavalink_address(), "127.0.0.1:2333");
    assert_eq!(default_lavalink_password(), "youshallnotpass");
}

#[test]
fn nodes_are_separated_by_semicolons() {
    let nodes = parse_nodes("a:1,p1;b:2,p2,true");
    assert_eq!(nodes.len(), 2);
    assert_eq!(nodes[0].address, "a:1");
    assert_eq!(nodes[1].password, "p2");
    assert!(nodes[1].tls);
    let info = LavalinkNodeInfo::from(nodes[1].clone());
    assert_eq!(info.host, "b:2");
    assert!(info.tls);
}

#[test]
fn environment_fills_only_missing_fields() {
    let file = Config {
        default_language: Some("pt-BR".to_string()),
        language_path: None,
        lavalink: None,
        discord_token: Some("file-token".to_string()),
    };
    let c = file.or_from_env(
        Some("en-US".to_string()),
        Some("/langs".to_string()),
        Some("h:1,pw".to_string()),
        Some("env-token".to_string()),
    );
    assert_eq!(c.default_language.as_deref(), Some("pt-BR"));
    assert_eq!(c.language_path.as_deref(), Some("/langs"));
    assert_eq!(c.discord_token.as_deref(), Some("file-token"));
    let nodes = c.lavalink.unwrap();
    assert_eq!(nodes.len(), 1);
    assert_eq!(nodes[0].address, "h:1");
}

#[test]
fn default_config_is_empty() {
    let c = Config::default();
    assert!(c.default_language.is_none());
    assert!(c.language_path.is_none());
    assert!(c.lavalink.is_none());
    assert!(c.discord_token.is_none());
}

#[test]
fn config_file_is_searched_in_order() {
    assert_eq!(default_config_file(None), "/etc/hydrogen/config.toml");
    assert_eq!(default_config_file(Some("/home/u/.config".to_string())), "/home/u/.config/hydrogen/config.toml");
    assert_eq!(default_config_file(Some("/x/".to_string())), "/x/hydrogen/config.toml");
    assert_eq!(default_config_file(Some(String::new())), "hydrogen/config.toml");
    let arg = Args { config_file: Some("a.toml".to_string()) };
    assert_eq!(config_file_path(arg, Some("b.toml".to_string()), ConfigHome::Unix(None)), "a.toml");
    let none = Args { config_file: None };
    assert_eq!(config_file_path(none.clone(), Some("b.toml".to_string()), ConfigHome::Unix(None)), "b.toml");
    assert_eq!(config_file_path(none.clone(), None, ConfigHome::Unix(None)), "/etc/hydrogen/config.toml");
    assert_eq!(
        config_file_path(none, None, ConfigHome::Windows(None)),
        "C:\\ProgramData\\Hydrogen\\Config.toml"
    );
}

#[test]
fn windows_config_file_is_under_appdata() {
    assert_eq!(default_windows_config_file(None), "C:\\ProgramData\\Hydrogen\\Config.toml");
    assert_eq!(
        default_windows_config_file(Some("C:\\Users\\u\\AppData\\Roaming".to_string())),
        "C:\\Users\\u\\AppData\\Roaming\\Hydrogen\\Config.toml"
    );
    assert_eq!(default_windows_config_file(Some("D:\\".to_string())), "D:\\Hydrogen\\Config.toml");
    assert_eq!(default_windows_config_file(Some("D:".to_string())), "D:Hydrogen\\Config.toml");
    assert_eq!(default_windows_config_file(Some(String::new())), "Hydrogen\\Config.toml");
}

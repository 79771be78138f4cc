use pastebin::{
    choose_dir, config_or_default, config_path_from, default_data_dir, default_database_url,
    default_host, default_port, default_static_dir, default_templates_dir, DirChoice,
    PastebinConfig,
};

#[test]
fn default_values() {
    assert_eq!(default_database_url(), "sqlite://pastebin.db");
    assert_eq!(default_templates_dir(), "templates");
    assert_eq!(default_data_dir(), "data");
    assert_eq!(default_static_dir(), "static");
    assert_eq!(default_host(), "127.0.0.1");
    assert_eq!(default_port(), 8080);
    let c = PastebinConfig::default();
    assert_eq!(c.database_url, "sqlite://pastebin.db");
    assert_eq!(c.templates_dir, "templates");
    assert_eq!(c.data_dir, "data");
    assert_eq!(c.static_dir, "static");
    assert_eq!(c.host, "127.0.0.1");
    assert_eq!(c.port, 8080);
}

#[test]
fn unreadable_config_gives_defaults() {
    let c = config_or_default(None);
    assert_eq!(c.port, 8080);
    assert_eq!(c.host, "127.0.0.1");
    let mut mine = PastebinConfig::default();
    mine.port = 9000;
    mine.host = "0.0.0.0".to_string();
    let c = config_or_default(Some(mine));
    assert_eq!(c.port, 9000);
    assert_eq!(c.host, "0.0.0.0");
}

#[test]
fn config_path_preference() {
    assert_eq!(config_path_from(Some("/a.toml".into()), Some("/b.toml".into())), "/a.toml");
    assert_eq!(config_path_from(None, Some("/b.toml".into())), "/b.toml");
    assert_eq!(config_path_from(None, None), "pastebin.toml");
}

#[test]
fn directory_choice() {
    assert!(matches!(choose_dir(true, false, None), DirChoice::AsGiven));
    assert!(matches!(choose_dir(false, true, Some((true, true))), DirChoice::UnderWorkingDir));
    assert!(matches!(choose_dir(false, false, Some((true, true))), DirChoice::UnderExecutableDir));
    assert!(matches!(choose_dir(false, false, Some((false, true))), DirChoice::DefaultUnderExecutableDir));
    assert!(matches!(choose_dir(false, false, Some((false, false))), DirChoice::UnderWorkingDir));
    assert!(matches!(choose_dir(false, false, None), DirChoice::UnderWorkingDir));
}

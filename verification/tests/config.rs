use ccurl::config::{default_accept, Auth, Config, ConfigError, ConfigSource, Opts};
use ccurl::resolve::find_for_hostname;

fn option_list(items: &[&str]) -> Vec<String> {
    items.iter().map(|s| s.to_string()).collect()
}

#[test]
fn built_in_accept_value() {
    assert_eq!(default_accept(), "application/json, */*");
}

#[test]
fn default_opts_are_empty() {
    let opts = Opts::default();
    assert_eq!(opts.default_accept(), "application/json, */*");
    assert!(opts.hosts().is_empty());
    assert_eq!(opts.hosts().len(), 0);
}

#[test]
fn default_auth_is_empty() {
    let auth = Auth::default();
    assert!(auth.hosts().is_empty());
    assert!(auth.keys().is_empty());
}

#[test]
fn default_config_is_empty() {
    let config = Config::default();
    assert_eq!(config.opts.default_accept(), "application/json, */*");
    assert!(config.opts.hosts().is_empty());
    assert!(config.auth.hosts().is_empty());
    assert!(config.auth.keys().is_empty());
}

#[test]
fn default_accept_can_be_replaced() {
    let mut config = Config::default();
    config.opts.set_default_accept("text/plain".to_string());
    assert_eq!(config.opts.default_accept(), "text/plain");
    config.opts.set_default_accept(String::new());
    assert_eq!(config.opts.default_accept(), "");
    assert!(config.opts.hosts().is_empty());
}

#[test]
fn host_options_are_stored() {
    let mut opts = Opts::default();
    assert!(opts.insert_host("api.example.com".to_string(), option_list(&["--max-time", "5"])));
    assert_eq!(opts.hosts().len(), 1);
    assert_eq!(opts.hosts().get("api.example.com"), Some(&option_list(&["--max-time", "5"])));
    assert_eq!(opts.default_accept(), "application/json, */*");
}

#[test]
fn later_options_replace_earlier_ones() {
    let mut opts = Opts::default();
    assert!(opts.insert_host("a.com".to_string(), option_list(&["-v"])));
    assert!(opts.insert_host("a.com".to_string(), option_list(&["-s", "-k"])));
    assert_eq!(opts.hosts().len(), 1);
    assert_eq!(opts.hosts().get("a.com"), Some(&option_list(&["-s", "-k"])));
}

#[test]
fn hostnames_not_in_lowercase_are_not_stored() {
    let mut opts = Opts::default();
    assert!(!opts.insert_host("API.example.com".to_string(), option_list(&["-v"])));
    assert!(opts.hosts().is_empty());
    let mut auth = Auth::default();
    assert!(!auth.insert_host("Example.com".to_string(), "key".to_string()));
    assert!(auth.hosts().is_empty());
    assert!(find_for_hostname(&option_list(&["api.example.com", "API.example.com"]), opts.hosts()).is_none());
}

#[test]
fn hostnames_without_letters_are_stored() {
    let mut auth = Auth::default();
    assert!(auth.insert_host("127.0.0.1".to_string(), "key".to_string()));
    assert!(auth.insert_host("[::1]".to_string(), "key".to_string()));
    assert!(auth.insert_host(String::new(), "key".to_string()));
    assert_eq!(auth.hosts().len(), 3);
}

#[test]
fn auth_entries_are_stored() {
    let mut auth = Auth::default();
    assert!(auth.insert_host("a.com".to_string(), "prod".to_string()));
    auth.insert_key("prod".to_string(), "secret123".to_string());
    auth.insert_key("Prod".to_string(), "other".to_string());
    assert_eq!(auth.hosts().get("a.com"), Some(&"prod".to_string()));
    assert_eq!(auth.keys().get("prod"), Some(&"secret123".to_string()));
    assert_eq!(auth.keys().get("Prod"), Some(&"other".to_string()));
    assert_eq!(auth.keys().len(), 2);
    auth.insert_key("prod".to_string(), "rotated".to_string());
    assert_eq!(auth.keys().get("prod"), Some(&"rotated".to_string()));
    assert_eq!(auth.hosts().len(), 1);
}

#[test]
fn missing_file_gives_the_defaults() {
    match Config::from_source(ConfigSource::Missing) {
        Ok(config) => {
            assert_eq!(config.opts.default_accept(), "application/json, */*");
            assert!(config.opts.hosts().is_empty());
            assert!(config.auth.hosts().is_empty());
            assert!(config.auth.keys().is_empty());
        }
        Err(_) => panic!("a missing file is no error"),
    }
}

#[test]
fn malformed_file_is_an_error() {
    let source = ConfigSource::Malformed("expected value at line 1 column 1".to_string());
    match Config::from_source(source) {
        Err(ConfigError::Malformed(reason)) => assert_eq!(reason, "expected value at line 1 column 1"),
        _ => panic!("a malformed file must be reported"),
    }
}

#[test]
fn unreadable_file_is_an_error() {
    let source = ConfigSource::Unreadable("permission denied".to_string());
    match Config::from_source(source) {
        Err(ConfigError::Unreadable(reason)) => assert_eq!(reason, "permission denied"),
        _ => panic!("an unreadable file must be reported"),
    }
}

#[test]
fn parsed_file_is_used_as_it_is() {
    let mut config = Config::default();
    config.opts.set_default_accept("text/plain".to_string());
    assert!(config.opts.insert_host("a.com".to_string(), option_list(&["-v"])));
    match Config::from_source(ConfigSource::Parsed(config)) {
        Ok(config) => {
            assert_eq!(config.opts.default_accept(), "text/plain");
            assert_eq!(config.opts.hosts().get("a.com"), Some(&option_list(&["-v"])));
        }
        Err(_) => panic!("a parsed file is no error"),
    }
}

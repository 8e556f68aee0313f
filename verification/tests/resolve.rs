use ccurl::config::Config;
use ccurl::resolve::{find_for_hostname, resolve_auth, resolve_key};

fn names(items: &[&str]) -> Vec<String> {
    items.iter().map(|s| s.to_string()).collect()
}

fn two_hosts() -> Config {
    let mut config = Config::default();
    assert!(config.opts.insert_host("a.com".to_string(), names(&["-v"])));
    assert!(config.opts.insert_host("b.com".to_string(), names(&["-s"])));
    config
}

#[test]
fn empty_map_finds_nothing() {
    let config = Config::default();
    assert!(find_for_hostname(&names(&["a.com", "b.com"]), config.opts.hosts()).is_none());
    assert!(find_for_hostname(&names(&["a.com", "a.com", "a.com"]), config.auth.hosts()).is_none());
    assert!(find_for_hostname(&[], config.opts.hosts()).is_none());
}

#[test]
fn empty_hostname_list_finds_nothing() {
    let config = two_hosts();
    assert!(find_for_hostname(&[], config.opts.hosts()).is_none());
}

#[test]
fn earliest_hostname_wins() {
    let config = two_hosts();
    let found = find_for_hostname(&names(&["b.com", "a.com"]), config.opts.hosts());
    assert_eq!(found, Some(&names(&["-s"])));
    let found = find_for_hostname(&names(&["a.com", "b.com"]), config.opts.hosts());
    assert_eq!(found, Some(&names(&["-v"])));
}

#[test]
fn hostnames_without_entry_are_passed_over() {
    let config = two_hosts();
    let found = find_for_hostname(&names(&["x.org", "y.org", "a.com", "b.com"]), config.opts.hosts());
    assert_eq!(found, Some(&names(&["-v"])));
    assert!(find_for_hostname(&names(&["x.org", "y.org"]), config.opts.hosts()).is_none());
}

#[test]
fn lookup_is_exact() {
    let config = two_hosts();
    assert!(find_for_hostname(&names(&["A.com"]), config.opts.hosts()).is_none());
    assert!(find_for_hostname(&names(&["a.com."]), config.opts.hosts()).is_none());
    assert!(find_for_hostname(&names(&["www.a.com"]), config.opts.hosts()).is_none());
}

#[test]
fn entries_are_not_merged() {
    let config = two_hosts();
    let found = find_for_hostname(&names(&["a.com", "b.com", "a.com"]), config.opts.hosts());
    assert_eq!(found.map(|options| options.len()), Some(1));
}

#[test]
fn alias_gives_its_secret() {
    let mut config = Config::default();
    config.auth.insert_key("prod".to_string(), "secret123".to_string());
    assert_eq!(resolve_key(&"prod".to_string(), config.auth.keys()), "secret123");
}

#[test]
fn key_without_alias_is_the_secret() {
    let mut config = Config::default();
    config.auth.insert_key("prod".to_string(), "secret123".to_string());
    assert_eq!(resolve_key(&"rawtoken".to_string(), config.auth.keys()), "rawtoken");
    let empty = Config::default();
    assert_eq!(resolve_key(&"rawtoken".to_string(), empty.auth.keys()), "rawtoken");
}

#[test]
fn alias_is_followed_once() {
    let mut config = Config::default();
    config.auth.insert_key("a".to_string(), "b".to_string());
    config.auth.insert_key("b".to_string(), "c".to_string());
    assert_eq!(resolve_key(&"a".to_string(), config.auth.keys()), "b");
}

#[test]
fn auth_resolves_through_alias() {
    let mut config = Config::default();
    assert!(config.auth.insert_host("api.example.com".to_string(), "prod".to_string()));
    config.auth.insert_key("prod".to_string(), "secret123".to_string());
    let secret = resolve_auth(&names(&["api.example.com"]), config.auth.hosts(), config.auth.keys());
    assert_eq!(secret, Some(&"secret123".to_string()));
}

#[test]
fn auth_falls_back_to_the_key() {
    let mut config = Config::default();
    assert!(config.auth.insert_host("api.example.com".to_string(), "rawtoken".to_string()));
    config.auth.insert_key("prod".to_string(), "secret123".to_string());
    let secret = resolve_auth(&names(&["api.example.com"]), config.auth.hosts(), config.auth.keys());
    assert_eq!(secret, Some(&"rawtoken".to_string()));
}

#[test]
fn auth_without_host_entry_finds_nothing() {
    let mut config = Config::default();
    config.auth.insert_key("prod".to_string(), "secret123".to_string());
    assert!(resolve_auth(&names(&["prod"]), config.auth.hosts(), config.auth.keys()).is_none());
    assert!(resolve_auth(&[], config.auth.hosts(), config.auth.keys()).is_none());
}

#[test]
fn auth_takes_the_earliest_hostname() {
    let mut config = Config::default();
    assert!(config.auth.insert_host("a.com".to_string(), "ka".to_string()));
    assert!(config.auth.insert_host("b.com".to_string(), "kb".to_string()));
    config.auth.insert_key("kb".to_string(), "secret-b".to_string());
    let secret = resolve_auth(&names(&["x.org", "b.com", "a.com"]), config.auth.hosts(), config.auth.keys());
    assert_eq!(secret, Some(&"secret-b".to_string()));
}

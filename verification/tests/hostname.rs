use ccurl::hostname::{extract_hostnames, hostname_of_token, looks_like_url};

fn args_of(items: &[&str]) -> Vec<String> {
    items.iter().map(|s| s.to_string()).collect()
}

#[test]
fn url_gives_its_host() {
    assert_eq!(hostname_of_token("https://api.example.com/x"), Some("api.example.com".to_string()));
    assert_eq!(hostname_of_token("http://example.org"), Some("example.org".to_string()));
    assert_eq!(hostname_of_token("ftp://rms@example.com"), Some("example.com".to_string()));
    assert_eq!(hostname_of_token("https://127.0.0.1:8443/index.html"), Some("127.0.0.1".to_string()));
}

#[test]
fn host_is_put_in_lowercase() {
    assert_eq!(hostname_of_token("https://API.Example.COM/x"), Some("api.example.com".to_string()));
    assert_eq!(hostname_of_token("custom://EXAMPLE.Com/path"), Some("example.com".to_string()));
}

#[test]
fn flag_like_tokens_give_no_hostname() {
    assert_eq!(hostname_of_token("-https://a.com"), None);
    assert_eq!(hostname_of_token("--url=https://a.com/x"), None);
    assert_eq!(hostname_of_token("-"), None);
    assert!(!looks_like_url("-https://a.com"));
    assert!(!looks_like_url("--proxy=http://proxy.local:3128"));
}

#[test]
fn tokens_without_separator_are_not_parsed() {
    assert_eq!(hostname_of_token(""), None);
    assert_eq!(hostname_of_token("example.com"), None);
    assert_eq!(hostname_of_token("mailto:someone@example.com"), None);
    assert_eq!(hostname_of_token("a:/b"), None);
    assert_eq!(hostname_of_token(":/"), None);
    assert!(!looks_like_url("http:/example.com"));
    assert!(looks_like_url("://"));
    assert!(looks_like_url("x://"));
    assert!(looks_like_url("a b://c"));
}

#[test]
fn tokens_that_do_not_parse_are_skipped() {
    assert_eq!(hostname_of_token("://example.com"), None);
    assert_eq!(hostname_of_token("a b://example.com"), None);
    assert_eq!(hostname_of_token("http://"), None);
    assert_eq!(hostname_of_token("http://[::1"), None);
}

#[test]
fn urls_without_host_are_skipped() {
    assert_eq!(hostname_of_token("file:///etc/hosts"), None);
}

#[test]
fn hostnames_keep_argument_order() {
    let args = args_of(&["-X", "POST", "https://b.com/1", "-d", "x=1", "http://a.com/2"]);
    assert_eq!(extract_hostnames(&args), args_of(&["b.com", "a.com"]));
}

#[test]
fn repeated_hosts_are_listed_each_time() {
    let args = args_of(&["https://a.com/1", "https://b.com", "https://A.com/2"]);
    assert_eq!(extract_hostnames(&args), args_of(&["a.com", "b.com", "a.com"]));
}

#[test]
fn flags_with_urls_are_ignored_in_a_list() {
    let args = args_of(&["--referer=https://evil.example/", "https://good.example/x", "-ohttp://c.com"]);
    assert_eq!(extract_hostnames(&args), args_of(&["good.example"]));
}

#[test]
fn nothing_to_extract() {
    assert_eq!(extract_hostnames(&[]), Vec::<String>::new());
    assert_eq!(extract_hostnames(&args_of(&["-v", "--trace", "localhost:8080"])), Vec::<String>::new());
    assert_eq!(extract_hostnames(&args_of(&["nonsense://", "://", "-://"])), Vec::<String>::new());
}

#[test]
fn header_values_with_urls_count_as_urls() {
    let args = args_of(&["-H", "Referer: https://ref.example/", "https://a.com"]);
    assert_eq!(extract_hostnames(&args), args_of(&["a.com"]));
    let args = args_of(&["-e", "https://ref.example/", "https://a.com"]);
    assert_eq!(extract_hostnames(&args), args_of(&["ref.example", "a.com"]));
}

use hivehook::client::{default_settings, AsyncHivehookClientBuilder, HivehookClientBuilder};
use std::time::Duration;

#[test]
fn builder_defaults() {
    let s = HivehookClientBuilder::new(String::from("http://localhost:8080"), Some(String::from("hh_test")))
        .settings();
    assert_eq!(s.graphql_url, "http://localhost:8080/graphql");
    assert_eq!(s.api_key.as_deref(), Some("hh_test"));
    assert_eq!(s.timeout, None);
    assert_eq!(s.max_retries, 2);
}

#[test]
fn builder_overrides() {
    let s = HivehookClientBuilder::new(String::from("https://api.example.com/"), None)
        .max_retries(0)
        .timeout(Duration::from_secs(5))
        .settings();
    assert_eq!(s.graphql_url, "https://api.example.com/graphql");
    assert_eq!(s.api_key, None);
    assert_eq!(s.timeout, Some(Duration::from_secs(5)));
    assert_eq!(s.max_retries, 0);
    let a = AsyncHivehookClientBuilder::new(String::from("https://api.example.com"), None)
        .timeout(Duration::from_millis(250))
        .max_retries(7)
        .settings();
    assert_eq!(a.graphql_url, "https://api.example.com/graphql");
    assert_eq!(a.timeout, Some(Duration::from_millis(250)));
    assert_eq!(a.max_retries, 7);
}

#[test]
fn default_settings_match_builder() {
    let s = default_settings("http://h/", Some(String::from("k")));
    assert_eq!(s.graphql_url, "http://h/graphql");
    assert_eq!(s.api_key.as_deref(), Some("k"));
    assert_eq!(s.timeout, None);
    assert_eq!(s.max_retries, 2);
}

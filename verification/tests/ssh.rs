//! The cache of server answers and the percentages of downloads.

use leepanel::cache::SshCache;
use leepanel::lines::curl_percentage;

fn parse_curl_progress(line: &str) -> Option<f64> {
    curl_percentage(line).and_then(|text| text.parse::<f64>().ok())
}

#[test]
fn parse_curl_progress_percentage() {
    assert_eq!(parse_curl_progress("45.2%"), Some(45.2));
    assert_eq!(parse_curl_progress("100%"), Some(100.0));
    assert_eq!(parse_curl_progress("0.5%"), Some(0.5));
}

#[test]
fn parse_curl_progress_behind_a_bar() {
    assert_eq!(parse_curl_progress("### 45.2%"), Some(45.2));
    assert_eq!(parse_curl_progress("#=#=# 100%"), Some(100.0));
    assert_eq!(parse_curl_progress("###"), None);
    assert_eq!(parse_curl_progress("### %"), None);
}

#[test]
fn parse_curl_progress_no_percent() {
    assert_eq!(parse_curl_progress("downloading..."), None);
    assert_eq!(parse_curl_progress(""), None);
}

#[test]
fn cache_put_and_get() {
    let mut cache = SshCache::new();
    cache.put("s1", "system_info", "ubuntu".to_string());
    assert_eq!(cache.get("s1", "system_info", 60), Some("ubuntu".to_string()));
}

#[test]
fn cache_miss_returns_none() {
    let cache = SshCache::new();
    assert_eq!(cache.get("s1", "nonexistent", 60), None);
}

#[test]
fn cache_ttl_zero_always_valid() {
    let mut cache = SshCache::new();
    cache.put("s1", "k", "v".to_string());
    assert_eq!(cache.get("s1", "k", 0), Some("v".to_string()));
}

#[test]
fn cache_invalidate_specific_keys() {
    let mut cache = SshCache::new();
    cache.put("s1", "a", "1".to_string());
    cache.put("s1", "b", "2".to_string());
    cache.invalidate("s1", &["a"]);
    assert_eq!(cache.get("s1", "a", 60), None);
    assert_eq!(cache.get("s1", "b", 60), Some("2".to_string()));
}

#[test]
fn cache_clear_session() {
    let mut cache = SshCache::new();
    cache.put("s1", "k1", "v1".to_string());
    cache.put("s1", "k2", "v2".to_string());
    cache.put("s2", "k1", "other".to_string());
    cache.clear_session("s1");
    assert_eq!(cache.get("s1", "k1", 60), None);
    assert_eq!(cache.get("s1", "k2", 60), None);
    assert_eq!(cache.get("s2", "k1", 60), Some("other".to_string()));
}

#[test]
fn cache_session_isolation() {
    let mut cache = SshCache::new();
    cache.put("s1", "key", "val1".to_string());
    cache.put("s2", "key", "val2".to_string());
    assert_eq!(cache.get("s1", "key", 60), Some("val1".to_string()));
    assert_eq!(cache.get("s2", "key", 60), Some("val2".to_string()));
}

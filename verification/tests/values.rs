use std::collections::HashMap;

use graphann::time::TimeSpan;
use graphann::types::{default_k, SearchFilter};
use graphann::{is_false, text};

#[test]
fn search_filter_is_empty() {
    assert!(SearchFilter::default().is_empty());
    let f = SearchFilter {
        equals: HashMap::from([("lang".to_string(), "en".to_string())]),
        ..Default::default()
    };
    assert!(!f.is_empty());
    let f = SearchFilter { repo_ids: vec!["r".to_string()], ..Default::default() };
    assert!(!f.is_empty());
    let f = SearchFilter { exclude_external_ids: vec!["x".to_string()], ..Default::default() };
    assert!(!f.is_empty());
    let f = SearchFilter {
        metadata_filter: HashMap::from([("k".to_string(), serde_json::Value::from(1))]),
        ..Default::default()
    };
    assert!(!f.is_empty());
}

#[test]
fn time_spans() {
    let t = TimeSpan::new(3, 1_500_000_000);
    assert_eq!(t.as_nanos(), 4_500_000_000);
    assert_eq!(t.as_secs(), 4);
    assert_eq!(t.subsec_nanos(), 500_000_000);
    assert_eq!(t.as_millis(), 4_500);
    assert!(TimeSpan::zero().is_zero());
    assert_eq!(TimeSpan::from_micros(3).as_nanos(), 3_000);
    let max = TimeSpan::new(u64::MAX, 999_999_999);
    assert_eq!(max.as_nanos(), graphann::time::MAX_NANOS);
    assert!(TimeSpan::try_from_nanos(graphann::time::MAX_NANOS + 1).is_none());
    assert_eq!(TimeSpan::try_from_nanos(5), Some(TimeSpan::from_nanos(5)));
}

#[test]
fn text_helpers() {
    assert_eq!(text::decimal_string(0), "0");
    assert_eq!(text::decimal_string(u128::MAX), u128::MAX.to_string());
    assert!(text::str_eq("abc", "abc"));
    assert!(!text::str_eq("abc", "abd"));
    assert!(!text::str_eq("ab", "abc"));
    assert!(is_false(&false));
    assert!(!is_false(&true));
}

#[test]
fn search_defaults_to_ten_results() {
    assert_eq!(default_k(), 10);
}

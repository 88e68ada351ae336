use siege::config_table::{config_rows, is_highlighted_key, str_lex_le};
use siege::properties::KafkaProperties;

fn props(pairs: &[(&str, &str)]) -> KafkaProperties {
    KafkaProperties::from_pairs(pairs.iter().map(|(k, v)| (k.to_string(), v.to_string())).collect())
}

#[test]
fn rows_are_sorted_and_highlighted() {
    let rows = config_rows(&props(&[
        ("segment.ms", "1"),
        ("retention.ms", "1000"),
        ("cleanup.policy", "compact"),
        ("flush.ms", "5"),
    ]));
    let keys: Vec<&str> = rows.all.iter().map(|(k, _)| k.as_str()).collect();
    assert_eq!(keys, vec!["cleanup.policy", "flush.ms", "retention.ms", "segment.ms"]);
    let hk: Vec<&str> = rows.highlighted.iter().map(|(k, _)| k.as_str()).collect();
    assert_eq!(hk, vec!["cleanup.policy", "retention.ms"]);
    assert!(rows.has_more);
    assert_eq!(rows.shown(true).len(), 4);
    assert_eq!(rows.shown(false).len(), 2);
    assert_eq!(rows.all[2].1, "1000");
}

#[test]
fn only_highlighted_keys_means_nothing_more() {
    let rows = config_rows(&props(&[("retention.bytes", "1"), ("min.insync.replicas", "2")]));
    assert!(!rows.has_more);
    assert_eq!(rows.all.len(), 2);
    assert_eq!(rows.all[0].0, "min.insync.replicas");
    let empty = config_rows(&KafkaProperties::new());
    assert!(empty.all.is_empty());
    assert!(!empty.has_more);
}

#[test]
fn lexicographic_order() {
    assert!(str_lex_le("a", "b"));
    assert!(str_lex_le("ab", "abc"));
    assert!(!str_lex_le("abc", "ab"));
    assert!(str_lex_le("same", "same"));
    assert!(is_highlighted_key(&"max.message.bytes".to_string()));
    assert!(!is_highlighted_key(&"segment.ms".to_string()));
}

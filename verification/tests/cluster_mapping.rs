use siege::cluster::{
    apply_config_entries, config_from_entries, find_metadata, merge_described_configs,
    topic_from_metadata, visible_topics, ConfigEntry, TopicMetadata,
};
use siege::error::SiegeError;
use siege::properties::KafkaProperties;

fn meta(name: &str, replicas: &[usize]) -> TopicMetadata {
    TopicMetadata { name: name.into(), partition_replicas: replicas.to_vec() }
}

fn entry(k: &str, v: Option<&str>) -> ConfigEntry {
    ConfigEntry { name: k.into(), value: v.map(|s| s.to_string()) }
}

#[test]
fn topic_from_metadata_counts_partitions_and_replicas() {
    let t = topic_from_metadata(&meta("orders", &[3, 3, 3, 3]));
    assert_eq!(t.name, "orders");
    assert_eq!(t.partitions, 4);
    assert_eq!(t.replication_factor, 3);
    assert!(t.config.is_empty());
    let empty = topic_from_metadata(&meta("none", &[]));
    assert_eq!(empty.partitions, 0);
    assert_eq!(empty.replication_factor, 0);
}

#[test]
fn internal_topics_are_hidden() {
    let ts = visible_topics(&vec![meta("__consumer_offsets", &[1]), meta("a", &[1]), meta("_b", &[2])]);
    let names: Vec<&str> = ts.iter().map(|t| t.name.as_str()).collect();
    assert_eq!(names, vec!["a", "_b"]);
}

#[test]
fn config_entries_skip_unset_values() {
    let mut c = KafkaProperties::new();
    apply_config_entries(&mut c, &vec![entry("a", Some("1")), entry("b", None), entry("a", Some("2"))]);
    assert_eq!(c.get("a").unwrap(), "2");
    assert!(c.get("b").is_none());
    let merged = config_from_entries(&vec![vec![entry("x", Some("1"))], vec![entry("y", Some("2"))]]);
    assert_eq!(merged.iter().len(), 2);
}

#[test]
fn described_configs_merge_into_topics() {
    let mut topics = visible_topics(&vec![meta("a", &[1]), meta("b", &[1])]);
    merge_described_configs(&mut topics, &vec![None, Some(vec![entry("retention.ms", Some("9"))])]);
    assert!(topics[0].config.is_empty());
    assert_eq!(topics[1].config.get("retention.ms").unwrap(), "9");
}

#[test]
fn find_metadata_by_name() {
    let metas = vec![meta("a", &[1]), meta("b", &[1])];
    assert_eq!(find_metadata(&metas, "b").unwrap(), 1);
    assert!(matches!(find_metadata(&metas, "c"), Err(SiegeError::TopicNotFound(ref n)) if n == "c"));
}

use siege::properties::KafkaProperties;

fn pair(k: &str, v: &str) -> (String, String) {
    (k.to_string(), v.to_string())
}

#[test]
fn empty_properties() {
    let props = KafkaProperties::new();
    assert!(props.is_empty());
    assert!(!props.is_compacted());
}

#[test]
fn compacted_detection() {
    let props = KafkaProperties::from_pairs(vec![pair("cleanup.policy", "compact")]);
    assert!(props.is_compacted());
}

#[test]
fn compact_delete_policy_is_compacted() {
    let props = KafkaProperties::from_pairs(vec![pair("cleanup.policy", "compact,delete")]);
    assert!(props.is_compacted());
}

#[test]
fn delete_policy_is_not_compacted() {
    let props = KafkaProperties::from_pairs(vec![pair("cleanup.policy", "delete")]);
    assert!(!props.is_compacted());
    let other = KafkaProperties::from_pairs(vec![pair("retention.ms", "1000")]);
    assert!(!other.is_compacted());
}

#[test]
fn insert_then_get_reads_back() {
    let mut props = KafkaProperties::new();
    props.insert("retention.ms".to_string(), "1000".to_string());
    assert!(!props.is_empty());
    assert_eq!(props.get("retention.ms").unwrap(), "1000");
    assert!(props.get("segment.ms").is_none());
    props.insert("retention.ms".to_string(), "2000".to_string());
    assert_eq!(props.get("retention.ms").unwrap(), "2000");
    assert_eq!(props.iter().len(), 1);
}

#[test]
fn from_pairs_later_value_wins() {
    let props = KafkaProperties::from_pairs(vec![
        pair("a", "1"),
        pair("b", "2"),
        pair("a", "3"),
    ]);
    assert_eq!(props.iter().len(), 2);
    assert_eq!(props.get("a").unwrap(), "3");
    assert_eq!(props.get("b").unwrap(), "2");
}

#[test]
fn extend_prefers_the_new_values() {
    let mut props = KafkaProperties::from_pairs(vec![pair("a", "1"), pair("b", "2")]);
    let other = KafkaProperties::from_pairs(vec![pair("b", "20"), pair("c", "30")]);
    props.extend(other);
    assert_eq!(props.iter().len(), 3);
    assert_eq!(props.get("a").unwrap(), "1");
    assert_eq!(props.get("b").unwrap(), "20");
    assert_eq!(props.get("c").unwrap(), "30");
}

#[test]
fn clone_and_default() {
    let props = KafkaProperties::from_pairs(vec![pair("x", "y")]);
    let copy = props.clone();
    assert_eq!(copy.get("x").unwrap(), "y");
    let dup = props.duplicate();
    assert_eq!(dup.get("x").unwrap(), "y");
    let d = KafkaProperties::default();
    assert!(d.is_empty());
}

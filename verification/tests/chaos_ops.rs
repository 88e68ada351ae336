use siege::chaos::{
    flip_cleanup_policy_config, increased_partition_total, low_retention_config, mark_poison,
    poison_pill, schema_breaking_json, schema_breaking_payload, ChaosError,
};
use siege::domain::TopicConfigUpdate;
use siege::error::SiegeError;
use siege::mock::MockKafkaBackend;
use siege::domain::TopicDetail;
use siege::properties::KafkaProperties;

fn props(pairs: &[(&str, &str)]) -> KafkaProperties {
    KafkaProperties::from_pairs(pairs.iter().map(|(k, v)| (k.to_string(), v.to_string())).collect())
}

#[test]
fn low_retention_sets_one_millisecond() {
    let c = low_retention_config();
    assert_eq!(c.iter().len(), 2);
    assert_eq!(c.get("retention.ms").unwrap(), "1");
    assert_eq!(c.get("segment.ms").unwrap(), "1");
}

#[test]
fn flip_from_compact_is_delete() {
    let c = flip_cleanup_policy_config(&props(&[("cleanup.policy", "compact")]));
    assert_eq!(c.iter().len(), 1);
    assert_eq!(c.get("cleanup.policy").unwrap(), "delete");
    let c = flip_cleanup_policy_config(&props(&[("cleanup.policy", "compact,delete")]));
    assert_eq!(c.get("cleanup.policy").unwrap(), "delete");
}

#[test]
fn flip_from_delete_or_default_is_compact() {
    let c = flip_cleanup_policy_config(&props(&[("cleanup.policy", "delete")]));
    assert_eq!(c.get("cleanup.policy").unwrap(), "compact");
    let c = flip_cleanup_policy_config(&KafkaProperties::new());
    assert_eq!(c.get("cleanup.policy").unwrap(), "compact");
}

#[test]
fn flipping_twice_on_a_topic_restores_compaction() {
    let mut backend = MockKafkaBackend::with_topics(vec![TopicDetail {
        name: "t".into(),
        partitions: 1,
        replication_factor: 1,
        config: props(&[("cleanup.policy", "compact"), ("retention.ms", "5")]),
    }]);
    for expected_compacted in [false, true] {
        let current = backend.get_topic("t").unwrap();
        let change = flip_cleanup_policy_config(&current.config);
        backend.update_topic_config("t", TopicConfigUpdate { config: change }).unwrap();
        let after = backend.get_topic("t").unwrap();
        assert_eq!(after.config.is_compacted(), expected_compacted);
        assert_eq!(after.config.get("retention.ms").unwrap(), "5");
    }
}

#[test]
fn partition_total_adds_the_extra() {
    assert_eq!(increased_partition_total(3, 1), 4);
    assert_eq!(increased_partition_total(0, 0), 0);
}

#[test]
fn poison_pills_start_with_invalid_utf8() {
    for _ in 0..20 {
        let p = poison_pill();
        assert!(p.len() >= 16 && p.len() < 256);
        assert_eq!(p[0], 0xFF);
        assert_eq!(p[1], 0xFE);
        assert!(std::str::from_utf8(&p).is_err());
    }
}

#[test]
fn mark_poison_keeps_short_payloads() {
    assert_eq!(mark_poison(vec![1, 2, 3, 4]), vec![1, 2, 3, 4]);
    assert_eq!(mark_poison(vec![1, 2, 3, 4, 5]), vec![0xFF, 0xFE, 3, 4, 5]);
}

#[test]
fn schema_breaking_payloads_are_json() {
    assert_eq!(
        schema_breaking_payload(0),
        b"{\"__corrupted\":true,\"value\":null,\"ts\":-1}".to_vec()
    );
    assert_eq!(
        schema_breaking_payload(3),
        b"{\"type\":\"INVALID\",\"version\":-999,\"fields\":{}}".to_vec()
    );
    assert_eq!(schema_breaking_payload(9), schema_breaking_payload(3));
    let all: Vec<Vec<u8>> = (0..4).map(schema_breaking_payload).collect();
    for _ in 0..20 {
        let j = schema_breaking_json();
        assert!(all.contains(&j));
        let v: serde_json::Value = serde_json::from_slice(&j).unwrap();
        assert!(v.is_object());
    }
}

#[test]
fn chaos_errors_from_topic_errors() {
    assert!(matches!(
        ChaosError::from_siege(SiegeError::TopicNotFound("t".into())),
        ChaosError::TopicNotFound(ref n) if n == "t"
    ));
    assert!(matches!(
        ChaosError::from_siege(SiegeError::KafkaError("boom".into())),
        ChaosError::KafkaError(ref m) if m == "kafka error: boom"
    ));
    assert!(matches!(
        ChaosError::from_siege(SiegeError::TopicAlreadyExists("t".into())),
        ChaosError::KafkaError(ref m) if m == "topic already exists: t"
    ));
}

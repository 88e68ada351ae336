use siege::domain::{CreateTopicRequest, TopicConfigUpdate, TopicDetail};
use siege::error::SiegeError;
use siege::mock::MockKafkaBackend;
use siege::properties::KafkaProperties;

fn sample_detail(name: &str) -> TopicDetail {
    TopicDetail {
        name: name.into(),
        partitions: 3,
        replication_factor: 1,
        config: KafkaProperties::new(),
    }
}

#[test]
fn list_topics_returns_all() {
    let backend = MockKafkaBackend::with_topics(vec![sample_detail("topic-a"), sample_detail("topic-b")]);
    let topics = backend.list_topics();
    assert_eq!(topics.len(), 2);
}

#[test]
fn get_topic_found() {
    let backend = MockKafkaBackend::with_topics(vec![sample_detail("topic-a")]);
    let detail = backend.get_topic("topic-a").unwrap();
    assert_eq!(detail.name, "topic-a");
    assert_eq!(detail.partitions, 3);
}

#[test]
fn get_topic_not_found() {
    let backend = MockKafkaBackend::new();
    let err = backend.get_topic("nope").unwrap_err();
    assert!(matches!(err, SiegeError::TopicNotFound(_)));
}

#[test]
fn create_topic_success() {
    let mut backend = MockKafkaBackend::new();
    backend
        .create_topic(CreateTopicRequest {
            name: "new".into(),
            partitions: 6,
            replication_factor: 3,
        })
        .unwrap();
    let detail = backend.get_topic("new").unwrap();
    assert_eq!(detail.partitions, 6);
}

#[test]
fn create_topic_already_exists() {
    let mut backend = MockKafkaBackend::with_topics(vec![sample_detail("existing")]);
    let err = backend
        .create_topic(CreateTopicRequest {
            name: "existing".into(),
            partitions: 1,
            replication_factor: 1,
        })
        .unwrap_err();
    assert!(matches!(err, SiegeError::TopicAlreadyExists(_)));
}

#[test]
fn delete_topic_success() {
    let mut backend = MockKafkaBackend::with_topics(vec![sample_detail("doomed")]);
    backend.delete_topic("doomed").unwrap();
    assert!(backend.get_topic("doomed").is_err());
}

#[test]
fn delete_missing_topic_fails() {
    let mut backend = MockKafkaBackend::new();
    let err = backend.delete_topic("ghost").unwrap_err();
    assert!(matches!(err, SiegeError::TopicNotFound(ref n) if n == "ghost"));
}

#[test]
fn update_config_merges() {
    let mut backend = MockKafkaBackend::with_topics(vec![sample_detail("t")]);
    backend
        .update_topic_config(
            "t",
            TopicConfigUpdate {
                config: KafkaProperties::from_pairs(vec![("retention.ms".into(), "1000".into())]),
            },
        )
        .unwrap();
    let detail = backend.get_topic("t").unwrap();
    assert_eq!(detail.config.get("retention.ms").unwrap(), "1000");
}

#[test]
fn update_config_of_missing_topic_fails() {
    let mut backend = MockKafkaBackend::new();
    let err = backend
        .update_topic_config("nope", TopicConfigUpdate { config: KafkaProperties::new() })
        .unwrap_err();
    assert!(matches!(err, SiegeError::TopicNotFound(_)));
}

#[test]
fn created_topic_has_empty_config_and_is_listed() {
    let mut backend = MockKafkaBackend::default();
    backend
        .create_topic(CreateTopicRequest { name: "a".into(), partitions: 2, replication_factor: 1 })
        .unwrap();
    let d = backend.get_topic("a").unwrap();
    assert!(d.config.is_empty());
    assert_eq!(d.replication_factor, 1);
    let listed = backend.list_topics();
    assert_eq!(listed.len(), 1);
    assert_eq!(listed[0].name, "a");
    assert_eq!(listed[0].partitions, 2);
}

#[test]
fn list_details_carries_configs() {
    let mut backend = MockKafkaBackend::with_topics(vec![sample_detail("a"), sample_detail("b")]);
    backend
        .update_topic_config(
            "b",
            TopicConfigUpdate { config: KafkaProperties::from_pairs(vec![("x".into(), "1".into())]) },
        )
        .unwrap();
    let details = backend.list_details();
    assert_eq!(details.len(), 2);
    let b = details.iter().find(|d| d.name == "b").unwrap();
    assert_eq!(b.config.get("x").unwrap(), "1");
}

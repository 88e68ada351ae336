use siege::error::SiegeError;
use siege::domain::{Topic, TopicDetail};
use siege::event::DomainEvent as NamedEvent;
use siege::events::{
    to_sse_event, ChaosPoisonPillsSentEvent, ChaosRetentionLoweredEvent, DomainEvent,
    SeedProgressEvent, TopicCreatedEvent, TopicDeletedEvent, TopicsSeededEvent,
};
use siege::api::SseEvent;
use siege::properties::KafkaProperties;
use siege::watch::ClusterWatcher;

fn topic(name: &str) -> Topic {
    Topic { name: name.into(), partitions: 1, replication_factor: 1 }
}

#[test]
fn event_emitter_converts_topic_created() {
    let received = to_sse_event(&DomainEvent::TopicCreated(TopicCreatedEvent {
        name: "new-topic".into(),
        partitions: 3,
        replication_factor: 1,
        config: KafkaProperties::new(),
    }));
    assert!(matches!(received, SseEvent::TopicCreated { topic } if topic.name == "new-topic"));
}

#[test]
fn event_emitter_converts_seed_progress() {
    let event = to_sse_event(&DomainEvent::SeedProgress(SeedProgressEvent {
        topic: "winterfell".into(),
        topic_index: 1,
        total_topics: 6,
        records_generated: 5000,
        total_records: 100_000,
    }));
    assert!(matches!(
        event,
        SseEvent::SeedProgress {
            topic,
            topic_index: 1,
            total_topics: 6,
            records_generated: 5000,
            total_records: 100_000,
        } if topic == "winterfell"
    ));
}

#[test]
fn event_emitter_converts_topic_deleted() {
    let received = to_sse_event(&DomainEvent::TopicDeleted(TopicDeletedEvent { name: "gone".into() }));
    assert!(matches!(received, SseEvent::TopicDeleted { name } if name == "gone"));
}

#[test]
fn event_emitter_converts_chaos_events() {
    let detail = TopicDetail {
        name: "t".into(),
        partitions: 2,
        replication_factor: 1,
        config: KafkaProperties::from_pairs(vec![("retention.ms".into(), "1".into())]),
    };
    let lowered = to_sse_event(&DomainEvent::ChaosRetentionLowered(ChaosRetentionLoweredEvent { detail }));
    match lowered {
        SseEvent::ChaosRetentionLowered { topic } => {
            assert_eq!(topic.name, "t");
            assert_eq!(topic.partitions, 2);
            assert_eq!(topic.config.get("retention.ms").unwrap(), "1");
        }
        _ => panic!("wrong event"),
    }
    let pills = to_sse_event(&DomainEvent::ChaosPoisonPillsSent(ChaosPoisonPillsSentEvent {
        topic: "t".into(),
        count: 10,
    }));
    assert!(matches!(pills, SseEvent::ChaosPoisonPillsSent { topic, count: 10 } if topic == "t"));
}

#[test]
fn event_emitter_converts_seeded_topics_in_order() {
    let mk = |n: &str| TopicDetail {
        name: n.into(),
        partitions: 1,
        replication_factor: 1,
        config: KafkaProperties::new(),
    };
    let seeded = to_sse_event(&DomainEvent::TopicsSeeded(TopicsSeededEvent { topics: vec![mk("a"), mk("b")] }));
    match seeded {
        SseEvent::TopicsSeeded { topics } => {
            assert_eq!(topics.len(), 2);
            assert_eq!(topics[0].name, "a");
            assert_eq!(topics[1].name, "b");
        }
        _ => panic!("wrong event"),
    }
}

#[test]
fn event_names() {
    assert_eq!(TopicDeletedEvent { name: "x".into() }.event_name(), "topic_deleted");
    let p = SeedProgressEvent {
        topic: "x".into(),
        topic_index: 0,
        total_topics: 1,
        records_generated: 0,
        total_records: 1,
    };
    assert_eq!(NamedEvent::event_name(&p), "seed_progress");
}

#[test]
fn watcher_detects_new_topic() {
    let mut watcher = ClusterWatcher::new();
    assert!(watcher.observe(&vec![]).is_empty());
    let events = watcher.observe(&vec![topic("new-topic")]);
    assert_eq!(events.len(), 1);
    assert!(matches!(&events[0], SseEvent::TopicCreated { topic } if topic.name == "new-topic"));
}

#[test]
fn watcher_detects_deleted_topic() {
    let mut watcher = ClusterWatcher::new();
    let events = watcher.observe(&vec![topic("doomed")]);
    assert!(matches!(&events[0], SseEvent::TopicCreated { .. }));
    let events = watcher.observe(&vec![]);
    assert_eq!(events.len(), 1);
    assert!(matches!(&events[0], SseEvent::TopicDeleted { name } if name == "doomed"));
}

#[test]
fn watcher_is_silent_when_nothing_changes() {
    let mut watcher = ClusterWatcher::new();
    let first = watcher.observe(&vec![topic("a"), topic("b")]);
    assert_eq!(first.len(), 2);
    let second = watcher.observe(&vec![topic("b"), topic("a")]);
    assert!(second.is_empty());
}

#[test]
fn watcher_reports_creations_before_deletions() {
    let mut watcher = ClusterWatcher::new();
    watcher.observe(&vec![topic("old")]);
    let events = watcher.observe(&vec![topic("fresh")]);
    assert_eq!(events.len(), 2);
    assert!(matches!(&events[0], SseEvent::TopicCreated { topic } if topic.name == "fresh"));
    assert!(matches!(&events[1], SseEvent::TopicDeleted { name } if name == "old"));
}

#[test]
fn failed_listing_changes_nothing() {
    let mut watcher = ClusterWatcher::new();
    assert_eq!(watcher.step(Ok(vec![topic("a"), topic("b")])).len(), 2);
    assert!(watcher.step(Err(SiegeError::KafkaError("down".into()))).is_empty());
    let events = watcher.step(Ok(vec![topic("b")]));
    assert_eq!(events.len(), 1);
    assert!(matches!(&events[0], SseEvent::TopicDeleted { name } if name == "a"));
}

//! Domain events raised by topic, seeding and chaos operations, and the
//! stream events they are published as.
use vstd::prelude::*;

use crate::api::{detail_to_resource, resource_views, SseEvent, SseEventView, TopicResource};
use crate::domain::{TopicDetail, TopicDetailView};
use crate::properties::KafkaProperties;

verus! {

/// A topic was created.
#[derive(Debug)]
pub struct TopicCreatedEvent {
    pub name: String,
    pub partitions: i32,
    pub replication_factor: i32,
    pub config: KafkaProperties,
}

/// A topic was deleted.
#[derive(Debug)]
pub struct TopicDeletedEvent {
    pub name: String,
}

/// Topics were seeded.
#[derive(Debug)]
pub struct TopicsSeededEvent {
    pub topics: Vec<TopicDetail>,
}

/// Chaos deleted a topic.
#[derive(Debug)]
pub struct ChaosTopicDeletedEvent {
    pub topic: String,
}

/// Chaos lowered a topic's retention; `detail` is the topic afterwards.
#[derive(Debug)]
pub struct ChaosRetentionLoweredEvent {
    pub detail: TopicDetail,
}

/// Chaos flipped a topic's cleanup policy; `detail` is the topic afterwards.
#[derive(Debug)]
pub struct ChaosCleanupPolicyFlippedEvent {
    pub detail: TopicDetail,
}

/// Chaos added partitions to a topic; `detail` is the topic afterwards.
#[derive(Debug)]
pub struct ChaosPartitionsIncreasedEvent {
    pub detail: TopicDetail,
}

/// Chaos sent undecodable messages to a topic.
#[derive(Debug)]
pub struct ChaosPoisonPillsSentEvent {
    pub topic: String,
    pub count: u32,
}

/// Chaos sent schema-breaking messages to a topic.
#[derive(Debug)]
pub struct ChaosSchemaBreakSentEvent {
    pub topic: String,
    pub count: u32,
}

/// Seeding progressed on one topic.
#[derive(Debug)]
pub struct SeedProgressEvent {
    pub topic: String,
    pub topic_index: u32,
    pub total_topics: u32,
    pub records_generated: u32,
    pub total_records: u32,
}

/// Something that happened to the cluster.
#[derive(Debug)]
pub enum DomainEvent {
    TopicCreated(TopicCreatedEvent),
    TopicDeleted(TopicDeletedEvent),
    TopicsSeeded(TopicsSeededEvent),
    ChaosTopicDeleted(ChaosTopicDeletedEvent),
    ChaosRetentionLowered(ChaosRetentionLoweredEvent),
    ChaosCleanupPolicyFlipped(ChaosCleanupPolicyFlippedEvent),
    ChaosPartitionsIncreased(ChaosPartitionsIncreasedEvent),
    ChaosPoisonPillsSent(ChaosPoisonPillsSentEvent),
    ChaosSchemaBreakSent(ChaosSchemaBreakSentEvent),
    SeedProgress(SeedProgressEvent),
}

/// The stream event that publishes a domain event: the same facts, each
/// topic shown as its resource.
pub open spec fn published(e: DomainEvent) -> SseEventView {
    match e {
        DomainEvent::TopicCreated(c) => SseEventView::TopicCreated {
            topic: TopicDetailView {
                name: c.name@,
                partitions: c.partitions,
                replication_factor: c.replication_factor,
                config: c.config@,
            },
        },
        DomainEvent::TopicDeleted(d) => SseEventView::TopicDeleted { name: d.name@ },
        DomainEvent::TopicsSeeded(s) => SseEventView::TopicsSeeded {
            topics: s.topics@.map_values(|t: TopicDetail| t@),
        },
        DomainEvent::ChaosTopicDeleted(c) => SseEventView::ChaosTopicDeleted { topic: c.topic@ },
        DomainEvent::ChaosRetentionLowered(c) => SseEventView::ChaosRetentionLowered {
            topic: c.detail@,
        },
        DomainEvent::ChaosCleanupPolicyFlipped(c) => SseEventView::ChaosCleanupPolicyFlipped {
            topic: c.detail@,
        },
        DomainEvent::ChaosPartitionsIncreased(c) => SseEventView::ChaosPartitionsIncreased {
            topic: c.detail@,
        },
        DomainEvent::ChaosPoisonPillsSent(c) => SseEventView::ChaosPoisonPillsSent {
            topic: c.topic@,
            count: c.count,
        },
        DomainEvent::ChaosSchemaBreakSent(c) => SseEventView::ChaosSchemaBreakSent {
            topic: c.topic@,
            count: c.count,
        },
        DomainEvent::SeedProgress(p) => SseEventView::SeedProgress {
            topic: p.topic@,
            topic_index: p.topic_index,
            total_topics: p.total_topics,
            records_generated: p.records_generated,
            total_records: p.total_records,
        },
    }
}

/// The resources of a list of detailed topics, in order.
fn details_to_resources(topics: &Vec<TopicDetail>) -> (r: Vec<TopicResource>)
    ensures
        resource_views(r@) == topics@.map_values(|t: TopicDetail| t@),
{
    let n: usize = topics.len();
    let mut r: Vec<TopicResource> = Vec::new();
    let mut i: usize = 0;
    while i < n
        invariant
            n == topics@.len(),
            i <= n,
            resource_views(r@) == topics@.take(i as int).map_values(|t: TopicDetail| t@),
        decreases n - i,
    {
        let t = detail_to_resource(&topics[i]);
        proof {
            let a = resource_views(r@.push(t));
            let b = topics@.take(i as int + 1).map_values(|t: TopicDetail| t@);
            let prev = topics@.take(i as int).map_values(|t: TopicDetail| t@);
            assert(resource_views(r@).len() == r@.len());
            assert forall|j: int| 0 <= j < i implies a[j] == b[j] by {
                assert(a[j] == resource_views(r@)[j]);
                assert(b[j] == prev[j]);
            }
            assert(a[i as int] == b[i as int]);
            assert(a =~= b);
        }
        r.push(t);
        i = i + 1;
    }
    assert(topics@.take(n as int) =~= topics@);
    r
}

/// The stream event that publishes `event`.
pub fn to_sse_event(event: &DomainEvent) -> (r: SseEvent)
    ensures
        r@ == published(*event),
        event matches DomainEvent::TopicCreated(c) ==> (r matches SseEvent::TopicCreated { topic }
            && topic.name@ == c.name@ && topic.partitions == c.partitions && topic.replication_factor
            == c.replication_factor && topic.config@ == c.config@),
        event matches DomainEvent::TopicDeleted(d) ==> (r matches SseEvent::TopicDeleted { name }
            && name@ == d.name@),
        event matches DomainEvent::TopicsSeeded(e) ==> (r matches SseEvent::TopicsSeeded { topics }
            && topics@.len() == e.topics@.len() && forall|i: int|
            0 <= i < topics@.len() ==> #[trigger] topics@[i].name@ == e.topics@[i].name@
                && topics@[i].partitions == e.topics@[i].partitions && topics@[i].replication_factor
                == e.topics@[i].replication_factor && topics@[i].config@ == e.topics@[i].config@),
        event matches DomainEvent::ChaosTopicDeleted(c) ==> (r matches SseEvent::ChaosTopicDeleted {
            topic,
        } && topic@ == c.topic@),
        event matches DomainEvent::ChaosRetentionLowered(c) ==> (r matches SseEvent::ChaosRetentionLowered {
            topic,
        } && topic.name@ == c.detail.name@ && topic.partitions == c.detail.partitions
            && topic.replication_factor == c.detail.replication_factor && topic.config@
            == c.detail.config@),
        event matches DomainEvent::ChaosCleanupPolicyFlipped(c) ==> (
        r matches SseEvent::ChaosCleanupPolicyFlipped { topic } && topic.name@ == c.detail.name@
            && topic.partitions == c.detail.partitions && topic.replication_factor
            == c.detail.replication_factor && topic.config@ == c.detail.config@),
        event matches DomainEvent::ChaosPartitionsIncreased(c) ==> (
        r matches SseEvent::ChaosPartitionsIncreased { topic } && topic.name@ == c.detail.name@
            && topic.partitions == c.detail.partitions && topic.replication_factor
            == c.detail.replication_factor && topic.config@ == c.detail.config@),
        event matches DomainEvent::ChaosPoisonPillsSent(c) ==> (r matches SseEvent::ChaosPoisonPillsSent {
            topic,
            count,
        } && topic@ == c.topic@ && count == c.count),
        event matches DomainEvent::ChaosSchemaBreakSent(c) ==> (r matches SseEvent::ChaosSchemaBreakSent {
            topic,
            count,
        } && topic@ == c.topic@ && count == c.count),
        event matches DomainEvent::SeedProgress(p) ==> (r matches SseEvent::SeedProgress {
            topic,
            topic_index,
            total_topics,
            records_generated,
            total_records,
        } && topic@ == p.topic@ && topic_index == p.topic_index && total_topics == p.total_topics
            && records_generated == p.records_generated && total_records == p.total_records),
{
    match event {
        DomainEvent::TopicCreated(e) => SseEvent::TopicCreated {
            topic: TopicResource {
                name: e.name.clone(),
                partitions: e.partitions,
                replication_factor: e.replication_factor,
                config: e.config.duplicate(),
            },
        },
        DomainEvent::TopicDeleted(e) => SseEvent::TopicDeleted { name: e.name.clone() },
        DomainEvent::TopicsSeeded(e) => {
            let topics = details_to_resources(&e.topics);
            proof {
                assert(resource_views(topics@).len() == topics@.len());
                assert forall|i: int| 0 <= i < topics@.len() implies #[trigger] topics@[i].name@
                    == e.topics@[i].name@ && topics@[i].partitions == e.topics@[i].partitions
                    && topics@[i].replication_factor == e.topics@[i].replication_factor
                    && topics@[i].config@ == e.topics@[i].config@ by {
                    assert(resource_views(topics@)[i] == topics@[i]@);
                    assert(e.topics@.map_values(|t: TopicDetail| t@)[i] == e.topics@[i]@);
                }
            }
            SseEvent::TopicsSeeded { topics }
        },
        DomainEvent::ChaosTopicDeleted(e) => SseEvent::ChaosTopicDeleted { topic: e.topic.clone() },
        DomainEvent::ChaosRetentionLowered(e) => SseEvent::ChaosRetentionLowered {
            topic: detail_to_resource(&e.detail),
        },
        DomainEvent::ChaosCleanupPolicyFlipped(e) => SseEvent::ChaosCleanupPolicyFlipped {
            topic: detail_to_resource(&e.detail),
        },
        DomainEvent::ChaosPartitionsIncreased(e) => SseEvent::ChaosPartitionsIncreased {
            topic: detail_to_resource(&e.detail),
        },
        DomainEvent::ChaosPoisonPillsSent(e) => SseEvent::ChaosPoisonPillsSent {
            topic: e.topic.clone(),
            count: e.count,
        },
        DomainEvent::ChaosSchemaBreakSent(e) => SseEvent::ChaosSchemaBreakSent {
            topic: e.topic.clone(),
            count: e.count,
        },
        DomainEvent::SeedProgress(e) => SseEvent::SeedProgress {
            topic: e.topic.clone(),
            topic_index: e.topic_index,
            total_topics: e.total_topics,
            records_generated: e.records_generated,
            total_records: e.total_records,
        },
    }
}

/// Publishing keeps every fact of a domain event: a created topic is
/// announced with its own name, partition count, replication factor and
/// configuration; a changed topic with its stored fields; a deletion
/// with the deleted name.
pub proof fn law_published_keeps_fields(e: DomainEvent)
    ensures
        e matches DomainEvent::TopicCreated(c) ==> published(e) == (SseEventView::TopicCreated {
            topic: TopicDetailView {
                name: c.name@,
                partitions: c.partitions,
                replication_factor: c.replication_factor,
                config: c.config@,
            },
        }),
        e matches DomainEvent::TopicDeleted(d) ==> published(e) == (SseEventView::TopicDeleted {
            name: d.name@,
        }),
        e matches DomainEvent::ChaosRetentionLowered(c) ==> published(e) == (
        SseEventView::ChaosRetentionLowered {
            topic: TopicDetailView {
                name: c.detail.name@,
                partitions: c.detail.partitions,
                replication_factor: c.detail.replication_factor,
                config: c.detail.config@,
            },
        }),
        e matches DomainEvent::ChaosCleanupPolicyFlipped(c) ==> published(e) == (
        SseEventView::ChaosCleanupPolicyFlipped {
            topic: TopicDetailView {
                name: c.detail.name@,
                partitions: c.detail.partitions,
                replication_factor: c.detail.replication_factor,
                config: c.detail.config@,
            },
        }),
        e matches DomainEvent::ChaosPartitionsIncreased(c) ==> published(e) == (
        SseEventView::ChaosPartitionsIncreased {
            topic: TopicDetailView {
                name: c.detail.name@,
                partitions: c.detail.partitions,
                replication_factor: c.detail.replication_factor,
                config: c.detail.config@,
            },
        }),
        e matches DomainEvent::SeedProgress(p) ==> published(e) == (SseEventView::SeedProgress {
            topic: p.topic@,
            topic_index: p.topic_index,
            total_topics: p.total_topics,
            records_generated: p.records_generated,
            total_records: p.total_records,
        }),
{
}

} // verus!

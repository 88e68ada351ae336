//! The name every domain event is known by on the event stream.
use vstd::prelude::*;

use crate::events::{
    ChaosCleanupPolicyFlippedEvent, ChaosPartitionsIncreasedEvent, ChaosPoisonPillsSentEvent,
    ChaosRetentionLoweredEvent, ChaosSchemaBreakSentEvent, ChaosTopicDeletedEvent,
    SeedProgressEvent, TopicCreatedEvent, TopicDeletedEvent, TopicsSeededEvent,
};

verus! {

/// Something that happened to the cluster and is worth telling the
/// clients about.
pub trait DomainEvent: Send + Sync {
    /// The name of the event, as its stream event is tagged.
    fn event_name(&self) -> &'static str;
}

impl DomainEvent for TopicCreatedEvent {
    fn event_name(&self) -> (r: &'static str)
        ensures
            r@ == "topic_created"@,
    {
        "topic_created"
    }
}

impl DomainEvent for TopicDeletedEvent {
    fn event_name(&self) -> (r: &'static str)
        ensures
            r@ == "topic_deleted"@,
    {
        "topic_deleted"
    }
}

impl DomainEvent for TopicsSeededEvent {
    fn event_name(&self) -> (r: &'static str)
        ensures
            r@ == "topics_seeded"@,
    {
        "topics_seeded"
    }
}

impl DomainEvent for ChaosTopicDeletedEvent {
    fn event_name(&self) -> (r: &'static str)
        ensures
            r@ == "chaos_topic_deleted"@,
    {
        "chaos_topic_deleted"
    }
}

impl DomainEvent for ChaosRetentionLoweredEvent {
    fn event_name(&self) -> (r: &'static str)
        ensures
            r@ == "chaos_retention_lowered"@,
    {
        "chaos_retention_lowered"
    }
}

impl DomainEvent for ChaosCleanupPolicyFlippedEvent {
    fn event_name(&self) -> (r: &'static str)
        ensures
            r@ == "chaos_cleanup_policy_flipped"@,
    {
        "chaos_cleanup_policy_flipped"
    }
}

impl DomainEvent for ChaosPartitionsIncreasedEvent {
    fn event_name(&self) -> (r: &'static str)
        ensures
            r@ == "chaos_partitions_increased"@,
    {
        "chaos_partitions_increased"
    }
}

impl DomainEvent for ChaosPoisonPillsSentEvent {
    fn event_name(&self) -> (r: &'static str)
        ensures
            r@ == "chaos_poison_pills_sent"@,
    {
        "chaos_poison_pills_sent"
    }
}

impl DomainEvent for ChaosSchemaBreakSentEvent {
    fn event_name(&self) -> (r: &'static str)
        ensures
            r@ == "chaos_schema_break_sent"@,
    {
        "chaos_schema_break_sent"
    }
}

impl DomainEvent for SeedProgressEvent {
    fn event_name(&self) -> (r: &'static str)
        ensures
            r@ == "seed_progress"@,
    {
        "seed_progress"
    }
}

} // verus!

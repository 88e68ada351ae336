//! The HTTP API's request, response and event types.
use vstd::prelude::*;

use crate::domain::{Topic, TopicDetail, TopicDetailView, TopicView};
use crate::properties::KafkaProperties;

verus! {

/// A topic as the API shows it in listings and events.
#[derive(Debug)]
pub struct TopicResource {
    pub name: String,
    pub partitions: i32,
    pub replication_factor: i32,
    pub config: KafkaProperties,
}

/// A topic as the API shows it on its own page.
#[derive(Debug)]
pub struct TopicDetailResource {
    pub name: String,
    pub partitions: i32,
    pub replication_factor: i32,
    pub config: KafkaProperties,
}

/// The body of a request to create a topic.
#[derive(Debug)]
pub struct CreateTopicRequest {
    pub name: String,
    pub partitions: i32,
    pub replication_factor: i32,
    pub config: KafkaProperties,
}

/// The body of a request to change a topic's configuration.
#[derive(Debug)]
pub struct TopicConfigUpdateRequest {
    pub config: KafkaProperties,
}

/// The body of a chaos request on one topic.
#[derive(Debug, Clone)]
pub struct ChaosTopicRequest {
    pub topic: String,
}

/// The body of a chaos request that adds partitions.
#[derive(Debug, Clone)]
pub struct ChaosPartitionsRequest {
    pub topic: String,
    pub partitions: i32,
}

/// The body of a chaos request that produces messages.
#[derive(Debug, Clone)]
pub struct ChaosProduceRequest {
    pub topic: String,
    pub count: u32,
}

/// The answer to a chaos request that succeeded.
#[derive(Debug, Clone)]
pub struct ChaosResult {
    pub topic: String,
    pub result: String,
}

/// The answer to a chaos request that failed.
#[derive(Debug, Clone)]
pub enum ChaosErrorResponse {
    TopicNotFound { message: String },
    KafkaError { message: String },
    ProducerError { message: String },
}

/// A generic error answer.
#[derive(Debug, Clone)]
pub struct ErrorResponse {
    pub code: String,
    pub message: String,
}

/// Failure of listing topics.
#[derive(Debug, Clone)]
pub enum ListTopicsError {
    KafkaError { message: String },
}

/// Failure of reading a topic.
#[derive(Debug, Clone)]
pub enum GetTopicError {
    TopicNotFound { message: String },
    KafkaError { message: String },
}

/// Failure of creating a topic.
#[derive(Debug, Clone)]
pub enum CreateTopicError {
    TopicAlreadyExists { message: String },
    KafkaError { message: String },
}

/// Failure of deleting a topic.
#[derive(Debug, Clone)]
pub enum DeleteTopicError {
    TopicNotFound { message: String },
    KafkaError { message: String },
}

/// Failure of changing a topic's configuration.
#[derive(Debug, Clone)]
pub enum UpdateTopicConfigError {
    TopicNotFound { message: String },
    KafkaError { message: String },
}

/// An event pushed to subscribers of the event stream.
#[derive(Debug)]
pub enum SseEvent {
    TopicsSnapshot { topics: Vec<TopicResource> },
    TopicCreated { topic: TopicResource },
    TopicUpdated { topic: TopicResource },
    TopicDeleted { name: String },
    TopicsSeeded { topics: Vec<TopicResource> },
    SeedProgress {
        topic: String,
        topic_index: u32,
        total_topics: u32,
        records_generated: u32,
        total_records: u32,
    },
    ChaosTopicDeleted { topic: String },
    ChaosRetentionLowered { topic: TopicResource },
    ChaosCleanupPolicyFlipped { topic: TopicResource },
    ChaosPartitionsIncreased { topic: TopicResource },
    ChaosPoisonPillsSent { topic: String, count: u32 },
    ChaosSchemaBreakSent { topic: String, count: u32 },
}

impl View for TopicResource {
    type V = TopicDetailView;

    open spec fn view(&self) -> TopicDetailView {
        TopicDetailView {
            name: self.name@,
            partitions: self.partitions,
            replication_factor: self.replication_factor,
            config: self.config@,
        }
    }
}

impl View for TopicDetailResource {
    type V = TopicDetailView;

    open spec fn view(&self) -> TopicDetailView {
        TopicDetailView {
            name: self.name@,
            partitions: self.partitions,
            replication_factor: self.replication_factor,
            config: self.config@,
        }
    }
}

/// The resource of a listed topic: its shape, with no configuration.
pub open spec fn listed_resource(t: TopicView) -> TopicDetailView {
    TopicDetailView {
        name: t.name,
        partitions: t.partitions,
        replication_factor: t.replication_factor,
        config: Map::empty(),
    }
}

impl TopicResource {
    /// An exact copy.
    pub fn duplicate(&self) -> (r: TopicResource)
        ensures
            r@ == self@,
    {
        TopicResource {
            name: self.name.clone(),
            partitions: self.partitions,
            replication_factor: self.replication_factor,
            config: self.config.duplicate(),
        }
    }
}

impl TopicDetailResource {
    /// An exact copy.
    pub fn duplicate(&self) -> (r: TopicDetailResource)
        ensures
            r@ == self@,
    {
        TopicDetailResource {
            name: self.name.clone(),
            partitions: self.partitions,
            replication_factor: self.replication_factor,
            config: self.config.duplicate(),
        }
    }
}

impl Clone for TopicResource {
    fn clone(&self) -> (r: Self)
        ensures
            r@ == self@,
    {
        self.duplicate()
    }
}

impl Clone for TopicDetailResource {
    fn clone(&self) -> (r: Self)
        ensures
            r@ == self@,
    {
        self.duplicate()
    }
}

/// The page resource showing the same topic as a listing resource.
pub fn resource_to_detail(t: TopicResource) -> (r: TopicDetailResource)
    ensures
        r@ == t@,
{
    TopicDetailResource {
        name: t.name,
        partitions: t.partitions,
        replication_factor: t.replication_factor,
        config: t.config,
    }
}

/// The listing resource of a topic; a listed topic carries no
/// configuration.
pub fn topic_to_resource(t: &Topic) -> (r: TopicResource)
    ensures
        r@ == listed_resource(t@),
        r.name@ == t.name@,
        r.partitions == t.partitions,
        r.replication_factor == t.replication_factor,
        r.config@ == Map::<Seq<char>, Seq<char>>::empty(),
{
    TopicResource {
        name: t.name.clone(),
        partitions: t.partitions,
        replication_factor: t.replication_factor,
        config: KafkaProperties::new(),
    }
}

/// The page resource of a topic with the given configuration.
pub fn topic_to_detail_resource(t: &Topic, config: KafkaProperties) -> (r: TopicDetailResource)
    ensures
        r@ == (TopicDetailView {
            name: t.name@,
            partitions: t.partitions,
            replication_factor: t.replication_factor,
            config: config@,
        }),
{
    TopicDetailResource {
        name: t.name.clone(),
        partitions: t.partitions,
        replication_factor: t.replication_factor,
        config,
    }
}

/// The resource of a detailed topic, configuration included.
pub fn detail_to_resource(d: &TopicDetail) -> (r: TopicResource)
    ensures
        r@ == d@,
{
    TopicResource {
        name: d.name.clone(),
        partitions: d.partitions,
        replication_factor: d.replication_factor,
        config: d.config.duplicate(),
    }
}

/// The views of a list of resources.
pub open spec fn resource_views(s: Seq<TopicResource>) -> Seq<TopicDetailView> {
    s.map_values(|t: TopicResource| t@)
}

/// The mathematical content of an [`SseEvent`].
pub enum SseEventView {
    TopicsSnapshot { topics: Seq<TopicDetailView> },
    TopicCreated { topic: TopicDetailView },
    TopicUpdated { topic: TopicDetailView },
    TopicDeleted { name: Seq<char> },
    TopicsSeeded { topics: Seq<TopicDetailView> },
    SeedProgress {
        topic: Seq<char>,
        topic_index: u32,
        total_topics: u32,
        records_generated: u32,
        total_records: u32,
    },
    ChaosTopicDeleted { topic: Seq<char> },
    ChaosRetentionLowered { topic: TopicDetailView },
    ChaosCleanupPolicyFlipped { topic: TopicDetailView },
    ChaosPartitionsIncreased { topic: TopicDetailView },
    ChaosPoisonPillsSent { topic: Seq<char>, count: u32 },
    ChaosSchemaBreakSent { topic: Seq<char>, count: u32 },
}

impl View for SseEvent {
    type V = SseEventView;

    open spec fn view(&self) -> SseEventView {
        match self {
            SseEvent::TopicsSnapshot { topics } => SseEventView::TopicsSnapshot {
                topics: resource_views(topics@),
            },
            SseEvent::TopicCreated { topic } => SseEventView::TopicCreated { topic: topic@ },
            SseEvent::TopicUpdated { topic } => SseEventView::TopicUpdated { topic: topic@ },
            SseEvent::TopicDeleted { name } => SseEventView::TopicDeleted { name: name@ },
            SseEvent::TopicsSeeded { topics } => SseEventView::TopicsSeeded {
                topics: resource_views(topics@),
            },
            SseEvent::SeedProgress {
                topic,
                topic_index,
                total_topics,
                records_generated,
                total_records,
            } => SseEventView::SeedProgress {
                topic: topic@,
                topic_index: *topic_index,
                total_topics: *total_topics,
                records_generated: *records_generated,
                total_records: *total_records,
            },
            SseEvent::ChaosTopicDeleted { topic } => SseEventView::ChaosTopicDeleted { topic: topic@ },
            SseEvent::ChaosRetentionLowered { topic } => SseEventView::ChaosRetentionLowered {
                topic: topic@,
            },
            SseEvent::ChaosCleanupPolicyFlipped { topic } => SseEventView::ChaosCleanupPolicyFlipped {
                topic: topic@,
            },
            SseEvent::ChaosPartitionsIncreased { topic } => SseEventView::ChaosPartitionsIncreased {
                topic: topic@,
            },
            SseEvent::ChaosPoisonPillsSent { topic, count } => SseEventView::ChaosPoisonPillsSent {
                topic: topic@,
                count: *count,
            },
            SseEvent::ChaosSchemaBreakSent { topic, count } => SseEventView::ChaosSchemaBreakSent {
                topic: topic@,
                count: *count,
            },
        }
    }
}

} // verus!

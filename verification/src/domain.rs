//! Topics as the service handles them internally.
use vstd::prelude::*;

use crate::properties::KafkaProperties;

verus! {

/// A topic as listed: its name and shape.
#[derive(Debug)]
pub struct Topic {
    pub name: String,
    pub partitions: i32,
    pub replication_factor: i32,
}

/// The mathematical content of a [`Topic`].
pub struct TopicView {
    pub name: Seq<char>,
    pub partitions: i32,
    pub replication_factor: i32,
}

impl View for Topic {
    type V = TopicView;

    open spec fn view(&self) -> TopicView {
        TopicView {
            name: self.name@,
            partitions: self.partitions,
            replication_factor: self.replication_factor,
        }
    }
}

/// A topic with its configuration.
#[derive(Debug)]
pub struct TopicDetail {
    pub name: String,
    pub partitions: i32,
    pub replication_factor: i32,
    pub config: KafkaProperties,
}

/// The mathematical content of a [`TopicDetail`].
pub struct TopicDetailView {
    pub name: Seq<char>,
    pub partitions: i32,
    pub replication_factor: i32,
    pub config: Map<Seq<char>, Seq<char>>,
}

impl View for TopicDetail {
    type V = TopicDetailView;

    open spec fn view(&self) -> TopicDetailView {
        TopicDetailView {
            name: self.name@,
            partitions: self.partitions,
            replication_factor: self.replication_factor,
            config: self.config@,
        }
    }
}

/// The listing entry of a detailed topic.
pub open spec fn summary_of(d: TopicDetailView) -> TopicView {
    TopicView { name: d.name, partitions: d.partitions, replication_factor: d.replication_factor }
}

impl TopicDetail {
    /// An exact copy.
    pub fn duplicate(&self) -> (r: TopicDetail)
        ensures
            r@ == self@,
    {
        TopicDetail {
            name: self.name.clone(),
            partitions: self.partitions,
            replication_factor: self.replication_factor,
            config: self.config.duplicate(),
        }
    }

    /// The listing entry of this topic.
    pub fn summary(&self) -> (r: Topic)
        ensures
            r@ == summary_of(self@),
    {
        Topic {
            name: self.name.clone(),
            partitions: self.partitions,
            replication_factor: self.replication_factor,
        }
    }
}

impl Clone for TopicDetail {
    fn clone(&self) -> (r: Self)
        ensures
            r@ == self@,
    {
        self.duplicate()
    }
}

/// A request to create a topic with the given shape.
#[derive(Debug, Clone)]
pub struct CreateTopicRequest {
    pub name: String,
    pub partitions: i32,
    pub replication_factor: i32,
}

/// Configuration entries to merge into a topic's configuration.
#[derive(Debug)]
pub struct TopicConfigUpdate {
    pub config: KafkaProperties,
}

} // verus!

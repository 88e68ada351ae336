//! Reading topics out of what a Kafka cluster reports: its metadata and
//! its described configurations.
use vstd::prelude::*;

use crate::domain::{TopicDetail, TopicDetailView};
use crate::error::SiegeError;
use crate::properties::{entry_views, insert_all, KafkaProperties};
use crate::text::{starts_with_seq, str_starts_with, string_eq_str};

verus! {

/// What the cluster metadata says of one topic: its name and, for each
/// partition in order, how many replicas it has.
#[derive(Debug, Clone)]
pub struct TopicMetadata {
    pub name: String,
    pub partition_replicas: Vec<usize>,
}

/// One entry of a described configuration; the value may be unset.
#[derive(Debug, Clone)]
pub struct ConfigEntry {
    pub name: String,
    pub value: Option<String>,
}

/// The partition count of a topic (as the 32-bit count the API uses).
pub open spec fn partitions_of(m: TopicMetadata) -> i32 {
    m.partition_replicas@.len() as i32
}

/// The replication factor of a topic: the replica count of its first
/// partition, 0 when it has none.
pub open spec fn replication_of(m: TopicMetadata) -> i32 {
    if m.partition_replicas@.len() > 0 {
        m.partition_replicas@[0] as i32
    } else {
        0
    }
}

/// Internal topics are those whose name starts with `__`.
pub open spec fn is_internal(name: Seq<char>) -> bool {
    starts_with_seq(name, "__"@)
}

/// The topic a metadata record describes, with an empty configuration.
pub open spec fn topic_of(m: TopicMetadata) -> TopicDetailView {
    TopicDetailView {
        name: m.name@,
        partitions: partitions_of(m),
        replication_factor: replication_of(m),
        config: Map::empty(),
    }
}

/// The topics of `metas` that are not internal, in order.
pub open spec fn visible(metas: Seq<TopicMetadata>) -> Seq<TopicDetailView>
    decreases metas.len(),
{
    if metas.len() == 0 {
        Seq::empty()
    } else {
        let rest = visible(metas.drop_last());
        if is_internal(metas.last().name@) {
            rest
        } else {
            rest.push(topic_of(metas.last()))
        }
    }
}

/// The `(name, value)` pairs of the entries that have a value, in order.
pub open spec fn set_entries(entries: Seq<ConfigEntry>) -> Seq<(Seq<char>, Seq<char>)>
    decreases entries.len(),
{
    if entries.len() == 0 {
        Seq::empty()
    } else {
        let rest = set_entries(entries.drop_last());
        match entries.last().value {
            Some(v) => rest.push((entries.last().name@, v@)),
            None => rest,
        }
    }
}

/// The topic a metadata record describes, with an empty configuration.
pub fn topic_from_metadata(m: &TopicMetadata) -> (r: TopicDetail)
    ensures
        r@ == topic_of(*m),
{
    let n: usize = m.partition_replicas.len();
    let replication: i32 = if n > 0 {
        m.partition_replicas[0] as i32
    } else {
        0
    };
    TopicDetail {
        name: m.name.clone(),
        partitions: n as i32,
        replication_factor: replication,
        config: KafkaProperties::new(),
    }
}

/// The topics the cluster lists, internal ones (`__…`) left out, each
/// with an empty configuration still to be filled in.
pub fn visible_topics(metas: &Vec<TopicMetadata>) -> (r: Vec<TopicDetail>)
    ensures
        r@.map_values(|t: TopicDetail| t@) == visible(metas@),
{
    let n: usize = metas.len();
    let mut r: Vec<TopicDetail> = Vec::new();
    let mut i: usize = 0;
    while i < n
        invariant
            n == metas@.len(),
            i <= n,
            r@.map_values(|t: TopicDetail| t@) == visible(metas@.take(i as int)),
        decreases n - i,
    {
        proof {
            assert(metas@.take(i as int + 1).drop_last() =~= metas@.take(i as int));
            assert(metas@.take(i as int + 1).last() == metas@[i as int]);
        }
        if !str_starts_with(metas[i].name.as_str(), "__") {
            let t = topic_from_metadata(&metas[i]);
            proof {
                assert(r@.push(t).map_values(|t: TopicDetail| t@) =~= r@.map_values(
                    |t: TopicDetail| t@,
                ).push(t@));
            }
            r.push(t);
        }
        i = i + 1;
    }
    assert(metas@.take(n as int) =~= metas@);
    r
}

/// Sets, in order, every entry of `entries` that has a value.
pub fn apply_config_entries(config: &mut KafkaProperties, entries: &Vec<ConfigEntry>)
    ensures
        final(config)@ == insert_all(old(config)@, set_entries(entries@)),
{
    let n: usize = entries.len();
    let mut i: usize = 0;
    while i < n
        invariant
            n == entries@.len(),
            i <= n,
            config@ == insert_all(old(config)@, set_entries(entries@.take(i as int))),
        decreases n - i,
    {
        proof {
            assert(entries@.take(i as int + 1).drop_last() =~= entries@.take(i as int));
            assert(entries@.take(i as int + 1).last() == entries@[i as int]);
        }
        match &entries[i].value {
            Some(v) => {
                proof {
                    let x = set_entries(entries@.take(i as int));
                    let p = (entries@[i as int].name@, v@);
                    assert(set_entries(entries@.take(i as int + 1)) == x.push(p));
                    assert(x.push(p).drop_last() =~= x);
                }
                config.insert(entries[i].name.clone(), v.clone());
            },
            None => {},
        }
        i = i + 1;
    }
    assert(entries@.take(n as int) =~= entries@);
}

/// Fills in the configurations that the cluster described for the listed
/// topics: the `i`-th description, when it could be read, belongs to the
/// `i`-th topic.
pub fn merge_described_configs(topics: &mut Vec<TopicDetail>, described: &Vec<Option<Vec<ConfigEntry>>>)
    requires
        described@.len() <= old(topics)@.len(),
    ensures
        final(topics)@.len() == old(topics)@.len(),
        forall|i: int|
            0 <= i < old(topics)@.len() ==> #[trigger] final(topics)@[i]@ == (if i < described@.len()
                && described@[i] is Some {
                TopicDetailView {
                    config: insert_all(old(topics)@[i]@.config, set_entries(described@[i]->0@)),
                    ..old(topics)@[i]@
                }
            } else {
                old(topics)@[i]@
            }),
{
    let n: usize = described.len();
    let mut i: usize = 0;
    while i < n
        invariant
            n == described@.len(),
            n <= old(topics)@.len(),
            topics@.len() == old(topics)@.len(),
            i <= n,
            forall|j: int|
                0 <= j < old(topics)@.len() ==> #[trigger] topics@[j]@ == (if j < i && described@[j] is Some {
                    TopicDetailView {
                        config: insert_all(old(topics)@[j]@.config, set_entries(described@[j]->0@)),
                        ..old(topics)@[j]@
                    }
                } else {
                    old(topics)@[j]@
                }),
        decreases n - i,
    {
        match &described[i] {
            Some(entries) => {
                let mut d = topics[i].duplicate();
                apply_config_entries(&mut d.config, entries);
                topics.set(i, d);
            },
            None => {},
        }
        i = i + 1;
    }
}

/// The index of the first metadata record named `name`.
pub fn find_metadata(metas: &Vec<TopicMetadata>, name: &str) -> (r: Result<usize, SiegeError>)
    ensures
        match r {
            Ok(i) => i < metas@.len() && metas@[i as int].name@ == name@ && forall|j: int|
                0 <= j < i ==> metas@[j].name@ != name@,
            Err(e) => (forall|j: int| 0 <= j < metas@.len() ==> metas@[j].name@ != name@) && (e matches SiegeError::TopicNotFound(s) && s@ == name@),
        },
{
    let n: usize = metas.len();
    let mut i: usize = 0;
    while i < n
        invariant
            n == metas@.len(),
            i <= n,
            forall|j: int| 0 <= j < i ==> metas@[j].name@ != name@,
        decreases n - i,
    {
        if string_eq_str(&metas[i].name, name) {
            return Ok(i);
        }
        i = i + 1;
    }
    Err(SiegeError::TopicNotFound(name.to_owned()))
}

/// The configuration made of every described entry that has a value.
pub fn config_from_entries(described: &Vec<Vec<ConfigEntry>>) -> (r: KafkaProperties)
    ensures
        r@ == fold_described(described@),
{
    let mut c = KafkaProperties::new();
    let n: usize = described.len();
    let mut i: usize = 0;
    while i < n
        invariant
            n == described@.len(),
            i <= n,
            c@ == fold_described(described@.take(i as int)),
        decreases n - i,
    {
        proof {
            assert(described@.take(i as int + 1).drop_last() =~= described@.take(i as int));
            assert(described@.take(i as int + 1).last() == described@[i as int]);
        }
        apply_config_entries(&mut c, &described[i]);
        i = i + 1;
    }
    assert(described@.take(n as int) =~= described@);
    c
}

/// The configuration made of the entries of several descriptions, in
/// order, starting from nothing.
pub open spec fn fold_described(described: Seq<Vec<ConfigEntry>>) -> Map<Seq<char>, Seq<char>>
    decreases described.len(),
{
    if described.len() == 0 {
        Map::empty()
    } else {
        insert_all(fold_described(described.drop_last()), set_entries(described.last()@))
    }
}

} // verus!

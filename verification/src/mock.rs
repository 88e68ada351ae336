//! An in-memory topic store standing in for a Kafka cluster.
use vstd::prelude::*;

use crate::domain::{
    summary_of, CreateTopicRequest, Topic, TopicConfigUpdate, TopicDetail, TopicDetailView,
};
use crate::error::SiegeError;
use crate::keyed::{
    has_key, keys_distinct, lemma_empty, lemma_key_index, lemma_lookup, lemma_push, lemma_remove,
    lemma_update, pairs_to_map,
};
use crate::properties::KafkaProperties;
use crate::text::string_eq_str;

verus! {

/// The `(name, topic)` pairs of a list of topics.
pub open spec fn detail_entries(s: Seq<TopicDetail>) -> Seq<(Seq<char>, TopicDetailView)> {
    s.map_values(|t: TopicDetail| (t.name@, t@))
}

/// The table obtained by storing the topics of `s` from first to last
/// under their names, a later topic replacing an earlier one of the same
/// name.
pub open spec fn store_all(m: Map<Seq<char>, TopicDetailView>, s: Seq<TopicDetailView>) -> Map<
    Seq<char>,
    TopicDetailView,
>
    decreases s.len(),
{
    if s.len() == 0 {
        m
    } else {
        store_all(m, s.drop_last()).insert(s.last().name, s.last())
    }
}

/// A fresh topic with the shape of `req` and an empty configuration.
pub open spec fn created_detail(req: CreateTopicRequest) -> TopicDetailView {
    TopicDetailView {
        name: req.name@,
        partitions: req.partitions,
        replication_factor: req.replication_factor,
        config: Map::empty(),
    }
}

/// `d` with `update` merged into its configuration, `update` winning.
pub open spec fn with_merged_config(d: TopicDetailView, update: Map<Seq<char>, Seq<char>>) -> TopicDetailView {
    TopicDetailView { config: d.config.union_prefer_right(update), ..d }
}

/// Topics kept in memory, keyed by name.  Every operation takes effect
/// at once.
#[derive(Debug)]
pub struct MockKafkaBackend {
    topics: Vec<TopicDetail>,
}

impl MockKafkaBackend {
    /// The stored `(name, topic)` pairs.
    pub closed spec fn entries(&self) -> Seq<(Seq<char>, TopicDetailView)> {
        detail_entries(self.topics@)
    }

    #[verifier::type_invariant]
    spec fn names_unique(&self) -> bool {
        keys_distinct(self.entries())
    }
}

impl View for MockKafkaBackend {
    type V = Map<Seq<char>, TopicDetailView>;

    open spec fn view(&self) -> Map<Seq<char>, TopicDetailView> {
        pairs_to_map(self.entries())
    }
}

impl MockKafkaBackend {
    /// A backend with no topics.
    pub fn new() -> (r: Self)
        ensures
            r@ == Map::<Seq<char>, TopicDetailView>::empty(),
    {
        let r = MockKafkaBackend { topics: Vec::new() };
        proof {
            lemma_empty(r.entries());
        }
        r
    }

    /// A backend holding `topics`, each under its name; of two topics with
    /// one name the later is kept.
    pub fn with_topics(topics: Vec<TopicDetail>) -> (r: Self)
        ensures
            r@ == store_all(Map::empty(), topics@.map_values(|t: TopicDetail| t@)),
    {
        let mut r = MockKafkaBackend::new();
        let n: usize = topics.len();
        let mut i: usize = 0;
        while i < n
            invariant
                n == topics@.len(),
                i <= n,
                r@ == store_all(Map::empty(), topics@.take(i as int).map_values(|t: TopicDetail| t@)),
            decreases n - i,
        {
            let d = topics[i].duplicate();
            proof {
                let s = topics@.take(i as int + 1).map_values(|t: TopicDetail| t@);
                assert(s.drop_last() =~= topics@.take(i as int).map_values(|t: TopicDetail| t@));
                assert(s.last() == d@);
            }
            r.store(d);
            i = i + 1;
        }
        assert(topics@.take(n as int) =~= topics@);
        r
    }

    /// The index of the topic named `name`, if any.
    fn find(&self, name: &str) -> (r: Option<usize>)
        ensures
            self.entries().len() == self.topics@.len(),
            match r {
                Some(i) => i < self.entries().len() && self.entries()[i as int].0 == name@,
                None => !has_key(self.entries(), name@),
            },
    {
        let n: usize = self.topics.len();
        let mut i: usize = 0;
        while i < n
            invariant
                n == self.topics@.len(),
                self.entries().len() == n,
                i <= n,
                forall|j: int| 0 <= j < i ==> self.entries()[j].0 != name@,
            decreases n - i,
        {
            assert(self.entries()[i as int].0 == self.topics@[i as int].name@);
            if string_eq_str(&self.topics[i].name, name) {
                return Some(i);
            }
            i = i + 1;
        }
        assert(!has_key(self.entries(), name@)) by {
            if has_key(self.entries(), name@) {
                let j = choose|j: int|
                    0 <= j < self.entries().len() && #[trigger] self.entries()[j].0 == name@;
                assert(self.entries()[j].0 != name@);
            }
        }
        None
    }

    /// Stores `d` under its name, replacing any topic of that name.
    fn store(&mut self, d: TopicDetail)
        ensures
            final(self)@ == old(self)@.insert(d.name@, d@),
    {
        proof {
            use_type_invariant(&*self);
        }
        let ghost old_entries = self.entries();
        let found = self.find(d.name.as_str());
        let mut topics: Vec<TopicDetail> = Vec::new();
        std::mem::swap(&mut topics, &mut self.topics);
        assert(detail_entries(topics@) == old_entries);
        match found {
            Some(i) => {
                proof {
                    lemma_update(old_entries, i as int, d@);
                    assert(detail_entries(topics@.update(i as int, d)) =~= old_entries.update(
                        i as int,
                        (old_entries[i as int].0, d@),
                    ));
                }
                topics.set(i, d);
            },
            None => {
                proof {
                    lemma_push(old_entries, d.name@, d@);
                    assert(detail_entries(topics@.push(d)) =~= old_entries.push((d.name@, d@)));
                }
                topics.push(d);
            },
        }
        self.topics = topics;
    }

    /// The listing entries of all topics, each once, in storage order.
    pub fn list_topics(&self) -> (r: Vec<Topic>)
        ensures
            forall|i: int|
                0 <= i < r@.len() ==> self@.contains_key(#[trigger] r@[i].name@) && r@[i]@
                    == summary_of(self@[r@[i].name@]),
            forall|k: Seq<char>|
                #[trigger] self@.contains_key(k) ==> exists|i: int| 0 <= i < r@.len() && #[trigger] r@[i].name@ == k,
            forall|i: int, j: int|
                0 <= i < r@.len() && 0 <= j < r@.len() && i != j ==> #[trigger] r@[i].name@
                    != #[trigger] r@[j].name@,
    {
        proof {
            use_type_invariant(self);
        }
        let n: usize = self.topics.len();
        let mut r: Vec<Topic> = Vec::new();
        let mut i: usize = 0;
        while i < n
            invariant
                n == self.topics@.len(),
                self.entries().len() == n,
                keys_distinct(self.entries()),
                i <= n,
                r@.len() == i,
                forall|j: int| 0 <= j < i ==> #[trigger] r@[j].name@ == self.entries()[j].0,
                forall|j: int| 0 <= j < i ==> #[trigger] r@[j]@ == summary_of(self.entries()[j].1),
            decreases n - i,
        {
            let t = self.topics[i].summary();
            r.push(t);
            i = i + 1;
        }
        assert forall|i: int| 0 <= i < r@.len() implies self@.contains_key(#[trigger] r@[i].name@)
            && r@[i]@ == summary_of(self@[r@[i].name@]) by {
            lemma_lookup(self.entries(), i);
        }
        assert forall|k: Seq<char>| #[trigger] self@.contains_key(k) implies exists|i: int|
            0 <= i < r@.len() && #[trigger] r@[i].name@ == k by {
            let i = lemma_key_index(self.entries(), k);
            assert(r@[i].name@ == k);
        }
        r
    }

    /// Every stored topic with its configuration, each once, in storage
    /// order.
    pub fn list_details(&self) -> (r: Vec<TopicDetail>)
        ensures
            forall|i: int|
                0 <= i < r@.len() ==> self@.contains_key(#[trigger] r@[i].name@) && r@[i]@
                    == self@[r@[i].name@],
            forall|k: Seq<char>|
                #[trigger] self@.contains_key(k) ==> exists|i: int| 0 <= i < r@.len() && #[trigger] r@[i].name@ == k,
            forall|i: int, j: int|
                0 <= i < r@.len() && 0 <= j < r@.len() && i != j ==> #[trigger] r@[i].name@
                    != #[trigger] r@[j].name@,
    {
        proof {
            use_type_invariant(self);
        }
        let n: usize = self.topics.len();
        let mut r: Vec<TopicDetail> = Vec::new();
        let mut i: usize = 0;
        while i < n
            invariant
                n == self.topics@.len(),
                self.entries().len() == n,
                keys_distinct(self.entries()),
                i <= n,
                r@.len() == i,
                forall|j: int| 0 <= j < i ==> #[trigger] r@[j].name@ == self.entries()[j].0,
                forall|j: int| 0 <= j < i ==> #[trigger] r@[j]@ == self.entries()[j].1,
            decreases n - i,
        {
            let t = self.topics[i].duplicate();
            r.push(t);
            i = i + 1;
        }
        assert forall|i: int| 0 <= i < r@.len() implies self@.contains_key(#[trigger] r@[i].name@)
            && r@[i]@ == self@[r@[i].name@] by {
            lemma_lookup(self.entries(), i);
        }
        assert forall|k: Seq<char>| #[trigger] self@.contains_key(k) implies exists|i: int|
            0 <= i < r@.len() && #[trigger] r@[i].name@ == k by {
            let i = lemma_key_index(self.entries(), k);
            assert(r@[i].name@ == k);
        }
        r
    }

    /// The topic named `name`.
    pub fn get_topic(&self, name: &str) -> (r: Result<TopicDetail, SiegeError>)
        ensures
            match r {
                Ok(d) => self@.contains_key(name@) && d@ == self@[name@] && d@.name == name@,
                Err(e) => !self@.contains_key(name@) && (e matches SiegeError::TopicNotFound(s)
                    && s@ == name@),
            },
    {
        proof {
            use_type_invariant(self);
        }
        match self.find(name) {
            Some(i) => {
                proof {
                    lemma_lookup(self.entries(), i as int);
                }
                Ok(self.topics[i].duplicate())
            },
            None => Err(SiegeError::TopicNotFound(name.to_owned())),
        }
    }

    /// Creates a topic with the shape of `req` and an empty configuration,
    /// unless a topic of that name exists.
    pub fn create_topic(&mut self, req: CreateTopicRequest) -> (r: Result<(), SiegeError>)
        ensures
            old(self)@.contains_key(req.name@) ==> final(self)@ == old(self)@ && (r matches Err(
                SiegeError::TopicAlreadyExists(s),
            ) && s@ == req.name@),
            !old(self)@.contains_key(req.name@) ==> r is Ok && final(self)@ == old(self)@.insert(
                req.name@,
                created_detail(req),
            ),
            !old(self)@.contains_key(req.name@) ==> final(self)@.contains_key(req.name@)
                && final(self)@[req.name@].name == req.name@ && final(self)@[req.name@].partitions
                == req.partitions && final(self)@[req.name@].replication_factor == req.replication_factor
                && final(self)@[req.name@].config == Map::<Seq<char>, Seq<char>>::empty(),
    {
        proof {
            use_type_invariant(&*self);
        }
        match self.find(req.name.as_str()) {
            Some(i) => {
                proof {
                    lemma_lookup(self.entries(), i as int);
                }
                Err(SiegeError::TopicAlreadyExists(req.name.clone()))
            },
            None => {
                let ghost spec_req = req;
                let d = TopicDetail {
                    name: req.name,
                    partitions: req.partitions,
                    replication_factor: req.replication_factor,
                    config: KafkaProperties::new(),
                };
                assert(d@ == created_detail(spec_req));
                self.store(d);
                Ok(())
            },
        }
    }

    /// Deletes the topic named `name`, if there is one.
    pub fn delete_topic(&mut self, name: &str) -> (r: Result<(), SiegeError>)
        ensures
            old(self)@.contains_key(name@) ==> r is Ok && final(self)@ == old(self)@.remove(name@),
            !old(self)@.contains_key(name@) ==> final(self)@ == old(self)@ && (r matches Err(
                SiegeError::TopicNotFound(s),
            ) && s@ == name@),
    {
        proof {
            use_type_invariant(&*self);
        }
        let ghost old_entries = self.entries();
        match self.find(name) {
            Some(i) => {
                proof {
                    lemma_lookup(old_entries, i as int);
                }
                let mut topics: Vec<TopicDetail> = Vec::new();
                std::mem::swap(&mut topics, &mut self.topics);
                proof {
                    lemma_remove(old_entries, i as int);
                    assert(detail_entries(topics@.remove(i as int)) =~= old_entries.remove(i as int));
                }
                topics.remove(i);
                self.topics = topics;
                Ok(())
            },
            None => Err(SiegeError::TopicNotFound(name.to_owned())),
        }
    }

    /// Merges `config` into the configuration of the topic named `name`;
    /// where both set a key, the new value wins.
    pub fn update_topic_config(&mut self, name: &str, config: TopicConfigUpdate) -> (r: Result<
        (),
        SiegeError,
    >)
        ensures
            old(self)@.contains_key(name@) ==> r is Ok && final(self)@ == old(self)@.insert(
                name@,
                with_merged_config(old(self)@[name@], config.config@),
            ),
            !old(self)@.contains_key(name@) ==> final(self)@ == old(self)@ && (r matches Err(
                SiegeError::TopicNotFound(s),
            ) && s@ == name@),
    {
        proof {
            use_type_invariant(&*self);
        }
        match self.find(name) {
            Some(i) => {
                proof {
                    lemma_lookup(self.entries(), i as int);
                }
                let mut d = self.topics[i].duplicate();
                d.config.extend(config.config);
                self.store(d);
                Ok(())
            },
            None => Err(SiegeError::TopicNotFound(name.to_owned())),
        }
    }
}

impl Default for MockKafkaBackend {
    fn default() -> (r: Self)
        ensures
            r@ == Map::<Seq<char>, TopicDetailView>::empty(),
    {
        MockKafkaBackend::new()
    }
}

/// Creating a topic and reading it back gives the fresh topic, with the
/// other topics untouched; a second creation of the same name is refused
/// (the name is then taken).
pub proof fn law_get_after_create(m: Map<Seq<char>, TopicDetailView>, req: CreateTopicRequest)
    requires
        !m.contains_key(req.name@),
    ensures
        m.insert(req.name@, created_detail(req)).contains_key(req.name@),
        m.insert(req.name@, created_detail(req))[req.name@] == created_detail(req),
        forall|k: Seq<char>|
            k != req.name@ ==> (#[trigger] m.insert(req.name@, created_detail(req)).contains_key(k)
                == m.contains_key(k) && (m.contains_key(k) ==> m.insert(
                req.name@,
                created_detail(req),
            )[k] == m[k])),
{
}

/// Deleting a created topic undoes its creation: the store is as before.
pub proof fn law_delete_undoes_create(m: Map<Seq<char>, TopicDetailView>, req: CreateTopicRequest)
    requires
        !m.contains_key(req.name@),
    ensures
        m.insert(req.name@, created_detail(req)).remove(req.name@) == m,
{
    assert(m.insert(req.name@, created_detail(req)).remove(req.name@) =~= m);
}

/// After a topic is deleted, reading it fails and the other topics are
/// untouched.
pub proof fn law_get_after_delete(m: Map<Seq<char>, TopicDetailView>, name: Seq<char>)
    ensures
        !m.remove(name).contains_key(name),
        forall|k: Seq<char>|
            k != name ==> (#[trigger] m.remove(name).contains_key(k) == m.contains_key(k) && (
            m.contains_key(k) ==> m.remove(name)[k] == m[k])),
{
}

/// Updating a configuration merges it into the stored one, the update
/// winning on shared keys; the topic's name, partitions and replication
/// are kept.
pub proof fn law_update_merges(
    m: Map<Seq<char>, TopicDetailView>,
    name: Seq<char>,
    update: Map<Seq<char>, Seq<char>>,
)
    requires
        m.contains_key(name),
    ensures
        ({
            let after = m.insert(name, with_merged_config(m[name], update))[name];
            &&& after.name == m[name].name
            &&& after.partitions == m[name].partitions
            &&& after.replication_factor == m[name].replication_factor
            &&& forall|k: Seq<char>| #[trigger] update.contains_key(k) ==> after.config.contains_key(k)
                && after.config[k] == update[k]
            &&& forall|k: Seq<char>|
                !update.contains_key(k) ==> #[trigger] after.config.contains_key(k)
                    == m[name].config.contains_key(k) && (m[name].config.contains_key(k)
                    ==> after.config[k] == m[name].config[k])
        }),
{
}

/// A created topic is stored exactly as requested: the requested name,
/// partition count and replication factor, and no configuration; reading
/// it back after creation gives those fields.
pub proof fn law_create_stores_request(m: Map<Seq<char>, TopicDetailView>, req: CreateTopicRequest)
    requires
        !m.contains_key(req.name@),
    ensures
        ({
            let stored = m.insert(req.name@, created_detail(req))[req.name@];
            &&& stored.name == req.name@
            &&& stored.partitions == req.partitions
            &&& stored.replication_factor == req.replication_factor
            &&& stored.config == Map::<Seq<char>, Seq<char>>::empty()
        }),
{
}

} // verus!

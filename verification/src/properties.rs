//! Kafka configuration properties: a string-to-string map such as
//! `{"cleanup.policy": "compact", "retention.ms": "1000"}`.
use vstd::prelude::*;

use crate::keyed::{
    has_key, keys_distinct, lemma_empty, lemma_lookup, lemma_push, lemma_take_all, lemma_take_push,
    lemma_update, pairs_to_map,
};
use crate::text::{contains_seq, str_contains, string_eq_str};

verus! {

/// The character views of a list of `(key, value)` strings.
pub open spec fn entry_views(s: Seq<(String, String)>) -> Seq<(Seq<char>, Seq<char>)> {
    s.map_values(|e: (String, String)| (e.0@, e.1@))
}

/// The map obtained by inserting the pairs of `s` into `m` from first to
/// last, so that a later pair overrides an earlier one with the same key.
pub open spec fn insert_all(m: Map<Seq<char>, Seq<char>>, s: Seq<(Seq<char>, Seq<char>)>) -> Map<
    Seq<char>,
    Seq<char>,
>
    decreases s.len(),
{
    if s.len() == 0 {
        m
    } else {
        insert_all(m, s.drop_last()).insert(s.last().0, s.last().1)
    }
}

/// The key under which a topic's cleanup policy is configured.
pub open spec fn cleanup_policy_key() -> Seq<char> {
    "cleanup.policy"@
}

/// A configuration is compacted when its cleanup policy mentions `compact`.
pub open spec fn compacted(config: Map<Seq<char>, Seq<char>>) -> bool {
    config.contains_key(cleanup_policy_key()) && contains_seq(
        config[cleanup_policy_key()],
        "compact"@,
    )
}

/// Configuration properties of a topic.  Each key occurs once; a later
/// insertion under a key replaces the earlier value.
#[derive(Debug)]
pub struct KafkaProperties {
    entries: Vec<(String, String)>,
}

impl KafkaProperties {
    /// The stored pairs, in insertion order.
    pub closed spec fn pairs(&self) -> Seq<(Seq<char>, Seq<char>)> {
        entry_views(self.entries@)
    }

    #[verifier::type_invariant]
    spec fn keys_unique(&self) -> bool {
        keys_distinct(self.pairs())
    }
}

impl View for KafkaProperties {
    type V = Map<Seq<char>, Seq<char>>;

    open spec fn view(&self) -> Map<Seq<char>, Seq<char>> {
        pairs_to_map(self.pairs())
    }
}

impl KafkaProperties {
    /// An empty set of properties.
    pub fn new() -> (r: Self)
        ensures
            r@ == Map::<Seq<char>, Seq<char>>::empty(),
            r.pairs().len() == 0,
    {
        let r = KafkaProperties { entries: Vec::new() };
        proof {
            lemma_empty(r.pairs());
        }
        r
    }

    /// The index of the pair with key `key`, if any.
    fn find(&self, key: &str) -> (r: Option<usize>)
        ensures
            match r {
                Some(i) => i < self.pairs().len() && self.pairs()[i as int].0 == key@,
                None => !has_key(self.pairs(), key@),
            },
            self.pairs().len() == self.entries@.len(),
    {
        let n: usize = self.entries.len();
        let mut i: usize = 0;
        while i < n
            invariant
                n == self.entries@.len(),
                self.pairs().len() == n,
                i <= n,
                forall|j: int| 0 <= j < i ==> self.pairs()[j].0 != key@,
            decreases n - i,
        {
            assert(self.pairs()[i as int].0 == self.entries@[i as int].0@);
            if string_eq_str(&self.entries[i].0, key) {
                return Some(i);
            }
            i = i + 1;
        }
        assert(!has_key(self.pairs(), key@)) by {
            if has_key(self.pairs(), key@) {
                let j = choose|j: int| 0 <= j < self.pairs().len() && #[trigger] self.pairs()[j].0 == key@;
                assert(self.pairs()[j].0 != key@);
            }
        }
        None
    }

    /// Whether no property is set.
    pub fn is_empty(&self) -> (r: bool)
        ensures
            r == (self@ =~= Map::<Seq<char>, Seq<char>>::empty()),
    {
        proof {
            use_type_invariant(self);
        }
        if self.entries.len() == 0 {
            proof {
                lemma_empty(self.pairs());
            }
            true
        } else {
            proof {
                lemma_lookup(self.pairs(), 0);
                assert(self@.contains_key(self.pairs()[0].0));
            }
            false
        }
    }

    /// The value stored under `key`, if any.
    pub fn get(&self, key: &str) -> (r: Option<&String>)
        ensures
            match r {
                Some(v) => self@.contains_key(key@) && v@ == self@[key@],
                None => !self@.contains_key(key@),
            },
    {
        proof {
            use_type_invariant(self);
        }
        match self.find(key) {
            Some(i) => {
                proof {
                    lemma_lookup(self.pairs(), i as int);
                }
                Some(&self.entries[i].1)
            },
            None => None,
        }
    }

    /// Sets `key` to `value`, replacing any earlier value.
    pub fn insert(&mut self, key: String, value: String)
        ensures
            final(self)@ == old(self)@.insert(key@, value@),
    {
        proof {
            use_type_invariant(&*self);
        }
        let ghost old_pairs = self.pairs();
        let found = self.find(key.as_str());
        let mut entries: Vec<(String, String)> = Vec::new();
        std::mem::swap(&mut entries, &mut self.entries);
        assert(entry_views(entries@) == old_pairs);
        match found {
            Some(i) => {
                proof {
                    lemma_update(old_pairs, i as int, value@);
                    assert(entry_views(entries@.update(i as int, (key, value))) =~= old_pairs.update(
                        i as int,
                        (old_pairs[i as int].0, value@),
                    ));
                }
                entries.set(i, (key, value));
            },
            None => {
                proof {
                    lemma_push(old_pairs, key@, value@);
                    assert(entry_views(entries@.push((key, value))) =~= old_pairs.push(
                        (key@, value@),
                    ));
                }
                entries.push((key, value));
            },
        }
        self.entries = entries;
    }

    /// Merges `other` into `self`; where both set a key, `other` wins.
    pub fn extend(&mut self, other: KafkaProperties)
        ensures
            final(self)@ == old(self)@.union_prefer_right(other@),
    {
        proof {
            use_type_invariant(&other);
        }
        let n: usize = other.entries.len();
        let mut i: usize = 0;
        assert(other.pairs().take(0) =~= Seq::<(Seq<char>, Seq<char>)>::empty());
        proof {
            lemma_empty(other.pairs().take(0));
            assert(old(self)@.union_prefer_right(Map::<Seq<char>, Seq<char>>::empty()) =~= old(self)@);
        }
        while i < n
            invariant
                n == other.entries@.len(),
                other.pairs().len() == n,
                keys_distinct(other.pairs()),
                i <= n,
                self@ == old(self)@.union_prefer_right(pairs_to_map(other.pairs().take(i as int))),
            decreases n - i,
        {
            let k = other.entries[i].0.clone();
            let v = other.entries[i].1.clone();
            proof {
                lemma_take_push(other.pairs(), i as int);
                let prev = pairs_to_map(other.pairs().take(i as int));
                assert(old(self)@.union_prefer_right(prev.insert(k@, v@)) =~= old(self)@.union_prefer_right(
                    prev,
                ).insert(k@, v@));
            }
            self.insert(k, v);
            i = i + 1;
        }
        proof {
            lemma_take_all(other.pairs());
        }
    }

    /// The stored pairs, each key once, in insertion order.
    pub fn iter(&self) -> (r: &[(String, String)])
        ensures
            entry_views(r@) == self.pairs(),
            keys_distinct(self.pairs()),
            pairs_to_map(entry_views(r@)) == self@,
    {
        proof {
            use_type_invariant(self);
        }
        self.entries.as_slice()
    }

    /// Builds properties from `(key, value)` pairs inserted in order, so a
    /// later pair overrides an earlier one with the same key.
    pub fn from_pairs(pairs: Vec<(String, String)>) -> (r: Self)
        ensures
            r@ == insert_all(Map::empty(), entry_views(pairs@)),
    {
        let mut r = KafkaProperties::new();
        let n: usize = pairs.len();
        let mut i: usize = 0;
        while i < n
            invariant
                n == pairs@.len(),
                i <= n,
                r@ == insert_all(Map::empty(), entry_views(pairs@.take(i as int))),
            decreases n - i,
        {
            let k = pairs[i].0.clone();
            let v = pairs[i].1.clone();
            proof {
                let e = entry_views(pairs@.take(i as int + 1));
                assert(e.drop_last() =~= entry_views(pairs@.take(i as int)));
                assert(e.last() == (k@, v@));
            }
            r.insert(k, v);
            i = i + 1;
        }
        assert(pairs@.take(n as int) =~= pairs@);
        r
    }

    /// Whether the cleanup policy is set and mentions `compact`.
    pub fn is_compacted(&self) -> (r: bool)
        ensures
            r == compacted(self@),
    {
        match self.get("cleanup.policy") {
            Some(v) => str_contains(v.as_str(), "compact"),
            None => false,
        }
    }

    /// An exact copy.
    pub fn duplicate(&self) -> (r: Self)
        ensures
            r@ == self@,
            r.pairs() == self.pairs(),
    {
        proof {
            use_type_invariant(self);
        }
        let n: usize = self.entries.len();
        let mut v: Vec<(String, String)> = Vec::new();
        let mut i: usize = 0;
        while i < n
            invariant
                n == self.entries@.len(),
                i <= n,
                entry_views(v@) == entry_views(self.entries@.take(i as int)),
            decreases n - i,
        {
            let k = self.entries[i].0.clone();
            let val = self.entries[i].1.clone();
            proof {
                let a = entry_views(v@.push((k, val)));
                let b = entry_views(self.entries@.take(i as int + 1));
                assert(entry_views(v@).len() == v@.len());
                assert(v@.len() == i);
                assert forall|j: int| 0 <= j < i implies a[j] == b[j] by {
                    assert(a[j] == entry_views(v@)[j]);
                    assert(b[j] == entry_views(self.entries@.take(i as int))[j]);
                }
                assert(a[i as int] == b[i as int]);
                assert(a =~= b);
            }
            v.push((k, val));
            i = i + 1;
        }
        assert(self.entries@.take(n as int) =~= self.entries@);
        KafkaProperties { entries: v }
    }
}

impl Clone for KafkaProperties {
    fn clone(&self) -> (r: Self)
        ensures
            r@ == self@,
            r.pairs() == self.pairs(),
    {
        self.duplicate()
    }
}

impl Default for KafkaProperties {
    fn default() -> (r: Self)
        ensures
            r@ == Map::<Seq<char>, Seq<char>>::empty(),
    {
        KafkaProperties::new()
    }
}

/// Reading a key back after it was inserted gives the inserted value;
/// every other key reads as before.
pub proof fn law_get_after_insert(m: Map<Seq<char>, Seq<char>>, k: Seq<char>, v: Seq<char>)
    ensures
        m.insert(k, v).contains_key(k),
        m.insert(k, v)[k] == v,
        forall|j: Seq<char>|
            j != k ==> (#[trigger] m.insert(k, v).contains_key(j) == m.contains_key(j) && (
            m.contains_key(j) ==> m.insert(k, v)[j] == m[j])),
{
}

} // verus!

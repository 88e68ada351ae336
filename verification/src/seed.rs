//! The demonstration topics that seeding creates.
use vstd::prelude::*;

use crate::properties::KafkaProperties;

verus! {

/// A topic to create when seeding.
#[derive(Debug)]
pub struct Seed {
    pub name: &'static str,
    pub partitions: i32,
    pub replication_factor: i32,
    pub config: KafkaProperties,
}

/// A seed with one replica and an empty configuration.
fn plain_seed(name: &'static str, partitions: i32) -> (r: Seed)
    ensures
        r.name == name,
        r.partitions == partitions,
        r.replication_factor == 1,
        r.config@ == Map::<Seq<char>, Seq<char>>::empty(),
{
    Seed { name, partitions, replication_factor: 1, config: KafkaProperties::new() }
}

/// The seeded topics, in creation order: `kings-landing` (6 partitions),
/// `winterfell` (3), `the-wall` (1), `iron-islands` (3), `dragonstone` (3)
/// and `the-citadel` (1, compacted), each with one replica.
pub fn seeds() -> (r: Vec<Seed>)
    ensures
        r@.len() == 6,
        r@[0].name@ == "kings-landing"@ && r@[0].partitions == 6,
        r@[1].name@ == "winterfell"@ && r@[1].partitions == 3,
        r@[2].name@ == "the-wall"@ && r@[2].partitions == 1,
        r@[3].name@ == "iron-islands"@ && r@[3].partitions == 3,
        r@[4].name@ == "dragonstone"@ && r@[4].partitions == 3,
        r@[5].name@ == "the-citadel"@ && r@[5].partitions == 1,
        forall|i: int| 0 <= i < 6 ==> #[trigger] r@[i].replication_factor == 1,
        forall|i: int| 0 <= i < 5 ==> #[trigger] r@[i].config@ == Map::<Seq<char>, Seq<char>>::empty(),
        r@[5].config@ == Map::<Seq<char>, Seq<char>>::empty().insert("cleanup.policy"@, "compact"@),
{
    let mut citadel = KafkaProperties::new();
    citadel.insert("cleanup.policy".to_owned(), "compact".to_owned());
    let mut r: Vec<Seed> = Vec::new();
    r.push(plain_seed("kings-landing", 6));
    r.push(plain_seed("winterfell", 3));
    r.push(plain_seed("the-wall", 1));
    r.push(plain_seed("iron-islands", 3));
    r.push(plain_seed("dragonstone", 3));
    r.push(Seed { name: "the-citadel", partitions: 1, replication_factor: 1, config: citadel });
    r
}

} // verus!

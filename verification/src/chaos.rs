//! Chaos operations on topics: what each one asks of the cluster, and the
//! junk payloads it produces.
use vstd::prelude::*;

use crate::domain::TopicDetailView;
use crate::error::{siege_error_text, HttpError, HttpErrorKind, SiegeError};
use crate::mock::with_merged_config;
use crate::properties::{cleanup_policy_key, compacted, KafkaProperties};
use crate::text::{contains_seq, occurs_at, str_contains};

verus! {

/// An error of a chaos operation.
#[derive(Debug, Clone)]
pub enum ChaosError {
    TopicNotFound(String),
    KafkaError(String),
}

impl ChaosError {
    /// How a topic error surfaces from a chaos operation: a missing topic
    /// stays a missing topic, anything else becomes a Kafka error carrying
    /// the text of the error it came from.
    pub fn from_siege(e: SiegeError) -> (r: ChaosError)
        ensures
            e matches SiegeError::TopicNotFound(s) ==> (r matches ChaosError::TopicNotFound(t) && t@
                == s@),
            !(e is TopicNotFound) ==> (r matches ChaosError::KafkaError(t) && t@ == siege_error_text(e)),
    {
        match e {
            SiegeError::TopicNotFound(s) => ChaosError::TopicNotFound(s),
            _ => ChaosError::KafkaError(e.message()),
        }
    }

    /// How the API answers a failed chaos operation: a missing topic is
    /// not found, a Kafka failure is a bad gateway; the detail is the
    /// error's text.
    pub fn to_http(self) -> (r: HttpError)
        ensures
            self matches ChaosError::TopicNotFound(s) ==> r.kind == HttpErrorKind::NotFound && r.detail@
                == s@,
            self matches ChaosError::KafkaError(s) ==> r.kind == HttpErrorKind::BadGateway && r.detail@
                == s@,
    {
        match self {
            ChaosError::TopicNotFound(s) => HttpError::not_found(s),
            ChaosError::KafkaError(s) => HttpError::bad_gateway(s),
        }
    }
}

/// The configuration that cuts a topic's retention to the minimum.
pub open spec fn low_retention_view() -> Map<Seq<char>, Seq<char>> {
    Map::empty().insert("retention.ms"@, "1"@).insert("segment.ms"@, "1"@)
}

/// `retention.ms = 1` and `segment.ms = 1`.
pub fn low_retention_config() -> (r: KafkaProperties)
    ensures
        r@ == low_retention_view(),
{
    let mut c = KafkaProperties::new();
    c.insert("retention.ms".to_owned(), "1".to_owned());
    c.insert("segment.ms".to_owned(), "1".to_owned());
    c
}

/// The cleanup policy in force: the configured one, `delete` by default.
pub open spec fn current_policy(config: Map<Seq<char>, Seq<char>>) -> Seq<char> {
    if config.contains_key(cleanup_policy_key()) {
        config[cleanup_policy_key()]
    } else {
        "delete"@
    }
}

/// The policy a flip switches to: `delete` from a compacting policy,
/// `compact` otherwise.
pub open spec fn flipped_policy(config: Map<Seq<char>, Seq<char>>) -> Seq<char> {
    if contains_seq(current_policy(config), "compact"@) {
        "delete"@
    } else {
        "compact"@
    }
}

/// The configuration that flips the cleanup policy of a topic configured
/// as `config`.
pub open spec fn flip_view(config: Map<Seq<char>, Seq<char>>) -> Map<Seq<char>, Seq<char>> {
    Map::empty().insert(cleanup_policy_key(), flipped_policy(config))
}

/// The configuration change that flips the cleanup policy of a topic
/// whose configuration is `config`.
pub fn flip_cleanup_policy_config(config: &KafkaProperties) -> (r: KafkaProperties)
    ensures
        r@ == flip_view(config@),
{
    let compacting = match config.get("cleanup.policy") {
        Some(v) => str_contains(v.as_str(), "compact"),
        None => str_contains("delete", "compact"),
    };
    let new_policy = if compacting {
        "delete"
    } else {
        "compact"
    };
    let mut c = KafkaProperties::new();
    c.insert("cleanup.policy".to_owned(), new_policy.to_owned());
    c
}

/// The partition count asked for when `extra` partitions are added to a
/// topic of `partitions` partitions.
pub fn increased_partition_total(partitions: i32, extra: i32) -> (r: usize)
    requires
        i32::MIN <= partitions + extra <= i32::MAX,
    ensures
        r == (partitions + extra) as usize,
{
    let total: i32 = partitions + extra;
    total as usize
}

/// A random length in `[low, high)`, from `rand::random_range`.
#[verifier::external_body]
fn random_len(low: usize, high: usize) -> (r: usize)
    requires
        low < high,
    ensures
        low <= r < high,
{
    rand::random_range(low..high)
}

/// Overwrites `bytes` with random bytes, via `rand::fill`; the length is
/// kept and nothing is said of the new contents.
#[verifier::external_body]
fn fill_random(bytes: &mut Vec<u8>)
    ensures
        final(bytes)@.len() == old(bytes)@.len(),
{
    rand::fill(&mut bytes[..])
}

/// Marks random bytes as a poison pill: when there are more than four
/// bytes, the first two become `0xFF 0xFE` (an invalid UTF-8 start); the
/// rest is kept.
pub fn mark_poison(bytes: Vec<u8>) -> (r: Vec<u8>)
    ensures
        r@.len() == bytes@.len(),
        bytes@.len() > 4 ==> r@[0] == 0xFFu8 && r@[1] == 0xFEu8 && r@.subrange(2, r@.len() as int)
            == bytes@.subrange(2, bytes@.len() as int),
        bytes@.len() <= 4 ==> r@ == bytes@,
{
    let mut b = bytes;
    if b.len() > 4 {
        b.set(0, 0xFFu8);
        b.set(1, 0xFEu8);
        assert(b@.subrange(2, b@.len() as int) =~= bytes@.subrange(2, bytes@.len() as int));
    }
    b
}

/// A random message that no consumer can decode: 16 to 255 random bytes
/// starting with `0xFF 0xFE`.
pub fn poison_pill() -> (r: Vec<u8>)
    ensures
        16 <= r@.len() < 256,
        r@[0] == 0xFFu8,
        r@[1] == 0xFEu8,
{
    let len = random_len(16, 256);
    let mut bytes = vec![0u8; len];
    fill_random(&mut bytes);
    mark_poison(bytes)
}

/// The JSON text of schema-breaking message number `variant` (0 to 2; any
/// larger number selects the last one).
pub open spec fn schema_breaking_text(variant: usize) -> Seq<char> {
    if variant == 0 {
        "{\"__corrupted\":true,\"value\":null,\"ts\":-1}"@
    } else if variant == 1 {
        "{\"key\":12345,\"payload\":[\"not\",\"a\",\"valid\",\"schema\"]}"@
    } else if variant == 2 {
        "{\"error\":\"chaos\",\"nested\":{\"broken\":true,\"data\":\"0xDEADBEEF\"}}"@
    } else {
        "{\"type\":\"INVALID\",\"version\":-999,\"fields\":{}}"@
    }
}

/// The UTF-8 bytes of schema-breaking message number `variant`.
pub fn schema_breaking_payload(variant: usize) -> (r: Vec<u8>)
    ensures
        r@ == vstd::utf8::encode_utf8(schema_breaking_text(variant)),
{
    let json: &str = if variant == 0 {
        "{\"__corrupted\":true,\"value\":null,\"ts\":-1}"
    } else if variant == 1 {
        "{\"key\":12345,\"payload\":[\"not\",\"a\",\"valid\",\"schema\"]}"
    } else if variant == 2 {
        "{\"error\":\"chaos\",\"nested\":{\"broken\":true,\"data\":\"0xDEADBEEF\"}}"
    } else {
        "{\"type\":\"INVALID\",\"version\":-999,\"fields\":{}}"
    };
    vstd::slice::slice_to_vec(json.as_bytes())
}

/// A JSON message that breaks the topic's schema, one of four chosen at
/// random.
pub fn schema_breaking_json() -> (r: Vec<u8>)
    ensures
        exists|variant: usize| variant < 4 && r@ == vstd::utf8::encode_utf8(schema_breaking_text(variant)),
{
    let variant = random_len(0, 4);
    schema_breaking_payload(variant)
}

/// Flipping the cleanup policy toggles compaction: a topic configured as
/// `config` is compacted after its flip configuration is merged in exactly
/// when it was not compacted before.
pub proof fn law_flip_toggles_compaction(config: Map<Seq<char>, Seq<char>>)
    ensures
        compacted(config.union_prefer_right(flip_view(config))) == !compacted(config),
        config.union_prefer_right(flip_view(config))[cleanup_policy_key()] == flipped_policy(config),
{
    lemma_policy_words();
    let after = config.union_prefer_right(flip_view(config));
    assert(after.contains_key(cleanup_policy_key()));
    assert(after[cleanup_policy_key()] == flipped_policy(config));
}

/// `compact` occurs in `compact`; it occurs in no word shorter than itself,
/// such as `delete`.
pub proof fn lemma_policy_words()
    ensures
        contains_seq("compact"@, "compact"@),
        !contains_seq("delete"@, "compact"@),
{
    reveal_strlit("compact");
    reveal_strlit("delete");
    assert("compact"@.subrange(0, 7) =~= "compact"@);
    assert(occurs_at("compact"@, "compact"@, 0));
    assert forall|i: int| !#[trigger] occurs_at("delete"@, "compact"@, i) by {}
}

/// The same law seen on a stored topic: merging the flip configuration of
/// a topic into it (what the flip does to the in-memory backend) toggles
/// whether the topic is compacted and changes no other setting.
pub proof fn law_flip_on_topic(d: TopicDetailView)
    ensures
        compacted(with_merged_config(d, flip_view(d.config)).config) == !compacted(d.config),
        forall|k: Seq<char>|
            k != cleanup_policy_key() ==> #[trigger] with_merged_config(d, flip_view(d.config)).config.contains_key(k)
                == d.config.contains_key(k) && (d.config.contains_key(k) ==> with_merged_config(
                d,
                flip_view(d.config),
            ).config[k] == d.config[k]),
{
    law_flip_toggles_compaction(d.config);
}

/// Lowering retention sets `retention.ms` and `segment.ms` to `1` and
/// leaves every other setting as it was.
pub proof fn law_low_retention(config: Map<Seq<char>, Seq<char>>)
    ensures
        config.union_prefer_right(low_retention_view())["retention.ms"@] == "1"@,
        config.union_prefer_right(low_retention_view())["segment.ms"@] == "1"@,
        forall|k: Seq<char>|
            k != "retention.ms"@ && k != "segment.ms"@ ==> #[trigger] config.union_prefer_right(
                low_retention_view(),
            ).contains_key(k) == config.contains_key(k) && (config.contains_key(k)
                ==> config.union_prefer_right(low_retention_view())[k] == config[k]),
{
    reveal_strlit("retention.ms");
    reveal_strlit("segment.ms");
    assert("retention.ms"@ != "segment.ms"@) by {
        assert("retention.ms"@[0] != "segment.ms"@[0]);
    }
}

} // verus!

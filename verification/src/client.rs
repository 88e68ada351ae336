//! Addresses used by the HTTP client of the API, and the requests the
//! console's chaos actions send.
use vstd::prelude::*;

use crate::actions::ChaosAction;
use crate::routes::{route_table, Endpoint, HttpMethod};
use crate::text::{append_str, trim_end_char, trim_end_matches_char};

verus! {

/// A client of the API at a base URL.
#[derive(Debug, Clone)]
pub struct SiegeClient {
    base_url: String,
}

impl SiegeClient {
    /// The base URL, without trailing slashes.
    pub closed spec fn base(&self) -> Seq<char> {
        self.base_url@
    }

    /// A client of the API at `base_url`; trailing slashes are dropped.
    pub fn new(base_url: &str) -> (r: SiegeClient)
        ensures
            r.base() == trim_end_char(base_url@, '/'),
    {
        SiegeClient { base_url: trim_end_matches_char(base_url, '/') }
    }

    /// The base URL, without trailing slashes.
    pub fn base_url(&self) -> (r: &str)
        ensures
            r@ == self.base(),
    {
        self.base_url.as_str()
    }

    /// `{base}{path}`.
    fn at(&self, path: &str) -> (r: String)
        ensures
            r@ == self.base() + path@,
    {
        let mut s = self.base_url.clone();
        append_str(&mut s, path);
        s
    }

    /// `{base}/api/topics`.
    pub fn topics_url(&self) -> (r: String)
        ensures
            r@ == self.base() + "/api/topics"@,
    {
        self.at("/api/topics")
    }

    /// `{base}/api/topics/{name}`.
    pub fn topic_url(&self, name: &str) -> (r: String)
        ensures
            r@ == self.base() + "/api/topics/"@ + name@,
    {
        let mut s = self.at("/api/topics/");
        append_str(&mut s, name);
        s
    }

    /// `{base}/api/topics/{name}/config`.
    pub fn topic_config_url(&self, name: &str) -> (r: String)
        ensures
            r@ == self.base() + "/api/topics/"@ + name@ + "/config"@,
    {
        let mut s = self.topic_url(name);
        append_str(&mut s, "/config");
        s
    }

    /// `{base}/api/chaos/{action}`.
    pub fn chaos_url(&self, action: &str) -> (r: String)
        ensures
            r@ == self.base() + "/api/chaos/"@ + action@,
    {
        let mut s = self.at("/api/chaos/");
        append_str(&mut s, action);
        s
    }
}

/// A request the client sends for a chaos action on a topic.
#[derive(Debug, Clone, Copy, PartialEq, Eq, Structural)]
pub enum ChaosCall {
    /// `DELETE {base}/api/topics/{name}`.
    DeleteTopic,
    /// `POST {base}/api/chaos/zero-retention` with `{"topic": name}`.
    LowRetention,
    /// `POST {base}/api/chaos/flip-cleanup-policy` with `{"topic": name}`.
    FlipCleanupPolicy,
    /// `POST {base}/api/chaos/increase-partitions` with
    /// `{"topic": name, "partitions": partitions}`.
    IncreasePartitions { partitions: i32 },
    /// `POST {base}/api/chaos/poison-pills` with `{"topic": name, "count": count}`.
    PoisonPills { count: u32 },
    /// `POST {base}/api/chaos/schema-break` with `{"topic": name, "count": count}`.
    SchemaBreak { count: u32 },
}

/// The path segment after `/api/chaos/` of a chaos request; `None` for
/// the plain delete.
pub open spec fn call_path(c: ChaosCall) -> Option<Seq<char>> {
    match c {
        ChaosCall::DeleteTopic => None,
        ChaosCall::LowRetention => Some("zero-retention"@),
        ChaosCall::FlipCleanupPolicy => Some("flip-cleanup-policy"@),
        ChaosCall::IncreasePartitions { .. } => Some("increase-partitions"@),
        ChaosCall::PoisonPills { .. } => Some("poison-pills"@),
        ChaosCall::SchemaBreak { .. } => Some("schema-break"@),
    }
}

/// The route, under `/api`, that a call is sent to: method, path and the
/// handler that serves it.
pub open spec fn call_route(c: ChaosCall) -> (HttpMethod, Seq<char>, Endpoint) {
    match c {
        ChaosCall::DeleteTopic => (HttpMethod::Delete, "/topics/{name}"@, Endpoint::DeleteTopic),
        ChaosCall::LowRetention => (HttpMethod::Post, "/chaos/"@ + "zero-retention"@, Endpoint::ChaosLowRetention),
        ChaosCall::FlipCleanupPolicy => (
            HttpMethod::Post,
            "/chaos/"@ + "flip-cleanup-policy"@,
            Endpoint::ChaosFlipCleanupPolicy,
        ),
        ChaosCall::IncreasePartitions { .. } => (
            HttpMethod::Post,
            "/chaos/"@ + "increase-partitions"@,
            Endpoint::ChaosIncreasePartitions,
        ),
        ChaosCall::PoisonPills { .. } => (HttpMethod::Post, "/chaos/"@ + "poison-pills"@, Endpoint::ChaosPoisonPills),
        ChaosCall::SchemaBreak { .. } => (HttpMethod::Post, "/chaos/"@ + "schema-break"@, Endpoint::ChaosSchemaBreak),
    }
}

/// Every request the client sends is served: its chaos path, put under
/// `/chaos/` (or the topic path for a delete), is a route of the API
/// with the matching method and handler.
pub proof fn law_client_calls_are_served(c: ChaosCall)
    ensures
        route_table().contains(call_route(c)),
        c != ChaosCall::DeleteTopic ==> call_route(c).1 == "/chaos/"@ + call_path(c)->0,
{
    reveal_strlit("/chaos/");
    reveal_strlit("zero-retention");
    reveal_strlit("/chaos/zero-retention");
    reveal_strlit("flip-cleanup-policy");
    reveal_strlit("/chaos/flip-cleanup-policy");
    reveal_strlit("increase-partitions");
    reveal_strlit("/chaos/increase-partitions");
    reveal_strlit("poison-pills");
    reveal_strlit("/chaos/poison-pills");
    reveal_strlit("schema-break");
    reveal_strlit("/chaos/schema-break");
    let t = route_table();
    match c {
        ChaosCall::DeleteTopic => {
            assert(t[3] == call_route(c));
        },
        ChaosCall::LowRetention => {
            assert("/chaos/"@ + "zero-retention"@ =~= "/chaos/zero-retention"@);
            assert(t[7] == call_route(c));
        },
        ChaosCall::FlipCleanupPolicy => {
            assert("/chaos/"@ + "flip-cleanup-policy"@ =~= "/chaos/flip-cleanup-policy"@);
            assert(t[8] == call_route(c));
        },
        ChaosCall::IncreasePartitions { .. } => {
            assert("/chaos/"@ + "increase-partitions"@ =~= "/chaos/increase-partitions"@);
            assert(t[9] == call_route(c));
        },
        ChaosCall::PoisonPills { .. } => {
            assert("/chaos/"@ + "poison-pills"@ =~= "/chaos/poison-pills"@);
            assert(t[10] == call_route(c));
        },
        ChaosCall::SchemaBreak { .. } => {
            assert("/chaos/"@ + "schema-break"@ =~= "/chaos/schema-break"@);
            assert(t[11] == call_route(c));
        },
    }
}

impl ChaosCall {
    /// The path segment after `/api/chaos/` of a chaos request, if the
    /// call is one.
    pub fn action_path(self) -> (r: Option<&'static str>)
        ensures
            (match r {
                Some(p) => Some(p@),
                None => None,
            }) == call_path(self),
    {
        match self {
            ChaosCall::DeleteTopic => None,
            ChaosCall::LowRetention => Some("zero-retention"),
            ChaosCall::FlipCleanupPolicy => Some("flip-cleanup-policy"),
            ChaosCall::IncreasePartitions { .. } => Some("increase-partitions"),
            ChaosCall::PoisonPills { .. } => Some("poison-pills"),
            ChaosCall::SchemaBreak { .. } => Some("schema-break"),
        }
    }
}

/// The request a console action sends: deleting is a plain delete, adding
/// partitions adds one, and the message-producing actions send ten
/// messages.
pub open spec fn call_of(a: ChaosAction) -> ChaosCall {
    match a {
        ChaosAction::Delete => ChaosCall::DeleteTopic,
        ChaosAction::LowRetention => ChaosCall::LowRetention,
        ChaosAction::FlipCleanupPolicy => ChaosCall::FlipCleanupPolicy,
        ChaosAction::IncreasePartitions => ChaosCall::IncreasePartitions { partitions: 1 },
        ChaosAction::PoisonPills => ChaosCall::PoisonPills { count: 10 },
        ChaosAction::SchemaBreak => ChaosCall::SchemaBreak { count: 10 },
    }
}

/// The request that running `action` on a topic sends.
pub fn chaos_call(action: ChaosAction) -> (r: ChaosCall)
    ensures
        r == call_of(action),
{
    match action {
        ChaosAction::Delete => ChaosCall::DeleteTopic,
        ChaosAction::LowRetention => ChaosCall::LowRetention,
        ChaosAction::FlipCleanupPolicy => ChaosCall::FlipCleanupPolicy,
        ChaosAction::IncreasePartitions => ChaosCall::IncreasePartitions { partitions: 1 },
        ChaosAction::PoisonPills => ChaosCall::PoisonPills { count: 10 },
        ChaosAction::SchemaBreak => ChaosCall::SchemaBreak { count: 10 },
    }
}

/// The base URL a client keeps never ends with a slash, and it is a
/// prefix of the URL it was given, the rest of which is all slashes.
pub proof fn law_base_has_no_trailing_slash(url: Seq<char>)
    ensures
        !(trim_end_char(url, '/').len() > 0 && trim_end_char(url, '/').last() == '/'),
        trim_end_char(url, '/').len() <= url.len(),
        trim_end_char(url, '/') == url.subrange(0, trim_end_char(url, '/').len() as int),
        forall|i: int|
            trim_end_char(url, '/').len() <= i < url.len() ==> #[trigger] url[i] == '/',
    decreases url.len(),
{
    if url.len() > 0 && url.last() == '/' {
        law_base_has_no_trailing_slash(url.drop_last());
        let t = trim_end_char(url, '/');
        assert(t == trim_end_char(url.drop_last(), '/'));
        assert(url.drop_last().subrange(0, t.len() as int) =~= url.subrange(0, t.len() as int));
        assert forall|i: int| t.len() <= i < url.len() implies #[trigger] url[i] == '/' by {
            if i < url.len() - 1 {
                assert(url.drop_last()[i] == url[i]);
            }
        }
    } else {
        assert(url.subrange(0, url.len() as int) =~= url);
    }
}

} // verus!

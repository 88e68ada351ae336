//! The routes of the HTTP API and the operations its documentation lists.
use vstd::prelude::*;

verus! {

/// An HTTP method the API answers.
#[derive(Debug, Clone, Copy, PartialEq, Eq, Structural)]
pub enum HttpMethod {
    Get,
    Post,
    Delete,
}

/// A handler of the API.
#[derive(Debug, Clone, Copy, PartialEq, Eq, Structural)]
pub enum Endpoint {
    ListTopics,
    CreateTopic,
    GetTopic,
    DeleteTopic,
    UpdateTopicConfig,
    Events,
    ChaosDeleteTopic,
    ChaosLowRetention,
    ChaosFlipCleanupPolicy,
    ChaosIncreasePartitions,
    ChaosPoisonPills,
    ChaosSchemaBreak,
    RunSeed,
}

/// The status of a successful answer of each handler.
pub open spec fn success_status_of(e: Endpoint) -> u16 {
    match e {
        Endpoint::CreateTopic => 201,
        Endpoint::DeleteTopic => 204,
        _ => 200,
    }
}

impl Endpoint {
    /// The status of a successful answer: `201 Created` for a new topic,
    /// `204 No Content` for a deleted one, `200 OK` otherwise.
    pub fn success_status(self) -> (r: u16)
        ensures
            r == success_status_of(self),
    {
        match self {
            Endpoint::CreateTopic => 201,
            Endpoint::DeleteTopic => 204,
            _ => 200,
        }
    }
}

/// A route: a method and a path under `/api`, answered by a handler.
#[derive(Debug, Clone, Copy)]
pub struct Route {
    pub method: HttpMethod,
    pub path: &'static str,
    pub endpoint: Endpoint,
}

/// The content of a route.
pub open spec fn route_view(r: Route) -> (HttpMethod, Seq<char>, Endpoint) {
    (r.method, r.path@, r.endpoint)
}

/// The routes of the API, under the scope `/api`.
pub open spec fn route_table() -> Seq<(HttpMethod, Seq<char>, Endpoint)> {
    seq![
        (HttpMethod::Get, "/topics"@, Endpoint::ListTopics),
        (HttpMethod::Post, "/topics"@, Endpoint::CreateTopic),
        (HttpMethod::Get, "/topics/{name}"@, Endpoint::GetTopic),
        (HttpMethod::Delete, "/topics/{name}"@, Endpoint::DeleteTopic),
        (HttpMethod::Post, "/topics/{name}/config"@, Endpoint::UpdateTopicConfig),
        (HttpMethod::Get, "/events"@, Endpoint::Events),
        (HttpMethod::Post, "/chaos/delete-topic"@, Endpoint::ChaosDeleteTopic),
        (HttpMethod::Post, "/chaos/zero-retention"@, Endpoint::ChaosLowRetention),
        (HttpMethod::Post, "/chaos/flip-cleanup-policy"@, Endpoint::ChaosFlipCleanupPolicy),
        (HttpMethod::Post, "/chaos/increase-partitions"@, Endpoint::ChaosIncreasePartitions),
        (HttpMethod::Post, "/chaos/poison-pills"@, Endpoint::ChaosPoisonPills),
        (HttpMethod::Post, "/chaos/schema-break"@, Endpoint::ChaosSchemaBreak),
        (HttpMethod::Post, "/seed"@, Endpoint::RunSeed),
    ]
}

/// The scope under which every route is served.
pub fn api_scope() -> (r: &'static str)
    ensures
        r@ == "/api"@,
{
    "/api"
}

fn route(method: HttpMethod, path: &'static str, endpoint: Endpoint) -> (r: Route)
    ensures
        route_view(r) == (method, path@, endpoint),
{
    Route { method, path, endpoint }
}

/// The routes of the API, in the order they are registered.
pub fn api_routes() -> (r: Vec<Route>)
    ensures
        r@.map_values(|x: Route| route_view(x)) == route_table(),
{
    let r = vec![
        route(HttpMethod::Get, "/topics", Endpoint::ListTopics),
        route(HttpMethod::Post, "/topics", Endpoint::CreateTopic),
        route(HttpMethod::Get, "/topics/{name}", Endpoint::GetTopic),
        route(HttpMethod::Delete, "/topics/{name}", Endpoint::DeleteTopic),
        route(HttpMethod::Post, "/topics/{name}/config", Endpoint::UpdateTopicConfig),
        route(HttpMethod::Get, "/events", Endpoint::Events),
        route(HttpMethod::Post, "/chaos/delete-topic", Endpoint::ChaosDeleteTopic),
        route(HttpMethod::Post, "/chaos/zero-retention", Endpoint::ChaosLowRetention),
        route(HttpMethod::Post, "/chaos/flip-cleanup-policy", Endpoint::ChaosFlipCleanupPolicy),
        route(HttpMethod::Post, "/chaos/increase-partitions", Endpoint::ChaosIncreasePartitions),
        route(HttpMethod::Post, "/chaos/poison-pills", Endpoint::ChaosPoisonPills),
        route(HttpMethod::Post, "/chaos/schema-break", Endpoint::ChaosSchemaBreak),
        route(HttpMethod::Post, "/seed", Endpoint::RunSeed),
    ];
    assert(r@.map_values(|x: Route| route_view(x)) =~= route_table());
    r
}

/// An operation listed in the API documentation: method, full path and
/// summary.
#[derive(Debug, Clone, Copy)]
pub struct DocumentedOperation {
    pub method: HttpMethod,
    pub path: &'static str,
    pub summary: &'static str,
}

/// The content of a documented operation.
pub open spec fn operation_view(o: DocumentedOperation) -> (HttpMethod, Seq<char>, Seq<char>) {
    (o.method, o.path@, o.summary@)
}

/// The operations that the API documentation lists.
pub open spec fn documented_operations() -> Seq<(HttpMethod, Seq<char>, Seq<char>)> {
    seq![
        (HttpMethod::Get, "/api/topics"@, "List all topics on the cluster"@),
        (HttpMethod::Get, "/api/topics/{name}"@, "Get topic detail"@),
        (HttpMethod::Post, "/api/topics"@, "Create a topic"@),
        (HttpMethod::Delete, "/api/topics/{name}"@, "Delete a topic"@),
        (HttpMethod::Post, "/api/topics/{name}/config"@, "Update topic configuration"@),
        (HttpMethod::Post, "/api/chaos/delete-topic"@, "Delete a topic (chaos)"@),
        (HttpMethod::Post, "/api/chaos/zero-retention"@, "Set retention to zero (chaos)"@),
        (HttpMethod::Post, "/api/chaos/flip-cleanup-policy"@, "Flip cleanup policy (chaos)"@),
        (HttpMethod::Post, "/api/chaos/increase-partitions"@, "Increase partition count (chaos)"@),
        (HttpMethod::Post, "/api/chaos/poison-pills"@, "Produce poison pill messages (chaos)"@),
        (HttpMethod::Post, "/api/chaos/schema-break"@, "Produce schema-breaking messages (chaos)"@),
    ]
}

/// The OpenAPI document of the API.
pub struct ApiDoc;

impl ApiDoc {
    /// The document's title.
    pub fn title() -> (r: &'static str)
        ensures
            r@ == "Siege API"@,
    {
        "Siege API"
    }

    /// The documented API version.
    pub fn version() -> (r: &'static str)
        ensures
            r@ == "0.1.0"@,
    {
        "0.1.0"
    }

    /// The document's description.
    pub fn description() -> (r: &'static str)
        ensures
            r@ == "Kafka topic management API"@,
    {
        "Kafka topic management API"
    }

    /// The documented operations, in the order the document lists them.
    pub fn operations() -> (r: Vec<DocumentedOperation>)
        ensures
            r@.map_values(|o: DocumentedOperation| operation_view(o)) == documented_operations(),
    {
        let r = vec![
            DocumentedOperation { method: HttpMethod::Get, path: "/api/topics", summary: "List all topics on the cluster" },
            DocumentedOperation { method: HttpMethod::Get, path: "/api/topics/{name}", summary: "Get topic detail" },
            DocumentedOperation { method: HttpMethod::Post, path: "/api/topics", summary: "Create a topic" },
            DocumentedOperation { method: HttpMethod::Delete, path: "/api/topics/{name}", summary: "Delete a topic" },
            DocumentedOperation { method: HttpMethod::Post, path: "/api/topics/{name}/config", summary: "Update topic configuration" },
            DocumentedOperation { method: HttpMethod::Post, path: "/api/chaos/delete-topic", summary: "Delete a topic (chaos)" },
            DocumentedOperation { method: HttpMethod::Post, path: "/api/chaos/zero-retention", summary: "Set retention to zero (chaos)" },
            DocumentedOperation { method: HttpMethod::Post, path: "/api/chaos/flip-cleanup-policy", summary: "Flip cleanup policy (chaos)" },
            DocumentedOperation { method: HttpMethod::Post, path: "/api/chaos/increase-partitions", summary: "Increase partition count (chaos)" },
            DocumentedOperation { method: HttpMethod::Post, path: "/api/chaos/poison-pills", summary: "Produce poison pill messages (chaos)" },
            DocumentedOperation { method: HttpMethod::Post, path: "/api/chaos/schema-break", summary: "Produce schema-breaking messages (chaos)" },
        ];
        assert(r@.map_values(|o: DocumentedOperation| operation_view(o)) =~= documented_operations());
        r
    }
}

/// The operation `op` is answered by the route `r`: same method, and the
/// route's path under `/api` is the operation's path.
pub open spec fn served_as(op: (HttpMethod, Seq<char>, Seq<char>), r: (HttpMethod, Seq<char>, Endpoint)) -> bool {
    r.0 == op.0 && api_path() + r.1 == op.1
}

/// The scope of every route.
pub open spec fn api_path() -> Seq<char> {
    "/api"@
}

/// Every documented operation is served: some registered route has its
/// method and, under `/api`, its path.  (So, for one, the configuration
/// update documented as `POST /api/topics/{name}/config` is registered as
/// a `POST`.)
pub proof fn law_documented_operations_are_served()
    ensures
        forall|i: int|
            0 <= i < documented_operations().len() ==> exists|j: int|
                0 <= j < route_table().len() && served_as(
                    #[trigger] documented_operations()[i],
                    route_table()[j],
                ),
{
    reveal_strlit("/api");
    reveal_strlit("/chaos/delete-topic");
    reveal_strlit("/api/chaos/delete-topic");
    reveal_strlit("/chaos/flip-cleanup-policy");
    reveal_strlit("/api/chaos/flip-cleanup-policy");
    reveal_strlit("/chaos/increase-partitions");
    reveal_strlit("/api/chaos/increase-partitions");
    reveal_strlit("/chaos/poison-pills");
    reveal_strlit("/api/chaos/poison-pills");
    reveal_strlit("/chaos/schema-break");
    reveal_strlit("/api/chaos/schema-break");
    reveal_strlit("/chaos/zero-retention");
    reveal_strlit("/api/chaos/zero-retention");
    reveal_strlit("/topics");
    reveal_strlit("/api/topics");
    reveal_strlit("/topics/{name}");
    reveal_strlit("/api/topics/{name}");
    reveal_strlit("/topics/{name}/config");
    reveal_strlit("/api/topics/{name}/config");
    let ops = documented_operations();
    let t = route_table();
    assert forall|i: int| 0 <= i < ops.len() implies exists|j: int|
        0 <= j < t.len() && served_as(#[trigger] ops[i], t[j]) by {
        if i == 0 {
            assert("/api"@ + "/topics"@ =~= "/api/topics"@);
            assert(served_as(ops[i], t[0]));
        } else if i == 1 {
            assert("/api"@ + "/topics/{name}"@ =~= "/api/topics/{name}"@);
            assert(served_as(ops[i], t[2]));
        } else if i == 2 {
            assert("/api"@ + "/topics"@ =~= "/api/topics"@);
            assert(served_as(ops[i], t[1]));
        } else if i == 3 {
            assert("/api"@ + "/topics/{name}"@ =~= "/api/topics/{name}"@);
            assert(served_as(ops[i], t[3]));
        } else if i == 4 {
            assert("/api"@ + "/topics/{name}/config"@ =~= "/api/topics/{name}/config"@);
            assert(served_as(ops[i], t[4]));
        } else if i == 5 {
            assert("/api"@ + "/chaos/delete-topic"@ =~= "/api/chaos/delete-topic"@);
            assert(served_as(ops[i], t[6]));
        } else if i == 6 {
            assert("/api"@ + "/chaos/zero-retention"@ =~= "/api/chaos/zero-retention"@);
            assert(served_as(ops[i], t[7]));
        } else if i == 7 {
            assert("/api"@ + "/chaos/flip-cleanup-policy"@ =~= "/api/chaos/flip-cleanup-policy"@);
            assert(served_as(ops[i], t[8]));
        } else if i == 8 {
            assert("/api"@ + "/chaos/increase-partitions"@ =~= "/api/chaos/increase-partitions"@);
            assert(served_as(ops[i], t[9]));
        } else if i == 9 {
            assert("/api"@ + "/chaos/poison-pills"@ =~= "/api/chaos/poison-pills"@);
            assert(served_as(ops[i], t[10]));
        } else if i == 10 {
            assert("/api"@ + "/chaos/schema-break"@ =~= "/api/chaos/schema-break"@);
            assert(served_as(ops[i], t[11]));
        }
    }
}

} // verus!

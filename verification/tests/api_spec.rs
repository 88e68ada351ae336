use siege::routes::{api_routes, api_scope, ApiDoc, Endpoint, HttpMethod};

#[test]
fn spec_generates_valid_json() {
    assert_eq!(ApiDoc::title(), "Siege API");
    let ops = ApiDoc::operations();
    let paths: Vec<&str> = ops.iter().map(|o| o.path).collect();
    assert!(paths.contains(&"/api/topics"));
    assert!(paths.contains(&"/api/topics/{name}"));
    assert!(paths.contains(&"/api/topics/{name}/config"));
    assert!(paths.contains(&"/api/chaos/delete-topic"));
    assert!(paths.contains(&"/api/chaos/zero-retention"));
}

#[test]
fn documented_operations_in_order() {
    let ops = ApiDoc::operations();
    assert_eq!(ops.len(), 11);
    assert_eq!(ops[0].method, HttpMethod::Get);
    assert_eq!(ops[0].path, "/api/topics");
    assert_eq!(ops[0].summary, "List all topics on the cluster");
    assert_eq!(ops[10].path, "/api/chaos/schema-break");
}

#[test]
fn routes_are_registered_under_api() {
    assert_eq!(api_scope(), "/api");
    let routes = api_routes();
    assert_eq!(routes.len(), 13);
    assert_eq!(routes[0].method, HttpMethod::Get);
    assert_eq!(routes[0].path, "/topics");
    assert_eq!(routes[0].endpoint, Endpoint::ListTopics);
    let low = routes.iter().find(|r| r.endpoint == Endpoint::ChaosLowRetention).unwrap();
    assert_eq!(low.path, "/chaos/zero-retention");
    assert_eq!(low.method, HttpMethod::Post);
}

#[test]
fn success_statuses() {
    assert_eq!(Endpoint::CreateTopic.success_status(), 201);
    assert_eq!(Endpoint::DeleteTopic.success_status(), 204);
    assert_eq!(Endpoint::ListTopics.success_status(), 200);
    assert_eq!(Endpoint::ChaosPoisonPills.success_status(), 200);
}

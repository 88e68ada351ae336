use siege::routes::{api_routes, HttpMethod};
use siege::actions::ChaosAction;
use siege::client::{chaos_call, ChaosCall, SiegeClient};

#[test]
fn client_constructs() {
    let client = SiegeClient::new("http://localhost:8080");
    assert_eq!(client.base_url(), "http://localhost:8080");
}

#[test]
fn client_strips_trailing_slash() {
    let client = SiegeClient::new("http://localhost:8080/");
    assert_eq!(client.base_url(), "http://localhost:8080");
}

#[test]
fn client_strips_every_trailing_slash() {
    let client = SiegeClient::new("http://host///");
    assert_eq!(client.base_url(), "http://host");
    let empty = SiegeClient::new("///");
    assert_eq!(empty.base_url(), "");
}

#[test]
fn client_builds_urls() {
    let client = SiegeClient::new("http://localhost:8080/");
    assert_eq!(client.topics_url(), "http://localhost:8080/api/topics");
    assert_eq!(client.topic_url("orders"), "http://localhost:8080/api/topics/orders");
    assert_eq!(
        client.topic_config_url("orders"),
        "http://localhost:8080/api/topics/orders/config"
    );
    assert_eq!(
        client.chaos_url("zero-retention"),
        "http://localhost:8080/api/chaos/zero-retention"
    );
}

#[test]
fn console_actions_send_their_requests() {
    assert_eq!(chaos_call(ChaosAction::Delete), ChaosCall::DeleteTopic);
    assert_eq!(chaos_call(ChaosAction::LowRetention), ChaosCall::LowRetention);
    assert_eq!(chaos_call(ChaosAction::FlipCleanupPolicy), ChaosCall::FlipCleanupPolicy);
    assert_eq!(
        chaos_call(ChaosAction::IncreasePartitions),
        ChaosCall::IncreasePartitions { partitions: 1 }
    );
    assert_eq!(chaos_call(ChaosAction::PoisonPills), ChaosCall::PoisonPills { count: 10 });
    assert_eq!(chaos_call(ChaosAction::SchemaBreak), ChaosCall::SchemaBreak { count: 10 });
}

#[test]
fn chaos_calls_use_their_paths() {
    assert_eq!(ChaosCall::DeleteTopic.action_path(), None);
    assert_eq!(ChaosCall::LowRetention.action_path(), Some("zero-retention"));
    assert_eq!(ChaosCall::FlipCleanupPolicy.action_path(), Some("flip-cleanup-policy"));
    assert_eq!(
        ChaosCall::IncreasePartitions { partitions: 2 }.action_path(),
        Some("increase-partitions")
    );
    assert_eq!(ChaosCall::PoisonPills { count: 1 }.action_path(), Some("poison-pills"));
    assert_eq!(ChaosCall::SchemaBreak { count: 1 }.action_path(), Some("schema-break"));
}

#[test]
fn chaos_paths_are_served_routes() {
    let routes = api_routes();
    for call in [
        ChaosCall::LowRetention,
        ChaosCall::FlipCleanupPolicy,
        ChaosCall::IncreasePartitions { partitions: 1 },
        ChaosCall::PoisonPills { count: 1 },
        ChaosCall::SchemaBreak { count: 1 },
    ] {
        let path = format!("/chaos/{}", call.action_path().unwrap());
        assert!(routes.iter().any(|r| r.path == path && r.method == HttpMethod::Post), "{path}");
    }
}

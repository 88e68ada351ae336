use siege::actions::ChaosAction;
use siege::console::after_chaos;
use siege::toast::{ToastKind, Toaster};
use siege::api::{SseEvent, TopicDetailResource, TopicResource};
use siege::console::{SeedProgress, SeedProgressTable, Theme, TopicsState};
use siege::properties::KafkaProperties;

fn res(name: &str, partitions: i32) -> TopicResource {
    TopicResource { name: name.into(), partitions, replication_factor: 1, config: KafkaProperties::new() }
}

fn names(s: &TopicsState) -> Vec<String> {
    s.list.iter().map(|t| t.name.clone()).collect()
}

#[test]
fn theme_cycles_through_three() {
    assert_eq!(Theme::Light.next(), Theme::Dark);
    assert_eq!(Theme::Dark.next(), Theme::System);
    assert_eq!(Theme::System.next(), Theme::Light);
    for t in [Theme::Light, Theme::Dark, Theme::System] {
        assert_eq!(t.next().next().next(), t);
    }
}

#[test]
fn theme_storage_round_trip() {
    for t in [Theme::Light, Theme::Dark, Theme::System] {
        assert_eq!(Theme::from_stored(Some(t.storage_value())), t);
    }
    assert_eq!(Theme::from_stored(None), Theme::Dark);
    assert_eq!(Theme::from_stored(Some("purple")), Theme::System);
    assert_eq!(Theme::Dark.css_class(), "dark");
    assert_eq!(Theme::Light.css_class(), "");
    assert_eq!(Theme::System.label(), "System");
}

#[test]
fn upsert_replaces_or_appends() {
    let mut s = TopicsState::new();
    s.upsert_topic(res("a", 1));
    s.upsert_topic(res("b", 1));
    s.upsert_topic(res("a", 7));
    assert_eq!(names(&s), vec!["a", "b"]);
    assert_eq!(s.list[0].partitions, 7);
}

#[test]
fn remove_undoes_upsert_of_a_new_topic() {
    let mut s = TopicsState::new();
    s.set_topics(vec![res("a", 1), res("b", 2)]);
    s.upsert_topic(res("c", 3));
    s.remove_topic("c");
    assert_eq!(names(&s), vec!["a", "b"]);
}

#[test]
fn removing_the_selected_topic_clears_the_selection() {
    let mut s = TopicsState::new();
    s.set_topics(vec![res("a", 1)]);
    s.selected = Some(TopicDetailResource {
        name: "a".into(),
        partitions: 1,
        replication_factor: 1,
        config: KafkaProperties::new(),
    });
    s.upsert_topic(res("a", 4));
    assert_eq!(s.selected.as_ref().unwrap().partitions, 4);
    s.apply_event(SseEvent::TopicDeleted { name: "a".into() });
    assert!(s.list.is_empty());
    assert!(s.selected.is_none());
}

#[test]
fn events_drive_the_topic_list() {
    let mut s = TopicsState::new();
    s.apply_event(SseEvent::TopicsSnapshot { topics: vec![res("x", 1), res("y", 1)] });
    assert_eq!(names(&s), vec!["x", "y"]);
    s.apply_event(SseEvent::TopicCreated { topic: res("z", 2) });
    assert_eq!(names(&s), vec!["x", "y", "z"]);
    s.apply_event(SseEvent::ChaosPartitionsIncreased { topic: res("y", 5) });
    assert_eq!(s.list[1].partitions, 5);
    s.apply_event(SseEvent::ChaosTopicDeleted { topic: "x".into() });
    assert_eq!(names(&s), vec!["y", "z"]);
    s.apply_event(SseEvent::TopicsSeeded { topics: vec![res("z", 9), res("w", 1)] });
    assert_eq!(names(&s), vec!["y", "z", "w"]);
    assert_eq!(s.list[1].partitions, 9);
    s.apply_event(SseEvent::ChaosPoisonPillsSent { topic: "y".into(), count: 10 });
    assert_eq!(names(&s), vec!["y", "z", "w"]);
}

#[test]
fn seed_progress_is_tracked_per_topic() {
    let mut s = TopicsState::new();
    s.set_seed_progress("a".into(), 10, 100);
    s.set_seed_progress("b".into(), 1, 2);
    s.set_seed_progress("a".into(), 50, 100);
    assert_eq!(
        s.seed_progress.get("a"),
        Some(SeedProgress { records_generated: 50, total_records: 100 })
    );
    s.remove_seed_progress("a");
    assert_eq!(s.seed_progress.get("a"), None);
    assert!(s.seed_progress.get("b").is_some());
    s.clear_seed_progress();
    assert_eq!(s.seed_progress.get("b"), None);
}

#[test]
fn seed_progress_table_basics() {
    let mut t = SeedProgressTable::new();
    assert_eq!(t.get("x"), None);
    t.insert("x".into(), SeedProgress { records_generated: 1, total_records: 3 });
    assert_eq!(t.get("x").unwrap().records_generated, 1);
    t.remove("x");
    assert_eq!(t.get("x"), None);
}

#[test]
fn chaos_results_in_the_topic_panel() {
    let selected = || {
        Some(TopicDetailResource {
            name: "a".into(),
            partitions: 1,
            replication_factor: 1,
            config: KafkaProperties::new(),
        })
    };
    let mut s = TopicsState::new();
    s.set_topics(vec![res("a", 1)]);
    s.selected = selected();
    let mut toaster = Toaster::new();
    after_chaos(&mut s, &mut toaster, ChaosAction::LowRetention, "a", Ok(()));
    assert!(s.selected.is_some());
    assert_eq!(toaster.toasts()[0].message, "Set retention to 1ms for 'a'");
    assert_eq!(toaster.toasts()[0].kind, ToastKind::Success);
    after_chaos(&mut s, &mut toaster, ChaosAction::Delete, "a", Err("gone".into()));
    assert!(s.selected.is_some());
    assert_eq!(toaster.toasts()[1].message, "gone");
    assert_eq!(toaster.toasts()[1].kind, ToastKind::Error);
    after_chaos(&mut s, &mut toaster, ChaosAction::Delete, "a", Ok(()));
    assert!(s.selected.is_none());
    assert_eq!(toaster.toasts()[2].message, "Deleted topic 'a'");
    assert_eq!(names(&s), vec!["a"]);
}

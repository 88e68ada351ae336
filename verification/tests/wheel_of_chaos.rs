use siege::wheel::{finish_single, finish_sweep, plan_spin, SpinPlan};
use siege::actions::ChaosAction;
use siege::wheel::{replace_str, story_parts, sweep_affected, sweep_report, wheel_slices};

#[test]
fn the_wheel_has_seven_slices() {
    let slices = wheel_slices();
    assert_eq!(slices.len(), 7);
    assert_eq!(slices[0].label, "Angry coworker");
    assert_eq!(slices[0].color, "#e11d48");
    assert_eq!(slices[0].payload.action, ChaosAction::Delete);
    assert!(!slices[0].payload.all_topics);
    assert_eq!(slices[6].label, "Nuke from orbit");
    assert!(slices[6].payload.all_topics);
    for s in &slices {
        assert_eq!(s.label, s.payload.label);
    }
    let only_sweep: Vec<bool> = slices.iter().map(|s| s.payload.all_topics).collect();
    assert_eq!(only_sweep, vec![false, false, false, false, false, false, true]);
}

#[test]
fn story_names_the_topic() {
    let slices = wheel_slices();
    let story = slices[0].payload.story("orders");
    assert!(story.contains("rage-deleted orders and walked"));
    assert!(!story.contains("{topic}"));
    let sweep = slices[6].payload.story("5 topics");
    assert_eq!(sweep, slices[6].payload.description);
}

#[test]
fn replace_matches_str_replace() {
    for (s, p, w) in [
        ("a{topic}b{topic}", "{topic}", "X"),
        ("aaaa", "aa", "b"),
        ("none here", "{topic}", "X"),
        ("", "x", "y"),
        ("xyx", "x", ""),
    ] {
        assert_eq!(replace_str(s, p, w), s.replace(p, w));
    }
}

#[test]
fn sweep_reports() {
    assert_eq!(sweep_affected(5), "5 topics");
    let (ok, msg) = sweep_report(ChaosAction::Delete, 0, 5);
    assert!(ok);
    assert_eq!(msg, "Delete \u{2192} 5 topics");
    let (ok, msg) = sweep_report(ChaosAction::LowRetention, 2, 12);
    assert!(!ok);
    assert_eq!(msg, "Low retention \u{2192} 2/12 failed");
}

#[test]
fn story_parts_split_at_the_first_occurrence() {
    let (a, b) = story_parts("hit orders, then orders again", "orders").unwrap();
    assert_eq!(a, "hit ");
    assert_eq!(b, ", then orders again");
    assert!(story_parts("nothing", "orders").is_none());
    assert!(story_parts("anything", "").is_none());
}

#[test]
fn action_messages() {
    assert_eq!(ChaosAction::Delete.success_message("t"), "Deleted topic 't'");
    assert_eq!(ChaosAction::PoisonPills.success_message("t"), "Sent 10 poison pills to 't'");
    assert_eq!(ChaosAction::all().len(), 6);
    assert!(ChaosAction::Delete.is_destructive());
    assert!(!ChaosAction::SchemaBreak.is_destructive());
    assert_eq!(ChaosAction::IncreasePartitions.label(), "Add partition");
}

#[test]
fn plan_spin_decisions() {
    let slices = wheel_slices();
    let single = &slices[0].payload;
    let sweep = &slices[6].payload;
    match plan_spin(single, Err("timeout".to_string()), 0) {
        SpinPlan::Refuse { message } => assert_eq!(message, "Failed to fetch topics: timeout"),
        other => panic!("unexpected {other:?}"),
    }
    match plan_spin(single, Ok(vec![]), 3) {
        SpinPlan::Refuse { message } => assert_eq!(message, "No topics available"),
        other => panic!("unexpected {other:?}"),
    }
    let names = vec!["a".to_string(), "b".to_string(), "c".to_string()];
    match plan_spin(sweep, Ok(names.clone()), 1) {
        SpinPlan::Sweep { topics } => assert_eq!(topics, names),
        other => panic!("unexpected {other:?}"),
    }
    match plan_spin(single, Ok(names), 4) {
        SpinPlan::Single { topic } => assert_eq!(topic, "b"),
        other => panic!("unexpected {other:?}"),
    }
}

#[test]
fn finishing_a_single_spin() {
    let slices = wheel_slices();
    let outcome = &slices[0].payload;
    let (ok, msg, dialog) = finish_single(outcome, "orders", Ok(()));
    assert!(ok);
    assert_eq!(msg, "Deleted topic 'orders'");
    let (title, story, topic) = dialog.unwrap();
    assert_eq!(title, "Angry coworker");
    assert_eq!(story, outcome.description.replace("{topic}", "orders"));
    assert_eq!(topic, "orders");
    let (ok, msg, dialog) = finish_single(outcome, "orders", Err("boom".to_string()));
    assert!(!ok);
    assert_eq!(msg, "Failed: Delete - boom");
    assert!(dialog.is_none());
}

#[test]
fn finishing_a_sweep() {
    let slices = wheel_slices();
    let outcome = &slices[6].payload;
    let (ok, msg, dialog) = finish_sweep(outcome, 0, 4);
    assert!(ok);
    assert_eq!(msg, "Delete \u{2192} 4 topics");
    let (title, _story, affected) = dialog.unwrap();
    assert_eq!(title, "Nuke from orbit");
    assert_eq!(affected, "4 topics");
    let (ok, msg, dialog) = finish_sweep(outcome, 1, 4);
    assert!(!ok);
    assert_eq!(msg, "Delete \u{2192} 1/4 failed");
    assert!(dialog.is_none());
}

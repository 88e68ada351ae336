use siege::toast::{ToastKind, Toaster};

#[test]
fn toasts_get_increasing_ids() {
    let mut t = Toaster::new();
    let a = t.success("ok".into());
    let b = t.error("bad".into());
    assert_eq!(a, 0);
    assert_eq!(b, 1);
    assert_eq!(t.next_id(), 2);
    assert_eq!(t.toasts().len(), 2);
    assert_eq!(t.toasts()[1].kind, ToastKind::Error);
    assert_eq!(t.toasts()[1].message, "bad");
}

#[test]
fn expire_removes_only_that_toast() {
    let mut t = Toaster::new();
    let a = t.success("a".into());
    let b = t.success("b".into());
    let c = t.success("c".into());
    t.expire(b);
    let ids: Vec<u64> = t.toasts().iter().map(|x| x.id).collect();
    assert_eq!(ids, vec![a, c]);
    t.expire(99);
    assert_eq!(t.toasts().len(), 2);
    assert_eq!(t.next_id(), 3);
}

#[test]
fn upsert_rewrites_a_named_toast_in_place() {
    let mut t = Toaster::new();
    t.upsert("seed".into(), "starting".into(), ToastKind::Progress);
    t.success("other".into());
    t.upsert("seed".into(), "halfway".into(), ToastKind::Progress);
    assert_eq!(t.toasts().len(), 2);
    assert_eq!(t.toasts()[0].message, "halfway");
    assert_eq!(t.toasts()[0].name.as_deref(), Some("seed"));
    let id = t.resolve(&"seed".to_string(), "done".into(), ToastKind::Success);
    assert_eq!(id, 0);
    assert_eq!(t.toasts()[0].name, None);
    assert_eq!(t.toasts()[0].message, "done");
    assert_eq!(t.toasts()[0].kind, ToastKind::Success);
}

#[test]
fn resolve_without_a_named_toast_adds_one() {
    let mut t = Toaster::new();
    let id = t.resolve(&"seed".to_string(), "done".into(), ToastKind::Error);
    assert_eq!(id, 0);
    assert_eq!(t.toasts().len(), 1);
    assert_eq!(t.toasts()[0].name, None);
}

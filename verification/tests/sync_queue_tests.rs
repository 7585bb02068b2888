use turtl_core::errors::DispatchError;
use turtl_core::json::JsonVal;
use turtl_core::sync_queue::{SyncAction, SyncQueue, SyncRecord, SyncType};

fn note_record(body: &str) -> SyncRecord {
    SyncRecord {
        action: SyncAction::Add,
        ty: SyncType::Note,
        payload: JsonVal::Text(body.to_string()),
    }
}

#[test]
fn enqueued_item_is_pending_not_frozen() {
    let mut q = SyncQueue::new();
    let id = q.enqueue_pending(note_record("a"));
    assert!(q.is_pending(id));
    assert!(!q.is_frozen(id));
    assert!(q.pending_ids().contains(&id));
    assert!(!q.frozen_ids().contains(&id));
}

#[test]
fn frozen_item_leaves_the_pending_set() {
    let mut q = SyncQueue::new();
    let id = q.enqueue_pending(note_record("a"));
    q.freeze(id).expect("a pending item can be frozen");
    assert!(!q.is_pending(id));
    assert!(q.is_frozen(id));
}

#[test]
fn delete_removes_from_either_set_and_is_idempotent() {
    let mut q = SyncQueue::new();
    let pending_id = q.enqueue_pending(note_record("a"));
    let frozen_id = q.enqueue_pending(note_record("b"));
    q.freeze(frozen_id).unwrap();

    q.delete(pending_id);
    assert!(!q.pending_ids().contains(&pending_id));
    assert!(!q.frozen_ids().contains(&pending_id));
    q.delete(pending_id);

    q.delete(frozen_id);
    assert!(!q.pending_ids().contains(&frozen_id));
    assert!(!q.frozen_ids().contains(&frozen_id));
    q.delete(frozen_id);
    assert!(q.pending_ids().is_empty());
    assert!(q.frozen_ids().is_empty());
}

#[test]
fn unfreeze_of_non_frozen_id_is_not_found() {
    let mut q = SyncQueue::new();
    let id = q.enqueue_pending(note_record("a"));
    match q.unfreeze(id) {
        Err(DispatchError::NotFound(_)) => {},
        _ => panic!("unfreezing a pending (not frozen) id should be not-found"),
    }
    match q.unfreeze(999) {
        Err(DispatchError::NotFound(_)) => {},
        _ => panic!("unfreezing an absent id should be not-found"),
    }
}

#[test]
fn unfreeze_returns_item_to_pending_only() {
    let mut q = SyncQueue::new();
    let id = q.enqueue_pending(note_record("a"));
    q.freeze(id).unwrap();
    q.unfreeze(id).expect("a frozen item can be unfrozen");
    assert!(q.pending_ids().contains(&id));
    assert!(!q.frozen_ids().contains(&id));
}

#[test]
fn pending_ids_keep_enqueue_order() {
    let mut q = SyncQueue::new();
    let a = q.enqueue_pending(note_record("a"));
    let b = q.enqueue_pending(note_record("b"));
    let c = q.enqueue_pending(note_record("c"));
    assert_eq!(q.pending_ids(), vec![a, b, c]);
    q.delete(b);
    assert_eq!(q.pending_ids(), vec![a, c]);
}

#[test]
fn freeze_of_absent_id_is_not_found() {
    let mut q = SyncQueue::new();
    match q.freeze(7) {
        Err(DispatchError::NotFound(_)) => {},
        _ => panic!("freezing an absent id should be not-found"),
    }
}

//! The outgoing synchronization queue: locally made changes awaiting
//! transmission to the remote API.  An item is *pending* (queued, retried in
//! FIFO order) or *frozen* (retry suspended after an unrecoverable send
//! failure) — never both.  Deleting is idempotent; unfreezing a frozen item
//! puts it back at the end of the pending queue.

use vstd::prelude::*;

use crate::errors::{DispatchError, ErrorRep};
use crate::json::JsonVal;

verus! {

/// What a change does to a record.
#[derive(Clone, Copy, PartialEq, Eq, Structural)]
pub enum SyncAction {
    Add,
    Edit,
    Delete,
}

/// Which kind of record a change touches.
#[derive(Clone, Copy, PartialEq, Eq, Structural)]
pub enum SyncType {
    User,
    Space,
    Board,
    Note,
    Invite,
    File,
    Keychain,
}

/// A locally made change awaiting transmission.
pub struct SyncRecord {
    pub action: SyncAction,
    pub ty: SyncType,
    pub payload: JsonVal,
}

/// A queued change, under its stable sync id.
pub struct SyncItem {
    pub id: u64,
    pub record: SyncRecord,
}

/// Whether an item with `id` occurs in `s`.
pub open spec fn has_id(s: Seq<SyncItem>, id: u64) -> bool {
    exists|i: int| 0 <= i < s.len() && s[i].id == id
}

/// `s` with every item carrying `id` taken out, order kept.
pub open spec fn without_id(s: Seq<SyncItem>, id: u64) -> Seq<SyncItem>
    decreases s.len(),
{
    if s.len() == 0 {
        Seq::empty()
    } else {
        let rest = without_id(s.drop_last(), id);
        if s.last().id == id {
            rest
        } else {
            rest.push(s.last())
        }
    }
}

/// The ids of the items of `s`, in order.
pub open spec fn ids_of(s: Seq<SyncItem>) -> Seq<u64> {
    s.map_values(|it: SyncItem| it.id)
}

/// If no item of `s` carries `id`, taking `id` out changes nothing.
pub proof fn lemma_without_absent_id(s: Seq<SyncItem>, id: u64)
    requires
        !has_id(s, id),
    ensures
        without_id(s, id) =~= s,
    decreases s.len(),
{
    if s.len() > 0 {
        assert(!has_id(s.drop_last(), id)) by {
            assert(forall|i: int| 0 <= i < s.len() - 1 ==> s.drop_last()[i] == s[i]);
        }
        lemma_without_absent_id(s.drop_last(), id);
    }
}

/// No item of `without_id(s, id)` carries `id`, and nothing was added.
pub proof fn lemma_without_id_gone(s: Seq<SyncItem>, id: u64)
    ensures
        !has_id(without_id(s, id), id),
        without_id(s, id).len() <= s.len(),
    decreases s.len(),
{
    if s.len() > 0 {
        lemma_without_id_gone(s.drop_last(), id);
        let prev = without_id(s.drop_last(), id);
        if s.last().id != id {
            assert(!has_id(without_id(s, id), id)) by {
                if has_id(without_id(s, id), id) {
                    let i = choose|i: int|
                        0 <= i < without_id(s, id).len() && without_id(s, id)[i].id == id;
                    if i < prev.len() {
                        assert(prev[i].id == id);
                        assert(has_id(prev, id));
                    } else {
                        assert(without_id(s, id)[i] == s.last());
                    }
                }
            }
        }
    }
}

/// The outgoing queue.  Sync ids grow from a counter, so an id never names
/// two items; the storage collaborator that persists items is behind the
/// coordinator and not modelled here.
pub struct SyncQueue {
    pub pending: Vec<SyncItem>,
    pub frozen: Vec<SyncItem>,
    pub next_id: u64,
}

impl SyncQueue {
    /// Every id was handed out by the counter, and no id is pending and
    /// frozen at once (nor twice in either set).
    pub open spec fn wf(self) -> bool {
        &&& forall|i: int| 0 <= i < self.pending@.len() ==> self.pending@[i].id < self.next_id
        &&& forall|i: int| 0 <= i < self.frozen@.len() ==> self.frozen@[i].id < self.next_id
        &&& forall|i: int, j: int|
            0 <= i < self.pending@.len() && 0 <= j < self.pending@.len() && i != j
                ==> self.pending@[i].id != self.pending@[j].id
        &&& forall|i: int, j: int|
            0 <= i < self.frozen@.len() && 0 <= j < self.frozen@.len() && i != j
                ==> self.frozen@[i].id != self.frozen@[j].id
        &&& forall|i: int, j: int|
            0 <= i < self.pending@.len() && 0 <= j < self.frozen@.len()
                ==> self.pending@[i].id != self.frozen@[j].id
    }

    pub fn new() -> (r: SyncQueue)
        ensures
            r.pending@ == Seq::<SyncItem>::empty(),
            r.frozen@ == Seq::<SyncItem>::empty(),
            r.next_id == 0,
            r.wf(),
    {
        SyncQueue { pending: Vec::new(), frozen: Vec::new(), next_id: 0 }
    }

    /// Records a local change for later transmission; answers its fresh sync
    /// id.  Never fails: only the local counter is involved here.
    pub fn enqueue_pending(&mut self, record: SyncRecord) -> (id: u64)
        requires
            old(self).wf(),
            old(self).next_id < u64::MAX,
        ensures
            id == old(self).next_id,
            final(self).pending@ == old(self).pending@.push(SyncItem { id, record }),
            final(self).frozen@ == old(self).frozen@,
            final(self).next_id == old(self).next_id + 1,
            final(self).wf(),
            has_id(final(self).pending@, id),
            !has_id(final(self).frozen@, id),
    {
        let id = self.next_id;
        self.pending.push(SyncItem { id, record });
        self.next_id = id + 1;
        proof {
            assert(has_id(self.pending@, id)) by {
                assert(self.pending@.last().id == id);
            }
        }
        id
    }

    /// Suspends retries of the pending item `id`: the transmission worker
    /// calls this on an unrecoverable send failure.  Fails as not-found when
    /// no pending item carries `id`.
    pub fn freeze(&mut self, id: u64) -> (r: Result<(), DispatchError>)
        requires
            old(self).wf(),
        ensures
            r is Ok <==> has_id(old(self).pending@, id),
            final(self).next_id == old(self).next_id,
            final(self).wf(),
            r is Ok ==> {
                &&& final(self).pending@ == without_id(old(self).pending@, id)
                &&& exists|i: int|
                    0 <= i < old(self).pending@.len() && old(self).pending@[i].id == id
                        && final(self).frozen@ == old(self).frozen@.push(old(self).pending@[i])
                &&& !has_id(final(self).pending@, id)
                &&& has_id(final(self).frozen@, id)
            },
            r is Err ==> *final(self) == *old(self) && (match r {
                Err(e) => e.rep() == ErrorRep::NotFound("sync item not pending"@),
                Ok(_) => false,
            }),
    {
        match Self::take_item(&mut self.pending, id) {
            Some(item) => {
                proof {
                    lemma_without_id_gone(old(self).pending@, id);
                }
                self.frozen.push(item);
                proof {
                    assert(has_id(self.frozen@, id)) by {
                        assert(self.frozen@.last().id == id);
                    }
                }
                Ok(())
            },
            None => Err(DispatchError::NotFound("sync item not pending".to_owned())),
        }
    }

    /// Moves the frozen item `id` back to the end of the pending queue,
    /// re-enabling automatic retry; fails as not-found when no frozen item
    /// carries `id`.
    pub fn unfreeze(&mut self, id: u64) -> (r: Result<(), DispatchError>)
        requires
            old(self).wf(),
        ensures
            r is Ok <==> has_id(old(self).frozen@, id),
            final(self).next_id == old(self).next_id,
            final(self).wf(),
            r is Ok ==> {
                &&& final(self).frozen@ == without_id(old(self).frozen@, id)
                &&& exists|i: int|
                    0 <= i < old(self).frozen@.len() && old(self).frozen@[i].id == id
                        && final(self).pending@ == old(self).pending@.push(old(self).frozen@[i])
                &&& has_id(final(self).pending@, id)
                &&& !has_id(final(self).frozen@, id)
            },
            r is Err ==> *final(self) == *old(self) && (match r {
                Err(e) => e.rep() == ErrorRep::NotFound("sync item not frozen"@),
                Ok(_) => false,
            }),
    {
        match Self::take_item(&mut self.frozen, id) {
            Some(item) => {
                proof {
                    lemma_without_id_gone(old(self).frozen@, id);
                }
                self.pending.push(item);
                proof {
                    assert(has_id(self.pending@, id)) by {
                        assert(self.pending@.last().id == id);
                    }
                }
                Ok(())
            },
            None => Err(DispatchError::NotFound("sync item not frozen".to_owned())),
        }
    }

    /// Removes `id` from whichever set holds it; a no-op, not an error, when
    /// neither does.
    pub fn delete(&mut self, id: u64)
        requires
            old(self).wf(),
        ensures
            final(self).pending@ == without_id(old(self).pending@, id),
            final(self).frozen@ == without_id(old(self).frozen@, id),
            final(self).next_id == old(self).next_id,
            final(self).wf(),
            !has_id(final(self).pending@, id),
            !has_id(final(self).frozen@, id),
    {
        let _ = Self::take_item(&mut self.pending, id);
        let _ = Self::take_item(&mut self.frozen, id);
        proof {
            lemma_without_id_gone(old(self).pending@, id);
            lemma_without_id_gone(old(self).frozen@, id);
        }
    }

    /// The ids of the pending items, oldest first: the retry order.
    pub fn pending_ids(&self) -> (r: Vec<u64>)
        ensures
            r@ == ids_of(self.pending@),
    {
        Self::collect_ids(&self.pending)
    }

    /// The ids of the frozen items; no order is promised between this set
    /// and the pending one.
    pub fn frozen_ids(&self) -> (r: Vec<u64>)
        ensures
            r@ == ids_of(self.frozen@),
    {
        Self::collect_ids(&self.frozen)
    }

    /// Whether a pending item carries `id`.
    pub fn is_pending(&self, id: u64) -> (r: bool)
        ensures
            r == has_id(self.pending@, id),
    {
        Self::scan_id(&self.pending, id).is_some()
    }

    /// Whether a frozen item carries `id`.
    pub fn is_frozen(&self, id: u64) -> (r: bool)
        ensures
            r == has_id(self.frozen@, id),
    {
        Self::scan_id(&self.frozen, id).is_some()
    }

    fn collect_ids(items: &Vec<SyncItem>) -> (r: Vec<u64>)
        ensures
            r@ == ids_of(items@),
    {
        let mut out: Vec<u64> = Vec::new();
        let mut idx: usize = 0;
        while idx < items.len()
            invariant
                idx <= items@.len(),
                out@ == ids_of(items@.subrange(0, idx as int)),
            decreases items@.len() - idx,
        {
            proof {
                assert(ids_of(items@.subrange(0, idx as int + 1))
                    =~= ids_of(items@.subrange(0, idx as int)).push(items@[idx as int].id));
            }
            out.push(items[idx].id);
            idx += 1;
        }
        proof {
            assert(items@.subrange(0, items@.len() as int) =~= items@);
        }
        out
    }

    fn scan_id(items: &Vec<SyncItem>, id: u64) -> (r: Option<usize>)
        ensures
            match r {
                Some(i) => i < items@.len() && items@[i as int].id == id,
                None => !has_id(items@, id),
            },
    {
        let mut idx: usize = 0;
        while idx < items.len()
            invariant
                idx <= items@.len(),
                forall|j: int| 0 <= j < idx ==> items@[j].id != id,
            decreases items@.len() - idx,
        {
            if items[idx].id == id {
                return Some(idx);
            }
            idx += 1;
        }
        None
    }

    /// Takes the item carrying `id` out of `items`, keeping the order of the
    /// rest.
    fn take_item(items: &mut Vec<SyncItem>, id: u64) -> (r: Option<SyncItem>)
        requires
            forall|i: int, j: int|
                0 <= i < old(items)@.len() && 0 <= j < old(items)@.len() && i != j
                    ==> old(items)@[i].id != old(items)@[j].id,
        ensures
            final(items)@ == without_id(old(items)@, id),
            match r {
                Some(item) => item.id == id && has_id(old(items)@, id)
                    && exists|k: int|
                        0 <= k < old(items)@.len() && old(items)@[k].id == id && item
                            == old(items)@[k] && final(items)@ == old(items)@.remove(k),
                None => !has_id(old(items)@, id) && *final(items) == *old(items),
            },
    {
        match Self::scan_id(items, id) {
            Some(i) => {
                let item = items.remove(i);
                proof {
                    lemma_without_unique_id(old(items)@, id, i as int);
                }
                Some(item)
            },
            None => {
                proof {
                    lemma_without_absent_id(items@, id);
                }
                None
            },
        }
    }
}

/// Removing the unique item at position `k` is the same as taking its id out.
proof fn lemma_without_unique_id(s: Seq<SyncItem>, id: u64, k: int)
    requires
        0 <= k < s.len(),
        s[k].id == id,
        forall|i: int, j: int| 0 <= i < s.len() && 0 <= j < s.len() && i != j ==> s[i].id != s[j].id,
    ensures
        without_id(s, id) =~= s.remove(k),
    decreases s.len(),
{
    if k == s.len() - 1 {
        assert(!has_id(s.drop_last(), id)) by {
            assert(forall|i: int| 0 <= i < s.len() - 1 ==> s.drop_last()[i] == s[i]);
        }
        lemma_without_absent_id(s.drop_last(), id);
        assert(s.remove(k) =~= s.drop_last());
    } else {
        assert(s.drop_last()[k] == s[k]);
        lemma_without_unique_id(s.drop_last(), id, k);
        assert(s.last().id != id);
        assert(s.remove(k) =~= s.drop_last().remove(k).push(s.last()));
    }
}

} // verus!

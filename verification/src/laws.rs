//! The core's stated laws, proved against the contracts of the modules
//! they relate.  Each proof function here states one promise of the library
//! over the same spec functions its operations' contracts use.

use vstd::prelude::*;

use crate::coordinator::{deleted, distinct_ids, find_entry, lemma_find_entry_miss,
    lemma_find_entry_props, loaded_notes, Coordinator, EntryRep};
use crate::dispatch::{dispatch_result, known_command, req_text};
use crate::errors::ErrorRep;
use crate::json::{list_item, JsonRep};
use crate::dispatch::{dispatch_state, env_text, res_rep, Response};
use crate::events::{tokens_for, EventKind};
use crate::json::json_parse;
use crate::runtime::{drained, executed_step, job_step, Core, Job};
use crate::sync_queue::{
    has_id, lemma_without_absent_id, without_id, SyncItem, SyncQueue, SyncRecord,
};

verus! {

/// Dispatching any command outside the table answers an unknown-command
/// error carrying exactly that command string, whatever the state and the
/// arguments.
pub proof fn lemma_unknown_command(cmd: Seq<char>, c: Coordinator, data: JsonRep)
    requires
        !known_command(cmd),
    ensures
        dispatch_result(cmd, c, data) == Err::<JsonRep, ErrorRep>(ErrorRep::UnknownCommand(cmd)),
{
}

/// The strings of the command table are pairwise distinct: the fact every
/// law about one concrete command needs to walk the dispatch table's
/// branches.
pub proof fn lemma_commands_distinct()
    ensures
        "user:login"@ != "user:join"@,
        "user:login"@ != "user:logout"@,
        "user:login"@ != "user:delete-account"@,
        "user:login"@ != "app:wipe-user-data"@,
        "user:login"@ != "app:wipe-app-data"@,
        "user:login"@ != "sync:start"@,
        "user:login"@ != "sync:pause"@,
        "user:login"@ != "sync:resume"@,
        "user:login"@ != "sync:shutdown"@,
        "user:login"@ != "app:shutdown"@,
        "user:login"@ != "sync:delete-item"@,
        "user:login"@ != "sync:get-frozen"@,
        "user:login"@ != "sync:get-pending"@,
        "user:login"@ != "sync:unfreeze-item"@,
        "user:login"@ != "app:api:set-endpoint"@,
        "user:login"@ != "profile:load"@,
        "user:login"@ != "profile:sync:model"@,
        "user:login"@ != "profile:get-notes"@,
        "user:login"@ != "profile:find-notes"@,
        "user:login"@ != "profile:get-tags"@,
        "user:login"@ != "feedback:send"@,
        "user:login"@ != "ping"@,
        "user:join"@ != "user:logout"@,
        "user:join"@ != "user:delete-account"@,
        "user:join"@ != "app:wipe-user-data"@,
        "user:join"@ != "app:wipe-app-data"@,
        "user:join"@ != "sync:start"@,
        "user:join"@ != "sync:pause"@,
        "user:join"@ != "sync:resume"@,
        "user:join"@ != "sync:shutdown"@,
        "user:join"@ != "app:shutdown"@,
        "user:join"@ != "sync:delete-item"@,
        "user:join"@ != "sync:get-frozen"@,
        "user:join"@ != "sync:get-pending"@,
        "user:join"@ != "sync:unfreeze-item"@,
        "user:join"@ != "app:api:set-endpoint"@,
        "user:join"@ != "profile:load"@,
        "user:join"@ != "profile:sync:model"@,
        "user:join"@ != "profile:get-notes"@,
        "user:join"@ != "profile:find-notes"@,
        "user:join"@ != "profile:get-tags"@,
        "user:join"@ != "feedback:send"@,
        "user:join"@ != "ping"@,
        "user:logout"@ != "user:delete-account"@,
        "user:logout"@ != "app:wipe-user-data"@,
        "user:logout"@ != "app:wipe-app-data"@,
        "user:logout"@ != "sync:start"@,
        "user:logout"@ != "sync:pause"@,
        "user:logout"@ != "sync:resume"@,
        "user:logout"@ != "sync:shutdown"@,
        "user:logout"@ != "app:shutdown"@,
        "user:logout"@ != "sync:delete-item"@,
        "user:logout"@ != "sync:get-frozen"@,
        "user:logout"@ != "sync:get-pending"@,
        "user:logout"@ != "sync:unfreeze-item"@,
        "user:logout"@ != "app:api:set-endpoint"@,
        "user:logout"@ != "profile:load"@,
        "user:logout"@ != "profile:sync:model"@,
        "user:logout"@ != "profile:get-notes"@,
        "user:logout"@ != "profile:find-notes"@,
        "user:logout"@ != "profile:get-tags"@,
        "user:logout"@ != "feedback:send"@,
        "user:logout"@ != "ping"@,
        "user:delete-account"@ != "app:wipe-user-data"@,
        "user:delete-account"@ != "app:wipe-app-data"@,
        "user:delete-account"@ != "sync:start"@,
        "user:delete-account"@ != "sync:pause"@,
        "user:delete-account"@ != "sync:resume"@,
        "user:delete-account"@ != "sync:shutdown"@,
        "user:delete-account"@ != "app:shutdown"@,
        "user:delete-account"@ != "sync:delete-item"@,
        "user:delete-account"@ != "sync:get-frozen"@,
        "user:delete-account"@ != "sync:get-pending"@,
        "user:delete-account"@ != "sync:unfreeze-item"@,
        "user:delete-account"@ != "app:api:set-endpoint"@,
        "user:delete-account"@ != "profile:load"@,
        "user:delete-account"@ != "profile:sync:model"@,
        "user:delete-account"@ != "profile:get-notes"@,
        "user:delete-account"@ != "profile:find-notes"@,
        "user:delete-account"@ != "profile:get-tags"@,
        "user:delete-account"@ != "feedback:send"@,
        "user:delete-account"@ != "ping"@,
        "app:wipe-user-data"@ != "app:wipe-app-data"@,
        "app:wipe-user-data"@ != "sync:start"@,
        "app:wipe-user-data"@ != "sync:pause"@,
        "app:wipe-user-data"@ != "sync:resume"@,
        "app:wipe-user-data"@ != "sync:shutdown"@,
        "app:wipe-user-data"@ != "app:shutdown"@,
        "app:wipe-user-data"@ != "sync:delete-item"@,
        "app:wipe-user-data"@ != "sync:get-frozen"@,
        "app:wipe-user-data"@ != "sync:get-pending"@,
        "app:wipe-user-data"@ != "sync:unfreeze-item"@,
        "app:wipe-user-data"@ != "app:api:set-endpoint"@,
        "app:wipe-user-data"@ != "profile:load"@,
        "app:wipe-user-data"@ != "profile:sync:model"@,
        "app:wipe-user-data"@ != "profile:get-notes"@,
        "app:wipe-user-data"@ != "profile:find-notes"@,
        "app:wipe-user-data"@ != "profile:get-tags"@,
        "app:wipe-user-data"@ != "feedback:send"@,
        "app:wipe-user-data"@ != "ping"@,
        "app:wipe-app-data"@ != "sync:start"@,
        "app:wipe-app-data"@ != "sync:pause"@,
        "app:wipe-app-data"@ != "sync:resume"@,
        "app:wipe-app-data"@ != "sync:shutdown"@,
        "app:wipe-app-data"@ != "app:shutdown"@,
        "app:wipe-app-data"@ != "sync:delete-item"@,
        "app:wipe-app-data"@ != "sync:get-frozen"@,
        "app:wipe-app-data"@ != "sync:get-pending"@,
        "app:wipe-app-data"@ != "sync:unfreeze-item"@,
        "app:wipe-app-data"@ != "app:api:set-endpoint"@,
        "app:wipe-app-data"@ != "profile:load"@,
        "app:wipe-app-data"@ != "profile:sync:model"@,
        "app:wipe-app-data"@ != "profile:get-notes"@,
        "app:wipe-app-data"@ != "profile:find-notes"@,
        "app:wipe-app-data"@ != "profile:get-tags"@,
        "app:wipe-app-data"@ != "feedback:send"@,
        "app:wipe-app-data"@ != "ping"@,
        "sync:start"@ != "sync:pause"@,
        "sync:start"@ != "sync:resume"@,
        "sync:start"@ != "sync:shutdown"@,
        "sync:start"@ != "app:shutdown"@,
        "sync:start"@ != "sync:delete-item"@,
        "sync:start"@ != "sync:get-frozen"@,
        "sync:start"@ != "sync:get-pending"@,
        "sync:start"@ != "sync:unfreeze-item"@,
        "sync:start"@ != "app:api:set-endpoint"@,
        "sync:start"@ != "profile:load"@,
        "sync:start"@ != "profile:sync:model"@,
        "sync:start"@ != "profile:get-notes"@,
        "sync:start"@ != "profile:find-notes"@,
        "sync:start"@ != "profile:get-tags"@,
        "sync:start"@ != "feedback:send"@,
        "sync:start"@ != "ping"@,
        "sync:pause"@ != "sync:resume"@,
        "sync:pause"@ != "sync:shutdown"@,
        "sync:pause"@ != "app:shutdown"@,
        "sync:pause"@ != "sync:delete-item"@,
        "sync:pause"@ != "sync:get-frozen"@,
        "sync:pause"@ != "sync:get-pending"@,
        "sync:pause"@ != "sync:unfreeze-item"@,
        "sync:pause"@ != "app:api:set-endpoint"@,
        "sync:pause"@ != "profile:load"@,
        "sync:pause"@ != "profile:sync:model"@,
        "sync:pause"@ != "profile:get-notes"@,
        "sync:pause"@ != "profile:find-notes"@,
        "sync:pause"@ != "profile:get-tags"@,
        "sync:pause"@ != "feedback:send"@,
        "sync:pause"@ != "ping"@,
        "sync:resume"@ != "sync:shutdown"@,
        "sync:resume"@ != "app:shutdown"@,
        "sync:resume"@ != "sync:delete-item"@,
        "sync:resume"@ != "sync:get-frozen"@,
        "sync:resume"@ != "sync:get-pending"@,
        "sync:resume"@ != "sync:unfreeze-item"@,
        "sync:resume"@ != "app:api:set-endpoint"@,
        "sync:resume"@ != "profile:load"@,
        "sync:resume"@ != "profile:sync:model"@,
        "sync:resume"@ != "profile:get-notes"@,
        "sync:resume"@ != "profile:find-notes"@,
        "sync:resume"@ != "profile:get-tags"@,
        "sync:resume"@ != "feedback:send"@,
        "sync:resume"@ != "ping"@,
        "sync:shutdown"@ != "app:shutdown"@,
        "sync:shutdown"@ != "sync:delete-item"@,
        "sync:shutdown"@ != "sync:get-frozen"@,
        "sync:shutdown"@ != "sync:get-pending"@,
        "sync:shutdown"@ != "sync:unfreeze-item"@,
        "sync:shutdown"@ != "app:api:set-endpoint"@,
        "sync:shutdown"@ != "profile:load"@,
        "sync:shutdown"@ != "profile:sync:model"@,
        "sync:shutdown"@ != "profile:get-notes"@,
        "sync:shutdown"@ != "profile:find-notes"@,
        "sync:shutdown"@ != "profile:get-tags"@,
        "sync:shutdown"@ != "feedback:send"@,
        "sync:shutdown"@ != "ping"@,
        "app:shutdown"@ != "sync:delete-item"@,
        "app:shutdown"@ != "sync:get-frozen"@,
        "app:shutdown"@ != "sync:get-pending"@,
        "app:shutdown"@ != "sync:unfreeze-item"@,
        "app:shutdown"@ != "app:api:set-endpoint"@,
        "app:shutdown"@ != "profile:load"@,
        "app:shutdown"@ != "profile:sync:model"@,
        "app:shutdown"@ != "profile:get-notes"@,
        "app:shutdown"@ != "profile:find-notes"@,
        "app:shutdown"@ != "profile:get-tags"@,
        "app:shutdown"@ != "feedback:send"@,
        "app:shutdown"@ != "ping"@,
        "sync:delete-item"@ != "sync:get-frozen"@,
        "sync:delete-item"@ != "sync:get-pending"@,
        "sync:delete-item"@ != "sync:unfreeze-item"@,
        "sync:delete-item"@ != "app:api:set-endpoint"@,
        "sync:delete-item"@ != "profile:load"@,
        "sync:delete-item"@ != "profile:sync:model"@,
        "sync:delete-item"@ != "profile:get-notes"@,
        "sync:delete-item"@ != "profile:find-notes"@,
        "sync:delete-item"@ != "profile:get-tags"@,
        "sync:delete-item"@ != "feedback:send"@,
        "sync:delete-item"@ != "ping"@,
        "sync:get-frozen"@ != "sync:get-pending"@,
        "sync:get-frozen"@ != "sync:unfreeze-item"@,
        "sync:get-frozen"@ != "app:api:set-endpoint"@,
        "sync:get-frozen"@ != "profile:load"@,
        "sync:get-frozen"@ != "profile:sync:model"@,
        "sync:get-frozen"@ != "profile:get-notes"@,
        "sync:get-frozen"@ != "profile:find-notes"@,
        "sync:get-frozen"@ != "profile:get-tags"@,
        "sync:get-frozen"@ != "feedback:send"@,
        "sync:get-frozen"@ != "ping"@,
        "sync:get-pending"@ != "sync:unfreeze-item"@,
        "sync:get-pending"@ != "app:api:set-endpoint"@,
        "sync:get-pending"@ != "profile:load"@,
        "sync:get-pending"@ != "profile:sync:model"@,
        "sync:get-pending"@ != "profile:get-notes"@,
        "sync:get-pending"@ != "profile:find-notes"@,
        "sync:get-pending"@ != "profile:get-tags"@,
        "sync:get-pending"@ != "feedback:send"@,
        "sync:get-pending"@ != "ping"@,
        "sync:unfreeze-item"@ != "app:api:set-endpoint"@,
        "sync:unfreeze-item"@ != "profile:load"@,
        "sync:unfreeze-item"@ != "profile:sync:model"@,
        "sync:unfreeze-item"@ != "profile:get-notes"@,
        "sync:unfreeze-item"@ != "profile:find-notes"@,
        "sync:unfreeze-item"@ != "profile:get-tags"@,
        "sync:unfreeze-item"@ != "feedback:send"@,
        "sync:unfreeze-item"@ != "ping"@,
        "app:api:set-endpoint"@ != "profile:load"@,
        "app:api:set-endpoint"@ != "profile:sync:model"@,
        "app:api:set-endpoint"@ != "profile:get-notes"@,
        "app:api:set-endpoint"@ != "profile:find-notes"@,
        "app:api:set-endpoint"@ != "profile:get-tags"@,
        "app:api:set-endpoint"@ != "feedback:send"@,
        "app:api:set-endpoint"@ != "ping"@,
        "profile:load"@ != "profile:sync:model"@,
        "profile:load"@ != "profile:get-notes"@,
        "profile:load"@ != "profile:find-notes"@,
        "profile:load"@ != "profile:get-tags"@,
        "profile:load"@ != "feedback:send"@,
        "profile:load"@ != "ping"@,
        "profile:sync:model"@ != "profile:get-notes"@,
        "profile:sync:model"@ != "profile:find-notes"@,
        "profile:sync:model"@ != "profile:get-tags"@,
        "profile:sync:model"@ != "feedback:send"@,
        "profile:sync:model"@ != "ping"@,
        "profile:get-notes"@ != "profile:find-notes"@,
        "profile:get-notes"@ != "profile:get-tags"@,
        "profile:get-notes"@ != "feedback:send"@,
        "profile:get-notes"@ != "ping"@,
        "profile:find-notes"@ != "profile:get-tags"@,
        "profile:find-notes"@ != "feedback:send"@,
        "profile:find-notes"@ != "ping"@,
        "profile:get-tags"@ != "feedback:send"@,
        "profile:get-tags"@ != "ping"@,
        "feedback:send"@ != "ping"@,
{
    reveal_strlit("user:login");
    reveal_strlit("user:join");
    reveal_strlit("user:logout");
    reveal_strlit("user:delete-account");
    reveal_strlit("app:wipe-user-data");
    reveal_strlit("app:wipe-app-data");
    reveal_strlit("sync:start");
    reveal_strlit("sync:pause");
    reveal_strlit("sync:resume");
    reveal_strlit("sync:shutdown");
    reveal_strlit("app:shutdown");
    reveal_strlit("sync:delete-item");
    reveal_strlit("sync:get-frozen");
    reveal_strlit("sync:get-pending");
    reveal_strlit("sync:unfreeze-item");
    reveal_strlit("app:api:set-endpoint");
    reveal_strlit("profile:load");
    reveal_strlit("profile:sync:model");
    reveal_strlit("profile:get-notes");
    reveal_strlit("profile:find-notes");
    reveal_strlit("profile:get-tags");
    reveal_strlit("feedback:send");
    reveal_strlit("ping");
    assert("user:login"@.len() == 10);
    assert("user:join"@.len() == 9);
    assert("user:logout"@.len() == 11);
    assert("user:delete-account"@.len() == 19);
    assert("app:wipe-user-data"@.len() == 18);
    assert("app:wipe-app-data"@.len() == 17);
    assert("sync:start"@.len() == 10);
    assert("sync:pause"@.len() == 10);
    assert("sync:resume"@.len() == 11);
    assert("sync:shutdown"@.len() == 13);
    assert("app:shutdown"@.len() == 12);
    assert("sync:delete-item"@.len() == 16);
    assert("sync:get-frozen"@.len() == 15);
    assert("sync:get-pending"@.len() == 16);
    assert("sync:unfreeze-item"@.len() == 18);
    assert("app:api:set-endpoint"@.len() == 20);
    assert("profile:load"@.len() == 12);
    assert("profile:sync:model"@.len() == 18);
    assert("profile:get-notes"@.len() == 17);
    assert("profile:find-notes"@.len() == 18);
    assert("profile:get-tags"@.len() == 16);
    assert("feedback:send"@.len() == 13);
    assert("ping"@.len() == 4);
    assert("user:login"@[0] == 'u');
    assert("sync:start"@[0] == 's');
    assert("user:login"@[0] == 'u');
    assert("sync:pause"@[0] == 's');
    assert("user:logout"@[0] == 'u');
    assert("sync:resume"@[0] == 's');
    assert("app:wipe-user-data"@[0] == 'a');
    assert("sync:unfreeze-item"@[0] == 's');
    assert("app:wipe-user-data"@[0] == 'a');
    assert("profile:sync:model"@[0] == 'p');
    assert("app:wipe-user-data"@[0] == 'a');
    assert("profile:find-notes"@[0] == 'p');
    assert("app:wipe-app-data"@[0] == 'a');
    assert("profile:get-notes"@[0] == 'p');
    assert("sync:start"@[5] == 's');
    assert("sync:pause"@[5] == 'p');
    assert("sync:shutdown"@[0] == 's');
    assert("feedback:send"@[0] == 'f');
    assert("app:shutdown"@[0] == 'a');
    assert("profile:load"@[0] == 'p');
    assert("sync:delete-item"@[5] == 'd');
    assert("sync:get-pending"@[5] == 'g');
    assert("sync:delete-item"@[0] == 's');
    assert("profile:get-tags"@[0] == 'p');
    assert("sync:get-pending"@[0] == 's');
    assert("profile:get-tags"@[0] == 'p');
    assert("sync:unfreeze-item"@[0] == 's');
    assert("profile:sync:model"@[0] == 'p');
    assert("sync:unfreeze-item"@[0] == 's');
    assert("profile:find-notes"@[0] == 'p');
    assert("profile:sync:model"@[8] == 's');
    assert("profile:find-notes"@[8] == 'f');
}

/// `ping` always answers the literal text `pong`, whatever the state and
/// the arguments.
pub proof fn lemma_ping(c: Coordinator, data: JsonRep)
    ensures
        dispatch_result("ping"@, c, data) == Ok::<JsonRep, ErrorRep>(JsonRep::Text("pong"@)),
{
    lemma_commands_distinct();
}

/// A login whose password argument (position 3) is absent fails with an
/// argument error naming that position, not a generic failure.
pub proof fn lemma_login_missing_password(c: Coordinator, data: JsonRep)
    requires
        req_text("user:login"@, data, 2) is Ok,
        list_item(data, 3) is None,
    ensures
        dispatch_result("user:login"@, c, data) == Err::<JsonRep, ErrorRep>(
            ErrorRep::Argument("user:login"@, 3),
        ),
{
}

/// Before the search collaborator is initialized, `profile:find-notes` and
/// `profile:get-tags` both fail with a missing-dependency error (given
/// arguments that decode).
pub proof fn lemma_search_missing_dependency(c: Coordinator, data: JsonRep)
    requires
        c.search is None,
        list_item(data, 2) is Some,
        crate::dispatch::req_text("profile:get-tags"@, data, 2) is Ok,
        crate::dispatch::req_texts("profile:get-tags"@, data, 3) is Ok,
        crate::dispatch::req_int("profile:get-tags"@, data, 4) is Ok,
    ensures
        dispatch_result("profile:find-notes"@, c, data) == Err::<JsonRep, ErrorRep>(
            ErrorRep::MissingDependency("search is not initialized"@),
        ),
        dispatch_result("profile:get-tags"@, c, data) == Err::<JsonRep, ErrorRep>(
            ErrorRep::MissingDependency("search is not initialized"@),
        ),
{
    lemma_commands_distinct();
}

/// The pending/frozen lifecycle of a sync id.  `q1` is the state after
/// `enqueue_pending` answered `id` on `q0`; `q2` after a freeze of `id` on
/// `q1`; `q3` after `delete(id)` on `q2`; `q4` after a second `delete(id)`
/// on `q3`.  The id is then pending and not frozen after the enqueue,
/// frozen and not pending after the freeze, in neither set after the
/// delete, and the second delete is a no-op.
pub proof fn lemma_pending_frozen_lifecycle(
    q0: SyncQueue,
    record: SyncRecord,
    id: u64,
    q1: SyncQueue,
    q2: SyncQueue,
    q3: SyncQueue,
    q4: SyncQueue,
)
    requires
        q0.wf(),
        q0.next_id < u64::MAX,
        id == q0.next_id,
        q1.pending@ == q0.pending@.push(SyncItem { id, record }),
        q1.frozen@ == q0.frozen@,
        q2.pending@ == without_id(q1.pending@, id),
        exists|i: int|
            0 <= i < q1.pending@.len() && q1.pending@[i].id == id && q2.frozen@
                == q1.frozen@.push(q1.pending@[i]),
        q3.pending@ == without_id(q2.pending@, id),
        q3.frozen@ == without_id(q2.frozen@, id),
        q4.pending@ == without_id(q3.pending@, id),
        q4.frozen@ == without_id(q3.frozen@, id),
    ensures
        has_id(q1.pending@, id),
        !has_id(q1.frozen@, id),
        has_id(q2.frozen@, id),
        !has_id(q2.pending@, id),
        !has_id(q3.pending@, id),
        !has_id(q3.frozen@, id),
        q4.pending@ == q3.pending@,
        q4.frozen@ == q3.frozen@,
{
    assert(has_id(q1.pending@, id)) by {
        assert(q1.pending@.last().id == id);
    }
    assert(!has_id(q1.frozen@, id));
    crate::sync_queue::lemma_without_id_gone(q1.pending@, id);
    let i = choose|i: int|
        0 <= i < q1.pending@.len() && q1.pending@[i].id == id && q2.frozen@ == q1.frozen@.push(
            q1.pending@[i],
        );
    assert(q2.frozen@.last().id == id);
    crate::sync_queue::lemma_without_id_gone(q2.pending@, id);
    crate::sync_queue::lemma_without_id_gone(q2.frozen@, id);
    lemma_without_absent_id(q3.pending@, id);
    lemma_without_absent_id(q3.frozen@, id);
}

/// A direct-sync delete makes the record unresolvable.  In a collection
/// whose ids are pairwise distinct — the profile invariant every reachable
/// state keeps — no lookup finds `id` after `deleted`, and a load request
/// for `id` yields no payload.
pub proof fn lemma_deleted_note_unresolvable(notes: Seq<EntryRep>, id: Seq<char>)
    requires
        distinct_ids(notes),
    ensures
        find_entry(deleted(notes, id), id) is None,
        loaded_notes(deleted(notes, id), seq![id]) == Seq::<JsonRep>::empty(),
{
    lemma_find_entry_props(notes, id);
    match find_entry(notes, id) {
        Some(i) => {
            let t = notes.remove(i);
            assert forall|j: int| 0 <= j < t.len() implies t[j].id != id by {
                let j0: int = if j < i { j } else { j + 1 };
                assert(t[j] == notes[j0]);
            }
            lemma_find_entry_miss(t, id);
        },
        None => {},
    }
    assert(seq![id].drop_last() =~= Seq::<Seq<char>>::empty());
    assert(loaded_notes(deleted(notes, id), Seq::<Seq<char>>::empty()) =~= Seq::<JsonRep>::empty());
    assert(seq![id].last() == id);
    assert(loaded_notes(deleted(notes, id), seq![id]) =~= Seq::<JsonRep>::empty());
}

/// A stop request followed by a drain.  `c1` is the state after `stop` on
/// `c0`, and `executed` is what `run` on `c1` answered: every job queued
/// before the stop is executed, in order, then the no-op the stop pushed;
/// the drain terminates (run is a total function), and jobs pushed after it
/// returned are not in `executed`.
pub proof fn lemma_stop_drains(c0: Core, c1: Core, executed: Seq<Job>)
    requires
        !c1.running,
        c1.jobs@ == c0.jobs@.push(Job::NoOp),
        c1.jobs@.is_prefix_of(executed),
    ensures
        c0.jobs@.is_prefix_of(executed),
        executed.len() > c0.jobs@.len(),
        executed[c0.jobs@.len() as int] == Job::NoOp,
        forall|i: int| 0 <= i < c0.jobs@.len() ==> executed[i] == c0.jobs@[i],
{
    assert(c1.jobs@.len() == c0.jobs@.len() + 1);
    assert(executed.subrange(0, c1.jobs@.len() as int) =~= c1.jobs@);
    assert(executed[c0.jobs@.len() as int] == c1.jobs@[c0.jobs@.len() as int]);
    assert forall|i: int| 0 <= i < c0.jobs@.len() implies executed[i] == c0.jobs@[i] by {
        assert(executed[i] == c1.jobs@[i]);
    }
    assert(c0.jobs@.is_prefix_of(executed)) by {
        assert(executed.subrange(0, c0.jobs@.len() as int) =~= c0.jobs@);
    }
}

/// The run flag never rises during a drain: once a stop is observed it
/// holds to the end.
pub proof fn lemma_drained_flag_monotone(
    c0: Coordinator,
    running0: bool,
    jobs: Seq<Job>,
    c1: Coordinator,
    running1: bool,
    rs: Seq<Response>,
    token: u64,
)
    requires
        drained(c0, running0, jobs, c1, running1, rs, token),
    ensures
        running1 ==> running0,
    decreases jobs.len(),
{
    if jobs.len() > 0 {
        let (cm, fired, ro) = choose|cm: Coordinator, fired: bool, ro: Option<Response>|
            {
                &&& #[trigger] executed_step(c0, jobs[0], cm, ro, fired, token)
                &&& (match ro {
                    Some(resp) => rs.len() > 0 && rs[0] == resp && drained(
                        cm,
                        running0 && !fired,
                        jobs.drop_first(),
                        c1,
                        running1,
                        rs.drop_first(),
                        token,
                    ),
                    None => drained(
                        cm,
                        running0 && !fired,
                        jobs.drop_first(),
                        c1,
                        running1,
                        rs,
                        token,
                    ),
                })
            };
        match ro {
            Some(_) => {
                lemma_drained_flag_monotone(
                    cm,
                    running0 && !fired,
                    jobs.drop_first(),
                    c1,
                    running1,
                    rs.drop_first(),
                    token,
                );
            },
            None => {
                lemma_drained_flag_monotone(
                    cm,
                    running0 && !fired,
                    jobs.drop_first(),
                    c1,
                    running1,
                    rs,
                    token,
                );
            },
        }
    }
}

/// No command moves the event bus: an executed job leaves the bindings as
/// they were, so a binding made at start still stands at every later step.
pub proof fn lemma_step_keeps_events(
    c0: Coordinator,
    job: Job,
    c1: Coordinator,
    ro: Option<Response>,
    fired: bool,
    token: u64,
)
    requires
        executed_step(c0, job, c1, ro, fired, token),
    ensures
        c1.events == c0.events,
{
    match job {
        Job::NoOp => {},
        Job::Process(raw) => {
            let cm = choose|cm: Coordinator|
                {
                    &&& #[trigger] job_step(c0, job, cm, ro)
                    &&& c1 == (Coordinator { pending_events: c1.pending_events, ..cm })
                    &&& c1.pending_events@.len() == 0
                    &&& fired == cm.pending_events@.contains(token)
                };
            assert(cm.events == c0.events);
        },
    }
}

/// The chain the shutdown command promises: if a drain starting with the
/// flag up executes a message whose envelope decodes to the `app:shutdown`
/// command, and the stop handler is bound to the app-shutdown event under
/// `token`, then the drain ends with the flag down — the loop terminates
/// after draining.
pub proof fn lemma_shutdown_message_stops(
    c0: Coordinator,
    jobs: Seq<Job>,
    c1: Coordinator,
    running1: bool,
    rs: Seq<Response>,
    token: u64,
    k: int,
)
    requires
        drained(c0, true, jobs, c1, running1, rs, token),
        c0.events.bindings@ == seq![(EventKind::AppShutdown, token)],
        0 <= k < jobs.len(),
        jobs[k] matches Job::Process(raw) && (json_parse(raw@) matches Some(env) && env_text(
            env,
            0,
        ) is Some && env_text(env, 1) == Some("app:shutdown"@)),
    ensures
        !running1,
    decreases k,
{
    let (cm0, fired0, ro0) = choose|cm0: Coordinator, fired0: bool, ro0: Option<Response>|
        {
            &&& #[trigger] executed_step(c0, jobs[0], cm0, ro0, fired0, token)
            &&& (match ro0 {
                Some(resp) => rs.len() > 0 && rs[0] == resp && drained(
                    cm0,
                    true && !fired0,
                    jobs.drop_first(),
                    c1,
                    running1,
                    rs.drop_first(),
                    token,
                ),
                None => drained(
                    cm0,
                    true && !fired0,
                    jobs.drop_first(),
                    c1,
                    running1,
                    rs,
                    token,
                ),
            })
        };
    if k == 0 {
        let cmj = choose|cmj: Coordinator|
            {
                &&& #[trigger] job_step(c0, jobs[0], cmj, ro0)
                &&& cm0 == (Coordinator { pending_events: cm0.pending_events, ..cmj })
                &&& cm0.pending_events@.len() == 0
                &&& fired0 == cmj.pending_events@.contains(token)
            };
        lemma_commands_distinct();
        let env = json_parse((jobs[0]->Process_0)@)->Some_0;
        let resp = ro0->Some_0;
        assert(res_rep(resp.body) == dispatch_result("app:shutdown"@, c0, env));
        assert(resp.body is Ok);
        assert(dispatch_state("app:shutdown"@, c0, env, cmj));
        assert(cmj.pending_events@ == c0.pending_events@ + tokens_for(
            c0.events.bindings@,
            EventKind::AppShutdown,
        ));
        assert(tokens_for(c0.events.bindings@, EventKind::AppShutdown) =~= seq![token]) by {
            assert(c0.events.bindings@.drop_last() =~= Seq::<(EventKind, u64)>::empty());
            assert(tokens_for(Seq::<(EventKind, u64)>::empty(), EventKind::AppShutdown)
                =~= Seq::<u64>::empty());
            assert(c0.events.bindings@.last() == (EventKind::AppShutdown, token));
        }
        assert(cmj.pending_events@[c0.pending_events@.len() as int] == token);
        assert(fired0);
        match ro0 {
            Some(_) => {
                lemma_drained_flag_monotone(
                    cm0,
                    false,
                    jobs.drop_first(),
                    c1,
                    running1,
                    rs.drop_first(),
                    token,
                );
            },
            None => {
                lemma_drained_flag_monotone(
                    cm0,
                    false,
                    jobs.drop_first(),
                    c1,
                    running1,
                    rs,
                    token,
                );
            },
        }
    } else {
        if fired0 {
            match ro0 {
                Some(_) => {
                    lemma_drained_flag_monotone(
                        cm0,
                        false,
                        jobs.drop_first(),
                        c1,
                        running1,
                        rs.drop_first(),
                        token,
                    );
                },
                None => {
                    lemma_drained_flag_monotone(
                        cm0,
                        false,
                        jobs.drop_first(),
                        c1,
                        running1,
                        rs,
                        token,
                    );
                },
            }
        } else {
            lemma_step_keeps_events(c0, jobs[0], cm0, ro0, fired0, token);
            assert(jobs.drop_first()[k - 1] == jobs[k]);
            match ro0 {
                Some(_) => {
                    lemma_shutdown_message_stops(
                        cm0,
                        jobs.drop_first(),
                        c1,
                        running1,
                        rs.drop_first(),
                        token,
                        k - 1,
                    );
                },
                None => {
                    lemma_shutdown_message_stops(
                        cm0,
                        jobs.drop_first(),
                        c1,
                        running1,
                        rs,
                        token,
                        k - 1,
                    );
                },
            }
        }
    }
}

} // verus!

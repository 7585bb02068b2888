//! The command dispatcher: the RPC endpoint of the core.
//!
//! A wire message is a JSON array `[request_id, command, arg2, arg3, ...]`.
//! `process` parses the envelope and answers exactly one response addressed
//! to the request id, except when no request id can be read at all, in which
//! case there is nothing to address a response to and the decode error is the
//! caller's to log.  `dispatch` routes a command to the coordinator
//! operation it names.

use vstd::prelude::*;

use crate::coordinator::{
    deleted, entry_reps, has_sid, ids_without, loaded_notes, model_id, str_views, upserted,
    Coordinator, Profile, SyncState,
};
use crate::errors::{DispatchError, ErrorRep};
use crate::events::{tokens_for, EventKind};
use crate::json::{
    json_parse, list_item, obj_field, reps_of, text_of, int_of, JsonRep, JsonVal,
};
use crate::sync_queue::{has_id, without_id, SyncType};

verus! {

broadcast use vstd::std_specs::vec::group_vec_axioms, vstd::seq::group_seq_axioms;

/// A JSON object with no members, as a model: most commands' success answer.
pub open spec fn empty_rep() -> JsonRep {
    JsonRep::Object(Seq::empty())
}

/// The required text argument at position `i`, or the argument error that
/// position yields.
pub open spec fn req_text(cmd: Seq<char>, data: JsonRep, i: int) -> Result<Seq<char>, ErrorRep> {
    match list_item(data, i) {
        None => Err(ErrorRep::Argument(cmd, i)),
        Some(v) => match text_of(v) {
            None => Err(ErrorRep::ArgumentShape(cmd, i)),
            Some(t) => Ok(t),
        },
    }
}

/// The required integer argument at position `i`.
pub open spec fn req_int(cmd: Seq<char>, data: JsonRep, i: int) -> Result<int, ErrorRep> {
    match list_item(data, i) {
        None => Err(ErrorRep::Argument(cmd, i)),
        Some(v) => match int_of(v) {
            None => Err(ErrorRep::ArgumentShape(cmd, i)),
            Some(n) => Ok(n),
        },
    }
}

/// The required non-negative sync id argument at position `i`.
pub open spec fn req_sync_id(cmd: Seq<char>, data: JsonRep, i: int) -> Result<u64, ErrorRep> {
    match req_int(cmd, data, i) {
        Err(e) => Err(e),
        Ok(n) => if 0 <= n <= u64::MAX {
            Ok(n as u64)
        } else {
            Err(ErrorRep::ArgumentShape(cmd, i))
        },
    }
}

/// The name each sync action carries on the wire.
pub open spec fn action_name_of(a: crate::sync_queue::SyncAction) -> Seq<char> {
    match a {
        crate::sync_queue::SyncAction::Add => "add"@,
        crate::sync_queue::SyncAction::Edit => "edit"@,
        crate::sync_queue::SyncAction::Delete => "delete"@,
    }
}

/// The name each sync type carries on the wire.
pub open spec fn kind_name_of(t: SyncType) -> Seq<char> {
    match t {
        SyncType::User => "user"@,
        SyncType::Space => "space"@,
        SyncType::Board => "board"@,
        SyncType::Note => "note"@,
        SyncType::Invite => "invite"@,
        SyncType::File => "file"@,
        SyncType::Keychain => "keychain"@,
    }
}

/// The model of a queued sync item on the wire: its id, its action and type,
/// and its last-known payload.
pub open spec fn sync_item_rep(it: crate::sync_queue::SyncItem) -> JsonRep {
    JsonRep::Object(
        seq![
            ("id"@, JsonRep::Int(it.id as int)),
            ("action"@, JsonRep::Text(action_name_of(it.record.action))),
            ("type"@, JsonRep::Text(kind_name_of(it.record.ty))),
            ("payload"@, it.record.payload.rep()),
        ],
    )
}

/// The wire shape of a sequence of queued sync items.
pub open spec fn items_value(s: Seq<crate::sync_queue::SyncItem>) -> JsonRep {
    JsonRep::List(s.map_values(|it: crate::sync_queue::SyncItem| sync_item_rep(it)))
}

/// The payloads of a sequence of stored records, in order.
pub open spec fn datas_of(s: Seq<crate::coordinator::EntryRep>) -> Seq<JsonRep> {
    s.map_values(|e: crate::coordinator::EntryRep| e.data)
}

/// The wire shape of the profile snapshot.
pub open spec fn profile_value(c: Coordinator) -> JsonRep {
    JsonRep::Object(
        seq![
            ("spaces"@, JsonRep::List(datas_of(entry_reps(c.profile.spaces@)))),
            ("boards"@, JsonRep::List(datas_of(entry_reps(c.profile.boards@)))),
        ],
    )
}

/// The texts of a list of JSON strings, or nothing when one is not a string.
pub open spec fn texts_of(items: Seq<JsonRep>) -> Option<Seq<Seq<char>>>
    decreases items.len(),
{
    if items.len() == 0 {
        Some(Seq::empty())
    } else {
        match texts_of(items.drop_last()) {
            None => None,
            Some(rest) => match text_of(items.last()) {
                None => None,
                Some(t) => Some(rest.push(t)),
            },
        }
    }
}

/// The required list-of-strings argument at position `i`.
pub open spec fn req_texts(cmd: Seq<char>, data: JsonRep, i: int) -> Result<
    Seq<Seq<char>>,
    ErrorRep,
> {
    match list_item(data, i) {
        None => Err(ErrorRep::Argument(cmd, i)),
        Some(v) => match v {
            JsonRep::List(items) => match texts_of(items) {
                None => Err(ErrorRep::ArgumentShape(cmd, i)),
                Some(ts) => Ok(ts),
            },
            _ => Err(ErrorRep::ArgumentShape(cmd, i)),
        },
    }
}

/// The sync action named by `t`, if any.
pub open spec fn action_of(t: Seq<char>) -> Option<crate::sync_queue::SyncAction> {
    if t == "add"@ {
        Some(crate::sync_queue::SyncAction::Add)
    } else if t == "edit"@ {
        Some(crate::sync_queue::SyncAction::Edit)
    } else if t == "delete"@ {
        Some(crate::sync_queue::SyncAction::Delete)
    } else {
        None
    }
}

/// The sync type named by `t`, if any.
pub open spec fn type_of(t: Seq<char>) -> Option<SyncType> {
    if t == "user"@ {
        Some(SyncType::User)
    } else if t == "space"@ {
        Some(SyncType::Space)
    } else if t == "board"@ {
        Some(SyncType::Board)
    } else if t == "note"@ {
        Some(SyncType::Note)
    } else if t == "invite"@ {
        Some(SyncType::Invite)
    } else if t == "file"@ {
        Some(SyncType::File)
    } else if t == "keychain"@ {
        Some(SyncType::Keychain)
    } else {
        None
    }
}

/// What `profile:sync:model` answers.
pub open spec fn psm_result(cmd: Seq<char>, c: Coordinator, data: JsonRep) -> Result<
    JsonRep,
    ErrorRep,
> {
    match req_text(cmd, data, 2) {
        Err(e) => Err(e),
        Ok(at) => match action_of(at) {
            None => Err(ErrorRep::ArgumentShape(cmd, 2)),
            Some(action) => match req_text(cmd, data, 3) {
                Err(e) => Err(e),
                Ok(tt) => match type_of(tt) {
                    None => Err(ErrorRep::ArgumentShape(cmd, 3)),
                    Some(ty) => if action == crate::sync_queue::SyncAction::Delete {
                        match list_item(data, 4) {
                            None => Err(ErrorRep::Argument(cmd, 4)),
                            Some(m) => match model_id(m) {
                                None => Err(ErrorRep::ArgumentShape(cmd, 4)),
                                Some(_) => if ty == SyncType::File {
                                    Ok(empty_rep())
                                } else if ty == SyncType::Keychain {
                                    Err(ErrorRep::UnsupportedType(cmd, tt))
                                } else {
                                    Ok(empty_rep())
                                },
                            },
                        }
                    } else {
                        if ty == SyncType::File {
                            Ok(JsonRep::Null)
                        } else if ty == SyncType::Keychain {
                            Err(ErrorRep::UnsupportedType(cmd, tt))
                        } else {
                            match list_item(data, 4) {
                                None => Err(ErrorRep::Argument(cmd, 4)),
                                Some(m) => match obj_field(m, "id"@) {
                                    None => Err(ErrorRep::Decode("model is missing an id"@)),
                                    Some(v) => match text_of(v) {
                                        None => Err(
                                            ErrorRep::Decode("model id is not a string"@),
                                        ),
                                        Some(_) => Ok(m),
                                    },
                                },
                            }
                        }
                    },
                },
            },
        },
    }
}

/// The commands of the dispatch table.
pub open spec fn known_command(cmd: Seq<char>) -> bool {
    ||| cmd == "user:login"@
    ||| cmd == "user:join"@
    ||| cmd == "user:logout"@
    ||| cmd == "user:delete-account"@
    ||| cmd == "app:wipe-user-data"@
    ||| cmd == "app:wipe-app-data"@
    ||| cmd == "sync:start"@
    ||| cmd == "sync:pause"@
    ||| cmd == "sync:resume"@
    ||| cmd == "sync:shutdown"@
    ||| cmd == "app:shutdown"@
    ||| cmd == "sync:delete-item"@
    ||| cmd == "sync:get-frozen"@
    ||| cmd == "sync:get-pending"@
    ||| cmd == "sync:unfreeze-item"@
    ||| cmd == "app:api:set-endpoint"@
    ||| cmd == "profile:load"@
    ||| cmd == "profile:sync:model"@
    ||| cmd == "profile:get-notes"@
    ||| cmd == "profile:find-notes"@
    ||| cmd == "profile:get-tags"@
    ||| cmd == "feedback:send"@
    ||| cmd == "ping"@
}

/// What `dispatch` answers for each command of the table, on the coordinator
/// state it was given; commands outside the table are unknown-command
/// errors carrying the command string itself.
pub open spec fn dispatch_result(cmd: Seq<char>, c: Coordinator, data: JsonRep) -> Result<
    JsonRep,
    ErrorRep,
> {
    if cmd == "user:login"@ || cmd == "user:join"@ {
        match req_text(cmd, data, 2) {
            Err(e) => Err(e),
            Ok(_) => match req_text(cmd, data, 3) {
                Err(e) => Err(e),
                Ok(_) => Ok(empty_rep()),
            },
        }
    } else if cmd == "user:logout"@ || cmd == "user:delete-account"@ || cmd == "app:wipe-user-data"@
        || cmd == "app:wipe-app-data"@ || cmd == "sync:start"@ || cmd == "sync:pause"@ || cmd
        == "sync:resume"@ || cmd == "sync:shutdown"@ || cmd == "app:shutdown"@ {
        Ok(empty_rep())
    } else if cmd == "sync:delete-item"@ {
        match req_sync_id(cmd, data, 2) {
            Err(e) => Err(e),
            Ok(_) => Ok(empty_rep()),
        }
    } else if cmd == "sync:get-frozen"@ {
        Ok(items_value(c.sync.frozen@))
    } else if cmd == "sync:get-pending"@ {
        Ok(items_value(c.sync.pending@))
    } else if cmd == "sync:unfreeze-item"@ {
        match req_sync_id(cmd, data, 2) {
            Err(e) => Err(e),
            Ok(id) => if has_id(c.sync.frozen@, id) {
                Ok(empty_rep())
            } else {
                Err(ErrorRep::NotFound("sync item not frozen"@))
            },
        }
    } else if cmd == "app:api:set-endpoint"@ {
        match req_text(cmd, data, 2) {
            Err(e) => Err(e),
            Ok(_) => Ok(empty_rep()),
        }
    } else if cmd == "profile:load"@ {
        Ok(profile_value(c))
    } else if cmd == "profile:sync:model"@ {
        psm_result(cmd, c, data)
    } else if cmd == "profile:get-notes"@ {
        match req_texts(cmd, data, 2) {
            Err(e) => Err(e),
            Ok(ids) => Ok(JsonRep::List(loaded_notes(entry_reps(c.profile.notes@), ids))),
        }
    } else if cmd == "profile:find-notes"@ {
        match list_item(data, 2) {
            None => Err(ErrorRep::Argument(cmd, 2)),
            Some(_) => match c.search {
                None => Err(ErrorRep::MissingDependency("search is not initialized"@)),
                Some(s) => Ok(
                    JsonRep::List(
                        loaded_notes(entry_reps(c.profile.notes@), str_views(s.note_ids@)),
                    ),
                ),
            },
        }
    } else if cmd == "profile:get-tags"@ {
        match req_text(cmd, data, 2) {
            Err(e) => Err(e),
            Ok(_) => match req_texts(cmd, data, 3) {
                Err(e) => Err(e),
                Ok(_) => match req_int(cmd, data, 4) {
                    Err(e) => Err(e),
                    Ok(_) => match c.search {
                        None => Err(ErrorRep::MissingDependency("search is not initialized"@)),
                        Some(_) => Ok(JsonRep::List(Seq::empty())),
                    },
                },
            },
        }
    } else if cmd == "feedback:send"@ {
        match list_item(data, 2) {
            None => Err(ErrorRep::Argument(cmd, 2)),
            Some(_) => Ok(empty_rep()),
        }
    } else if cmd == "ping"@ {
        Ok(JsonRep::Text("pong"@))
    } else {
        Err(ErrorRep::UnknownCommand(cmd))
    }
}

/// The model of a dispatch answer.
pub open spec fn res_rep(r: Result<JsonVal, DispatchError>) -> Result<JsonRep, ErrorRep> {
    match r {
        Ok(v) => Ok(v.rep()),
        Err(e) => Err(e.rep()),
    }
}

/// An empty profile: every collection cleared.
pub open spec fn profile_empty(p: Profile) -> bool {
    &&& p.spaces@.len() == 0
    &&& p.boards@.len() == 0
    &&& p.notes@.len() == 0
    &&& p.invites@.len() == 0
    &&& p.user_data is None
}

fn is_cmd(cmd: &String, lit: &str) -> (r: bool)
    ensures
        r == (cmd@ == lit@),
{
    *cmd == lit.to_owned()
}

fn get_text_arg(cmd: &String, data: &JsonVal, i: usize) -> (r: Result<String, DispatchError>)
    ensures
        match r {
            Ok(s) => req_text(cmd@, data.rep(), i as int) == Ok::<Seq<char>, ErrorRep>(s@),
            Err(e) => req_text(cmd@, data.rep(), i as int) == Err::<Seq<char>, ErrorRep>(e.rep()),
        },
{
    match data.get_index(i) {
        None => Err(DispatchError::Argument(cmd.clone(), i)),
        Some(v) => match v.as_text() {
            None => Err(DispatchError::ArgumentShape(cmd.clone(), i)),
            Some(s) => Ok(s.clone()),
        },
    }
}

fn get_sync_id_arg(cmd: &String, data: &JsonVal, i: usize) -> (r: Result<u64, DispatchError>)
    ensures
        match r {
            Ok(id) => req_sync_id(cmd@, data.rep(), i as int) == Ok::<u64, ErrorRep>(id),
            Err(e) => req_sync_id(cmd@, data.rep(), i as int) == Err::<u64, ErrorRep>(e.rep()),
        },
{
    match data.get_index(i) {
        None => Err(DispatchError::Argument(cmd.clone(), i)),
        Some(v) => match v.as_int() {
            None => Err(DispatchError::ArgumentShape(cmd.clone(), i)),
            Some(n) => if n >= 0 {
                Ok(n as u64)
            } else {
                Err(DispatchError::ArgumentShape(cmd.clone(), i))
            },
        },
    }
}

fn get_texts_arg(cmd: &String, data: &JsonVal, i: usize) -> (r: Result<Vec<String>, DispatchError>)
    ensures
        match r {
            Ok(ids) => req_texts(cmd@, data.rep(), i as int) == Ok::<Seq<Seq<char>>, ErrorRep>(
                str_views(ids@),
            ),
            Err(e) => req_texts(cmd@, data.rep(), i as int) == Err::<Seq<Seq<char>>, ErrorRep>(
                e.rep(),
            ),
        },
{
    let arg = match data.get_index(i) {
        None => {
            return Err(DispatchError::Argument(cmd.clone(), i));
        },
        Some(v) => v,
    };
    match arg {
        JsonVal::List(items) => {
            let ghost reps = reps_of(items@);
            proof {
                crate::json::lemma_reps_of(items@);
            }
            let mut out: Vec<String> = Vec::new();
            let mut idx: usize = 0;
            proof {
                assert(reps.subrange(0, 0) =~= Seq::<JsonRep>::empty());
                assert(str_views(out@) =~= Seq::<Seq<char>>::empty());
            }
            while idx < items.len()
                invariant
                    *arg == JsonVal::List(*items),
                    list_item(data.rep(), i as int) == Some(arg.rep()),
                    idx <= items@.len(),
                    reps == reps_of(items@),
                    reps.len() == items@.len(),
                    forall|j: int| 0 <= j < items@.len() ==> reps[j] == items@[j].rep(),
                    texts_of(reps.subrange(0, idx as int)) == Some(str_views(out@)),
                    out@.len() == idx as nat,
                decreases items@.len() - idx,
            {
                proof {
                    assert(reps.subrange(0, idx as int + 1).drop_last() =~= reps.subrange(
                        0,
                        idx as int,
                    ));
                }
                match items[idx].as_text() {
                    None => {
                        proof {
                            lemma_texts_of_bad(reps, idx as int);
                        }
                        return Err(DispatchError::ArgumentShape(cmd.clone(), i));
                    },
                    Some(s) => {
                        let ghost prev = out@;
                        out.push(s.clone());
                        proof {
                            assert(out@.drop_last() =~= prev);
                            assert(str_views(out@) =~= str_views(prev).push(out@.last()@));
                        }
                    },
                }
                idx += 1;
            }
            proof {
                assert(reps.subrange(0, reps.len() as int) =~= reps);
            }
            Ok(out)
        },
        _ => Err(DispatchError::ArgumentShape(cmd.clone(), i)),
    }
}

/// If the item at `k` is not a text, the whole list has no text reading.
proof fn lemma_texts_of_bad(reps: Seq<JsonRep>, k: int)
    requires
        0 <= k < reps.len(),
        text_of(reps[k]) is None,
    ensures
        texts_of(reps) is None,
    decreases reps.len(),
{
    if reps.len() > 0 {
        if k < reps.len() - 1 {
            lemma_texts_of_bad(reps.drop_last(), k);
        }
    }
}

/// The wire name of a sync action.
fn action_text(a: crate::sync_queue::SyncAction) -> (r: String)
    ensures
        r@ == action_name_of(a),
{
    match a {
        crate::sync_queue::SyncAction::Add => "add".to_owned(),
        crate::sync_queue::SyncAction::Edit => "edit".to_owned(),
        crate::sync_queue::SyncAction::Delete => "delete".to_owned(),
    }
}

/// The wire name of a sync type.
fn type_text(t: SyncType) -> (r: String)
    ensures
        r@ == kind_name_of(t),
{
    match t {
        SyncType::User => "user".to_owned(),
        SyncType::Space => "space".to_owned(),
        SyncType::Board => "board".to_owned(),
        SyncType::Note => "note".to_owned(),
        SyncType::Invite => "invite".to_owned(),
        SyncType::File => "file".to_owned(),
        SyncType::Keychain => "keychain".to_owned(),
    }
}

/// The wire value listing queued sync items, each with its id and payload.
fn build_items_value(items: &Vec<crate::sync_queue::SyncItem>) -> (r: JsonVal)
    requires
        forall|j: int| 0 <= j < items@.len() ==> items@[j].id <= i64::MAX,
    ensures
        r.rep() == items_value(items@),
{
    let mut out: Vec<JsonVal> = Vec::new();
    let mut idx: usize = 0;
    while idx < items.len()
        invariant
            idx <= items@.len(),
            forall|j: int| 0 <= j < items@.len() ==> items@[j].id <= i64::MAX,
            out@.len() == idx as nat,
            forall|j: int| 0 <= j < idx ==> out@[j].rep() == sync_item_rep(items@[j]),
        decreases items@.len() - idx,
    {
        let it = &items[idx];
        let mut fields: Vec<crate::json::JsonField> = Vec::new();
        fields.push(crate::json::JsonField { key: "id".to_owned(), val: JsonVal::Int(
            it.id as i64,
        ) });
        fields.push(crate::json::JsonField {
            key: "action".to_owned(),
            val: JsonVal::Text(action_text(it.record.action)),
        });
        fields.push(crate::json::JsonField {
            key: "type".to_owned(),
            val: JsonVal::Text(type_text(it.record.ty)),
        });
        fields.push(crate::json::JsonField {
            key: "payload".to_owned(),
            val: it.record.payload.deep_copy(),
        });
        let item = JsonVal::Object(fields);
        proof {
            crate::json::lemma_field_reps_of(fields@);
            assert(crate::json::field_reps_of(fields@) =~= sync_item_rep(
                items@[idx as int],
            )->Object_0);
            assert(item.rep() == sync_item_rep(items@[idx as int]));
        }
        out.push(item);
        idx += 1;
    }
    let r = JsonVal::List(out);
    proof {
        crate::json::lemma_reps_of(out@);
        assert(reps_of(out@) =~= items_value(items@)->List_0);
        assert(r.rep() == items_value(items@));
    }
    r
}

/// Copies of the payloads of `entries`, in order.
fn datas_vec(entries: &Vec<crate::coordinator::Entry>) -> (r: Vec<JsonVal>)
    ensures
        reps_of(r@) == datas_of(entry_reps(entries@)),
{
    let ghost reps = entry_reps(entries@);
    proof {
        crate::coordinator::lemma_entry_reps(entries@);
    }
    let mut out: Vec<JsonVal> = Vec::new();
    let mut idx: usize = 0;
    while idx < entries.len()
        invariant
            idx <= entries@.len(),
            reps == entry_reps(entries@),
            reps.len() == entries@.len(),
            forall|j: int| 0 <= j < entries@.len() ==> reps[j] == entries@[j].rep(),
            out@.len() == idx as nat,
            forall|j: int| 0 <= j < idx ==> out@[j].rep() == reps[j].data,
        decreases entries@.len() - idx,
    {
        let copied = entries[idx].data.deep_copy();
        out.push(copied);
        idx += 1;
    }
    proof {
        crate::json::lemma_reps_of(out@);
        assert(reps_of(out@) =~~= datas_of(reps));
    }
    out
}

/// The wire value of the profile snapshot: its spaces and boards.
fn build_profile_value(coord: &Coordinator) -> (r: JsonVal)
    ensures
        r.rep() == profile_value(*coord),
{
    let spaces = datas_vec(&coord.profile.spaces);
    let boards = datas_vec(&coord.profile.boards);
    let mut fields: Vec<crate::json::JsonField> = Vec::new();
    fields.push(crate::json::JsonField { key: "spaces".to_owned(), val: JsonVal::List(spaces) });
    fields.push(crate::json::JsonField { key: "boards".to_owned(), val: JsonVal::List(boards) });
    let r = JsonVal::Object(fields);
    proof {
        crate::json::lemma_field_reps_of(fields@);
        assert(crate::json::field_reps_of(fields@) =~= profile_value(*coord)->Object_0);
        assert(r.rep() == profile_value(*coord));
    }
    r
}


/// How a successful command moves the coordinator: one arm per command of
/// the table, in table order.  Commands that only read leave the state as
/// it was.
pub open spec fn dispatch_state(
    cmd: Seq<char>,
    c0: Coordinator,
    data: JsonRep,
    c1: Coordinator,
) -> bool {
    if cmd == "user:login"@ || cmd == "user:join"@ {
        (c1.user matches Some(u) && req_text(cmd, data, 2) == Ok::<Seq<char>, ErrorRep>(u@)) && c1
            == (Coordinator { user: c1.user, ..c0 })
    } else if cmd == "user:logout"@ {
        c1 == (Coordinator { user: None, ..c0 })
    } else if cmd == "user:delete-account"@ {
        c1 == (Coordinator { user: None, profile: c1.profile, ..c0 }) && profile_empty(c1.profile)
    } else if cmd == "app:wipe-user-data"@ {
        c1 == (Coordinator { profile: c1.profile, sync: c1.sync, ..c0 }) && profile_empty(
            c1.profile,
        ) && c1.sync.pending@.len() == 0 && c1.sync.frozen@.len() == 0 && c1.sync.next_id
            == c0.sync.next_id
    } else if cmd == "app:wipe-app-data"@ {
        c1 == (Coordinator { profile: c1.profile, sync: c1.sync, user: None, ..c0 })
            && profile_empty(c1.profile) && c1.sync.pending@.len() == 0 && c1.sync.frozen@.len()
            == 0 && c1.sync.next_id == c0.sync.next_id
    } else if cmd == "sync:start"@ {
        c1 == (Coordinator { sync_state: SyncState::Running, ..c0 })
    } else if cmd == "sync:pause"@ {
        c1 == (Coordinator { sync_state: SyncState::Paused, ..c0 })
    } else if cmd == "sync:resume"@ {
        c1 == (Coordinator { sync_state: SyncState::Running, ..c0 })
    } else if cmd == "sync:shutdown"@ {
        c1 == (Coordinator { sync_state: SyncState::Stopped, ..c0 })
    } else if cmd == "app:shutdown"@ {
        c1 == (Coordinator {
            sync_state: SyncState::Stopped,
            pending_events: c1.pending_events,
            ..c0
        }) && c1.pending_events@ == c0.pending_events@ + tokens_for(
            c0.events.bindings@,
            EventKind::AppShutdown,
        )
    } else if cmd == "sync:delete-item"@ {
        c1 == (Coordinator { sync: c1.sync, ..c0 }) && (req_sync_id(cmd, data, 2) matches Ok(id)
            && c1.sync.pending@ == without_id(c0.sync.pending@, id) && c1.sync.frozen@
            == without_id(c0.sync.frozen@, id) && c1.sync.next_id == c0.sync.next_id)
    } else if cmd == "sync:get-frozen"@ || cmd == "sync:get-pending"@ {
        c1 == c0
    } else if cmd == "sync:unfreeze-item"@ {
        c1 == (Coordinator { sync: c1.sync, ..c0 }) && (req_sync_id(cmd, data, 2) matches Ok(id)
            && c1.sync.frozen@ == without_id(c0.sync.frozen@, id) && (exists|i: int|
            0 <= i < c0.sync.frozen@.len() && c0.sync.frozen@[i].id == id && c1.sync.pending@
                == c0.sync.pending@.push(c0.sync.frozen@[i])) && !has_id(c1.sync.frozen@, id)
            && c1.sync.next_id == c0.sync.next_id)
    } else if cmd == "app:api:set-endpoint"@ {
        c1 == (Coordinator { api_endpoint: c1.api_endpoint, ..c0 }) && req_text(cmd, data, 2)
            == Ok::<Seq<char>, ErrorRep>(c1.api_endpoint@)
    } else if cmd == "profile:load"@ {
        c1 == c0
    } else if cmd == "profile:sync:model"@ {
        psm_state(cmd, c0, data, c1)
    } else {
        c1 == c0
    }
}

/// Routes one decoded command to the operation it names.  The answer is
/// `dispatch_result` of the command on the state it found; a success moves
/// the state as `dispatch_state` says, and an error leaves it untouched.
/// Sync ids travel as 64-bit signed wire integers, so the id counter must
/// still fit one.
pub fn dispatch(cmd: &String, coord: &mut Coordinator, data: &JsonVal) -> (r: Result<
    JsonVal,
    DispatchError,
>)
    requires
        old(coord).wf(),
        old(coord).sync.next_id <= 0x7fff_ffff_ffff_ffff,
    ensures
        res_rep(r) == dispatch_result(cmd@, *old(coord), data.rep()),
        final(coord).wf(),
        final(coord).sync.next_id == old(coord).sync.next_id,
        r is Err ==> *final(coord) == *old(coord),
        r is Ok ==> dispatch_state(cmd@, *old(coord), data.rep(), *final(coord)),
{
    if is_cmd(cmd, "user:login") {
        let username = match get_text_arg(cmd, data, 2) {
            Ok(s) => s,
            Err(e) => {
                return Err(e);
            },
        };
        let password = match get_text_arg(cmd, data, 3) {
            Ok(s) => s,
            Err(e) => {
                return Err(e);
            },
        };
        coord.login(username, password);
        Ok(JsonVal::empty_object())
    } else if is_cmd(cmd, "user:join") {
        let username = match get_text_arg(cmd, data, 2) {
            Ok(s) => s,
            Err(e) => {
                return Err(e);
            },
        };
        let password = match get_text_arg(cmd, data, 3) {
            Ok(s) => s,
            Err(e) => {
                return Err(e);
            },
        };
        coord.join(username, password);
        Ok(JsonVal::empty_object())
    } else if is_cmd(cmd, "user:logout") {
        coord.logout();
        Ok(JsonVal::empty_object())
    } else if is_cmd(cmd, "user:delete-account") {
        coord.delete_account();
        Ok(JsonVal::empty_object())
    } else if is_cmd(cmd, "app:wipe-user-data") {
        coord.wipe_user_data();
        Ok(JsonVal::empty_object())
    } else if is_cmd(cmd, "app:wipe-app-data") {
        coord.wipe_app_data();
        Ok(JsonVal::empty_object())
    } else if is_cmd(cmd, "sync:start") {
        coord.sync_start();
        Ok(JsonVal::empty_object())
    } else if is_cmd(cmd, "sync:pause") {
        coord.sync_pause();
        Ok(JsonVal::empty_object())
    } else if is_cmd(cmd, "sync:resume") {
        coord.sync_resume();
        Ok(JsonVal::empty_object())
    } else if is_cmd(cmd, "sync:shutdown") {
        coord.sync_shutdown();
        Ok(JsonVal::empty_object())
    } else if is_cmd(cmd, "app:shutdown") {
        coord.sync_shutdown();
        let mut fired = coord.events.trigger(EventKind::AppShutdown);
        coord.pending_events.append(&mut fired);
        Ok(JsonVal::empty_object())
    } else if is_cmd(cmd, "sync:delete-item") {
        let id = match get_sync_id_arg(cmd, data, 2) {
            Ok(id) => id,
            Err(e) => {
                return Err(e);
            },
        };
        coord.sync.delete(id);
        Ok(JsonVal::empty_object())
    } else if is_cmd(cmd, "sync:get-frozen") {
        Ok(build_items_value(&coord.sync.frozen))
    } else if is_cmd(cmd, "sync:get-pending") {
        Ok(build_items_value(&coord.sync.pending))
    } else if is_cmd(cmd, "sync:unfreeze-item") {
        let id = match get_sync_id_arg(cmd, data, 2) {
            Ok(id) => id,
            Err(e) => {
                return Err(e);
            },
        };
        match coord.sync.unfreeze(id) {
            Ok(()) => Ok(JsonVal::empty_object()),
            Err(e) => Err(e),
        }
    } else if is_cmd(cmd, "app:api:set-endpoint") {
        let endpoint = match get_text_arg(cmd, data, 2) {
            Ok(s) => s,
            Err(e) => {
                return Err(e);
            },
        };
        coord.set_endpoint(endpoint);
        Ok(JsonVal::empty_object())
    } else if is_cmd(cmd, "profile:load") {
        Ok(build_profile_value(coord))
    } else if is_cmd(cmd, "profile:sync:model") {
        dispatch_sync_model(cmd, coord, data)
    } else if is_cmd(cmd, "profile:get-notes") {
        let ids = match get_texts_arg(cmd, data, 2) {
            Ok(ids) => ids,
            Err(e) => {
                return Err(e);
            },
        };
        let notes = coord.load_notes(&ids);
        Ok(JsonVal::List(notes))
    } else if is_cmd(cmd, "profile:find-notes") {
        let query = match data.get_index(2) {
            Some(v) => v,
            None => {
                return Err(DispatchError::Argument(cmd.clone(), 2));
            },
        };
        let ids = match &coord.search {
            None => {
                return Err(
                    DispatchError::MissingDependency("search is not initialized".to_owned()),
                );
            },
            Some(s) => s.find(query),
        };
        let notes = coord.load_notes(&ids);
        Ok(JsonVal::List(notes))
    } else if is_cmd(cmd, "profile:get-tags") {
        let _space_id = match get_text_arg(cmd, data, 2) {
            Ok(s) => s,
            Err(e) => {
                return Err(e);
            },
        };
        let _boards = match get_texts_arg(cmd, data, 3) {
            Ok(b) => b,
            Err(e) => {
                return Err(e);
            },
        };
        let _limit = match data.get_index(4) {
            Some(v) => match v.as_int() {
                Some(n) => n,
                None => {
                    return Err(DispatchError::ArgumentShape(cmd.clone(), 4));
                },
            },
            None => {
                return Err(DispatchError::Argument(cmd.clone(), 4));
            },
        };
        match &coord.search {
            None => Err(DispatchError::MissingDependency("search is not initialized".to_owned())),
            Some(_) => {
                let r = JsonVal::List(Vec::new());
                proof {
                    assert(reps_of(Seq::<JsonVal>::empty()) =~= Seq::<JsonRep>::empty());
                }
                Ok(r)
            },
        }
    } else if is_cmd(cmd, "feedback:send") {
        match data.get_index(2) {
            Some(_) => Ok(JsonVal::empty_object()),
            None => Err(DispatchError::Argument(cmd.clone(), 2)),
        }
    } else if is_cmd(cmd, "ping") {
        Ok(JsonVal::make_text("pong"))
    } else {
        Err(DispatchError::UnknownCommand(cmd.clone()))
    }
}

/// How `profile:sync:model` moves the coordinator when it succeeds.
pub open spec fn psm_state(cmd: Seq<char>, c0: Coordinator, data: JsonRep, c1: Coordinator) -> bool {
    match (req_text(cmd, data, 2), req_text(cmd, data, 3)) {
        (Ok(at), Ok(tt)) => match (action_of(at), type_of(tt)) {
            (Some(action), Some(ty)) => {
                if ty == SyncType::File || ty == SyncType::Keychain {
                    c1 == c0
                } else if action == crate::sync_queue::SyncAction::Delete {
                    match list_item(data, 4) {
                        Some(m) => match model_id(m) {
                            Some(id) => psm_deleted(c0, ty, id, c1),
                            None => c1 == c0,
                        },
                        None => c1 == c0,
                    }
                } else {
                    match list_item(data, 4) {
                        Some(m) => match model_id(m) {
                            Some(id) => psm_saved(c0, ty, id, m, c1),
                            None => c1 == c0,
                        },
                        None => c1 == c0,
                    }
                }
            },
            _ => c1 == c0,
        },
        _ => c1 == c0,
    }
}

/// The state move of a direct-sync save of payload `m` under `id`.
pub open spec fn psm_saved(
    c0: Coordinator,
    ty: SyncType,
    id: Seq<char>,
    m: JsonRep,
    c1: Coordinator,
) -> bool {
    &&& c1.sync == c0.sync
    &&& c1.sync_state == c0.sync_state
    &&& c1.api_endpoint == c0.api_endpoint
    &&& c1.user == c0.user
    &&& c1.events == c0.events
    &&& c1.pending_events == c0.pending_events
    &&& (ty == SyncType::User ==> c1.profile == (Profile {
        user_data: c1.profile.user_data,
        ..c0.profile
    }) && (c1.profile.user_data matches Some(d) && d.rep() == m) && c1.search == c0.search)
    &&& (ty == SyncType::Space ==> c1.profile == (Profile {
        spaces: c1.profile.spaces,
        ..c0.profile
    }) && entry_reps(c1.profile.spaces@) == upserted(entry_reps(c0.profile.spaces@), id, m)
        && c1.search == c0.search)
    &&& (ty == SyncType::Board ==> c1.profile == (Profile {
        boards: c1.profile.boards,
        ..c0.profile
    }) && entry_reps(c1.profile.boards@) == upserted(entry_reps(c0.profile.boards@), id, m)
        && c1.search == c0.search)
    &&& (ty == SyncType::Invite ==> c1.profile == (Profile {
        invites: c1.profile.invites,
        ..c0.profile
    }) && entry_reps(c1.profile.invites@) == upserted(entry_reps(c0.profile.invites@), id, m)
        && c1.search == c0.search)
    &&& (ty == SyncType::Note ==> c1.profile == (Profile {
        notes: c1.profile.notes,
        ..c0.profile
    }) && entry_reps(c1.profile.notes@) == upserted(entry_reps(c0.profile.notes@), id, m) && (
    match c0.search {
        None => c1.search is None,
        Some(s) => c1.search matches Some(s2) && (if has_sid(s.note_ids@, id) {
            s2.note_ids@ == s.note_ids@
        } else {
            s2.note_ids@.len() == s.note_ids@.len() + 1 && s2.note_ids@.drop_last() == s.note_ids@
                && s2.note_ids@.last()@ == id
        }),
    }))
}

/// The state move of a direct-sync delete of the record under `id`.
pub open spec fn psm_deleted(c0: Coordinator, ty: SyncType, id: Seq<char>, c1: Coordinator) -> bool {
    &&& c1.sync == c0.sync
    &&& c1.sync_state == c0.sync_state
    &&& c1.api_endpoint == c0.api_endpoint
    &&& c1.user == c0.user
    &&& c1.events == c0.events
    &&& c1.pending_events == c0.pending_events
    &&& (ty == SyncType::User ==> c1.profile == (Profile { user_data: None, ..c0.profile })
        && c1.search == c0.search)
    &&& (ty == SyncType::Space ==> c1.profile == (Profile {
        spaces: c1.profile.spaces,
        ..c0.profile
    }) && entry_reps(c1.profile.spaces@) == deleted(entry_reps(c0.profile.spaces@), id)
        && c1.search == c0.search)
    &&& (ty == SyncType::Board ==> c1.profile == (Profile {
        boards: c1.profile.boards,
        ..c0.profile
    }) && entry_reps(c1.profile.boards@) == deleted(entry_reps(c0.profile.boards@), id)
        && c1.search == c0.search)
    &&& (ty == SyncType::Invite ==> c1.profile == (Profile {
        invites: c1.profile.invites,
        ..c0.profile
    }) && entry_reps(c1.profile.invites@) == deleted(entry_reps(c0.profile.invites@), id)
        && c1.search == c0.search)
    &&& (ty == SyncType::Note ==> c1.profile == (Profile {
        notes: c1.profile.notes,
        ..c0.profile
    }) && entry_reps(c1.profile.notes@) == deleted(entry_reps(c0.profile.notes@), id) && (
    match c0.search {
        None => c1.search is None,
        Some(s) => c1.search matches Some(s2) && s2.note_ids@ == ids_without(s.note_ids@, id),
    }))
}

/// The `profile:sync:model` routing: decode the action, the type, and the
/// model or id, then save or delete directly.
fn dispatch_sync_model(cmd: &String, coord: &mut Coordinator, data: &JsonVal) -> (r: Result<
    JsonVal,
    DispatchError,
>)
    requires
        old(coord).wf(),
        cmd@ == "profile:sync:model"@,
    ensures
        res_rep(r) == psm_result(cmd@, *old(coord), data.rep()),
        final(coord).wf(),
        final(coord).sync.next_id == old(coord).sync.next_id,
        r is Err ==> *final(coord) == *old(coord),
        r is Ok ==> psm_state(cmd@, *old(coord), data.rep(), *final(coord)),
{
    let action_text = match get_text_arg(cmd, data, 2) {
        Ok(s) => s,
        Err(e) => {
            return Err(e);
        },
    };
    let action = if action_text == "add".to_owned() {
        crate::sync_queue::SyncAction::Add
    } else if action_text == "edit".to_owned() {
        crate::sync_queue::SyncAction::Edit
    } else if action_text == "delete".to_owned() {
        crate::sync_queue::SyncAction::Delete
    } else {
        return Err(DispatchError::ArgumentShape(cmd.clone(), 2));
    };
    let type_text = match get_text_arg(cmd, data, 3) {
        Ok(s) => s,
        Err(e) => {
            return Err(e);
        },
    };
    let ty = if type_text == "user".to_owned() {
        SyncType::User
    } else if type_text == "space".to_owned() {
        SyncType::Space
    } else if type_text == "board".to_owned() {
        SyncType::Board
    } else if type_text == "note".to_owned() {
        SyncType::Note
    } else if type_text == "invite".to_owned() {
        SyncType::Invite
    } else if type_text == "file".to_owned() {
        SyncType::File
    } else if type_text == "keychain".to_owned() {
        SyncType::Keychain
    } else {
        return Err(DispatchError::ArgumentShape(cmd.clone(), 3));
    };
    match action {
        crate::sync_queue::SyncAction::Delete => {
            let model = match data.get_index(4) {
                Some(v) => v,
                None => {
                    return Err(DispatchError::Argument(cmd.clone(), 4));
                },
            };
            let id = match model.get_key(&"id".to_owned()) {
                Some(v) => match v.as_text() {
                    Some(s) => s.clone(),
                    None => {
                        return Err(DispatchError::ArgumentShape(cmd.clone(), 4));
                    },
                },
                None => {
                    return Err(DispatchError::ArgumentShape(cmd.clone(), 4));
                },
            };
            match ty {
                SyncType::File => Ok(JsonVal::empty_object()),
                SyncType::Keychain => Err(
                    DispatchError::UnsupportedType(cmd.clone(), type_text),
                ),
                _ => {
                    coord.delete_model(ty, &id);
                    Ok(JsonVal::empty_object())
                },
            }
        },
        _ => {
            match ty {
                SyncType::File => Ok(JsonVal::Null),
                SyncType::Keychain => Err(
                    DispatchError::UnsupportedType(cmd.clone(), type_text),
                ),
                _ => {
                    let model = match data.get_index(4) {
                        Some(v) => v,
                        None => {
                            return Err(DispatchError::Argument(cmd.clone(), 4));
                        },
                    };
                    let owned = model.deep_copy();
                    match coord.save_model(ty, owned) {
                        Ok(v) => Ok(v),
                        Err(e) => Err(e),
                    }
                },
            }
        },
    }
}

/// A response addressed to one request: the echoed request id and either the
/// handler's value or the error it raised.
pub struct Response {
    pub request_id: String,
    pub body: Result<JsonVal, DispatchError>,
}

/// The text at position `i` of the envelope, when there is one.
pub open spec fn env_text(env: JsonRep, i: int) -> Option<Seq<char>> {
    match list_item(env, i) {
        None => None,
        Some(v) => text_of(v),
    }
}

/// Processes one raw message: parse the envelope, read the request id and the
/// command, dispatch, and hand back exactly one response addressed to that
/// id.  A message whose request id or command cannot be read aborts with a
/// decode error and no response; every later failure becomes an error
/// response instead.  Sending the response, and logging a failed send, is the
/// transport's work, past this core.
pub fn process(coord: &mut Coordinator, msg: &str) -> (r: Result<Response, DispatchError>)
    requires
        old(coord).wf(),
        old(coord).sync.next_id <= 0x7fff_ffff_ffff_ffff,
    ensures
        final(coord).wf(),
        final(coord).sync.next_id == old(coord).sync.next_id,
        r is Err ==> *final(coord) == *old(coord),
        match json_parse(msg@) {
            None => r matches Err(e) && e.rep() == ErrorRep::Decode("message is not valid JSON"@),
            Some(env) => match env_text(env, 0) {
                None => r matches Err(e) && e.rep() == ErrorRep::Decode("missing mid (0)"@),
                Some(mid) => match env_text(env, 1) {
                    None => r matches Err(e) && e.rep() == ErrorRep::Decode("missing cmd (1)"@),
                    Some(cmd) => r matches Ok(resp) && resp.request_id@ == mid
                        && res_rep(resp.body) == dispatch_result(cmd, *old(coord), env)
                        && (resp.body is Err ==> *final(coord) == *old(coord))
                        && (resp.body is Ok
                            ==> dispatch_state(cmd, *old(coord), env, *final(coord))),
                },
            },
        },
{
    let data = match crate::json::parse_json(msg) {
        Some(v) => v,
        None => {
            return Err(DispatchError::Decode("message is not valid JSON".to_owned()));
        },
    };
    let mid = match data.get_index(0) {
        Some(v) => match v.as_text() {
            Some(s) => s.clone(),
            None => {
                return Err(DispatchError::Decode("missing mid (0)".to_owned()));
            },
        },
        None => {
            return Err(DispatchError::Decode("missing mid (0)".to_owned()));
        },
    };
    let cmd = match data.get_index(1) {
        Some(v) => match v.as_text() {
            Some(s) => s.clone(),
            None => {
                return Err(DispatchError::Decode("missing cmd (1)".to_owned()));
            },
        },
        None => {
            return Err(DispatchError::Decode("missing cmd (1)".to_owned()));
        },
    };
    let body = dispatch(&cmd, coord, &data);
    Ok(Response { request_id: mid, body })
}

} // verus!

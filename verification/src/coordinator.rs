//! The process-wide application handle: the profile snapshot, the optional
//! search index handle, the outgoing sync queue, the event bus, and the
//! high-level operations the dispatcher routes to.
//!
//! Cryptography, networking and on-disk storage are collaborators outside
//! this core; the operations here record their decisions on the in-memory
//! state, which is what the command protocol observes.

use vstd::prelude::*;

use crate::errors::{DispatchError, ErrorRep};
use crate::events::Emitter;
use crate::json::{obj_field, text_of, JsonRep, JsonVal};
use crate::sync_queue::SyncQueue;
use crate::sync_queue::SyncType;

verus! {

broadcast use vstd::std_specs::vec::group_vec_axioms, vstd::seq::group_seq_axioms;

/// Mathematical model of a stored record: its id and its payload.
#[verifier::ext_equal]
pub ghost struct EntryRep {
    pub id: Seq<char>,
    pub data: JsonRep,
}

/// A stored record: a model payload under its id.
pub struct Entry {
    pub id: String,
    pub data: JsonVal,
}

impl Entry {
    pub open spec fn rep(self) -> EntryRep {
        EntryRep { id: self.id@, data: self.data.rep() }
    }
}

/// The models of a sequence of records, in order.
pub open spec fn entry_reps(s: Seq<Entry>) -> Seq<EntryRep>
    decreases s.len(),
{
    if s.len() == 0 {
        Seq::empty()
    } else {
        entry_reps(s.drop_last()).push(s.last().rep())
    }
}

pub proof fn lemma_entry_reps(s: Seq<Entry>)
    ensures
        entry_reps(s).len() == s.len(),
        forall|i: int| 0 <= i < s.len() ==> entry_reps(s)[i] == s[i].rep(),
    decreases s.len(),
{
    if s.len() > 0 {
        lemma_entry_reps(s.drop_last());
    }
}

/// The position of the record under `id`, scanning from the front.
pub open spec fn find_entry(s: Seq<EntryRep>, id: Seq<char>) -> Option<int>
    decreases s.len(),
{
    if s.len() == 0 {
        None
    } else if s[0].id == id {
        Some(0)
    } else {
        match find_entry(s.drop_first(), id) {
            Some(i) => Some(i + 1),
            None => None,
        }
    }
}

/// `s` after storing `data` under `id`: replaced in place when present,
/// appended when new.
pub open spec fn upserted(s: Seq<EntryRep>, id: Seq<char>, data: JsonRep) -> Seq<EntryRep> {
    match find_entry(s, id) {
        Some(i) => s.update(i, EntryRep { id, data }),
        None => s.push(EntryRep { id, data }),
    }
}

/// `s` after deleting the record under `id`; unchanged when absent.
pub open spec fn deleted(s: Seq<EntryRep>, id: Seq<char>) -> Seq<EntryRep> {
    match find_entry(s, id) {
        Some(i) => s.remove(i),
        None => s,
    }
}

pub proof fn lemma_find_entry_hit(s: Seq<EntryRep>, id: Seq<char>, k: int)
    requires
        0 <= k < s.len(),
        s[k].id == id,
        forall|j: int| 0 <= j < k ==> s[j].id != id,
    ensures
        find_entry(s, id) == Some(k),
    decreases k,
{
    if k > 0 {
        lemma_find_entry_hit(s.drop_first(), id, k - 1);
    }
}

pub proof fn lemma_find_entry_miss(s: Seq<EntryRep>, id: Seq<char>)
    requires
        forall|j: int| 0 <= j < s.len() ==> s[j].id != id,
    ensures
        find_entry(s, id) is None,
    decreases s.len(),
{
    if s.len() > 0 {
        lemma_find_entry_miss(s.drop_first(), id);
    }
}

/// Pairwise-distinct record ids: what makes a lookup by id unambiguous.
pub open spec fn distinct_ids(s: Seq<EntryRep>) -> bool {
    forall|i: int, j: int| 0 <= i < s.len() && 0 <= j < s.len() && i != j ==> s[i].id != s[j].id
}

/// What `find_entry` answers: the position of `id` when a record carries it,
/// nothing when none does.
pub proof fn lemma_find_entry_props(s: Seq<EntryRep>, id: Seq<char>)
    ensures
        match find_entry(s, id) {
            Some(i) => 0 <= i < s.len() && s[i].id == id,
            None => forall|j: int| 0 <= j < s.len() ==> s[j].id != id,
        },
    decreases s.len(),
{
    if s.len() > 0 && s[0].id != id {
        lemma_find_entry_props(s.drop_first(), id);
        match find_entry(s.drop_first(), id) {
            Some(i) => {
                assert(s.drop_first()[i] == s[i + 1]);
            },
            None => {
                assert forall|j: int| 0 <= j < s.len() implies s[j].id != id by {
                    if j > 0 {
                        assert(s.drop_first()[j - 1] == s[j]);
                    }
                }
            },
        }
    }
}

/// Storing under an id keeps the ids pairwise distinct.
pub proof fn lemma_upserted_distinct(s: Seq<EntryRep>, id: Seq<char>, data: JsonRep)
    requires
        distinct_ids(s),
    ensures
        distinct_ids(upserted(s, id, data)),
{
    lemma_find_entry_props(s, id);
    match find_entry(s, id) {
        Some(i) => {
            let t = s.update(i, EntryRep { id, data });
            assert forall|a: int, b: int|
                0 <= a < t.len() && 0 <= b < t.len() && a != b implies t[a].id != t[b].id by {
                assert(t[a].id == s[a].id && t[b].id == s[b].id);
            }
        },
        None => {
            let t = s.push(EntryRep { id, data });
            assert forall|a: int, b: int|
                0 <= a < t.len() && 0 <= b < t.len() && a != b implies t[a].id != t[b].id by {
                if a < s.len() && b < s.len() {
                    assert(t[a] == s[a] && t[b] == s[b]);
                } else if a < s.len() {
                    assert(t[a] == s[a] && t[b].id == id);
                } else {
                    assert(t[a].id == id && t[b] == s[b]);
                }
            }
        },
    }
}

/// Deleting under an id keeps the ids pairwise distinct.
pub proof fn lemma_deleted_distinct(s: Seq<EntryRep>, id: Seq<char>)
    requires
        distinct_ids(s),
    ensures
        distinct_ids(deleted(s, id)),
{
    lemma_find_entry_props(s, id);
    match find_entry(s, id) {
        Some(i) => {
            let t = s.remove(i);
            assert forall|a: int, b: int|
                0 <= a < t.len() && 0 <= b < t.len() && a != b implies t[a].id != t[b].id by {
                let a0: int = if a < i { a } else { a + 1 };
                let b0: int = if b < i { b } else { b + 1 };
                assert(t[a] == s[a0] && t[b] == s[b0]);
            }
        },
        None => {},
    }
}

/// The run state of the background transmission worker.
#[derive(Clone, Copy, PartialEq, Eq, Structural)]
pub enum SyncState {
    Stopped,
    Running,
    Paused,
}

/// The read-mostly profile snapshot: every loaded record by kind.
pub struct Profile {
    pub spaces: Vec<Entry>,
    pub boards: Vec<Entry>,
    pub notes: Vec<Entry>,
    pub invites: Vec<Entry>,
    pub user_data: Option<JsonVal>,
}

impl Profile {
    /// In every collection the record ids are pairwise distinct, so a lookup
    /// or delete by id is unambiguous.
    pub open spec fn wf(self) -> bool {
        &&& distinct_ids(entry_reps(self.spaces@))
        &&& distinct_ids(entry_reps(self.boards@))
        &&& distinct_ids(entry_reps(self.notes@))
        &&& distinct_ids(entry_reps(self.invites@))
    }

    pub fn new() -> (r: Profile)
        ensures
            r.spaces@ == Seq::<Entry>::empty(),
            r.boards@ == Seq::<Entry>::empty(),
            r.notes@ == Seq::<Entry>::empty(),
            r.invites@ == Seq::<Entry>::empty(),
            r.user_data is None,
            r.wf(),
    {
        Profile {
            spaces: Vec::new(),
            boards: Vec::new(),
            notes: Vec::new(),
            invites: Vec::new(),
            user_data: None,
        }
    }
}

/// The handle to the search collaborator.  Only what this core depends on is
/// modelled: which notes are indexed; ranking and tag statistics stay in the
/// collaborator.
pub struct SearchIndex {
    pub note_ids: Vec<String>,
}

impl SearchIndex {
    pub fn new() -> (r: SearchIndex)
        ensures
            r.note_ids@ == Seq::<String>::empty(),
    {
        SearchIndex { note_ids: Vec::new() }
    }

    /// The ids the index would have a query inspect, in index order; the
    /// query's ranking happens in the search collaborator, past this core.
    pub fn find(&self, _query: &JsonVal) -> (r: Vec<String>)
        ensures
            r@ == self.note_ids@,
    {
        let mut out: Vec<String> = Vec::new();
        let mut idx: usize = 0;
        while idx < self.note_ids.len()
            invariant
                idx <= self.note_ids@.len(),
                out@ =~= self.note_ids@.subrange(0, idx as int),
            decreases self.note_ids@.len() - idx,
        {
            out.push(self.note_ids[idx].clone());
            idx += 1;
        }
        proof {
            assert(self.note_ids@.subrange(0, self.note_ids@.len() as int) =~= self.note_ids@);
        }
        out
    }

    /// Records that the note under `id` is indexed, once.
    fn index_note(&mut self, id: &String)
        ensures
            has_sid(old(self).note_ids@, id@) ==> final(self).note_ids@ == old(self).note_ids@,
            !has_sid(old(self).note_ids@, id@) ==> final(self).note_ids@ == old(
                self,
            ).note_ids@.push(*id),
    {
        let mut idx: usize = 0;
        while idx < self.note_ids.len()
            invariant
                idx <= self.note_ids@.len(),
                self.note_ids@ == old(self).note_ids@,
                forall|j: int| 0 <= j < idx ==> self.note_ids@[j]@ != id@,
            decreases self.note_ids@.len() - idx,
        {
            if self.note_ids[idx] == *id {
                proof {
                    assert(has_sid(old(self).note_ids@, id@));
                }
                return ;
            }
            idx += 1;
        }
        proof {
            assert(!has_sid(old(self).note_ids@, id@));
        }
        self.note_ids.push(id.clone());
    }

    /// Forgets the note under `id`, wherever it stands in the index.
    fn unindex_note(&mut self, id: &String)
        ensures
            final(self).note_ids@ == ids_without(old(self).note_ids@, id@),
    {
        let ghost orig = self.note_ids@;
        let mut out: Vec<String> = Vec::new();
        let mut idx: usize = 0;
        proof {
            reveal(Seq::filter);
            assert(orig.subrange(0, 0).len() == 0);
            assert(out@ =~= ids_without(orig.subrange(0, 0), id@));
        }
        while idx < self.note_ids.len()
            invariant
                idx <= orig.len(),
                self.note_ids@ == orig,
                out@ == ids_without(orig.subrange(0, idx as int), id@),
            decreases orig.len() - idx,
        {
            proof {
                assert(orig.subrange(0, idx as int + 1).drop_last() =~= orig.subrange(
                    0,
                    idx as int,
                ));
                reveal(Seq::filter);
            }
            if !(self.note_ids[idx] == *id) {
                out.push(self.note_ids[idx].clone());
            }
            idx += 1;
        }
        proof {
            assert(orig.subrange(0, orig.len() as int) =~= orig);
        }
        self.note_ids = out;
    }
}

/// The texts of a sequence of strings, in order.
pub open spec fn str_views(s: Seq<String>) -> Seq<Seq<char>> {
    s.map_values(|x: String| x@)
}

/// Whether some id of `s` reads as `id`.
pub open spec fn has_sid(s: Seq<String>, id: Seq<char>) -> bool {
    exists|i: int| 0 <= i < s.len() && s[i]@ == id
}

/// `s` without every id whose text is `id`, order kept.
pub open spec fn ids_without(s: Seq<String>, id: Seq<char>) -> Seq<String> {
    s.filter(|x: String| x@ != id)
}

/// The id a model payload carries under `"id"`, when it is a string.
pub open spec fn model_id(data: JsonRep) -> Option<Seq<char>> {
    match obj_field(data, "id"@) {
        Some(v) => text_of(v),
        None => None,
    }
}

/// The model of `load_notes`: for each requested id, in request order, the
/// payload stored under it, when there is one.
pub open spec fn loaded_notes(notes: Seq<EntryRep>, ids: Seq<Seq<char>>) -> Seq<JsonRep>
    decreases ids.len(),
{
    if ids.len() == 0 {
        Seq::empty()
    } else {
        let rest = loaded_notes(notes, ids.drop_last());
        match find_entry(notes, ids.last()) {
            Some(i) => rest.push(notes[i].data),
            None => rest,
        }
    }
}

/// The coordinator: the application-wide handle the dispatcher works on.
pub struct Coordinator {
    pub profile: Profile,
    pub search: Option<SearchIndex>,
    pub sync: SyncQueue,
    pub sync_state: SyncState,
    pub api_endpoint: String,
    pub user: Option<String>,
    pub events: Emitter,
    /// Tokens of handlers fired by a trigger and not yet acted on by the
    /// main loop.
    pub pending_events: Vec<u64>,
}

impl Coordinator {
    pub open spec fn wf(self) -> bool {
        &&& self.sync.wf()
        &&& self.events.wf()
        &&& self.profile.wf()
    }

    pub fn new() -> (r: Coordinator)
        ensures
            r.profile.spaces@.len() == 0,
            r.profile.boards@.len() == 0,
            r.profile.notes@.len() == 0,
            r.profile.invites@.len() == 0,
            r.profile.user_data is None,
            r.search is None,
            r.sync.pending@.len() == 0,
            r.sync.frozen@.len() == 0,
            r.sync.next_id == 0,
            r.sync_state == SyncState::Stopped,
            r.api_endpoint@ == Seq::<char>::empty(),
            r.user is None,
            r.events.bindings@.len() == 0,
            r.events.next_token == 0,
            r.pending_events@.len() == 0,
            r.wf(),
    {
        Coordinator {
            profile: Profile::new(),
            search: None,
            sync: SyncQueue::new(),
            sync_state: SyncState::Stopped,
            api_endpoint: String::new(),
            user: None,
            events: Emitter::new(),
            pending_events: Vec::new(),
        }
    }

    /// Records a successful login: the credentials themselves are checked by
    /// the crypto and API collaborators before this state change is made.
    pub fn login(&mut self, username: String, password: String)
        ensures
            *final(self) == (Coordinator { user: Some(username), ..*old(self) }),
    {
        let _ = password;
        self.user = Some(username);
    }

    /// Records a newly joined account; otherwise as `login`.
    pub fn join(&mut self, username: String, password: String)
        ensures
            *final(self) == (Coordinator { user: Some(username), ..*old(self) }),
    {
        let _ = password;
        self.user = Some(username);
    }

    /// Forgets the current user.
    pub fn logout(&mut self)
        ensures
            *final(self) == (Coordinator { user: None, ..*old(self) }),
    {
        self.user = None;
    }

    /// Forgets the current user and its profile data; the remote deletion is
    /// the API collaborator's, past this core.
    pub fn delete_account(&mut self)
        ensures
            *final(self) == (Coordinator { user: None, profile: final(self).profile, ..*old(self) }),
            final(self).profile.spaces@.len() == 0,
            final(self).profile.boards@.len() == 0,
            final(self).profile.notes@.len() == 0,
            final(self).profile.invites@.len() == 0,
            final(self).profile.user_data is None,
    {
        self.user = None;
        self.profile = Profile::new();
    }

    /// Clears every loaded user record and both sync sets.
    pub fn wipe_user_data(&mut self)
        requires
            old(self).wf(),
        ensures
            *final(self) == (Coordinator {
                profile: final(self).profile,
                sync: final(self).sync,
                ..*old(self)
            }),
            final(self).profile.spaces@.len() == 0,
            final(self).profile.boards@.len() == 0,
            final(self).profile.notes@.len() == 0,
            final(self).profile.invites@.len() == 0,
            final(self).profile.user_data is None,
            final(self).sync.pending@.len() == 0,
            final(self).sync.frozen@.len() == 0,
            final(self).sync.next_id == old(self).sync.next_id,
            final(self).wf(),
    {
        self.profile = Profile::new();
        let next = self.sync.next_id;
        self.sync = SyncQueue { pending: Vec::new(), frozen: Vec::new(), next_id: next };
    }

    /// Clears user data and the user itself: the app-wide wipe.
    pub fn wipe_app_data(&mut self)
        requires
            old(self).wf(),
        ensures
            *final(self) == (Coordinator {
                profile: final(self).profile,
                sync: final(self).sync,
                user: None,
                ..*old(self)
            }),
            final(self).profile.spaces@.len() == 0,
            final(self).profile.boards@.len() == 0,
            final(self).profile.notes@.len() == 0,
            final(self).profile.invites@.len() == 0,
            final(self).profile.user_data is None,
            final(self).sync.pending@.len() == 0,
            final(self).sync.frozen@.len() == 0,
            final(self).sync.next_id == old(self).sync.next_id,
            final(self).wf(),
    {
        self.wipe_user_data();
        self.user = None;
    }

    /// Starts the background transmission worker.
    pub fn sync_start(&mut self)
        ensures
            *final(self) == (Coordinator { sync_state: SyncState::Running, ..*old(self) }),
    {
        self.sync_state = SyncState::Running;
    }

    /// Pauses the worker; advisory, an in-flight send finishes.
    pub fn sync_pause(&mut self)
        ensures
            *final(self) == (Coordinator { sync_state: SyncState::Paused, ..*old(self) }),
    {
        self.sync_state = SyncState::Paused;
    }

    /// Resumes the worker after a pause.
    pub fn sync_resume(&mut self)
        ensures
            *final(self) == (Coordinator { sync_state: SyncState::Running, ..*old(self) }),
    {
        self.sync_state = SyncState::Running;
    }

    /// Stops the worker; the bounded wait for the worker thread happens in
    /// the harness that owns the thread.
    pub fn sync_shutdown(&mut self)
        ensures
            *final(self) == (Coordinator { sync_state: SyncState::Stopped, ..*old(self) }),
    {
        self.sync_state = SyncState::Stopped;
    }

    /// Points the API client at `endpoint`.
    pub fn set_endpoint(&mut self, endpoint: String)
        ensures
            *final(self) == (Coordinator { api_endpoint: endpoint, ..*old(self) }),
    {
        self.api_endpoint = endpoint;
    }

    /// The payloads stored under `ids`, in request order, skipping absent
    /// ones.
    pub fn load_notes(&self, ids: &Vec<String>) -> (r: Vec<JsonVal>)
        ensures
            crate::json::reps_of(r@) == loaded_notes(
                entry_reps(self.profile.notes@),
                str_views(ids@),
            ),
    {
        let ghost notes_rep = entry_reps(self.profile.notes@);
        let ghost id_views = str_views(ids@);
        let mut out: Vec<JsonVal> = Vec::new();
        let mut idx: usize = 0;
        proof {
            assert(crate::json::reps_of(out@) =~= loaded_notes(
                notes_rep,
                id_views.subrange(0, 0),
            ));
        }
        while idx < ids.len()
            invariant
                idx <= ids@.len(),
                notes_rep == entry_reps(self.profile.notes@),
                id_views == str_views(ids@),
                crate::json::reps_of(out@) == loaded_notes(
                    notes_rep,
                    id_views.subrange(0, idx as int),
                ),
            decreases ids@.len() - idx,
        {
            proof {
                assert(id_views.subrange(0, idx as int + 1).drop_last() =~= id_views.subrange(
                    0,
                    idx as int,
                ));
            }
            proof {
                assert(id_views[idx as int] == ids@[idx as int]@);
            }
            let ghost prev = out@;
            match self.find_note(&ids[idx]) {
                Some(v) => {
                    let copied = v.deep_copy();
                    out.push(copied);
                    proof {
                        assert(out@.drop_last() =~= prev);
                    }
                },
                None => {},
            }
            idx += 1;
        }
        proof {
            assert(id_views.subrange(0, id_views.len() as int) =~= id_views);
        }
        out
    }

    /// The payload stored under note id `id`, when there is one.
    fn find_note(&self, id: &String) -> (r: Option<&JsonVal>)
        ensures
            match r {
                Some(v) => exists|i: int|
                    find_entry(entry_reps(self.profile.notes@), id@) == Some(i) && 0 <= i
                        < entry_reps(self.profile.notes@).len() && v.rep() == entry_reps(
                        self.profile.notes@,
                    )[i].data,
                None => find_entry(entry_reps(self.profile.notes@), id@) is None,
            },
    {
        Self::find_in(&self.profile.notes, id)
    }

    /// Saves a model payload directly (no queuing): the generic "save model"
    /// behind `profile:sync:model` for `Add`/`Edit`.  The payload must carry
    /// its id under `"id"`; missing ids are a decode failure, since id
    /// generation belongs to the storage collaborator.  Answers a copy of
    /// the saved payload.
    pub fn save_model(&mut self, ty: SyncType, data: JsonVal) -> (r: Result<
        JsonVal,
        DispatchError,
    >)
        requires
            ty == SyncType::User || ty == SyncType::Space || ty == SyncType::Board || ty
                == SyncType::Note || ty == SyncType::Invite,
            old(self).profile.wf(),
        ensures
            final(self).profile.wf(),
            match obj_field(data.rep(), "id"@) {
                None => r matches Err(e) && e.rep() == ErrorRep::Decode("model is missing an id"@)
                    && *final(self) == *old(self),
                Some(idv) => match text_of(idv) {
                None => r matches Err(e) && e.rep() == ErrorRep::Decode(
                    "model id is not a string"@,
                ) && *final(self) == *old(self),
                Some(id) => {
                    &&& r matches Ok(v) && v.rep() == data.rep()
                    &&& final(self).sync == old(self).sync
                    &&& final(self).sync_state == old(self).sync_state
                    &&& final(self).api_endpoint == old(self).api_endpoint
                    &&& final(self).user == old(self).user
                    &&& final(self).events == old(self).events
                    &&& final(self).pending_events == old(self).pending_events
                    &&& (ty == SyncType::User ==> final(self).profile == (Profile {
                        user_data: final(self).profile.user_data,
                        ..old(self).profile
                    }) && (final(self).profile.user_data matches Some(d) && d.rep()
                        == data.rep()) && final(self).search == old(self).search)
                    &&& (ty == SyncType::Space ==> final(self).profile == (Profile {
                        spaces: final(self).profile.spaces,
                        ..old(self).profile
                    }) && entry_reps(final(self).profile.spaces@) == upserted(
                        entry_reps(old(self).profile.spaces@),
                        id,
                        data.rep(),
                    ) && final(self).search == old(self).search)
                    &&& (ty == SyncType::Board ==> final(self).profile == (Profile {
                        boards: final(self).profile.boards,
                        ..old(self).profile
                    }) && entry_reps(final(self).profile.boards@) == upserted(
                        entry_reps(old(self).profile.boards@),
                        id,
                        data.rep(),
                    ) && final(self).search == old(self).search)
                    &&& (ty == SyncType::Invite ==> final(self).profile == (Profile {
                        invites: final(self).profile.invites,
                        ..old(self).profile
                    }) && entry_reps(final(self).profile.invites@) == upserted(
                        entry_reps(old(self).profile.invites@),
                        id,
                        data.rep(),
                    ) && final(self).search == old(self).search)
                    &&& (ty == SyncType::Note ==> final(self).profile == (Profile {
                        notes: final(self).profile.notes,
                        ..old(self).profile
                    }) && entry_reps(final(self).profile.notes@) == upserted(
                        entry_reps(old(self).profile.notes@),
                        id,
                        data.rep(),
                    ) && (match old(self).search {
                        None => final(self).search is None,
                        Some(s) => final(self).search matches Some(s2) && (if has_sid(
                            s.note_ids@,
                            id,
                        ) {
                            s2.note_ids@ == s.note_ids@
                        } else {
                            s2.note_ids@.len() == s.note_ids@.len() + 1 && s2.note_ids@.drop_last()
                                == s.note_ids@ && s2.note_ids@.last()@ == id
                        }),
                    }))
                },
                },
            },
    {
        let id = match data.get_key(&"id".to_owned()) {
            Some(v) => match v.as_text() {
                Some(s) => s.clone(),
                None => {
                    return Err(DispatchError::Decode("model id is not a string".to_owned()));
                },
            },
            None => {
                return Err(DispatchError::Decode("model is missing an id".to_owned()));
            },
        };
        match ty {
            SyncType::User => {
                let copy = data.deep_copy();
                self.profile.user_data = Some(data);
                Ok(copy)
            },
            SyncType::Space => {
                let copy = data.deep_copy();
                Self::upsert_in(&mut self.profile.spaces, &id, data);
                Ok(copy)
            },
            SyncType::Board => {
                let copy = data.deep_copy();
                Self::upsert_in(&mut self.profile.boards, &id, data);
                Ok(copy)
            },
            SyncType::Invite => {
                let copy = data.deep_copy();
                Self::upsert_in(&mut self.profile.invites, &id, data);
                Ok(copy)
            },
            SyncType::Note | _ => {
                let copy = data.deep_copy();
                Self::upsert_in(&mut self.profile.notes, &id, data);
                let taken = self.search.take();
                match taken {
                    Some(mut s) => {
                        s.index_note(&id);
                        self.search = Some(s);
                    },
                    None => {},
                }
                Ok(copy)
            },
        }
    }

    /// Deletes a model by id: the generic "delete model" behind
    /// `profile:sync:model` for `Delete`.  Deleting an absent id is a no-op.
    pub fn delete_model(&mut self, ty: SyncType, id: &String)
        requires
            ty == SyncType::User || ty == SyncType::Space || ty == SyncType::Board || ty
                == SyncType::Note || ty == SyncType::Invite,
            old(self).profile.wf(),
        ensures
            final(self).profile.wf(),
            final(self).sync == old(self).sync,
            final(self).sync_state == old(self).sync_state,
            final(self).api_endpoint == old(self).api_endpoint,
            final(self).user == old(self).user,
            final(self).events == old(self).events,
            final(self).pending_events == old(self).pending_events,
            ty == SyncType::User ==> final(self).profile == (Profile {
                user_data: None,
                ..old(self).profile
            }) && final(self).search == old(self).search,
            ty == SyncType::Space ==> final(self).profile == (Profile {
                spaces: final(self).profile.spaces,
                ..old(self).profile
            }) && entry_reps(final(self).profile.spaces@) == deleted(
                entry_reps(old(self).profile.spaces@),
                id@,
            ) && final(self).search == old(self).search,
            ty == SyncType::Board ==> final(self).profile == (Profile {
                boards: final(self).profile.boards,
                ..old(self).profile
            }) && entry_reps(final(self).profile.boards@) == deleted(
                entry_reps(old(self).profile.boards@),
                id@,
            ) && final(self).search == old(self).search,
            ty == SyncType::Invite ==> final(self).profile == (Profile {
                invites: final(self).profile.invites,
                ..old(self).profile
            }) && entry_reps(final(self).profile.invites@) == deleted(
                entry_reps(old(self).profile.invites@),
                id@,
            ) && final(self).search == old(self).search,
            ty == SyncType::Note ==> final(self).profile == (Profile {
                notes: final(self).profile.notes,
                ..old(self).profile
            }) && entry_reps(final(self).profile.notes@) == deleted(
                entry_reps(old(self).profile.notes@),
                id@,
            ) && (match old(self).search {
                None => final(self).search is None,
                Some(s) => final(self).search matches Some(s2) && s2.note_ids@ == ids_without(
                    s.note_ids@,
                    id@,
                ),
            }),
    {
        match ty {
            SyncType::User => {
                self.profile.user_data = None;
            },
            SyncType::Space => {
                Self::delete_in(&mut self.profile.spaces, id);
            },
            SyncType::Board => {
                Self::delete_in(&mut self.profile.boards, id);
            },
            SyncType::Invite => {
                Self::delete_in(&mut self.profile.invites, id);
            },
            SyncType::Note | _ => {
                Self::delete_in(&mut self.profile.notes, id);
                let taken = self.search.take();
                match taken {
                    Some(mut s) => {
                        s.unindex_note(id);
                        self.search = Some(s);
                    },
                    None => {},
                }
            },
        }
    }

    /// Stores `data` under `id` in `entries`: replaced in place when the id
    /// is present, appended when new.
    fn upsert_in(entries: &mut Vec<Entry>, id: &String, data: JsonVal)
        ensures
            entry_reps(final(entries)@) == upserted(entry_reps(old(entries)@), id@, data.rep()),
            distinct_ids(entry_reps(old(entries)@)) ==> distinct_ids(
                entry_reps(final(entries)@),
            ),
    {
        proof {
            if distinct_ids(entry_reps(entries@)) {
                lemma_upserted_distinct(entry_reps(entries@), id@, data.rep());
            }
        }
        let ghost reps = entry_reps(entries@);
        proof {
            lemma_entry_reps(entries@);
        }
        let mut idx: usize = 0;
        while idx < entries.len()
            invariant
                idx <= entries@.len(),
                entries@ == old(entries)@,
                reps == entry_reps(entries@),
                reps.len() == entries@.len(),
                forall|j: int| 0 <= j < entries@.len() ==> reps[j] == entries@[j].rep(),
                forall|j: int| 0 <= j < idx ==> reps[j].id != id@,
            decreases entries@.len() - idx,
        {
            if entries[idx].id == *id {
                proof {
                    lemma_find_entry_hit(reps, id@, idx as int);
                }
                entries.set(idx, Entry { id: id.clone(), data });
                proof {
                    lemma_entry_reps(entries@);
                    assert(entry_reps(entries@) =~= reps.update(
                        idx as int,
                        EntryRep { id: id@, data: data.rep() },
                    ));
                }
                return ;
            }
            idx += 1;
        }
        proof {
            lemma_find_entry_miss(reps, id@);
        }
        entries.push(Entry { id: id.clone(), data });
        proof {
            lemma_entry_reps(entries@);
            assert(entry_reps(entries@) =~= reps.push(EntryRep { id: id@, data: data.rep() }));
        }
    }

    /// Removes the record under `id` from `entries`; a no-op when absent.
    fn delete_in(entries: &mut Vec<Entry>, id: &String)
        ensures
            entry_reps(final(entries)@) == deleted(entry_reps(old(entries)@), id@),
            distinct_ids(entry_reps(old(entries)@)) ==> distinct_ids(
                entry_reps(final(entries)@),
            ),
    {
        proof {
            if distinct_ids(entry_reps(entries@)) {
                lemma_deleted_distinct(entry_reps(entries@), id@);
            }
        }
        let ghost reps = entry_reps(entries@);
        proof {
            lemma_entry_reps(entries@);
        }
        let mut idx: usize = 0;
        while idx < entries.len()
            invariant
                idx <= entries@.len(),
                entries@ == old(entries)@,
                reps == entry_reps(entries@),
                reps.len() == entries@.len(),
                forall|j: int| 0 <= j < entries@.len() ==> reps[j] == entries@[j].rep(),
                forall|j: int| 0 <= j < idx ==> reps[j].id != id@,
            decreases entries@.len() - idx,
        {
            if entries[idx].id == *id {
                proof {
                    lemma_find_entry_hit(reps, id@, idx as int);
                }
                let _ = entries.remove(idx);
                proof {
                    lemma_entry_reps(entries@);
                    assert(entry_reps(entries@) =~= reps.remove(idx as int));
                }
                return ;
            }
            idx += 1;
        }
        proof {
            lemma_find_entry_miss(reps, id@);
        }
    }

    /// The payload stored under `id` in `entries`, when there is one.
    fn find_in<'a>(entries: &'a Vec<Entry>, id: &String) -> (r: Option<&'a JsonVal>)
        ensures
            match r {
                Some(v) => exists|i: int|
                    find_entry(entry_reps(entries@), id@) == Some(i) && 0 <= i < entry_reps(
                        entries@,
                    ).len() && v.rep() == entry_reps(entries@)[i].data,
                None => find_entry(entry_reps(entries@), id@) is None,
            },
    {
        let ghost reps = entry_reps(entries@);
        proof {
            lemma_entry_reps(entries@);
        }
        let mut idx: usize = 0;
        while idx < entries.len()
            invariant
                idx <= entries@.len(),
                reps == entry_reps(entries@),
                reps.len() == entries@.len(),
                forall|j: int| 0 <= j < entries@.len() ==> reps[j] == entries@[j].rep(),
                forall|j: int| 0 <= j < idx ==> reps[j].id != id@,
            decreases entries@.len() - idx,
        {
            if entries[idx].id == *id {
                proof {
                    lemma_find_entry_hit(reps, id@, idx as int);
                }
                return Some(&entries[idx].data);
            }
            idx += 1;
        }
        proof {
            lemma_find_entry_miss(reps, id@);
        }
        None
    }
}

} // verus!

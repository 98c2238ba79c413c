//! The collection engine: toggle, ownership grant and revocation, and the
//! client-driven bulk sync, each a fetch – mutate in memory – replace cycle
//! against a single user's record.
//!
//! Within one store value these operations are atomic: each contract
//! describes the whole cycle as one step.  An outer layer must serialize
//! the cycles per process (a keyed lock or a single writer), and the laws
//! here show that any serial order of toggles on distinct fresh ids
//! converges to the same set.

use vstd::prelude::*;
use crate::collection::CollectionSlot;
use crate::collection::RecordView;
use crate::collection::UserEventDataRow;
use crate::collection::toggle_seq;
use crate::errors::AppError;
use crate::store::UserCollectionContext;
use crate::store::find_record;
use crate::store::find_user;
use crate::store::get_or_create_outcome;
use crate::store::lemma_find_record;
use crate::store::lemma_find_user;
use crate::store::lemma_find_user_of_member;
use crate::store::lemma_get_or_create_exactly_once;
use crate::store::restore_outcome;
use crate::store::got_or_created;
use crate::store::with_lists;
use crate::dtos::EventResponse;
use crate::dtos::responses_fn;
use crate::dtos::rows_to_responses;
use crate::events::EventContext;
use crate::events::id_list_pred;
use crate::microevents::Microevent;
use crate::microevents::MicroeventContext;
use crate::microevents::micro_id_list_pred;

verus! {

/// The client-submitted bulk update of a user's collection record.
///
/// A sync request fills the favorite and saved lists only; whatever a
/// client puts in the created lists is never stored by the sync path.
#[derive(Debug)]
pub struct UserCollection {
    pub id: Option<i64>,
    pub user_id: Option<String>,
    pub favorite_events: Option<Vec<i64>>,
    pub favorite_microevents: Option<Vec<i64>>,
    pub saved_events: Option<Vec<i64>>,
    pub saved_microevents: Option<Vec<i64>>,
    pub created_events: Option<Vec<i64>>,
    pub created_microevents: Option<Vec<i64>>,
}

/// The list a client supplied, an absent list meaning the empty one.
pub open spec fn opt_list(o: Option<Vec<i64>>) -> Seq<i64> {
    match o {
        Some(v) => v@,
        None => Seq::<i64>::empty(),
    }
}

/// A record with all six lists empty.
pub open spec fn empty_view(id: int, uid: Seq<char>) -> RecordView {
    RecordView {
        id: id,
        user_id: uid,
        favorite_events: Seq::<i64>::empty(),
        favorite_microevents: Seq::<i64>::empty(),
        saved_events: Seq::<i64>::empty(),
        saved_microevents: Seq::<i64>::empty(),
        created_events: Seq::<i64>::empty(),
        created_microevents: Seq::<i64>::empty(),
    }
}

/// The list the addressed slot holds before a cycle, for the record the
/// cycle addresses: the stored list, or the empty list for a user with no
/// record yet.
pub open spec fn slot_before(pre: Seq<RecordView>, slot: CollectionSlot, uid: Seq<char>) -> Seq<
    i64,
> {
    let idx = find_user(pre, uid);
    if idx >= 0 {
        slot.of(pre[idx])
    } else {
        Seq::<i64>::empty()
    }
}

/// What one fetch–mutate–replace cycle on the addressed list does to the
/// store, where `f` is the new value of that list as a function of the
/// old one and `ok` says whether the cycle went through.  The user's
/// record is mutated in place; a user without a record first gets a fresh
/// empty one, whose addressed list then receives `f` of the empty list.
/// The only failure, leaving the store untouched, is a first access that
/// cannot create a record any more.
pub open spec fn cycle_effect(
    pre: Seq<RecordView>,
    post: Seq<RecordView>,
    could_create: bool,
    slot: CollectionSlot,
    uid: Seq<char>,
    f: spec_fn(Seq<i64>) -> Seq<i64>,
    ok: bool,
) -> bool {
    let idx = find_user(pre, uid);
    if idx >= 0 {
        let rec = pre[idx];
        &&& ok
        &&& post == pre.update(idx, slot.updated(rec, f(slot.of(rec))))
    } else if could_create {
        let newlist = f(Seq::<i64>::empty());
        &&& ok
        &&& post.len() == pre.len() + 1
        &&& (forall|j: int| 0 <= j < pre.len() ==> #[trigger] post[j] == pre[j])
        &&& ({
            let newrec = post[pre.len() as int];
            &&& newrec.user_id == uid
            &&& newrec == slot.updated(empty_view(newrec.id, uid), newlist)
            &&& (forall|j: int| 0 <= j < pre.len() ==> (#[trigger] pre[j]).id != newrec.id)
        })
    } else {
        &&& !ok
        &&& post == pre
    }
}

/// `cycle_effect` together with what the cycle returns: the new value of
/// the addressed list on success, and the database error on failure.
pub open spec fn cycle_outcome(
    pre: Seq<RecordView>,
    post: Seq<RecordView>,
    could_create: bool,
    slot: CollectionSlot,
    uid: Seq<char>,
    r: Result<Vec<i64>, AppError>,
    f: spec_fn(Seq<i64>) -> Seq<i64>,
) -> bool {
    &&& cycle_effect(pre, post, could_create, slot, uid, f, r is Ok)
    &&& (r is Ok ==> r->Ok_0@ == f(slot_before(pre, slot, uid)))
    &&& (r is Err ==> r->Err_0 is DatabaseError)
}

/// The record a successful sync stores: the client's favorite and saved
/// lists, and — whatever the client sent — the created lists that were
/// already stored.
pub open spec fn synced(stored: RecordView, input: UserCollection) -> RecordView {
    RecordView {
        id: stored.id,
        user_id: stored.user_id,
        favorite_events: opt_list(input.favorite_events),
        favorite_microevents: opt_list(input.favorite_microevents),
        saved_events: opt_list(input.saved_events),
        saved_microevents: opt_list(input.saved_microevents),
        created_events: stored.created_events,
        created_microevents: stored.created_microevents,
    }
}

/// Law (sync cannot forge ownership): whatever created lists a client puts
/// into a sync request — absent, empty or arbitrary — the record a
/// successful sync stores keeps the created lists exactly as they were.
pub proof fn lemma_sync_cannot_forge_ownership(stored: RecordView, input: UserCollection)
    ensures
        synced(stored, input).created_events == stored.created_events,
        synced(stored, input).created_microevents == stored.created_microevents,
{
}

/// What a sync does: reject a request without an id, for an unknown record
/// id, without a user id, or — before any mutation — for a user id other
/// than the addressed record's; otherwise store `synced` over the record.
pub open spec fn sync_outcome(
    pre: Seq<RecordView>,
    post: Seq<RecordView>,
    input: UserCollection,
    r: Result<UserEventDataRow, AppError>,
) -> bool {
    if input.id is None {
        &&& r is Err
        &&& r->Err_0 is ValidationError
        &&& post == pre
    } else {
        let idx = find_record(pre, input.id->0 as int);
        if idx < 0 {
            &&& r is Err
            &&& r->Err_0 is NotFound
            &&& post == pre
        } else if input.user_id is None {
            &&& r is Err
            &&& r->Err_0 is ValidationError
            &&& post == pre
        } else if pre[idx].user_id != input.user_id->0@ {
            &&& r is Err
            &&& r->Err_0 is ValidationError
            &&& post == pre
        } else {
            &&& r is Ok
            &&& r->Ok_0@ == synced(pre[idx], input)
            &&& post == pre.update(idx, synced(pre[idx], input))
        }
    }
}

/// The record a full update stores: every list from the request,
/// identified by the request's own ids.
pub open spec fn full_row(input: UserCollection) -> RecordView {
    RecordView {
        id: input.id->0 as int,
        user_id: input.user_id->0@,
        favorite_events: opt_list(input.favorite_events),
        favorite_microevents: opt_list(input.favorite_microevents),
        saved_events: opt_list(input.saved_events),
        saved_microevents: opt_list(input.saved_microevents),
        created_events: opt_list(input.created_events),
        created_microevents: opt_list(input.created_microevents),
    }
}

/// What the trusted full update does: reject a request without ids;
/// otherwise replace all six lists of the requesting user's record —
/// a user without a record is left alone, and the built row is returned
/// either way, as a keyed update that may affect no row.
pub open spec fn update_outcome(
    pre: Seq<RecordView>,
    post: Seq<RecordView>,
    input: UserCollection,
    r: Result<UserEventDataRow, AppError>,
) -> bool {
    if input.id is None || input.user_id is None {
        &&& r is Err
        &&& r->Err_0 is ValidationError
        &&& post == pre
    } else {
        let uidx = find_user(pre, input.user_id->0@);
        &&& r is Ok
        &&& r->Ok_0@ == full_row(input)
        &&& (if uidx >= 0 {
            post == pre.update(uidx, with_lists(pre[uidx], full_row(input)))
        } else {
            post == pre
        })
    }
}

/// The engine over the collection store.
pub struct UserCollectionLogic {
    repository: UserCollectionContext,
}

impl View for UserCollectionLogic {
    type V = Seq<RecordView>;

    closed spec fn view(&self) -> Seq<RecordView> {
        self.repository@
    }
}

impl UserCollectionLogic {
    /// The engine is well formed when its store is.
    pub closed spec fn wf(self) -> bool {
        self.repository.wf()
    }

    /// Whether the store can still hand out a fresh record id.
    pub closed spec fn can_create(self) -> bool {
        self.repository.can_create()
    }

    /// An engine over an empty store.
    pub fn new(repository: UserCollectionContext) -> (r: Self)
        ensures
            r@ == repository@,
            r.wf() == repository.wf(),
            r.can_create() == repository.can_create(),
    {
        UserCollectionLogic { repository }
    }

    /// Fetches the caller's record, creating an empty one on first access.
    pub fn get(&mut self, user_id: &String) -> (r: Result<UserEventDataRow, AppError>)
        requires
            old(self).wf(),
        ensures
            final(self).wf(),
            get_or_create_outcome(
                old(self)@,
                final(self)@,
                old(self).can_create(),
                user_id@,
                r,
            ),
    {
        self.repository.get(user_id.clone())
    }

    /// One fetch–mutate–replace cycle: fetch the user's record, toggle
    /// `id` in the addressed list, and replace the record.
    fn toggle_slot(&mut self, slot: CollectionSlot, id: i64, user_id: &String) -> (r: Result<
        Vec<i64>,
        AppError,
    >)
        requires
            old(self).wf(),
        ensures
            final(self).wf(),
            cycle_outcome(
                old(self)@,
                final(self)@,
                old(self).can_create(),
                slot,
                user_id@,
                r,
                |s: Seq<i64>| toggle_seq(s, id),
            ),
    {
        proof {
            self.repository.lemma_wf_distinct();
            lemma_find_user(old(self)@, user_id@);
        }
        let ghost pre = old(self)@;
        let ghost idx = find_user(pre, user_id@);
        let mut data = match self.repository.get(user_id.clone()) {
            Ok(d) => d,
            Err(e) => {
                return Err(e);
            }
        };
        proof {
            if idx < 0 {
                lemma_get_or_create_exactly_once(pre, data@);
            } else {
                lemma_find_user_of_member(pre, idx);
            }
        }
        data.toggle(slot, id);
        match self.repository.update(&data) {
            Ok(u) => u,
            Err(e) => {
                return Err(e);
            }
        };
        proof {
            if idx >= 0 {
                let rec = pre[idx];
                let newlist = toggle_seq(slot.of(rec), id);
                assert(with_lists(rec, slot.updated(rec, newlist)) =~= slot.updated(
                    rec,
                    newlist,
                ));
            } else {
                let fresh = pre.push(data@).update(
                    pre.len() as int,
                    with_lists(pre.push(data@)[pre.len() as int], data@),
                );
                assert(fresh =~= pre.push(data@));
                let newrec = final(self)@[pre.len() as int];
                assert(newrec == data@);
                assert(newrec =~= slot.updated(
                    empty_view(newrec.id, user_id@),
                    toggle_seq(Seq::<i64>::empty(), id),
                ));
            }
        }
        let out = match slot {
            CollectionSlot::FavoriteEvents => data.favorite_events,
            CollectionSlot::FavoriteMicroevents => data.favorite_microevents,
            CollectionSlot::SavedEvents => data.saved_events,
            CollectionSlot::SavedMicroevents => data.saved_microevents,
            CollectionSlot::CreatedEvents => data.created_events,
            CollectionSlot::CreatedMicroevents => data.created_microevents,
        };
        Ok(out)
    }

    /// One fetch–mutate–replace cycle that appends `id` to the addressed
    /// list unconditionally, as ownership grant does.  The caller must
    /// guarantee the id was not already present, or the list accumulates a
    /// duplicate entry.
    fn grant_slot(&mut self, slot: CollectionSlot, id: i64, user_id: &String) -> (r: Result<
        Vec<i64>,
        AppError,
    >)
        requires
            old(self).wf(),
        ensures
            final(self).wf(),
            cycle_outcome(
                old(self)@,
                final(self)@,
                old(self).can_create(),
                slot,
                user_id@,
                r,
                (|s: Seq<i64>| s.push(id)),
            ),
    {
        proof {
            self.repository.lemma_wf_distinct();
            lemma_find_user(old(self)@, user_id@);
        }
        let ghost pre = old(self)@;
        let ghost idx = find_user(pre, user_id@);
        let mut data = match self.repository.get(user_id.clone()) {
            Ok(d) => d,
            Err(e) => {
                return Err(e);
            }
        };
        proof {
            if idx < 0 {
                lemma_get_or_create_exactly_once(pre, data@);
            } else {
                lemma_find_user_of_member(pre, idx);
            }
        }
        data.append(slot, id);
        match self.repository.update(&data) {
            Ok(u) => u,
            Err(e) => {
                return Err(e);
            }
        };
        proof {
            if idx >= 0 {
                let rec = pre[idx];
                let newlist = slot.of(rec).push(id);
                assert(with_lists(rec, slot.updated(rec, newlist)) =~= slot.updated(
                    rec,
                    newlist,
                ));
            } else {
                let fresh = pre.push(data@).update(
                    pre.len() as int,
                    with_lists(pre.push(data@)[pre.len() as int], data@),
                );
                assert(fresh =~= pre.push(data@));
                let newrec = final(self)@[pre.len() as int];
                assert(newrec == data@);
                assert(newrec =~= slot.updated(
                    empty_view(newrec.id, user_id@),
                    Seq::<i64>::empty().push(id),
                ));
            }
        }
        let out = match slot {
            CollectionSlot::FavoriteEvents => data.favorite_events,
            CollectionSlot::FavoriteMicroevents => data.favorite_microevents,
            CollectionSlot::SavedEvents => data.saved_events,
            CollectionSlot::SavedMicroevents => data.saved_microevents,
            CollectionSlot::CreatedEvents => data.created_events,
            CollectionSlot::CreatedMicroevents => data.created_microevents,
        };
        Ok(out)
    }

    /// One fetch–mutate–replace cycle that removes the first occurrence of
    /// `id` from the addressed list, a no-op when `id` is absent, as
    /// ownership revocation does.
    fn revoke_slot(&mut self, slot: CollectionSlot, id: i64, user_id: &String) -> (r: Result<
        Vec<i64>,
        AppError,
    >)
        requires
            old(self).wf(),
        ensures
            final(self).wf(),
            cycle_outcome(
                old(self)@,
                final(self)@,
                old(self).can_create(),
                slot,
                user_id@,
                r,
                (|s: Seq<i64>| s.remove_value(id)),
            ),
    {
        proof {
            self.repository.lemma_wf_distinct();
            lemma_find_user(old(self)@, user_id@);
        }
        let ghost pre = old(self)@;
        let ghost idx = find_user(pre, user_id@);
        let mut data = match self.repository.get(user_id.clone()) {
            Ok(d) => d,
            Err(e) => {
                return Err(e);
            }
        };
        proof {
            if idx < 0 {
                lemma_get_or_create_exactly_once(pre, data@);
            } else {
                lemma_find_user_of_member(pre, idx);
            }
        }
        data.withdraw(slot, id);
        match self.repository.update(&data) {
            Ok(u) => u,
            Err(e) => {
                return Err(e);
            }
        };
        proof {
            if idx >= 0 {
                let rec = pre[idx];
                let newlist = slot.of(rec).remove_value(id);
                assert(with_lists(rec, slot.updated(rec, newlist)) =~= slot.updated(
                    rec,
                    newlist,
                ));
            } else {
                let fresh = pre.push(data@).update(
                    pre.len() as int,
                    with_lists(pre.push(data@)[pre.len() as int], data@),
                );
                assert(fresh =~= pre.push(data@));
                let newrec = final(self)@[pre.len() as int];
                assert(newrec == data@);
                assert(Seq::<i64>::empty().index_of_first(id) is None) by {
                    Seq::<i64>::empty().index_of_first_ensures(id);
                }
                assert(newrec =~= slot.updated(
                    empty_view(newrec.id, user_id@),
                    Seq::<i64>::empty().remove_value(id),
                ));
            }
        }
        let out = match slot {
            CollectionSlot::FavoriteEvents => data.favorite_events,
            CollectionSlot::FavoriteMicroevents => data.favorite_microevents,
            CollectionSlot::SavedEvents => data.saved_events,
            CollectionSlot::SavedMicroevents => data.saved_microevents,
            CollectionSlot::CreatedEvents => data.created_events,
            CollectionSlot::CreatedMicroevents => data.created_microevents,
        };
        Ok(out)
    }

    /// Records that the caller created event `id`: appends it to the
    /// caller's created events.
    pub fn event_ownership(&mut self, id: i64, user_id: &String) -> (r: Result<Vec<i64>, AppError>)
        requires
            old(self).wf(),
        ensures
            final(self).wf(),
            cycle_outcome(
                old(self)@,
                final(self)@,
                old(self).can_create(),
                CollectionSlot::CreatedEvents,
                user_id@,
                r,
                (|s: Seq<i64>| s.push(id)),
            ),
    {
        self.grant_slot(CollectionSlot::CreatedEvents, id, user_id)
    }

    /// Records that the caller created microevent `id`.
    pub fn microevent_ownership(&mut self, id: i64, user_id: &String) -> (r: Result<
        Vec<i64>,
        AppError,
    >)
        requires
            old(self).wf(),
        ensures
            final(self).wf(),
            cycle_outcome(
                old(self)@,
                final(self)@,
                old(self).can_create(),
                CollectionSlot::CreatedMicroevents,
                user_id@,
                r,
                (|s: Seq<i64>| s.push(id)),
            ),
    {
        self.grant_slot(CollectionSlot::CreatedMicroevents, id, user_id)
    }

    /// Withdraws event `id` from the caller's created events, a no-op when
    /// the caller does not hold it.
    pub fn remove_event_ownership(&mut self, id: i64, user_id: &String) -> (r: Result<
        Vec<i64>,
        AppError,
    >)
        requires
            old(self).wf(),
        ensures
            final(self).wf(),
            cycle_outcome(
                old(self)@,
                final(self)@,
                old(self).can_create(),
                CollectionSlot::CreatedEvents,
                user_id@,
                r,
                (|s: Seq<i64>| s.remove_value(id)),
            ),
    {
        self.revoke_slot(CollectionSlot::CreatedEvents, id, user_id)
    }

    /// Withdraws microevent `id` from the caller's created microevents.
    pub fn remove_microevent_ownership(&mut self, id: i64, user_id: &String) -> (r: Result<
        Vec<i64>,
        AppError,
    >)
        requires
            old(self).wf(),
        ensures
            final(self).wf(),
            cycle_outcome(
                old(self)@,
                final(self)@,
                old(self).can_create(),
                CollectionSlot::CreatedMicroevents,
                user_id@,
                r,
                (|s: Seq<i64>| s.remove_value(id)),
            ),
    {
        self.revoke_slot(CollectionSlot::CreatedMicroevents, id, user_id)
    }

    /// The client-driven bulk sync: replaces the favorite and saved lists
    /// of the record addressed by the request's record id, after checking
    /// that the request's user id matches the stored record's — the
    /// ownership check on the record itself.  The created lists are taken
    /// from the stored record, never from the client.
    pub fn update_without_ownership(&mut self, input: UserCollection) -> (r: Result<
        UserEventDataRow,
        AppError,
    >)
        requires
            old(self).wf(),
        ensures
            final(self).wf(),
            sync_outcome(old(self)@, final(self)@, input, r),
    {
        proof {
            self.repository.lemma_wf_distinct();
        }
        let ghost pre = old(self)@;
        let id = match &input.id {
            Some(i) => *i,
            None => {
                return Err(AppError::ValidationError("id is required".to_owned()));
            }
        };
        let ogrow = match self.repository.get_by_id(id) {
            Ok(rec) => rec,
            Err(e) => {
                return Err(e);
            }
        };
        let ghost idx = find_record(pre, id as int);
        proof {
            lemma_find_record(pre, id as int);
        }
        let user_id = match &input.user_id {
            Some(u) => u.clone(),
            None => {
                return Err(AppError::ValidationError("user_id is required".to_owned()));
            }
        };
        let ids_match = ogrow.user_id == user_id;
        if !ids_match {
            return Err(AppError::ValidationError("user ids do not match ownership".to_owned()));
        }
        let row = UserEventDataRow {
            id,
            user_id,
            favorite_events: match input.favorite_events {
                Some(v) => v,
                None => Vec::new(),
            },
            favorite_microevents: match input.favorite_microevents {
                Some(v) => v,
                None => Vec::new(),
            },
            saved_events: match input.saved_events {
                Some(v) => v,
                None => Vec::new(),
            },
            saved_microevents: match input.saved_microevents {
                Some(v) => v,
                None => Vec::new(),
            },
            created_events: ogrow.created_events,
            created_microevents: ogrow.created_microevents,
        };
        proof {
            assert(row@.user_id == pre[idx].user_id);
            lemma_find_user_of_member(pre, idx);
        }
        match self.repository.update(&row) {
            Ok(u) => u,
            Err(e) => {
                return Err(e);
            }
        };
        proof {
            assert(row@ =~= synced(pre[idx], input));
            assert(with_lists(pre[idx], row@) =~= synced(pre[idx], input));
        }
        Ok(row)
    }

    /// The trusted full update: replaces all six lists of the record that
    /// belongs to the request's user, created lists included.  Routes
    /// expose the sync path instead; this path is for callers that are
    /// themselves entitled to rewrite ownership.
    pub fn update(&mut self, input: UserCollection) -> (r: Result<UserEventDataRow, AppError>)
        requires
            old(self).wf(),
        ensures
            final(self).wf(),
            update_outcome(old(self)@, final(self)@, input, r),
    {
        proof {
            self.repository.lemma_wf_distinct();
        }
        let ghost pre = old(self)@;
        let id = match &input.id {
            Some(i) => *i,
            None => {
                return Err(AppError::ValidationError("id is required".to_owned()));
            }
        };
        let user_id = match &input.user_id {
            Some(u) => u.clone(),
            None => {
                return Err(AppError::ValidationError("user_id is required".to_owned()));
            }
        };
        let ghost uidx = find_user(pre, user_id@);
        proof {
            lemma_find_user(pre, user_id@);
        }
        let row = UserEventDataRow {
            id,
            user_id,
            favorite_events: match input.favorite_events {
                Some(v) => v,
                None => Vec::new(),
            },
            favorite_microevents: match input.favorite_microevents {
                Some(v) => v,
                None => Vec::new(),
            },
            saved_events: match input.saved_events {
                Some(v) => v,
                None => Vec::new(),
            },
            saved_microevents: match input.saved_microevents {
                Some(v) => v,
                None => Vec::new(),
            },
            created_events: match input.created_events {
                Some(v) => v,
                None => Vec::new(),
            },
            created_microevents: match input.created_microevents {
                Some(v) => v,
                None => Vec::new(),
            },
        };
        match self.repository.update(&row) {
            Ok(u) => u,
            Err(e) => {
                return Err(e);
            }
        };
        proof {
            assert(row@ =~= full_row(input));
            if uidx >= 0 {
                assert(with_lists(pre[uidx], row@) =~= with_lists(pre[uidx], full_row(input)));
            }
        }
        Ok(row)
    }

    /// Puts a persisted record back under its stored identity — the load
    /// path at startup, before any request is served.
    pub fn restore(&mut self, rec: UserEventDataRow) -> (r: Result<(), AppError>)
        requires
            old(self).wf(),
        ensures
            final(self).wf(),
            restore_outcome(old(self)@, final(self)@, rec, r),
    {
        self.repository.restore(rec)
    }

    /// One hydrating read: fetch the user's record — creating an empty
    /// one on first access — and resolve the addressed id list through
    /// the event store; stale ids are silently dropped there.
    fn hydrate_events(&mut self, slot: CollectionSlot, events: &EventContext, user_id: &String)
        -> (r: Result<Vec<EventResponse>, AppError>)
        requires
            old(self).wf(),
        ensures
            final(self).wf(),
            ({
                let idx = find_user(old(self)@, user_id@);
                if idx >= 0 || old(self).can_create() {
                    &&& got_or_created(old(self)@, final(self)@, user_id@)
                    &&& r is Ok
                    &&& r->Ok_0@ == events@.filter(
                        id_list_pred(slot_before(old(self)@, slot, user_id@)),
                    ).map_values(responses_fn())
                } else {
                    &&& r is Err
                    &&& r->Err_0 is DatabaseError
                    &&& final(self)@ == old(self)@
                }
            }),
    {
        let rec = match self.repository.get(user_id.clone()) {
            Ok(d) => d,
            Err(e) => {
                return Err(e);
            }
        };
        let ids = match slot {
            CollectionSlot::FavoriteEvents => rec.favorite_events,
            CollectionSlot::FavoriteMicroevents => rec.favorite_microevents,
            CollectionSlot::SavedEvents => rec.saved_events,
            CollectionSlot::SavedMicroevents => rec.saved_microevents,
            CollectionSlot::CreatedEvents => rec.created_events,
            CollectionSlot::CreatedMicroevents => rec.created_microevents,
        };
        proof {
            assert(ids@ == slot_before(old(self)@, slot, user_id@));
        }
        let rows = match events.get_by_id_list(ids) {
            Ok(v) => v,
            Err(e) => {
                return Err(e);
            }
        };
        Ok(rows_to_responses(rows))
    }

    /// One hydrating read against the microevent store, in store order.
    fn hydrate_microevents(
        &mut self,
        slot: CollectionSlot,
        microevents: &MicroeventContext,
        user_id: &String,
    ) -> (r: Result<Vec<Microevent>, AppError>)
        requires
            old(self).wf(),
        ensures
            final(self).wf(),
            ({
                let idx = find_user(old(self)@, user_id@);
                if idx >= 0 || old(self).can_create() {
                    &&& got_or_created(old(self)@, final(self)@, user_id@)
                    &&& r is Ok
                    &&& r->Ok_0@ == microevents@.filter(
                        micro_id_list_pred(slot_before(old(self)@, slot, user_id@)),
                    )
                } else {
                    &&& r is Err
                    &&& r->Err_0 is DatabaseError
                    &&& final(self)@ == old(self)@
                }
            }),
    {
        let rec = match self.repository.get(user_id.clone()) {
            Ok(d) => d,
            Err(e) => {
                return Err(e);
            }
        };
        let ids = match slot {
            CollectionSlot::FavoriteEvents => rec.favorite_events,
            CollectionSlot::FavoriteMicroevents => rec.favorite_microevents,
            CollectionSlot::SavedEvents => rec.saved_events,
            CollectionSlot::SavedMicroevents => rec.saved_microevents,
            CollectionSlot::CreatedEvents => rec.created_events,
            CollectionSlot::CreatedMicroevents => rec.created_microevents,
        };
        proof {
            assert(ids@ == slot_before(old(self)@, slot, user_id@));
        }
        microevents.get_by_id_list(ids)
    }

    /// The events the user created, hydrated to responses; ids whose
    /// event no longer resolves are silently dropped.
    pub fn get_created_events(&mut self, events: &EventContext, user_id: &String) -> (r: Result<
        Vec<EventResponse>,
        AppError,
    >)
        requires
            old(self).wf(),
        ensures
            final(self).wf(),
            ({
                let idx = find_user(old(self)@, user_id@);
                if idx >= 0 || old(self).can_create() {
                    &&& got_or_created(old(self)@, final(self)@, user_id@)
                    &&& r is Ok
                    &&& r->Ok_0@ == events@.filter(
                        id_list_pred(
                            slot_before(
                                old(self)@,
                                CollectionSlot::CreatedEvents,
                                user_id@,
                            ),
                        ),
                    ).map_values(responses_fn())
                } else {
                    &&& r is Err
                    &&& r->Err_0 is DatabaseError
                    &&& final(self)@ == old(self)@
                }
            }),
    {
        self.hydrate_events(CollectionSlot::CreatedEvents, events, user_id)
    }

    /// The events the user favorited, hydrated to responses.
    pub fn get_favorite_events(&mut self, events: &EventContext, user_id: &String) -> (r: Result<
        Vec<EventResponse>,
        AppError,
    >)
        requires
            old(self).wf(),
        ensures
            final(self).wf(),
            ({
                let idx = find_user(old(self)@, user_id@);
                if idx >= 0 || old(self).can_create() {
                    &&& got_or_created(old(self)@, final(self)@, user_id@)
                    &&& r is Ok
                    &&& r->Ok_0@ == events@.filter(
                        id_list_pred(
                            slot_before(
                                old(self)@,
                                CollectionSlot::FavoriteEvents,
                                user_id@,
                            ),
                        ),
                    ).map_values(responses_fn())
                } else {
                    &&& r is Err
                    &&& r->Err_0 is DatabaseError
                    &&& final(self)@ == old(self)@
                }
            }),
    {
        self.hydrate_events(CollectionSlot::FavoriteEvents, events, user_id)
    }

    /// The events the user saved, hydrated to responses.
    pub fn get_saved_events(&mut self, events: &EventContext, user_id: &String) -> (r: Result<
        Vec<EventResponse>,
        AppError,
    >)
        requires
            old(self).wf(),
        ensures
            final(self).wf(),
            ({
                let idx = find_user(old(self)@, user_id@);
                if idx >= 0 || old(self).can_create() {
                    &&& got_or_created(old(self)@, final(self)@, user_id@)
                    &&& r is Ok
                    &&& r->Ok_0@ == events@.filter(
                        id_list_pred(
                            slot_before(old(self)@, CollectionSlot::SavedEvents, user_id@),
                        ),
                    ).map_values(responses_fn())
                } else {
                    &&& r is Err
                    &&& r->Err_0 is DatabaseError
                    &&& final(self)@ == old(self)@
                }
            }),
    {
        self.hydrate_events(CollectionSlot::SavedEvents, events, user_id)
    }

    /// The microevents the user created, in store order.
    pub fn get_created_microevents(
        &mut self,
        microevents: &MicroeventContext,
        user_id: &String,
    ) -> (r: Result<Vec<Microevent>, AppError>)
        requires
            old(self).wf(),
        ensures
            final(self).wf(),
            ({
                let idx = find_user(old(self)@, user_id@);
                if idx >= 0 || old(self).can_create() {
                    &&& got_or_created(old(self)@, final(self)@, user_id@)
                    &&& r is Ok
                    &&& r->Ok_0@ == microevents@.filter(
                        micro_id_list_pred(
                            slot_before(
                                old(self)@,
                                CollectionSlot::CreatedMicroevents,
                                user_id@,
                            ),
                        ),
                    )
                } else {
                    &&& r is Err
                    &&& r->Err_0 is DatabaseError
                    &&& final(self)@ == old(self)@
                }
            }),
    {
        self.hydrate_microevents(CollectionSlot::CreatedMicroevents, microevents, user_id)
    }

    /// The microevents the user favorited, in store order.
    pub fn get_favorite_microevents(
        &mut self,
        microevents: &MicroeventContext,
        user_id: &String,
    ) -> (r: Result<Vec<Microevent>, AppError>)
        requires
            old(self).wf(),
        ensures
            final(self).wf(),
            ({
                let idx = find_user(old(self)@, user_id@);
                if idx >= 0 || old(self).can_create() {
                    &&& got_or_created(old(self)@, final(self)@, user_id@)
                    &&& r is Ok
                    &&& r->Ok_0@ == microevents@.filter(
                        micro_id_list_pred(
                            slot_before(
                                old(self)@,
                                CollectionSlot::FavoriteMicroevents,
                                user_id@,
                            ),
                        ),
                    )
                } else {
                    &&& r is Err
                    &&& r->Err_0 is DatabaseError
                    &&& final(self)@ == old(self)@
                }
            }),
    {
        self.hydrate_microevents(CollectionSlot::FavoriteMicroevents, microevents, user_id)
    }

    /// The microevents the user saved, in store order.
    pub fn get_saved_microevents(
        &mut self,
        microevents: &MicroeventContext,
        user_id: &String,
    ) -> (r: Result<Vec<Microevent>, AppError>)
        requires
            old(self).wf(),
        ensures
            final(self).wf(),
            ({
                let idx = find_user(old(self)@, user_id@);
                if idx >= 0 || old(self).can_create() {
                    &&& got_or_created(old(self)@, final(self)@, user_id@)
                    &&& r is Ok
                    &&& r->Ok_0@ == microevents@.filter(
                        micro_id_list_pred(
                            slot_before(
                                old(self)@,
                                CollectionSlot::SavedMicroevents,
                                user_id@,
                            ),
                        ),
                    )
                } else {
                    &&& r is Err
                    &&& r->Err_0 is DatabaseError
                    &&& final(self)@ == old(self)@
                }
            }),
    {
        self.hydrate_microevents(CollectionSlot::SavedMicroevents, microevents, user_id)
    }

    /// Toggles `id` in the caller's favorite events.
    pub fn event_favorite_toggle(&mut self, id: i64, user_id: &String) -> (r: Result<
        Vec<i64>,
        AppError,
    >)
        requires
            old(self).wf(),
        ensures
            final(self).wf(),
            cycle_outcome(
                old(self)@,
                final(self)@,
                old(self).can_create(),
                CollectionSlot::FavoriteEvents,
                user_id@,
                r,
                (|s: Seq<i64>| toggle_seq(s, id)),
            ),
    {
        self.toggle_slot(CollectionSlot::FavoriteEvents, id, user_id)
    }

    /// Toggles `id` in the caller's favorite microevents.
    pub fn microevent_favorite_toggle(&mut self, id: i64, user_id: &String) -> (r: Result<
        Vec<i64>,
        AppError,
    >)
        requires
            old(self).wf(),
        ensures
            final(self).wf(),
            cycle_outcome(
                old(self)@,
                final(self)@,
                old(self).can_create(),
                CollectionSlot::FavoriteMicroevents,
                user_id@,
                r,
                (|s: Seq<i64>| toggle_seq(s, id)),
            ),
    {
        self.toggle_slot(CollectionSlot::FavoriteMicroevents, id, user_id)
    }

    /// Toggles `id` in the caller's saved events.
    pub fn event_save_toggle(&mut self, id: i64, user_id: &String) -> (r: Result<
        Vec<i64>,
        AppError,
    >)
        requires
            old(self).wf(),
        ensures
            final(self).wf(),
            cycle_outcome(
                old(self)@,
                final(self)@,
                old(self).can_create(),
                CollectionSlot::SavedEvents,
                user_id@,
                r,
                (|s: Seq<i64>| toggle_seq(s, id)),
            ),
    {
        self.toggle_slot(CollectionSlot::SavedEvents, id, user_id)
    }

    /// Toggles `id` in the caller's saved microevents.
    pub fn microevent_save_toggle(&mut self, id: i64, user_id: &String) -> (r: Result<
        Vec<i64>,
        AppError,
    >)
        requires
            old(self).wf(),
        ensures
            final(self).wf(),
            cycle_outcome(
                old(self)@,
                final(self)@,
                old(self).can_create(),
                CollectionSlot::SavedMicroevents,
                user_id@,
                r,
                (|s: Seq<i64>| toggle_seq(s, id)),
            ),
    {
        self.toggle_slot(CollectionSlot::SavedMicroevents, id, user_id)
    }
}

} // verus!

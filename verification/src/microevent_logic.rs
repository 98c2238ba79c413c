//! Microevent mutation logic: validation, the owner-or-admin gate over
//! the caller's created microevents, and the synchronization of the
//! microevent store with the caller's ownership record.

use vstd::prelude::*;
use vstd::relations::sorted_by;
use crate::auth::Claims;
use crate::auth::is_admin_role;
use crate::collection::CollectionSlot;
use crate::collection::RecordView;
use crate::engine::UserCollectionLogic;
use crate::engine::cycle_effect;
use crate::engine::slot_before;
use crate::errors::AppError;
use crate::microevents::Microevent;
use crate::microevents::MicroeventContext;
use crate::microevents::by_time;
use crate::microevents::find_micro;
use crate::microevents::micro_all_pred;
use crate::microevents::micro_event_pred;
use crate::microevents::micro_from;
use crate::microevents::micro_id_list_pred;
use crate::microevents::micro_updated;
use crate::models::is_blank;
use crate::models::is_blank_str;
use crate::store::find_user;
use crate::store::got_or_created;

verus! {

/// A valid microevent payload: the name is non-blank — text that trims
/// to nothing is rejected.
pub open spec fn valid_micro(e: Microevent) -> bool {
    !is_blank(e.name@)
}

/// What replacing the row of `id` does to the microevent store: NotFound
/// leaves it alone.
pub open spec fn micro_replace_applied(
    pre_ev: Seq<Microevent>,
    post_ev: Seq<Microevent>,
    id: i64,
    event: Microevent,
    now: i64,
    r: Result<(), AppError>,
) -> bool {
    let idx = find_micro(pre_ev, id as int);
    if idx >= 0 {
        &&& r is Ok
        &&& post_ev == pre_ev.update(idx, micro_updated(pre_ev[idx], event, now))
    } else {
        &&& r is Err
        &&& r->Err_0 is NotFound
        &&& post_ev == pre_ev
    }
}

/// What creating a microevent does to the two stores; as for events,
/// granting ownership is a second unguarded step and its failure leaves
/// the persisted row with no recorded owner.
pub open spec fn create_micro_outcome(
    pre_ev: Seq<Microevent>,
    post_ev: Seq<Microevent>,
    ev_could_create: bool,
    pre_col: Seq<RecordView>,
    post_col: Seq<RecordView>,
    col_could_create: bool,
    event: Microevent,
    now: i64,
    r: Result<i64, AppError>,
) -> bool {
    if !valid_micro(event) {
        &&& r is Err
        &&& r->Err_0 is ValidationError
        &&& post_ev == pre_ev
        &&& post_col == pre_col
    } else if !ev_could_create {
        &&& r is Err
        &&& r->Err_0 is DatabaseError
        &&& post_ev == pre_ev
        &&& post_col == pre_col
    } else {
        &&& post_ev.len() == pre_ev.len() + 1
        &&& (forall|j: int| 0 <= j < pre_ev.len() ==> #[trigger] post_ev[j] == pre_ev[j])
        &&& ({
            let new_id = post_ev[pre_ev.len() as int].id;
            &&& post_ev[pre_ev.len() as int] == micro_from(event, new_id, now)
            &&& (forall|j: int| 0 <= j < pre_ev.len() ==> (#[trigger] pre_ev[j]).id != new_id)
            &&& cycle_effect(
                pre_col,
                post_col,
                col_could_create,
                CollectionSlot::CreatedMicroevents,
                event.user_id@,
                (|s: Seq<i64>| s.push(new_id)),
                r is Ok,
            )
            &&& (r is Ok ==> r->Ok_0 == new_id)
            &&& (r is Err ==> r->Err_0 is DatabaseError)
        })
    }
}

/// What updating a microevent does to the two stores: validation comes
/// before the owner-or-admin check — which may create the caller's empty
/// collection record on first access — and the row replacement comes
/// last.
pub open spec fn update_micro_outcome(
    pre_ev: Seq<Microevent>,
    post_ev: Seq<Microevent>,
    pre_col: Seq<RecordView>,
    post_col: Seq<RecordView>,
    col_could_create: bool,
    id: i64,
    event: Microevent,
    claims: Claims,
    now: i64,
    r: Result<(), AppError>,
) -> bool {
    if !valid_micro(event) {
        &&& r is Err
        &&& r->Err_0 is ValidationError
        &&& post_ev == pre_ev
        &&& post_col == pre_col
    } else if is_admin_role(claims) {
        &&& post_col == pre_col
        &&& micro_replace_applied(pre_ev, post_ev, id, event, now, r)
    } else if find_user(pre_col, claims.sub@) < 0 && !col_could_create {
        &&& r is Err
        &&& r->Err_0 is DatabaseError
        &&& post_ev == pre_ev
        &&& post_col == pre_col
    } else {
        &&& got_or_created(pre_col, post_col, claims.sub@)
        &&& (if slot_before(pre_col, CollectionSlot::CreatedMicroevents, claims.sub@).contains(
            id,
        ) {
            micro_replace_applied(pre_ev, post_ev, id, event, now, r)
        } else {
            &&& r is Err
            &&& r->Err_0 is Forbidden
            &&& post_ev == pre_ev
        })
    }
}

/// What deleting a microevent does to the two stores: the same
/// ownership check as for updates, followed by the row deletion; only
/// when a row was deleted is ownership revoked from the caller's record.
pub open spec fn delete_micro_outcome(
    pre_ev: Seq<Microevent>,
    post_ev: Seq<Microevent>,
    pre_col: Seq<RecordView>,
    post_col: Seq<RecordView>,
    col_could_create: bool,
    id: i64,
    claims: Claims,
    r: Result<(), AppError>,
) -> bool {
    if is_admin_role(claims) {
        let idx = find_micro(pre_ev, id as int);
        if idx >= 0 {
            &&& post_ev == pre_ev.remove(idx)
            &&& cycle_effect(
                pre_col,
                post_col,
                col_could_create,
                CollectionSlot::CreatedMicroevents,
                claims.sub@,
                (|s: Seq<i64>| s.remove_value(id)),
                r is Ok,
            )
            &&& (r is Err ==> r->Err_0 is DatabaseError)
        } else {
            &&& r is Err
            &&& r->Err_0 is NotFound
            &&& post_ev == pre_ev
            &&& post_col == pre_col
        }
    } else if find_user(pre_col, claims.sub@) < 0 && !col_could_create {
        &&& r is Err
        &&& r->Err_0 is DatabaseError
        &&& post_ev == pre_ev
        &&& post_col == pre_col
    } else if !slot_before(pre_col, CollectionSlot::CreatedMicroevents, claims.sub@).contains(
        id,
    ) {
        &&& r is Err
        &&& r->Err_0 is Forbidden
        &&& post_ev == pre_ev
        &&& got_or_created(pre_col, post_col, claims.sub@)
    } else {
        let idx = find_micro(pre_ev, id as int);
        if idx >= 0 {
            &&& post_ev == pre_ev.remove(idx)
            &&& cycle_effect(
                pre_col,
                post_col,
                col_could_create,
                CollectionSlot::CreatedMicroevents,
                claims.sub@,
                (|s: Seq<i64>| s.remove_value(id)),
                r is Ok,
            )
            &&& (r is Err ==> r->Err_0 is DatabaseError)
        } else {
            &&& r is Err
            &&& r->Err_0 is NotFound
            &&& post_ev == pre_ev
            &&& post_col == pre_col
        }
    }
}

/// The microevent logic over the microevent store.
pub struct MicroeventLogic {
    context: MicroeventContext,
}

impl View for MicroeventLogic {
    type V = Seq<Microevent>;

    closed spec fn view(&self) -> Seq<Microevent> {
        self.context@
    }
}

impl MicroeventLogic {
    /// The logic is well formed when its store is.
    pub closed spec fn wf(self) -> bool {
        self.context.wf()
    }

    /// Whether the store can still hand out a fresh row id.
    pub closed spec fn can_create(self) -> bool {
        self.context.can_create()
    }

    /// The logic over a given microevent store.
    pub fn new(context: MicroeventContext) -> (r: Self)
        ensures
            r@ == context@,
            r.wf() == context.wf(),
            r.can_create() == context.can_create(),
    {
        MicroeventLogic { context }
    }

    /// The underlying store, for hydrating reads that resolve id lists.
    pub fn store(&self) -> (r: &MicroeventContext)
        ensures
            r@ == self@,
            r.wf() == self.wf(),
            r.can_create() == self.can_create(),
    {
        &self.context
    }

    /// Puts a persisted microevent back under its stored row id — the
    /// load path at startup, before any request is served.
    pub fn restore(&mut self, microevent: &Microevent) -> (r: Result<(), AppError>)
        requires
            old(self).wf(),
        ensures
            final(self).wf(),
            crate::microevents::restore_micro_outcome(old(self)@, final(self)@, *microevent, r),
    {
        self.context.restore(microevent)
    }

    /// Every stored microevent, ordered by start time.
    pub fn get_all(&self) -> (r: Result<Vec<Microevent>, AppError>)
        ensures
            r is Ok,
            sorted_by(r->Ok_0@, by_time()),
            r->Ok_0@.to_multiset() == self@.filter(micro_all_pred()).to_multiset(),
    {
        self.context.find_all()
    }

    /// The microevent with id `id`, or NotFound.
    pub fn get(&self, id: i64) -> (r: Result<Microevent, AppError>)
        ensures
            ({
                let idx = find_micro(self@, id as int);
                if idx >= 0 {
                    &&& r is Ok
                    &&& r->Ok_0 == self@[idx]
                } else {
                    &&& r is Err
                    &&& r->Err_0 is NotFound
                }
            }),
    {
        self.context.find_by_id(id)
    }

    /// The microevents whose ids appear in `input`, in store order; ids
    /// that do not resolve are silently dropped.
    pub fn get_by_id_list(&self, input: Vec<i64>) -> (r: Result<Vec<Microevent>, AppError>)
        ensures
            r is Ok,
            r->Ok_0@ == self@.filter(micro_id_list_pred(input@)),
    {
        self.context.get_by_id_list(input)
    }

    /// The microevents under one parent event, ordered by start time.
    pub fn get_by_event(&self, id: i64) -> (r: Result<Vec<Microevent>, AppError>)
        ensures
            r is Ok,
            sorted_by(r->Ok_0@, by_time()),
            r->Ok_0@.to_multiset() == self@.filter(micro_event_pred(id)).to_multiset(),
    {
        self.context.find_by_event(id)
    }

    /// Validates the payload, persists the microevent under a fresh id
    /// with `now` as its timestamps, and grants the owner ownership of
    /// that id.
    pub fn create(&mut self, event: Microevent, now: i64, collections: &mut UserCollectionLogic)
        -> (r: Result<i64, AppError>)
        requires
            old(self).wf(),
            old(collections).wf(),
        ensures
            final(self).wf(),
            final(collections).wf(),
            create_micro_outcome(
                old(self)@,
                final(self)@,
                old(self).can_create(),
                old(collections)@,
                final(collections)@,
                old(collections).can_create(),
                event,
                now,
                r,
            ),
    {
        match self.validate_event(&event) {
            Ok(u) => u,
            Err(e) => {
                return Err(e);
            }
        };
        let user_id = event.user_id.clone();
        let id = match self.context.create(&event, now) {
            Ok(i) => i,
            Err(e) => {
                return Err(e);
            }
        };
        let granted = collections.microevent_ownership(id, &user_id);
        match granted {
            Ok(_) => Ok(id),
            Err(e) => Err(e),
        }
    }

    /// Validates the payload, applies the owner-or-admin gate, and
    /// replaces the stored microevent.
    pub fn update(
        &mut self,
        id: i64,
        event: Microevent,
        claims: Claims,
        now: i64,
        collections: &mut UserCollectionLogic,
    ) -> (r: Result<(), AppError>)
        requires
            old(self).wf(),
            old(collections).wf(),
        ensures
            final(self).wf(),
            final(collections).wf(),
            update_micro_outcome(
                old(self)@,
                final(self)@,
                old(collections)@,
                final(collections)@,
                old(collections).can_create(),
                id,
                event,
                claims,
                now,
                r,
            ),
    {
        match self.validate_event(&event) {
            Ok(u) => u,
            Err(e) => {
                return Err(e);
            }
        };
        let role = claims.get_role();
        let is_admin = matches!(role, crate::auth::UserRole::Admin | crate::auth::UserRole::SuperAdmin);
        if !is_admin {
            let collection = match collections.get(&claims.sub) {
                Ok(c) => c,
                Err(e) => {
                    return Err(e);
                }
            };
            let is_owner = collection.holds(CollectionSlot::CreatedMicroevents, id);
            if !is_owner {
                return Err(
                    AppError::Forbidden(
                        "You do not have permission to update this microevent".to_owned(),
                    ),
                );
            }
        }
        let updated = match self.context.update(id, &event, now) {
            Ok(u) => u,
            Err(e) => {
                return Err(e);
            }
        };
        if !updated {
            return Err(AppError::NotFound("Microevent not found".to_owned()));
        }
        Ok(())
    }

    /// Applies the owner-or-admin gate, deletes the stored microevent,
    /// and — only when a row was deleted — revokes the id from the
    /// caller's created microevents.
    pub fn delete(&mut self, id: i64, claims: Claims, collections: &mut UserCollectionLogic) -> (r:
        Result<(), AppError>)
        requires
            old(self).wf(),
            old(collections).wf(),
        ensures
            final(self).wf(),
            final(collections).wf(),
            delete_micro_outcome(
                old(self)@,
                final(self)@,
                old(collections)@,
                final(collections)@,
                old(collections).can_create(),
                id,
                claims,
                r,
            ),
    {
        let role = claims.get_role();
        let is_admin = matches!(role, crate::auth::UserRole::Admin | crate::auth::UserRole::SuperAdmin);
        if !is_admin {
            let collection = match collections.get(&claims.sub) {
                Ok(c) => c,
                Err(e) => {
                    return Err(e);
                }
            };
            let is_owner = collection.holds(CollectionSlot::CreatedMicroevents, id);
            if !is_owner {
                return Err(
                    AppError::Forbidden(
                        "You do not have permission to update this microevent".to_owned(),
                    ),
                );
            }
        }
        let deleted = match self.context.delete(id) {
            Ok(d) => d,
            Err(e) => {
                return Err(e);
            }
        };
        if !deleted {
            return Err(AppError::NotFound("Event not found".to_owned()));
        }
        let revoked = collections.remove_microevent_ownership(id, &claims.sub);
        match revoked {
            Ok(_) => Ok(()),
            Err(e) => Err(e),
        }
    }

    /// Rejects a payload with a blank name.
    pub fn validate_event(&self, event: &Microevent) -> (r: Result<(), AppError>)
        ensures
            r is Ok <==> valid_micro(*event),
            r is Err ==> r->Err_0 is ValidationError,
    {
        if is_blank_str(&event.name) {
            return Err(AppError::ValidationError("Event name cannot be empty".to_owned()));
        }
        Ok(())
    }
}

} // verus!

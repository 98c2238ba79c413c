//! Event mutation logic: payload validation, the owner-or-admin gate, and
//! the synchronization of the event store with the caller's ownership
//! record.
//!
//! Creation persists the event and then grants ownership; deletion revokes
//! it after the row is gone.  Neither pair is one transaction: a failure
//! between the two steps leaves the stores inconsistent but detectable,
//! and the contracts below state exactly what each partial outcome is.

use vstd::prelude::*;
use vstd::relations::sorted_by;
use crate::auth::Claims;
use crate::auth::is_admin_role;
use crate::collection::CollectionSlot;
use crate::collection::RecordView;
use crate::dtos::EventResponse;
use crate::dtos::responses_fn;
use crate::dtos::rows_to_responses;
use crate::engine::UserCollectionLogic;
use crate::engine::cycle_effect;
use crate::engine::slot_before;
use crate::errors::AppError;
use crate::events::EventContext;
use crate::events::EventRow;
use crate::events::by_name;
use crate::events::find_event;
use crate::events::id_list_pred;
use crate::events::nearby_pred;
use crate::events::row_from;
use crate::events::type_pred;
use crate::models::NomEvent;
use crate::models::is_blank;
use crate::models::is_blank_str;
use crate::store::find_user;
use crate::store::got_or_created;

verus! {

/// A valid event payload: name and description non-blank — text that
/// trims to nothing is rejected — coordinates in range (micro-degrees),
/// and the end date, when both dates are given, not before the start
/// date.
pub open spec fn valid_event(e: NomEvent) -> bool {
    &&& !is_blank(e.name@)
    &&& !is_blank(e.description@)
    &&& -90000000 <= e.location_info.latitude <= 90000000
    &&& -180000000 <= e.location_info.longitude <= 180000000
    &&& ((e.date_info.start_date is Some && e.date_info.end_date is Some)
        ==> e.date_info.end_date->0 >= e.date_info.start_date->0)
}

/// What replacing the row of `id` does to the event store: NotFound
/// leaves it alone.
pub open spec fn replace_applied(
    pre_ev: Seq<EventRow>,
    post_ev: Seq<EventRow>,
    id: i64,
    event: NomEvent,
    r: Result<(), AppError>,
) -> bool {
    let idx = find_event(pre_ev, id as int);
    if idx >= 0 {
        &&& r is Ok
        &&& post_ev == pre_ev.update(idx, row_from(event, id))
    } else {
        &&& r is Err
        &&& r->Err_0 is NotFound
        &&& post_ev == pre_ev
    }
}

/// What creating an event does to the two stores.  After validation the
/// row is persisted under a fresh id; granting ownership is a second,
/// unguarded step, so its failure leaves the persisted row with no
/// recorded owner — the partial outcome is stated, not hidden.
pub open spec fn create_event_outcome(
    pre_ev: Seq<EventRow>,
    post_ev: Seq<EventRow>,
    ev_could_create: bool,
    pre_col: Seq<RecordView>,
    post_col: Seq<RecordView>,
    col_could_create: bool,
    event: NomEvent,
    r: Result<i64, AppError>,
) -> bool {
    if !valid_event(event) || event.user_id is None {
        &&& r is Err
        &&& r->Err_0 is ValidationError
        &&& post_ev == pre_ev
        &&& post_col == pre_col
    } else if !ev_could_create {
        &&& r is Err
        &&& r->Err_0 is DatabaseError
        &&& post_ev == pre_ev
        &&& post_col == pre_col
    } else {
        let uid = event.user_id->0@;
        &&& post_ev.len() == pre_ev.len() + 1
        &&& (forall|j: int| 0 <= j < pre_ev.len() ==> #[trigger] post_ev[j] == pre_ev[j])
        &&& ({
            let new_id = post_ev[pre_ev.len() as int].id;
            &&& post_ev[pre_ev.len() as int] == row_from(event, new_id)
            &&& (forall|j: int| 0 <= j < pre_ev.len() ==> (#[trigger] pre_ev[j]).id != new_id)
            &&& cycle_effect(
                pre_col,
                post_col,
                col_could_create,
                CollectionSlot::CreatedEvents,
                uid,
                (|s: Seq<i64>| s.push(new_id)),
                r is Ok,
            )
            &&& (r is Ok ==> r->Ok_0 == new_id)
            &&& (r is Err ==> r->Err_0 is DatabaseError)
        })
    }
}

/// What updating an event does to the two stores: validation comes
/// before the ownership check — which may create the caller's empty
/// collection record on first access — and the row replacement comes
/// last.
pub open spec fn update_event_outcome(
    pre_ev: Seq<EventRow>,
    post_ev: Seq<EventRow>,
    pre_col: Seq<RecordView>,
    post_col: Seq<RecordView>,
    col_could_create: bool,
    id: i64,
    event: NomEvent,
    claims: Claims,
    r: Result<(), AppError>,
) -> bool {
    if !valid_event(event) {
        &&& r is Err
        &&& r->Err_0 is ValidationError
        &&& post_ev == pre_ev
        &&& post_col == pre_col
    } else if is_admin_role(claims) {
        &&& post_col == pre_col
        &&& replace_applied(pre_ev, post_ev, id, event, r)
    } else if find_user(pre_col, claims.sub@) < 0 && !col_could_create {
        &&& r is Err
        &&& r->Err_0 is DatabaseError
        &&& post_ev == pre_ev
        &&& post_col == pre_col
    } else {
        &&& got_or_created(pre_col, post_col, claims.sub@)
        &&& (if slot_before(pre_col, CollectionSlot::CreatedEvents, claims.sub@).contains(id) {
            replace_applied(pre_ev, post_ev, id, event, r)
        } else {
            &&& r is Err
            &&& r->Err_0 is Forbidden
            &&& post_ev == pre_ev
        })
    }
}

/// What deleting an event does to the two stores: the same ownership
/// check as for updates, followed by the row deletion; only when a row
/// was deleted is ownership revoked from the caller's record.
pub open spec fn delete_event_outcome(
    pre_ev: Seq<EventRow>,
    post_ev: Seq<EventRow>,
    pre_col: Seq<RecordView>,
    post_col: Seq<RecordView>,
    col_could_create: bool,
    id: i64,
    claims: Claims,
    r: Result<(), AppError>,
) -> bool {
    if is_admin_role(claims) {
        let idx = find_event(pre_ev, id as int);
        if idx >= 0 {
            &&& post_ev == pre_ev.remove(idx)
            &&& cycle_effect(
                pre_col,
                post_col,
                col_could_create,
                CollectionSlot::CreatedEvents,
                claims.sub@,
                (|s: Seq<i64>| s.remove_value(id)),
                r is Ok,
            )
            &&& (r is Err ==> r->Err_0 is DatabaseError)
        } else {
            &&& r is Err
            &&& r->Err_0 is NotFound
            &&& post_ev == pre_ev
            &&& post_col == pre_col
        }
    } else if find_user(pre_col, claims.sub@) < 0 && !col_could_create {
        &&& r is Err
        &&& r->Err_0 is DatabaseError
        &&& post_ev == pre_ev
        &&& post_col == pre_col
    } else if !slot_before(pre_col, CollectionSlot::CreatedEvents, claims.sub@).contains(id) {
        &&& r is Err
        &&& r->Err_0 is Forbidden
        &&& post_ev == pre_ev
        &&& got_or_created(pre_col, post_col, claims.sub@)
    } else {
        let idx = find_event(pre_ev, id as int);
        if idx >= 0 {
            &&& post_ev == pre_ev.remove(idx)
            &&& cycle_effect(
                pre_col,
                post_col,
                col_could_create,
                CollectionSlot::CreatedEvents,
                claims.sub@,
                (|s: Seq<i64>| s.remove_value(id)),
                r is Ok,
            )
            &&& (r is Err ==> r->Err_0 is DatabaseError)
        } else {
            &&& r is Err
            &&& r->Err_0 is NotFound
            &&& post_ev == pre_ev
            &&& post_col == pre_col
        }
    }
}

/// A name-ordered listing of exactly the rows of `chosen`, rendered as
/// responses.
pub open spec fn is_sorted_listing(chosen: Seq<EventRow>, out: Seq<EventResponse>) -> bool {
    exists|rows: Seq<EventRow>|
        {
            &&& #[trigger] rows.map_values(responses_fn()) == out
            &&& sorted_by(rows, by_name())
            &&& rows.to_multiset() == chosen.to_multiset()
        }
}

/// The event logic over the event store.
pub struct EventLogic {
    repository: EventContext,
}

impl View for EventLogic {
    type V = Seq<EventRow>;

    closed spec fn view(&self) -> Seq<EventRow> {
        self.repository@
    }
}

impl EventLogic {
    /// The logic is well formed when its store is.
    pub closed spec fn wf(self) -> bool {
        self.repository.wf()
    }

    /// Whether the store can still hand out a fresh row id.
    pub closed spec fn can_create(self) -> bool {
        self.repository.can_create()
    }

    /// The logic over a given event store.
    pub fn new(repository: EventContext) -> (r: Self)
        ensures
            r@ == repository@,
            r.wf() == repository.wf(),
            r.can_create() == repository.can_create(),
    {
        EventLogic { repository }
    }

    /// The underlying store, for hydrating reads that resolve id lists.
    pub fn store(&self) -> (r: &EventContext)
        ensures
            r@ == self@,
            r.wf() == self.wf(),
            r.can_create() == self.can_create(),
    {
        &self.repository
    }

    /// Puts a persisted event back under its stored row id — the load
    /// path at startup, before any request is served.
    pub fn restore(&mut self, event: &NomEvent, id: i64) -> (r: Result<(), AppError>)
        requires
            old(self).wf(),
        ensures
            final(self).wf(),
            crate::events::restore_event_outcome(old(self)@, final(self)@, *event, id, r),
    {
        self.repository.restore(event, id)
    }

    /// Every stored event, in store order, as responses.
    pub fn get_all_events(&self) -> (r: Result<Vec<EventResponse>, AppError>)
        ensures
            r is Ok,
            r->Ok_0@ == self@.map_values(responses_fn()),
    {
        let rows = match self.repository.find_all() {
            Ok(v) => v,
            Err(e) => {
                return Err(e);
            }
        };
        Ok(rows_to_responses(rows))
    }

    /// The event with id `id` as a response, or NotFound.
    pub fn get_event_by_id(&self, id: i64) -> (r: Result<EventResponse, AppError>)
        ensures
            ({
                let idx = find_event(self@, id as int);
                if idx >= 0 {
                    &&& r is Ok
                    &&& r->Ok_0 == crate::dtos::response_of(self@[idx])
                } else {
                    &&& r is Err
                    &&& r->Err_0 is NotFound
                }
            }),
    {
        let row = match self.repository.find_by_id(id) {
            Ok(row) => row,
            Err(e) => {
                return Err(e);
            }
        };
        Ok(EventResponse::from_row(row))
    }

    /// The events of one category, in store order, as responses.
    pub fn get_events_by_type(&self, event_type_id: i64) -> (r: Result<
        Vec<EventResponse>,
        AppError,
    >)
        ensures
            r is Ok,
            r->Ok_0@ == self@.filter(type_pred(event_type_id)).map_values(responses_fn()),
    {
        let rows = match self.repository.find_by_type(event_type_id) {
            Ok(v) => v,
            Err(e) => {
                return Err(e);
            }
        };
        Ok(rows_to_responses(rows))
    }

    /// The events whose ids appear in `input`, in store order, as
    /// responses; ids that do not resolve are silently dropped.
    pub fn get_by_id_list(&self, input: Vec<i64>) -> (r: Result<Vec<EventResponse>, AppError>)
        ensures
            r is Ok,
            r->Ok_0@ == self@.filter(id_list_pred(input@)).map_values(responses_fn()),
    {
        let rows = match self.repository.get_by_id_list(input) {
            Ok(v) => v,
            Err(e) => {
                return Err(e);
            }
        };
        Ok(rows_to_responses(rows))
    }

    /// The events in the bounding box around `(lat, lon)`, ordered by
    /// name, as responses.  A radius outside (0, 500] miles — here in
    /// thousandths of a mile — is rejected before the store is asked;
    /// the query point itself may be anywhere.
    pub fn get_nearby_events(&self, lat: i64, lon: i64, radius_milli: i64, cos_lat_micro: i64)
        -> (r: Result<Vec<EventResponse>, AppError>)
        requires
            1 <= cos_lat_micro <= 1000000,
        ensures
            (if 0 < radius_milli <= 500000 {
                &&& r is Ok
                &&& is_sorted_listing(
                    self@.filter(
                        nearby_pred(
                            lat as int,
                            lon as int,
                            radius_milli as int,
                            cos_lat_micro as int,
                        ),
                    ),
                    r->Ok_0@,
                )
            } else {
                &&& r is Err
                &&& r->Err_0 is ValidationError
            }),
    {
        if radius_milli <= 0 || radius_milli > 500000 {
            return Err(
                AppError::ValidationError("Radius must be between 0 and 500 miles".to_owned()),
            );
        }
        let rows = match self.repository.find_nearby(lat, lon, radius_milli, cos_lat_micro) {
            Ok(v) => v,
            Err(e) => {
                return Err(e);
            }
        };
        let ghost witness = rows@;
        let out = rows_to_responses(rows);
        proof {
            assert(witness.map_values(responses_fn()) == out@);
        }
        Ok(out)
    }

    /// Validates the payload, persists the event under a fresh id, and
    /// grants the creator ownership of that id.
    pub fn create_event(&mut self, event: NomEvent, collections: &mut UserCollectionLogic) -> (r:
        Result<i64, AppError>)
        requires
            old(self).wf(),
            old(collections).wf(),
        ensures
            final(self).wf(),
            final(collections).wf(),
            create_event_outcome(
                old(self)@,
                final(self)@,
                old(self).can_create(),
                old(collections)@,
                final(collections)@,
                old(collections).can_create(),
                event,
                r,
            ),
    {
        match self.validate_event(&event) {
            Ok(u) => u,
            Err(e) => {
                return Err(e);
            }
        };
        let user_id = match &event.user_id {
            Some(u) => u.clone(),
            None => {
                return Err(AppError::ValidationError("user_id is required".to_owned()));
            }
        };
        let id = match self.repository.create(&event) {
            Ok(i) => i,
            Err(e) => {
                return Err(e);
            }
        };
        let granted = collections.event_ownership(id, &user_id);
        match granted {
            Ok(_) => Ok(id),
            Err(e) => Err(e),
        }
    }

    /// Validates the payload, applies the owner-or-admin gate, and
    /// replaces the stored event.  An admin or super admin passes the
    /// gate regardless of ownership; anyone else must hold `id` in their
    /// created events, or receives Forbidden.
    pub fn update_event(
        &mut self,
        id: i64,
        event: NomEvent,
        claims: Claims,
        collections: &mut UserCollectionLogic,
    ) -> (r: Result<(), AppError>)
        requires
            old(self).wf(),
            old(collections).wf(),
        ensures
            final(self).wf(),
            final(collections).wf(),
            update_event_outcome(
                old(self)@,
                final(self)@,
                old(collections)@,
                final(collections)@,
                old(collections).can_create(),
                id,
                event,
                claims,
                r,
            ),
    {
        match self.validate_event(&event) {
            Ok(u) => u,
            Err(e) => {
                return Err(e);
            }
        };
        let role = claims.get_role();
        let is_admin = matches!(role, crate::auth::UserRole::Admin | crate::auth::UserRole::SuperAdmin);
        if !is_admin {
            let collection = match collections.get(&claims.sub) {
                Ok(c) => c,
                Err(e) => {
                    return Err(e);
                }
            };
            let is_owner = collection.holds(CollectionSlot::CreatedEvents, id);
            if !is_owner {
                return Err(
                    AppError::Forbidden(
                        "You do not have permission to update this event".to_owned(),
                    ),
                );
            }
        }
        let updated = match self.repository.update(id, &event) {
            Ok(u) => u,
            Err(e) => {
                return Err(e);
            }
        };
        if !updated {
            return Err(AppError::NotFound("Event not found".to_owned()));
        }
        Ok(())
    }

    /// Applies the owner-or-admin gate, deletes the stored event, and —
    /// only when a row was deleted — revokes the id from the caller's
    /// created events.
    pub fn delete_event(&mut self, id: i64, claims: Claims, collections: &mut UserCollectionLogic)
        -> (r: Result<(), AppError>)
        requires
            old(self).wf(),
            old(collections).wf(),
        ensures
            final(self).wf(),
            final(collections).wf(),
            delete_event_outcome(
                old(self)@,
                final(self)@,
                old(collections)@,
                final(collections)@,
                old(collections).can_create(),
                id,
                claims,
                r,
            ),
    {
        let role = claims.get_role();
        let is_admin = matches!(role, crate::auth::UserRole::Admin | crate::auth::UserRole::SuperAdmin);
        if !is_admin {
            let collection = match collections.get(&claims.sub) {
                Ok(c) => c,
                Err(e) => {
                    return Err(e);
                }
            };
            let is_owner = collection.holds(CollectionSlot::CreatedEvents, id);
            if !is_owner {
                return Err(
                    AppError::Forbidden(
                        "You do not have permission to delete this event".to_owned(),
                    ),
                );
            }
        }
        let deleted = match self.repository.delete(id) {
            Ok(d) => d,
            Err(e) => {
                return Err(e);
            }
        };
        if !deleted {
            return Err(AppError::NotFound("Event not found".to_owned()));
        }
        let revoked = collections.remove_event_ownership(id, &claims.sub);
        match revoked {
            Ok(_) => Ok(()),
            Err(e) => Err(e),
        }
    }

    /// Rejects an invalid payload with the reason.
    pub fn validate_event(&self, event: &NomEvent) -> (r: Result<(), AppError>)
        ensures
            r is Ok <==> valid_event(*event),
            r is Err ==> r->Err_0 is ValidationError,
    {
        if is_blank_str(&event.name) {
            return Err(AppError::ValidationError("Event name cannot be empty".to_owned()));
        }
        if is_blank_str(&event.description) {
            return Err(
                AppError::ValidationError("Event description cannot be empty".to_owned()),
            );
        }
        if event.location_info.latitude < -90000000 || event.location_info.latitude > 90000000 {
            return Err(AppError::ValidationError("Invalid latitude".to_owned()));
        }
        if event.location_info.longitude < -180000000 || event.location_info.longitude
            > 180000000 {
            return Err(AppError::ValidationError("Invalid longitude".to_owned()));
        }
        if let (Some(start), Some(end)) = (&event.date_info.start_date, &event.date_info.end_date) {
            if *end < *start {
                return Err(
                    AppError::ValidationError("End date cannot be before start date".to_owned()),
                );
            }
        }
        Ok(())
    }
}

} // verus!

//! The collection store: one record per user, looked up by user id or by
//! record id, with full-record replace as the only mutation primitive.
//!
//! `get` is get-or-create: a user with no record receives a fresh one with
//! all six lists empty and a record id never handed out before.  Both
//! lookup paths — by user id and by record id — address the same records.

use vstd::prelude::*;
use crate::collection::RecordView;
use crate::collection::UserEventDataRow;
use crate::errors::AppError;

verus! {

/// The index of the record that belongs to `uid`, or -1 if there is none.
pub open spec fn find_user(rs: Seq<RecordView>, uid: Seq<char>) -> int
    decreases rs.len(),
{
    if rs.len() == 0 {
        -1
    } else if rs[0].user_id == uid {
        0
    } else {
        let rest = find_user(rs.drop_first(), uid);
        if rest == -1 {
            -1
        } else {
            rest + 1
        }
    }
}

/// The index of the record whose record id is `id`, or -1 if there is none.
pub open spec fn find_record(rs: Seq<RecordView>, id: int) -> int
    decreases rs.len(),
{
    if rs.len() == 0 {
        -1
    } else if rs[0].id == id {
        0
    } else {
        let rest = find_record(rs.drop_first(), id);
        if rest == -1 {
            -1
        } else {
            rest + 1
        }
    }
}

/// What `find_user` returns: the first matching index, or -1 exactly when
/// no record belongs to `uid`.
pub proof fn lemma_find_user(rs: Seq<RecordView>, uid: Seq<char>)
    ensures
        ({
            let idx = find_user(rs, uid);
            if idx >= 0 {
                &&& idx < rs.len()
                &&& rs[idx].user_id == uid
                &&& (forall|j: int| 0 <= j < idx ==> rs[j].user_id != uid)
            } else {
                &&& idx == -1
                &&& (forall|j: int| 0 <= j < rs.len() ==> rs[j].user_id != uid)
            }
        }),
    decreases rs.len(),
{
    if rs.len() > 0 {
        if rs[0].user_id == uid {
        } else {
            let rest = rs.drop_first();
            lemma_find_user(rest, uid);
            assert(forall|j: int| 0 <= j < rest.len() ==> #[trigger] rest[j] == rs[j + 1]);
            let rid = find_user(rest, uid);
            if rid >= 0 {
                assert(rs[rid + 1].user_id == uid);
                assert forall|j: int| 0 <= j < rid + 1 implies rs[j].user_id != uid by {
                    if j > 0 {
                        assert(rest[j - 1] == rs[j]);
                    }
                }
            } else {
                assert forall|j: int| 0 <= j < rs.len() implies rs[j].user_id != uid by {
                    if j > 0 {
                        assert(rest[j - 1] == rs[j]);
                    }
                }
            }
        }
    }
}

/// What `find_record` returns: the first matching index, or -1 exactly when
/// no record carries `id`.
pub proof fn lemma_find_record(rs: Seq<RecordView>, id: int)
    ensures
        ({
            let idx = find_record(rs, id);
            if idx >= 0 {
                &&& idx < rs.len()
                &&& rs[idx].id == id
                &&& (forall|j: int| 0 <= j < idx ==> rs[j].id != id)
            } else {
                &&& idx == -1
                &&& (forall|j: int| 0 <= j < rs.len() ==> rs[j].id != id)
            }
        }),
    decreases rs.len(),
{
    if rs.len() > 0 {
        if rs[0].id == id {
        } else {
            let rest = rs.drop_first();
            lemma_find_record(rest, id);
            assert(forall|j: int| 0 <= j < rest.len() ==> #[trigger] rest[j] == rs[j + 1]);
            let rid = find_record(rest, id);
            if rid >= 0 {
                assert(rs[rid + 1].id == id);
                assert forall|j: int| 0 <= j < rid + 1 implies rs[j].id != id by {
                    if j > 0 {
                        assert(rest[j - 1] == rs[j]);
                    }
                }
            } else {
                assert forall|j: int| 0 <= j < rs.len() implies rs[j].id != id by {
                    if j > 0 {
                        assert(rest[j - 1] == rs[j]);
                    }
                }
            }
        }
    }
}

/// No two records belong to the same user.
pub open spec fn distinct_user_ids(rs: Seq<RecordView>) -> bool {
    forall|i: int, j: int|
        0 <= i < rs.len() && 0 <= j < rs.len() && i != j ==> rs[i].user_id != rs[j].user_id
}

/// No two records share a record id.
pub open spec fn distinct_record_ids(rs: Seq<RecordView>) -> bool {
    forall|i: int, j: int|
        0 <= i < rs.len() && 0 <= j < rs.len() && i != j ==> rs[i].id != rs[j].id
}

/// In a store without duplicate users, looking a member record's user up
/// finds exactly that record.
pub proof fn lemma_find_user_of_member(rs: Seq<RecordView>, idx: int)
    requires
        distinct_user_ids(rs),
        0 <= idx < rs.len(),
    ensures
        find_user(rs, rs[idx].user_id) == idx,
{
    lemma_find_user(rs, rs[idx].user_id);
    let k = find_user(rs, rs[idx].user_id);
    if k < 0 {
        assert(rs[idx].user_id != rs[idx].user_id);
    }
}

/// The target record with all six lists taken from `src`, keeping the
/// target's identity — what a full-record replace stores.
pub open spec fn with_lists(target: RecordView, src: RecordView) -> RecordView {
    RecordView {
        id: target.id,
        user_id: target.user_id,
        favorite_events: src.favorite_events,
        favorite_microevents: src.favorite_microevents,
        saved_events: src.saved_events,
        saved_microevents: src.saved_microevents,
        created_events: src.created_events,
        created_microevents: src.created_microevents,
    }
}

/// What fetching `uid`'s record with get-or-create semantics does: an
/// existing record is returned with the store untouched; otherwise a fresh
/// empty record with a never-used record id is appended and returned; the
/// only failure, with the store untouched, is an exhausted id space.
pub open spec fn get_or_create_outcome(
    pre: Seq<RecordView>,
    post: Seq<RecordView>,
    could_create: bool,
    uid: Seq<char>,
    r: Result<UserEventDataRow, AppError>,
) -> bool {
    let idx = find_user(pre, uid);
    if idx >= 0 {
        &&& r is Ok
        &&& r->Ok_0@ == pre[idx]
        &&& post == pre
    } else if could_create {
        &&& r is Ok
        &&& r->Ok_0@.user_id == uid
        &&& r->Ok_0@.emptied()
        &&& (forall|i: int| 0 <= i < pre.len() ==> (#[trigger] pre[i]).id != r->Ok_0@.id)
        &&& post == pre.push(r->Ok_0@)
    } else {
        &&& r is Err
        &&& r->Err_0 is DatabaseError
        &&& post == pre
    }
}

/// What a successful get-or-create fetch does to the store alone: an
/// existing record leaves it untouched, a first access appends one fresh
/// empty record for the user.
pub open spec fn got_or_created(
    pre: Seq<RecordView>,
    post: Seq<RecordView>,
    uid: Seq<char>,
) -> bool {
    let idx = find_user(pre, uid);
    if idx >= 0 {
        post == pre
    } else {
        &&& post.len() == pre.len() + 1
        &&& (forall|j: int| 0 <= j < pre.len() ==> #[trigger] post[j] == pre[j])
        &&& post[pre.len() as int].user_id == uid
        &&& post[pre.len() as int].emptied()
        &&& (forall|i: int|
            0 <= i < pre.len() ==> (#[trigger] pre[i]).id != post[pre.len() as int].id)
    }
}

/// What putting a persisted record back does: a record id outside the
/// usable space is rejected as invalid; one whose user or record id is
/// already taken is rejected as a conflict; otherwise the record joins
/// the store exactly as it was handed in.
pub open spec fn restore_outcome(
    pre: Seq<RecordView>,
    post: Seq<RecordView>,
    rec: UserEventDataRow,
    r: Result<(), AppError>,
) -> bool {
    if !(0 < rec.id < i64::MAX) {
        &&& r is Err
        &&& r->Err_0 is ValidationError
        &&& post == pre
    } else if find_user(pre, rec@.user_id) >= 0 || find_record(pre, rec@.id) >= 0 {
        &&& r is Err
        &&& r->Err_0 is Conflict
        &&& post == pre
    } else {
        &&& r is Ok
        &&& post == pre.push(rec@)
    }
}

/// Law (get-or-create exactly once): a record freshly appended for a user
/// no existing record belongs to is exactly the record every later lookup
/// for that user finds.  Together with `UserCollectionContext::get`'s
/// contract this says the first `get` for a new user creates exactly one
/// record and a second `get` returns that same record unchanged.
pub proof fn lemma_get_or_create_exactly_once(rs: Seq<RecordView>, rec: RecordView)
    requires
        find_user(rs, rec.user_id) == -1,
    ensures
        find_user(rs.push(rec), rec.user_id) == rs.len() as int,
        rs.push(rec)[rs.len() as int] == rec,
    decreases rs.len(),
{
    lemma_find_user(rs, rec.user_id);
    if rs.len() == 0 {
        assert(rs.push(rec)[0] == rec);
    } else {
        assert(rs.push(rec)[0] == rs[0]);
        assert(rs[0].user_id != rec.user_id);
        let rest = rs.drop_first();
        lemma_find_user(rest, rec.user_id);
        assert(forall|j: int| 0 <= j < rest.len() ==> rest[j] == rs[j + 1]);
        assert(find_user(rest, rec.user_id) == -1);
        lemma_get_or_create_exactly_once(rest, rec);
        assert(rs.push(rec).drop_first() =~= rest.push(rec));
    }
}

/// The store of user collection records.
///
/// Record ids are handed out in increasing order starting at 1, so a fresh
/// record never reuses an id; the id space runs out only at `i64::MAX`.
pub struct UserCollectionContext {
    records: Vec<UserEventDataRow>,
    next_id: i64,
}

impl View for UserCollectionContext {
    type V = Seq<RecordView>;

    closed spec fn view(&self) -> Seq<RecordView> {
        self.records@.map_values(|r: UserEventDataRow| r@)
    }
}

impl UserCollectionContext {
    /// The store's invariant: records with distinct users and distinct
    /// record ids, the ids all below the next id to hand out.
    pub closed spec fn wf(self) -> bool {
        &&& distinct_user_ids(self@)
        &&& distinct_record_ids(self@)
        &&& (forall|i: int| 0 <= i < self@.len() ==> 0 < (#[trigger] self@[i]).id < self.next_id)
        &&& 1 <= self.next_id
    }

    /// Whether the store can still hand out a fresh record id.
    pub closed spec fn can_create(self) -> bool {
        self.next_id < i64::MAX
    }

    /// A well-formed store has distinct users and distinct record ids.
    pub proof fn lemma_wf_distinct(self)
        requires
            self.wf(),
        ensures
            distinct_user_ids(self@),
            distinct_record_ids(self@),
    {
    }

    /// An empty store.
    pub fn new() -> (r: Self)
        ensures
            r.wf(),
            r@ == Seq::<RecordView>::empty(),
            r.can_create(),
    {
        let r = UserCollectionContext { records: Vec::new(), next_id: 1 };
        proof {
            assert(r@ =~= Seq::<RecordView>::empty());
        }
        r
    }

    /// Fetches the record of `user_id`, creating an empty one first if the
    /// user has none.  The only failure is an exhausted record-id space.
    #[verifier::loop_isolation(false)]
    pub fn get(&mut self, user_id: String) -> (r: Result<UserEventDataRow, AppError>)
        requires
            old(self).wf(),
        ensures
            final(self).wf(),
            get_or_create_outcome(
                old(self)@,
                final(self)@,
                old(self).can_create(),
                user_id@,
                r,
            ),
    {
        proof {
            lemma_find_user(old(self)@, user_id@);
        }
        let ghost idx = find_user(old(self)@, user_id@);
        let mut i: usize = 0;
        while i < self.records.len()
            invariant
                i <= self.records.len(),
                forall|j: int| 0 <= j < i ==> self@[j].user_id != user_id@,
            decreases self.records.len() - i,
        {
            if self.records[i].user_id == user_id {
                proof {
                    assert(self@[i as int].user_id == user_id@);
                    if idx < i {
                        assert(self@[idx].user_id != user_id@);
                    }
                    if idx > i || idx < 0 {
                        assert(self@[i as int].user_id != user_id@);
                    }
                    assert(idx == i as int);
                }
                let rec = self.records[i].clone();
                return Ok(rec);
            }
            i = i + 1;
        }
        proof {
            assert(idx == -1);
        }
        if self.next_id == i64::MAX {
            return Err(AppError::DatabaseError("record id space exhausted".to_owned()));
        }
        let id = self.next_id;
        self.next_id = self.next_id + 1;
        let rec = UserEventDataRow::new_empty(id, user_id);
        let stored = rec.clone();
        self.records.push(stored);
        proof {
            assert(self@ =~= old(self)@.push(rec@));
            assert(forall|k: int|
                0 <= k < old(self)@.len() ==> #[trigger] self@[k] == old(self)@[k]);
        }
        Ok(rec)
    }

    /// Fetches the record with record id `id`; never creates one.
    #[verifier::loop_isolation(false)]
    pub fn get_by_id(&self, id: i64) -> (r: Result<UserEventDataRow, AppError>)
        requires
            self.wf(),
        ensures
            ({
                let idx = find_record(self@, id as int);
                if idx >= 0 {
                    &&& r is Ok
                    &&& r->Ok_0@ == self@[idx]
                } else {
                    &&& r is Err
                    &&& r->Err_0 is NotFound
                }
            }),
    {
        proof {
            lemma_find_record(self@, id as int);
        }
        let ghost idx = find_record(self@, id as int);
        let mut i: usize = 0;
        while i < self.records.len()
            invariant
                i <= self.records.len(),
                forall|j: int| 0 <= j < i ==> self@[j].id != id as int,
            decreases self.records.len() - i,
        {
            if self.records[i].id == id {
                proof {
                    assert(self@[i as int].id == id as int);
                    if idx < i {
                        assert(self@[idx].id != id as int);
                    }
                    if idx > i || idx < 0 {
                        assert(self@[i as int].id != id as int);
                    }
                    assert(idx == i as int);
                }
                let rec = self.records[i].clone();
                return Ok(rec);
            }
            i = i + 1;
        }
        Err(AppError::NotFound("User event data not found".to_owned()))
    }

    /// Puts a persisted record back under its stored identity — the load
    /// path at startup.  Future fresh ids are raised above the restored
    /// one, so a restored id is never handed out again.
    #[verifier::loop_isolation(false)]
    pub fn restore(&mut self, rec: UserEventDataRow) -> (r: Result<(), AppError>)
        requires
            old(self).wf(),
        ensures
            final(self).wf(),
            restore_outcome(old(self)@, final(self)@, rec, r),
    {
        proof {
            lemma_find_user(old(self)@, rec@.user_id);
            lemma_find_record(old(self)@, rec@.id);
        }
        if rec.id <= 0 || rec.id == i64::MAX {
            return Err(AppError::ValidationError("record id out of range".to_owned()));
        }
        let ghost uidx = find_user(old(self)@, rec@.user_id);
        let ghost ridx = find_record(old(self)@, rec@.id);
        let mut i: usize = 0;
        while i < self.records.len()
            invariant
                i <= self.records.len(),
                forall|j: int|
                    0 <= j < i ==> self@[j].user_id != rec@.user_id && self@[j].id != rec@.id,
            decreases self.records.len() - i,
        {
            if self.records[i].user_id == rec.user_id {
                proof {
                    assert(self@[i as int].user_id == rec@.user_id);
                    if uidx < i {
                        assert(self@[uidx].user_id != rec@.user_id);
                    }
                    if uidx > i || uidx < 0 {
                        assert(self@[i as int].user_id != rec@.user_id);
                    }
                    assert(uidx == i as int);
                }
                return Err(AppError::Conflict("record already exists for user".to_owned()));
            }
            if self.records[i].id == rec.id {
                proof {
                    assert(self@[i as int].id == rec@.id);
                    if ridx < i {
                        assert(self@[ridx].id != rec@.id);
                    }
                    if ridx > i || ridx < 0 {
                        assert(self@[i as int].id != rec@.id);
                    }
                    assert(ridx == i as int);
                }
                return Err(AppError::Conflict("record id already taken".to_owned()));
            }
            i = i + 1;
        }
        proof {
            assert(uidx == -1);
            assert(ridx == -1);
        }
        if self.next_id <= rec.id {
            self.next_id = rec.id + 1;
        }
        let ghost pre = old(self)@;
        self.records.push(rec);
        proof {
            assert(self@ =~= pre.push(self.records@[pre.len() as int]@));
            assert(forall|k: int| 0 <= k < pre.len() ==> #[trigger] self@[k] == pre[k]);
        }
        Ok(())
    }

    /// Replaces all six lists of the record that belongs to `data`'s user,
    /// keeping the stored identity; a user with no record is left alone,
    /// as a keyed update that affects no row.
    #[verifier::loop_isolation(false)]
    pub fn update(&mut self, data: &UserEventDataRow) -> (r: Result<(), AppError>)
        requires
            old(self).wf(),
        ensures
            final(self).wf(),
            r is Ok,
            ({
                let idx = find_user(old(self)@, data@.user_id);
                if idx >= 0 {
                    final(self)@ == old(self)@.update(idx, with_lists(old(self)@[idx], data@))
                } else {
                    final(self)@ == old(self)@
                }
            }),
    {
        proof {
            lemma_find_user(old(self)@, data@.user_id);
        }
        let ghost idx = find_user(old(self)@, data@.user_id);
        let mut i: usize = 0;
        while i < self.records.len()
            invariant
                *self == *old(self),
                i <= self.records.len(),
                forall|j: int| 0 <= j < i ==> self@[j].user_id != data@.user_id,
            decreases self.records.len() - i,
        {
            if self.records[i].user_id == data.user_id {
                proof {
                    assert(self@[i as int].user_id == data@.user_id);
                    if idx < i {
                        assert(self@[idx].user_id != data@.user_id);
                    }
                    if idx > i || idx < 0 {
                        assert(self@[i as int].user_id != data@.user_id);
                    }
                    assert(idx == i as int);
                }
                let stored_id = self.records[i].id;
                let ghost stored_view = self@[i as int];
                let replacement = UserEventDataRow {
                    id: stored_id,
                    user_id: self.records[i].user_id.clone(),
                    favorite_events: data.favorite_events.clone(),
                    favorite_microevents: data.favorite_microevents.clone(),
                    saved_events: data.saved_events.clone(),
                    saved_microevents: data.saved_microevents.clone(),
                    created_events: data.created_events.clone(),
                    created_microevents: data.created_microevents.clone(),
                };
                proof {
                    assert(replacement.favorite_events@ =~= data.favorite_events@);
                    assert(replacement.favorite_microevents@ =~= data.favorite_microevents@);
                    assert(replacement.saved_events@ =~= data.saved_events@);
                    assert(replacement.saved_microevents@ =~= data.saved_microevents@);
                    assert(replacement.created_events@ =~= data.created_events@);
                    assert(replacement.created_microevents@ =~= data.created_microevents@);
                    assert(replacement@ =~= with_lists(stored_view, data@));
                }
                self.records.set(i, replacement);
                proof {
                    assert(self@ =~= old(self)@.update(
                        i as int,
                        with_lists(old(self)@[i as int], data@),
                    ));
                }
                return Ok(());
            }
            i = i + 1;
        }
        proof {
            assert(idx == -1);
            assert(self@ =~= old(self)@);
        }
        Ok(())
    }
}

} // verus!

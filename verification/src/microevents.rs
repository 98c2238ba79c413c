//! The microevent store: sub-activities of an event, keyed by numeric id,
//! owned by a user, soft-hidden by an archive flag rather than deleted,
//! and listed in order of their start times.
//!
//! Timestamps are Unix seconds handed in by the caller, since only the
//! outer layer has a clock.

use vstd::prelude::*;
use vstd::relations::sorted_by;
use crate::errors::AppError;

verus! {

/// A sub-activity of an event.
#[derive(Debug)]
pub struct Microevent {
    pub id: i64,
    /// The parent event.
    pub event_id: i64,
    /// The owning user.
    pub user_id: String,
    pub name: String,
    /// Soft-hide: an archived microevent stays stored.
    pub archive: bool,
    pub description: Option<String>,
    pub start_time: Option<i64>,
    pub end_time: Option<i64>,
    pub created_at: Option<i64>,
    pub updated_at: Option<i64>,
}

impl Clone for Microevent {
    fn clone(&self) -> (r: Self)
        ensures
            r == *self,
    {
        Microevent {
            id: self.id,
            event_id: self.event_id,
            user_id: self.user_id.clone(),
            name: self.name.clone(),
            archive: self.archive,
            description: match &self.description {
                Some(s) => Some(s.clone()),
                None => None,
            },
            start_time: self.start_time,
            end_time: self.end_time,
            created_at: self.created_at,
            updated_at: self.updated_at,
        }
    }
}

/// Start-time order, the order of every listing: rows without a start
/// time come first, as a keyed scan lists missing values.
pub open spec fn time_le_spec(a: Microevent, b: Microevent) -> bool {
    match (a.start_time, b.start_time) {
        (Option::None, _) => true,
        (Option::Some(x), Option::None) => false,
        (Option::Some(x), Option::Some(y)) => x <= y,
    }
}

/// Start-time order as a relation value.
pub open spec fn by_time() -> spec_fn(Microevent, Microevent) -> bool {
    |a: Microevent, b: Microevent| time_le_spec(a, b)
}

/// The exec start-time comparison.
fn time_le(a: &Microevent, b: &Microevent) -> (r: bool)
    ensures
        r == time_le_spec(*a, *b),
{
    match (&a.start_time, &b.start_time) {
        (Option::None, _) => true,
        (Option::Some(_), Option::None) => false,
        (Option::Some(x), Option::Some(y)) => *x <= *y,
    }
}

/// The index of the row with id `id`, or -1 if there is none.
pub open spec fn find_micro(rs: Seq<Microevent>, id: int) -> int
    decreases rs.len(),
{
    if rs.len() == 0 {
        -1
    } else if rs[0].id == id {
        0
    } else {
        let rest = find_micro(rs.drop_first(), id);
        if rest == -1 {
            -1
        } else {
            rest + 1
        }
    }
}

/// What `find_micro` returns: the first matching index, or -1 exactly
/// when no row carries `id`.
pub proof fn lemma_find_micro(rs: Seq<Microevent>, id: int)
    ensures
        ({
            let idx = find_micro(rs, id);
            if idx >= 0 {
                &&& idx < rs.len()
                &&& rs[idx].id == id
                &&& (forall|j: int| 0 <= j < idx ==> rs[j].id != id)
            } else {
                &&& idx == -1
                &&& (forall|j: int| 0 <= j < rs.len() ==> rs[j].id != id)
            }
        }),
    decreases rs.len(),
{
    if rs.len() > 0 {
        if rs[0].id == id {
        } else {
            let rest = rs.drop_first();
            lemma_find_micro(rest, id);
            assert(forall|j: int| 0 <= j < rest.len() ==> #[trigger] rest[j] == rs[j + 1]);
            let rid = find_micro(rest, id);
            if rid >= 0 {
                assert(rs[rid + 1].id == id);
                assert forall|j: int| 0 <= j < rid + 1 implies rs[j].id != id by {
                    if j > 0 {
                        assert(rest[j - 1] == rs[j]);
                    }
                }
            } else {
                assert forall|j: int| 0 <= j < rs.len() implies rs[j].id != id by {
                    if j > 0 {
                        assert(rest[j - 1] == rs[j]);
                    }
                }
            }
        }
    }
}

/// The membership test of an id-list lookup.
pub open spec fn micro_id_list_pred(ids: Seq<i64>) -> spec_fn(Microevent) -> bool {
    |m: Microevent| ids.contains(m.id)
}

/// The membership test of a parent-event lookup.
pub open spec fn micro_event_pred(event_id: i64) -> spec_fn(Microevent) -> bool {
    |m: Microevent| m.event_id == event_id
}

/// The membership test of an owner lookup.
pub open spec fn micro_user_pred(user_id: Seq<char>) -> spec_fn(Microevent) -> bool {
    |m: Microevent| m.user_id@ == user_id
}

/// The membership test of the active listing.
pub open spec fn micro_active_pred() -> spec_fn(Microevent) -> bool {
    |m: Microevent| !m.archive
}

/// The membership test that admits every row.
pub open spec fn micro_all_pred() -> spec_fn(Microevent) -> bool {
    |m: Microevent| true
}

/// The row that `create` stores: the caller's fields under a fresh id,
/// both timestamps stamped with the creation time.
pub open spec fn micro_from(m: Microevent, id: i64, now: i64) -> Microevent {
    Microevent { id: id, created_at: Some(now), updated_at: Some(now), ..m }
}

/// The row that `update` stores: the caller's fields over the stored
/// row's identity and creation time, the update time restamped.
pub open spec fn micro_updated(stored: Microevent, m: Microevent, now: i64) -> Microevent {
    Microevent { id: stored.id, created_at: stored.created_at, updated_at: Some(now), ..m }
}

/// The first position whose row's start time is not at or below `row`'s —
/// where an order-preserving insertion puts `row`.
#[verifier::loop_isolation(false)]
fn micro_lower_pos(list: &Vec<Microevent>, row: &Microevent) -> (p: usize)
    ensures
        p <= list@.len(),
        forall|k: int| 0 <= k < p ==> time_le_spec(#[trigger] list@[k], *row),
        p < list@.len() ==> !time_le_spec(list@[p as int], *row),
{
    let mut j: usize = 0;
    while j < list.len()
        invariant
            j <= list@.len(),
            forall|k: int| 0 <= k < j ==> time_le_spec(#[trigger] list@[k], *row),
        decreases list@.len() - j,
    {
        if !time_le(&list[j], row) {
            return j;
        }
        j = j + 1;
    }
    j
}

/// Inserts `row` into a start-time-ordered list, keeping the order.
#[verifier::rlimit(30)]
fn micro_insert_sorted(list: &mut Vec<Microevent>, row: Microevent)
    requires
        sorted_by(old(list)@, by_time()),
    ensures
        sorted_by(final(list)@, by_time()),
        final(list)@.to_multiset() == old(list)@.to_multiset().insert(row),
{
    let p = micro_lower_pos(list, &row);
    let ghost s = list@;
    list.insert(p, row);
    proof {
        broadcast use vstd::seq_lib::to_multiset_insert;

        s.insert_ensures(p as int, row);
        let t = list@;
        assert forall|x: int, y: int| 0 <= x < y < t.len() implies by_time()(t[x], t[y]) by {
            if y < p {
                assert(t[x] == s[x] && t[y] == s[y]);
            } else if x < p && y == p {
                assert(t[x] == s[x] && t[y] == row);
            } else if x == p {
                assert(t[x] == row && t[y] == s[y - 1]);
                assert(p < s.len());
                assert(time_le_spec(row, s[p as int]));
                if y - 1 > p {
                    assert(by_time()(s[p as int], s[y - 1]));
                }
            } else if x < p && y > p {
                assert(t[x] == s[x] && t[y] == s[y - 1]);
                assert(x < y - 1);
            } else {
                assert(t[x] == s[x - 1] && t[y] == s[y - 1]);
            }
        }
    }
}

/// What putting a persisted microevent back does: a row id outside the
/// usable space is rejected as invalid, a taken one as a conflict;
/// otherwise the row joins the store exactly as it was handed in,
/// timestamps included.
pub open spec fn restore_micro_outcome(
    pre: Seq<Microevent>,
    post: Seq<Microevent>,
    row: Microevent,
    r: Result<(), AppError>,
) -> bool {
    if !(0 < row.id < i64::MAX) {
        &&& r is Err
        &&& r->Err_0 is ValidationError
        &&& post == pre
    } else if find_micro(pre, row.id as int) >= 0 {
        &&& r is Err
        &&& r->Err_0 is Conflict
        &&& post == pre
    } else {
        &&& r is Ok
        &&& post == pre.push(row)
    }
}

/// The microevent store, keyed by numeric id.
pub struct MicroeventContext {
    rows: Vec<Microevent>,
    next_id: i64,
}

impl View for MicroeventContext {
    type V = Seq<Microevent>;

    closed spec fn view(&self) -> Seq<Microevent> {
        self.rows@
    }
}

impl MicroeventContext {
    /// The store's invariant: distinct row ids, all below the next id to
    /// hand out.
    pub closed spec fn wf(self) -> bool {
        &&& (forall|i: int, j: int|
            0 <= i < self@.len() && 0 <= j < self@.len() && i != j ==> self@[i].id != self@[j].id)
        &&& (forall|i: int| 0 <= i < self@.len() ==> 0 < (#[trigger] self@[i]).id < self.next_id)
        &&& 1 <= self.next_id
    }

    /// Whether the store can still hand out a fresh row id.
    pub closed spec fn can_create(self) -> bool {
        self.next_id < i64::MAX
    }

    /// An empty store.
    pub fn new() -> (r: Self)
        ensures
            r.wf(),
            r@ == Seq::<Microevent>::empty(),
            r.can_create(),
    {
        let r = MicroeventContext { rows: Vec::new(), next_id: 1 };
        proof {
            assert(r@ =~= Seq::<Microevent>::empty());
        }
        r
    }

    /// The rows passing `pred`, ordered by start time.
    #[verifier::loop_isolation(false)]
    fn sorted_where(&self, Ghost(pred): Ghost<spec_fn(Microevent) -> bool>, which: u8, key: i64)
        -> (r: Vec<Microevent>)
        requires
            which == 0 ==> pred == micro_all_pred(),
            which == 1 ==> pred == micro_event_pred(key),
            which == 2 ==> pred == micro_active_pred(),
            which == 0 || which == 1 || which == 2,
        ensures
            sorted_by(r@, by_time()),
            r@.to_multiset() == self@.filter(pred).to_multiset(),
    {
        let mut out: Vec<Microevent> = Vec::new();
        proof {
            reveal(Seq::filter);
            assert(self@.subrange(0, 0) =~= Seq::<Microevent>::empty());
            assert(out@ =~= self@.subrange(0, 0).filter(pred));
        }
        let mut i: usize = 0;
        while i < self.rows.len()
            invariant
                i <= self.rows.len(),
                sorted_by(out@, by_time()),
                out@.to_multiset() == self@.subrange(0, i as int).filter(pred).to_multiset(),
            decreases self.rows.len() - i,
        {
            let ghost prefix = self@.subrange(0, i as int);
            let within = if which == 0 {
                true
            } else if which == 1 {
                self.rows[i].event_id == key
            } else {
                !self.rows[i].archive
            };
            if within {
                micro_insert_sorted(&mut out, self.rows[i].clone());
            }
            proof {
                broadcast use vstd::seq_lib::to_multiset_build;

                reveal(Seq::filter);
                assert(self@.subrange(0, i + 1).drop_last() =~= prefix);
                assert(self@.subrange(0, i + 1).last() == self@[i as int]);
                assert(within == pred(self@[i as int]));
            }
            i = i + 1;
        }
        proof {
            assert(self@.subrange(0, self@.len() as int) =~= self@);
        }
        out
    }

    /// Every stored row, ordered by start time.
    pub fn find_all(&self) -> (r: Result<Vec<Microevent>, AppError>)
        ensures
            r is Ok,
            sorted_by(r->Ok_0@, by_time()),
            r->Ok_0@.to_multiset() == self@.filter(micro_all_pred()).to_multiset(),
    {
        Ok(self.sorted_where(Ghost(micro_all_pred()), 0, 0))
    }

    /// The rows under one parent event, ordered by start time.
    pub fn find_by_event(&self, event_id: i64) -> (r: Result<Vec<Microevent>, AppError>)
        ensures
            r is Ok,
            sorted_by(r->Ok_0@, by_time()),
            r->Ok_0@.to_multiset() == self@.filter(micro_event_pred(event_id)).to_multiset(),
    {
        Ok(self.sorted_where(Ghost(micro_event_pred(event_id)), 1, event_id))
    }

    /// The rows not archived, ordered by start time.
    pub fn find_active(&self) -> (r: Result<Vec<Microevent>, AppError>)
        ensures
            r is Ok,
            sorted_by(r->Ok_0@, by_time()),
            r->Ok_0@.to_multiset() == self@.filter(micro_active_pred()).to_multiset(),
    {
        Ok(self.sorted_where(Ghost(micro_active_pred()), 2, 0))
    }

    /// The rows owned by one user, ordered by start time.
    #[verifier::loop_isolation(false)]
    pub fn find_by_user(&self, user_id: &String) -> (r: Result<Vec<Microevent>, AppError>)
        ensures
            r is Ok,
            sorted_by(r->Ok_0@, by_time()),
            r->Ok_0@.to_multiset() == self@.filter(micro_user_pred(user_id@)).to_multiset(),
    {
        let ghost pred = micro_user_pred(user_id@);
        let mut out: Vec<Microevent> = Vec::new();
        proof {
            reveal(Seq::filter);
            assert(self@.subrange(0, 0) =~= Seq::<Microevent>::empty());
            assert(out@ =~= self@.subrange(0, 0).filter(pred));
        }
        let mut i: usize = 0;
        while i < self.rows.len()
            invariant
                i <= self.rows.len(),
                sorted_by(out@, by_time()),
                out@.to_multiset() == self@.subrange(0, i as int).filter(pred).to_multiset(),
            decreases self.rows.len() - i,
        {
            let ghost prefix = self@.subrange(0, i as int);
            let within = self.rows[i].user_id == *user_id;
            if within {
                micro_insert_sorted(&mut out, self.rows[i].clone());
            }
            proof {
                broadcast use vstd::seq_lib::to_multiset_build;

                reveal(Seq::filter);
                assert(self@.subrange(0, i + 1).drop_last() =~= prefix);
                assert(self@.subrange(0, i + 1).last() == self@[i as int]);
                assert(within == pred(self@[i as int]));
            }
            i = i + 1;
        }
        proof {
            assert(self@.subrange(0, self@.len() as int) =~= self@);
        }
        Ok(out)
    }

    /// The row with id `id`, or NotFound.
    #[verifier::loop_isolation(false)]
    pub fn find_by_id(&self, id: i64) -> (r: Result<Microevent, AppError>)
        ensures
            ({
                let idx = find_micro(self@, id as int);
                if idx >= 0 {
                    &&& r is Ok
                    &&& r->Ok_0 == self@[idx]
                } else {
                    &&& r is Err
                    &&& r->Err_0 is NotFound
                }
            }),
    {
        proof {
            lemma_find_micro(self@, id as int);
        }
        let ghost idx = find_micro(self@, id as int);
        let mut i: usize = 0;
        while i < self.rows.len()
            invariant
                i <= self.rows.len(),
                forall|j: int| 0 <= j < i ==> self@[j].id != id as int,
            decreases self.rows.len() - i,
        {
            if self.rows[i].id == id {
                proof {
                    if idx < i {
                        assert(self@[idx].id != id as int);
                    }
                    if idx > i || idx < 0 {
                        assert(self@[i as int].id != id as int);
                    }
                    assert(idx == i as int);
                }
                return Ok(self.rows[i].clone());
            }
            i = i + 1;
        }
        Err(AppError::NotFound("Microevent not found".to_owned()))
    }

    /// The rows whose ids appear in `input`, in store order: ids that do
    /// not resolve are silently dropped.
    #[verifier::loop_isolation(false)]
    pub fn get_by_id_list(&self, input: Vec<i64>) -> (r: Result<Vec<Microevent>, AppError>)
        ensures
            r is Ok,
            r->Ok_0@ == self@.filter(micro_id_list_pred(input@)),
    {
        let ghost pred = micro_id_list_pred(input@);
        let mut out: Vec<Microevent> = Vec::new();
        let mut i: usize = 0;
        while i < self.rows.len()
            invariant
                i <= self.rows.len(),
                out@ == self@.subrange(0, i as int).filter(pred),
            decreases self.rows.len() - i,
        {
            let ghost prefix = self@.subrange(0, i as int);
            let row_matches = crate::collection::holds_id(&input, self.rows[i].id);
            if row_matches {
                out.push(self.rows[i].clone());
            }
            proof {
                reveal(Seq::filter);
                assert(self@.subrange(0, i + 1).drop_last() =~= prefix);
                assert(self@.subrange(0, i + 1).last() == self@[i as int]);
            }
            i = i + 1;
        }
        proof {
            assert(self@.subrange(0, self@.len() as int) =~= self@);
        }
        Ok(out)
    }

    /// Stores `microevent` under a fresh id, both timestamps stamped with
    /// `now`, and returns the id.  The only failure is an exhausted id
    /// space.
    pub fn create(&mut self, microevent: &Microevent, now: i64) -> (r: Result<i64, AppError>)
        requires
            old(self).wf(),
        ensures
            final(self).wf(),
            (if old(self).can_create() {
                &&& r is Ok
                &&& (forall|i: int|
                    0 <= i < old(self)@.len() ==> (#[trigger] old(self)@[i]).id != r->Ok_0)
                &&& final(self)@ == old(self)@.push(micro_from(*microevent, r->Ok_0, now))
            } else {
                &&& r is Err
                &&& r->Err_0 is DatabaseError
                &&& final(self)@ == old(self)@
            }),
    {
        if self.next_id == i64::MAX {
            return Err(AppError::DatabaseError("row id space exhausted".to_owned()));
        }
        let id = self.next_id;
        self.next_id = self.next_id + 1;
        let mut row = microevent.clone();
        row.id = id;
        row.created_at = Some(now);
        row.updated_at = Some(now);
        proof {
            assert(row == micro_from(*microevent, id, now));
        }
        self.rows.push(row);
        Ok(id)
    }

    /// Puts a persisted microevent back under its stored row id — the
    /// load path at startup.  Future fresh ids are raised above the
    /// restored one, so a restored id is never handed out again.
    #[verifier::loop_isolation(false)]
    pub fn restore(&mut self, microevent: &Microevent) -> (r: Result<(), AppError>)
        requires
            old(self).wf(),
        ensures
            final(self).wf(),
            restore_micro_outcome(old(self)@, final(self)@, *microevent, r),
    {
        proof {
            lemma_find_micro(old(self)@, microevent.id as int);
        }
        if microevent.id <= 0 || microevent.id == i64::MAX {
            return Err(AppError::ValidationError("row id out of range".to_owned()));
        }
        let id = microevent.id;
        let ghost idx = find_micro(old(self)@, id as int);
        let mut i: usize = 0;
        while i < self.rows.len()
            invariant
                i <= self.rows.len(),
                forall|j: int| 0 <= j < i ==> self@[j].id != id as int,
            decreases self.rows.len() - i,
        {
            if self.rows[i].id == id {
                proof {
                    if idx < i {
                        assert(self@[idx].id != id as int);
                    }
                    if idx > i || idx < 0 {
                        assert(self@[i as int].id != id as int);
                    }
                    assert(idx == i as int);
                }
                return Err(AppError::Conflict("row id already taken".to_owned()));
            }
            i = i + 1;
        }
        proof {
            assert(idx == -1);
        }
        if self.next_id <= id {
            self.next_id = id + 1;
        }
        self.rows.push(microevent.clone());
        Ok(())
    }

    /// Replaces the row with id `id` by the caller's fields, keeping the
    /// stored identity and creation time, and reports whether a row was
    /// affected.
    #[verifier::loop_isolation(false)]
    pub fn update(&mut self, id: i64, microevent: &Microevent, now: i64) -> (r: Result<
        bool,
        AppError,
    >)
        requires
            old(self).wf(),
        ensures
            final(self).wf(),
            r is Ok,
            ({
                let idx = find_micro(old(self)@, id as int);
                if idx >= 0 {
                    &&& r->Ok_0 == true
                    &&& final(self)@ == old(self)@.update(
                        idx,
                        micro_updated(old(self)@[idx], *microevent, now),
                    )
                } else {
                    &&& r->Ok_0 == false
                    &&& final(self)@ == old(self)@
                }
            }),
    {
        proof {
            lemma_find_micro(old(self)@, id as int);
        }
        let ghost idx = find_micro(old(self)@, id as int);
        let mut i: usize = 0;
        while i < self.rows.len()
            invariant
                *self == *old(self),
                i <= self.rows.len(),
                forall|j: int| 0 <= j < i ==> self@[j].id != id as int,
            decreases self.rows.len() - i,
        {
            if self.rows[i].id == id {
                proof {
                    if idx < i {
                        assert(self@[idx].id != id as int);
                    }
                    if idx > i || idx < 0 {
                        assert(self@[i as int].id != id as int);
                    }
                    assert(idx == i as int);
                }
                let mut row = microevent.clone();
                row.id = self.rows[i].id;
                row.created_at = self.rows[i].created_at;
                row.updated_at = Some(now);
                proof {
                    assert(row == micro_updated(old(self)@[idx], *microevent, now));
                }
                self.rows.set(i, row);
                return Ok(true);
            }
            i = i + 1;
        }
        Ok(false)
    }

    /// Deletes the row with id `id`, reporting whether a row was affected.
    #[verifier::loop_isolation(false)]
    pub fn delete(&mut self, id: i64) -> (r: Result<bool, AppError>)
        requires
            old(self).wf(),
        ensures
            final(self).wf(),
            r is Ok,
            ({
                let idx = find_micro(old(self)@, id as int);
                if idx >= 0 {
                    &&& r->Ok_0 == true
                    &&& final(self)@ == old(self)@.remove(idx)
                } else {
                    &&& r->Ok_0 == false
                    &&& final(self)@ == old(self)@
                }
            }),
    {
        proof {
            lemma_find_micro(old(self)@, id as int);
        }
        let ghost idx = find_micro(old(self)@, id as int);
        let mut i: usize = 0;
        while i < self.rows.len()
            invariant
                *self == *old(self),
                i <= self.rows.len(),
                forall|j: int| 0 <= j < i ==> self@[j].id != id as int,
            decreases self.rows.len() - i,
        {
            if self.rows[i].id == id {
                proof {
                    if idx < i {
                        assert(self@[idx].id != id as int);
                    }
                    if idx > i || idx < 0 {
                        assert(self@[i as int].id != id as int);
                    }
                    assert(idx == i as int);
                    old(self)@.remove_ensures(i as int);
                }
                self.rows.remove(i);
                return Ok(true);
            }
            i = i + 1;
        }
        Ok(false)
    }

    /// Sets or clears the archive flag of the row with id `id`, restamps
    /// its update time, and reports whether a row was affected.
    #[verifier::loop_isolation(false)]
    fn set_archive(&mut self, id: i64, flag: bool, now: i64) -> (r: Result<bool, AppError>)
        requires
            old(self).wf(),
        ensures
            final(self).wf(),
            r is Ok,
            ({
                let idx = find_micro(old(self)@, id as int);
                if idx >= 0 {
                    &&& r->Ok_0 == true
                    &&& final(self)@ == old(self)@.update(
                        idx,
                        (Microevent { archive: flag, updated_at: Some(now), ..old(self)@[idx] }),
                    )
                } else {
                    &&& r->Ok_0 == false
                    &&& final(self)@ == old(self)@
                }
            }),
    {
        proof {
            lemma_find_micro(old(self)@, id as int);
        }
        let ghost idx = find_micro(old(self)@, id as int);
        let mut i: usize = 0;
        while i < self.rows.len()
            invariant
                *self == *old(self),
                i <= self.rows.len(),
                forall|j: int| 0 <= j < i ==> self@[j].id != id as int,
            decreases self.rows.len() - i,
        {
            if self.rows[i].id == id {
                proof {
                    if idx < i {
                        assert(self@[idx].id != id as int);
                    }
                    if idx > i || idx < 0 {
                        assert(self@[i as int].id != id as int);
                    }
                    assert(idx == i as int);
                }
                let mut row = self.rows[i].clone();
                row.archive = flag;
                row.updated_at = Some(now);
                self.rows.set(i, row);
                return Ok(true);
            }
            i = i + 1;
        }
        Ok(false)
    }

    /// Archives the row with id `id`: hides it from the active listing
    /// without deleting it.
    pub fn archive(&mut self, id: i64, now: i64) -> (r: Result<bool, AppError>)
        requires
            old(self).wf(),
        ensures
            final(self).wf(),
            r is Ok,
            ({
                let idx = find_micro(old(self)@, id as int);
                if idx >= 0 {
                    &&& r->Ok_0 == true
                    &&& final(self)@ == old(self)@.update(
                        idx,
                        (Microevent { archive: true, updated_at: Some(now), ..old(self)@[idx] }),
                    )
                } else {
                    &&& r->Ok_0 == false
                    &&& final(self)@ == old(self)@
                }
            }),
    {
        self.set_archive(id, true, now)
    }

    /// Clears the archive flag of the row with id `id`.
    pub fn unarchive(&mut self, id: i64, now: i64) -> (r: Result<bool, AppError>)
        requires
            old(self).wf(),
        ensures
            final(self).wf(),
            r is Ok,
            ({
                let idx = find_micro(old(self)@, id as int);
                if idx >= 0 {
                    &&& r->Ok_0 == true
                    &&& final(self)@ == old(self)@.update(
                        idx,
                        (Microevent { archive: false, updated_at: Some(now), ..old(self)@[idx] }),
                    )
                } else {
                    &&& r->Ok_0 == false
                    &&& final(self)@ == old(self)@
                }
            }),
    {
        self.set_archive(id, false, now)
    }
}

} // verus!

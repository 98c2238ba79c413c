//! The event store: rows keyed by numeric id, each carrying the queryable
//! columns beside the full event document, found by id, by id list, by
//! category and by geographic bounding box.
//!
//! The store never checks that the queryable columns agree with the
//! document — its writers must write both consistently, and here they do:
//! `create` and `update` build every row from the document itself, so
//! consistency is an invariant of the store.

use vstd::prelude::*;
use vstd::relations::sorted_by;
use crate::errors::AppError;
use crate::models::NomEvent;
use crate::models::camping_flag;

verus! {

/// A stored event: the queryable columns, the document snapshot, and the
/// denormalized category columns.
#[derive(Debug)]
pub struct EventRow {
    pub id: i64,
    pub name: String,
    pub description: String,
    pub website: Option<String>,
    pub event_type_id: i64,
    /// Latitude in micro-degrees.
    pub latitude: Option<i64>,
    /// Longitude in micro-degrees.
    pub longitude: Option<i64>,
    pub start_date: Option<i64>,
    pub end_date: Option<i64>,
    pub camping_allowed: bool,
    /// The full event document stored beside the columns.
    pub event_data: NomEvent,
    pub event_type_name: String,
    pub event_type_description: String,
    pub event_type_map_indicator: String,
    pub event_type_category: String,
}

impl Clone for EventRow {
    fn clone(&self) -> (r: Self)
        ensures
            r == *self,
    {
        EventRow {
            id: self.id,
            name: self.name.clone(),
            description: self.description.clone(),
            website: match &self.website {
                Some(s) => Some(s.clone()),
                None => None,
            },
            event_type_id: self.event_type_id,
            latitude: self.latitude,
            longitude: self.longitude,
            start_date: self.start_date,
            end_date: self.end_date,
            camping_allowed: self.camping_allowed,
            event_data: self.event_data.clone(),
            event_type_name: self.event_type_name.clone(),
            event_type_description: self.event_type_description.clone(),
            event_type_map_indicator: self.event_type_map_indicator.clone(),
            event_type_category: self.event_type_category.clone(),
        }
    }
}

/// The row that stores `event` under record id `id`: every queryable
/// column is taken from the document it stores.
pub open spec fn row_from(event: NomEvent, id: i64) -> EventRow {
    EventRow {
        id: id,
        name: event.name,
        description: event.description,
        website: event.website,
        event_type_id: event.event_type_id,
        latitude: Some(event.location_info.latitude),
        longitude: Some(event.location_info.longitude),
        start_date: event.date_info.start_date,
        end_date: event.date_info.end_date,
        camping_allowed: camping_flag(event.camping_info),
        event_data: event,
        event_type_name: event.event_type.name,
        event_type_description: event.event_type.description,
        event_type_map_indicator: event.event_type.map_indicator,
        event_type_category: event.event_type.category,
    }
}

/// The consistency invariant of a row: the queryable columns always match
/// the corresponding fields inside the stored document.
pub open spec fn consistent(row: EventRow) -> bool {
    &&& row.name == row.event_data.name
    &&& row.description == row.event_data.description
    &&& row.website == row.event_data.website
    &&& row.event_type_id == row.event_data.event_type_id
    &&& row.latitude == Some(row.event_data.location_info.latitude)
    &&& row.longitude == Some(row.event_data.location_info.longitude)
    &&& row.start_date == row.event_data.date_info.start_date
    &&& row.end_date == row.event_data.date_info.end_date
    &&& row.camping_allowed == camping_flag(row.event_data.camping_info)
}

/// Lexicographic order on character sequences, the order in which the
/// store lists names.  For strings this agrees with byte order, since
/// UTF-8 preserves the order of code points.
pub open spec fn lex_le(a: Seq<char>, b: Seq<char>) -> bool
    decreases a.len(),
{
    if a.len() == 0 {
        true
    } else if b.len() == 0 {
        false
    } else if a[0] == b[0] {
        lex_le(a.drop_first(), b.drop_first())
    } else {
        (a[0] as u32) < (b[0] as u32)
    }
}

/// The lexicographic order relates every pair of sequences one way or the
/// other.
pub proof fn lemma_lex_le_total(a: Seq<char>, b: Seq<char>)
    ensures
        lex_le(a, b) || lex_le(b, a),
    decreases a.len(),
{
    if a.len() > 0 && b.len() > 0 {
        if a[0] == b[0] {
            lemma_lex_le_total(a.drop_first(), b.drop_first());
        } else {
            assert(a[0] as u32 != b[0] as u32) by {
                vstd::utf8::char_u32_cast(a[0], a[0] as u32);
                vstd::utf8::char_u32_cast(b[0], b[0] as u32);
            }
        }
    }
}

/// The lexicographic order is transitive.
pub proof fn lemma_lex_le_trans(a: Seq<char>, b: Seq<char>, c: Seq<char>)
    requires
        lex_le(a, b),
        lex_le(b, c),
    ensures
        lex_le(a, c),
    decreases a.len(),
{
    if a.len() > 0 && b.len() > 0 && c.len() > 0 && a[0] == b[0] && b[0] == c[0] {
        lemma_lex_le_trans(a.drop_first(), b.drop_first(), c.drop_first());
    }
}

/// Relies on `str`'s `<=` comparison: strings are ordered
/// lexicographically by byte, which for UTF-8 text is exactly the
/// lexicographic order of their characters' code points.
#[verifier::external_body]
fn name_le(a: &String, b: &String) -> (r: bool)
    ensures
        r == lex_le(a@, b@),
{
    a.as_str() <= b.as_str()
}

/// Name order on rows, the order of the store's geographic listing.
pub open spec fn by_name() -> spec_fn(EventRow, EventRow) -> bool {
    |a: EventRow, b: EventRow| lex_le(a.name@, b.name@)
}

/// The index of the row with id `id`, or -1 if there is none.
pub open spec fn find_event(rs: Seq<EventRow>, id: int) -> int
    decreases rs.len(),
{
    if rs.len() == 0 {
        -1
    } else if rs[0].id == id {
        0
    } else {
        let rest = find_event(rs.drop_first(), id);
        if rest == -1 {
            -1
        } else {
            rest + 1
        }
    }
}

/// What `find_event` returns: the first matching index, or -1 exactly
/// when no row carries `id`.
pub proof fn lemma_find_event(rs: Seq<EventRow>, id: int)
    ensures
        ({
            let idx = find_event(rs, id);
            if idx >= 0 {
                &&& idx < rs.len()
                &&& rs[idx].id == id
                &&& (forall|j: int| 0 <= j < idx ==> rs[j].id != id)
            } else {
                &&& idx == -1
                &&& (forall|j: int| 0 <= j < rs.len() ==> rs[j].id != id)
            }
        }),
    decreases rs.len(),
{
    if rs.len() > 0 {
        if rs[0].id == id {
        } else {
            let rest = rs.drop_first();
            lemma_find_event(rest, id);
            assert(forall|j: int| 0 <= j < rest.len() ==> #[trigger] rest[j] == rs[j + 1]);
            let rid = find_event(rest, id);
            if rid >= 0 {
                assert(rs[rid + 1].id == id);
                assert forall|j: int| 0 <= j < rid + 1 implies rs[j].id != id by {
                    if j > 0 {
                        assert(rest[j - 1] == rs[j]);
                    }
                }
            } else {
                assert forall|j: int| 0 <= j < rs.len() implies rs[j].id != id by {
                    if j > 0 {
                        assert(rest[j - 1] == rs[j]);
                    }
                }
            }
        }
    }
}

/// How far the bounding box reaches in latitude, in micro-degrees:
/// one degree of latitude is about 69 miles.
pub open spec fn lat_delta_micro(radius_milli: int) -> int {
    radius_milli * 1000 / 69
}

/// How far the bounding box reaches in longitude, in micro-degrees: a
/// degree of longitude spans about 69 miles times the cosine of the
/// latitude, handed in as a fixed-point factor in millionths.
pub open spec fn lon_delta_micro(radius_milli: int, cos_lat_micro: int) -> int {
    radius_milli * 1000000000 / (69 * cos_lat_micro)
}

/// Whether a row's point lies in the closed bounding box around
/// `(lat, lon)` — a box, not a circle: a point at the box's corner is
/// included although its true distance exceeds the radius.
pub open spec fn in_box(
    row: EventRow,
    lat: int,
    lon: int,
    radius_milli: int,
    cos_lat_micro: int,
) -> bool {
    &&& row.latitude is Some
    &&& row.longitude is Some
    &&& lat - lat_delta_micro(radius_milli) <= row.latitude->0 <= lat + lat_delta_micro(
        radius_milli,
    )
    &&& lon - lon_delta_micro(radius_milli, cos_lat_micro) <= row.longitude->0 <= lon
        + lon_delta_micro(radius_milli, cos_lat_micro)
}

/// The box membership test of the geographic listing.
pub open spec fn nearby_pred(
    lat: int,
    lon: int,
    radius_milli: int,
    cos_lat_micro: int,
) -> spec_fn(EventRow) -> bool {
    |row: EventRow| in_box(row, lat, lon, radius_milli, cos_lat_micro)
}

/// The membership test of an id-list lookup.
pub open spec fn id_list_pred(ids: Seq<i64>) -> spec_fn(EventRow) -> bool {
    |row: EventRow| ids.contains(row.id)
}

/// The membership test of a category lookup.
pub open spec fn type_pred(event_type_id: i64) -> spec_fn(EventRow) -> bool {
    |row: EventRow| row.event_type_id == event_type_id
}

/// The first position whose row's name is not at or below `row`'s name —
/// where an order-preserving insertion puts `row`.
#[verifier::loop_isolation(false)]
fn lower_pos(list: &Vec<EventRow>, row: &EventRow) -> (p: usize)
    ensures
        p <= list@.len(),
        forall|k: int| 0 <= k < p ==> lex_le(#[trigger] list@[k].name@, row.name@),
        p < list@.len() ==> !lex_le(list@[p as int].name@, row.name@),
{
    let mut j: usize = 0;
    while j < list.len()
        invariant
            j <= list@.len(),
            forall|k: int| 0 <= k < j ==> lex_le(#[trigger] list@[k].name@, row.name@),
        decreases list@.len() - j,
    {
        if !name_le(&list[j].name, &row.name) {
            return j;
        }
        j = j + 1;
    }
    j
}

/// Inserts `row` into a name-ordered list, keeping the order.
fn insert_sorted(list: &mut Vec<EventRow>, row: EventRow)
    requires
        sorted_by(old(list)@, by_name()),
    ensures
        sorted_by(final(list)@, by_name()),
        final(list)@.to_multiset() == old(list)@.to_multiset().insert(row),
{
    let p = lower_pos(list, &row);
    let ghost s = list@;
    list.insert(p, row);
    proof {
        broadcast use vstd::seq_lib::to_multiset_insert;

        s.insert_ensures(p as int, row);
        let t = list@;
        assert forall|x: int, y: int| 0 <= x < y < t.len() implies by_name()(t[x], t[y]) by {
            if y < p {
                assert(t[x] == s[x] && t[y] == s[y]);
            } else if x < p && y == p {
                assert(t[x] == s[x] && t[y] == row);
            } else if x == p {
                assert(t[x] == row && t[y] == s[y - 1]);
                assert(p < s.len());
                lemma_lex_le_total(s[p as int].name@, row.name@);
                assert(lex_le(row.name@, s[p as int].name@));
                if y - 1 > p {
                    assert(by_name()(s[p as int], s[y - 1]));
                    assert(lex_le(s[p as int].name@, s[y - 1].name@));
                    lemma_lex_le_trans(row.name@, s[p as int].name@, s[y - 1].name@);
                }
            } else if x < p && y > p {
                assert(t[x] == s[x] && t[y] == s[y - 1]);
                assert(x < y - 1);
            } else {
                assert(t[x] == s[x - 1] && t[y] == s[y - 1]);
            }
        }
    }
}

/// Builds the stored row for `event` under row id `id`, every queryable
/// column taken from the document.
fn build_row(event: &NomEvent, id: i64) -> (r: EventRow)
    ensures
        r == row_from(*event, id),
{
    let doc = event.clone();
    let row = EventRow {
        id,
        name: doc.name.clone(),
        description: doc.description.clone(),
        website: match &doc.website {
            Some(s) => Some(s.clone()),
            None => None,
        },
        event_type_id: doc.event_type_id,
        latitude: Some(doc.location_info.latitude),
        longitude: Some(doc.location_info.longitude),
        start_date: doc.date_info.start_date,
        end_date: doc.date_info.end_date,
        camping_allowed: match &doc.camping_info {
            Some(c) => c.camping_allowed,
            None => false,
        },
        event_type_name: doc.event_type.name.clone(),
        event_type_description: doc.event_type.description.clone(),
        event_type_map_indicator: doc.event_type.map_indicator.clone(),
        event_type_category: doc.event_type.category.clone(),
        event_data: doc,
    };
    proof {
        assert(row == row_from(*event, id));
    }
    row
}

/// What putting a persisted event back does: a row id outside the usable
/// space is rejected as invalid, a taken one as a conflict; otherwise the
/// row rebuilt from its document joins the store under its stored id.
pub open spec fn restore_event_outcome(
    pre: Seq<EventRow>,
    post: Seq<EventRow>,
    event: NomEvent,
    id: i64,
    r: Result<(), AppError>,
) -> bool {
    if !(0 < id < i64::MAX) {
        &&& r is Err
        &&& r->Err_0 is ValidationError
        &&& post == pre
    } else if find_event(pre, id as int) >= 0 {
        &&& r is Err
        &&& r->Err_0 is Conflict
        &&& post == pre
    } else {
        &&& r is Ok
        &&& post == pre.push(row_from(event, id))
    }
}

/// The event store, keyed by numeric id.
pub struct EventContext {
    rows: Vec<EventRow>,
    next_id: i64,
}

impl View for EventContext {
    type V = Seq<EventRow>;

    closed spec fn view(&self) -> Seq<EventRow> {
        self.rows@
    }
}

impl EventContext {
    /// The store's invariant: distinct row ids, all below the next id to
    /// hand out, and every row consistent with its stored document.
    pub closed spec fn wf(self) -> bool {
        &&& (forall|i: int, j: int|
            0 <= i < self@.len() && 0 <= j < self@.len() && i != j ==> self@[i].id != self@[j].id)
        &&& (forall|i: int| 0 <= i < self@.len() ==> 0 < (#[trigger] self@[i]).id < self.next_id)
        &&& (forall|i: int| 0 <= i < self@.len() ==> consistent(#[trigger] self@[i]))
        &&& 1 <= self.next_id
    }

    /// Whether the store can still hand out a fresh row id.
    pub closed spec fn can_create(self) -> bool {
        self.next_id < i64::MAX
    }

    /// Every stored row is consistent with its document.
    pub proof fn lemma_wf_consistent(self)
        requires
            self.wf(),
        ensures
            forall|i: int| 0 <= i < self@.len() ==> consistent(#[trigger] self@[i]),
    {
    }

    /// An empty store.
    pub fn new() -> (r: Self)
        ensures
            r.wf(),
            r@ == Seq::<EventRow>::empty(),
            r.can_create(),
    {
        let r = EventContext { rows: Vec::new(), next_id: 1 };
        proof {
            assert(r@ =~= Seq::<EventRow>::empty());
        }
        r
    }

    /// Every stored row, in store order.
    #[verifier::loop_isolation(false)]
    pub fn find_all(&self) -> (r: Result<Vec<EventRow>, AppError>)
        ensures
            r is Ok,
            r->Ok_0@ == self@,
    {
        let mut out: Vec<EventRow> = Vec::new();
        let mut i: usize = 0;
        while i < self.rows.len()
            invariant
                i <= self.rows.len(),
                out@ == self@.subrange(0, i as int),
            decreases self.rows.len() - i,
        {
            out.push(self.rows[i].clone());
            proof {
                assert(out@ =~= self@.subrange(0, i + 1));
            }
            i = i + 1;
        }
        proof {
            assert(out@ =~= self@);
        }
        Ok(out)
    }

    /// The row with id `id`, or NotFound.
    #[verifier::loop_isolation(false)]
    pub fn find_by_id(&self, id: i64) -> (r: Result<EventRow, AppError>)
        ensures
            ({
                let idx = find_event(self@, id as int);
                if idx >= 0 {
                    &&& r is Ok
                    &&& r->Ok_0 == self@[idx]
                } else {
                    &&& r is Err
                    &&& r->Err_0 is NotFound
                }
            }),
    {
        proof {
            lemma_find_event(self@, id as int);
        }
        let ghost idx = find_event(self@, id as int);
        let mut i: usize = 0;
        while i < self.rows.len()
            invariant
                i <= self.rows.len(),
                forall|j: int| 0 <= j < i ==> self@[j].id != id as int,
            decreases self.rows.len() - i,
        {
            if self.rows[i].id == id {
                proof {
                    if idx < i {
                        assert(self@[idx].id != id as int);
                    }
                    if idx > i || idx < 0 {
                        assert(self@[i as int].id != id as int);
                    }
                    assert(idx == i as int);
                }
                return Ok(self.rows[i].clone());
            }
            i = i + 1;
        }
        Err(AppError::NotFound("Event not found".to_owned()))
    }

    /// The rows whose ids appear in `input`, in store order: ids that do
    /// not resolve are silently dropped, so the result's length need not
    /// match the input's.
    #[verifier::loop_isolation(false)]
    pub fn get_by_id_list(&self, input: Vec<i64>) -> (r: Result<Vec<EventRow>, AppError>)
        ensures
            r is Ok,
            r->Ok_0@ == self@.filter(id_list_pred(input@)),
    {
        let ghost pred = id_list_pred(input@);
        let mut out: Vec<EventRow> = Vec::new();
        let mut i: usize = 0;
        while i < self.rows.len()
            invariant
                i <= self.rows.len(),
                out@ == self@.subrange(0, i as int).filter(pred),
            decreases self.rows.len() - i,
        {
            let ghost prefix = self@.subrange(0, i as int);
            let row_matches = crate::collection::holds_id(&input, self.rows[i].id);
            if row_matches {
                out.push(self.rows[i].clone());
            }
            proof {
                reveal(Seq::filter);
                assert(self@.subrange(0, i + 1).drop_last() =~= prefix);
                assert(self@.subrange(0, i + 1).last() == self@[i as int]);
            }
            i = i + 1;
        }
        proof {
            assert(self@.subrange(0, self@.len() as int) =~= self@);
        }
        Ok(out)
    }

    /// The rows of one category, in store order.
    #[verifier::loop_isolation(false)]
    pub fn find_by_type(&self, event_type_id: i64) -> (r: Result<Vec<EventRow>, AppError>)
        ensures
            r is Ok,
            r->Ok_0@ == self@.filter(type_pred(event_type_id)),
    {
        let ghost pred = type_pred(event_type_id);
        let mut out: Vec<EventRow> = Vec::new();
        let mut i: usize = 0;
        while i < self.rows.len()
            invariant
                i <= self.rows.len(),
                out@ == self@.subrange(0, i as int).filter(pred),
            decreases self.rows.len() - i,
        {
            let ghost prefix = self@.subrange(0, i as int);
            if self.rows[i].event_type_id == event_type_id {
                out.push(self.rows[i].clone());
            }
            proof {
                reveal(Seq::filter);
                assert(self@.subrange(0, i + 1).drop_last() =~= prefix);
                assert(self@.subrange(0, i + 1).last() == self@[i as int]);
            }
            i = i + 1;
        }
        proof {
            assert(self@.subrange(0, self@.len() as int) =~= self@);
        }
        Ok(out)
    }

    /// Stores `event` under a fresh id and returns that id, as the row id
    /// an insert reports.  The only failure is an exhausted id space.
    pub fn create(&mut self, event: &NomEvent) -> (r: Result<i64, AppError>)
        requires
            old(self).wf(),
        ensures
            final(self).wf(),
            (if old(self).can_create() {
                &&& r is Ok
                &&& (forall|i: int|
                    0 <= i < old(self)@.len() ==> (#[trigger] old(self)@[i]).id != r->Ok_0)
                &&& final(self)@ == old(self)@.push(row_from(*event, r->Ok_0))
            } else {
                &&& r is Err
                &&& r->Err_0 is DatabaseError
                &&& final(self)@ == old(self)@
            }),
    {
        if self.next_id == i64::MAX {
            return Err(AppError::DatabaseError("row id space exhausted".to_owned()));
        }
        let id = self.next_id;
        self.next_id = self.next_id + 1;
        let row = build_row(event, id);
        self.rows.push(row);
        Ok(id)
    }

    /// Puts a persisted event back under its stored row id — the load
    /// path at startup.  Future fresh ids are raised above the restored
    /// one, so a restored id is never handed out again.
    #[verifier::loop_isolation(false)]
    pub fn restore(&mut self, event: &NomEvent, id: i64) -> (r: Result<(), AppError>)
        requires
            old(self).wf(),
        ensures
            final(self).wf(),
            restore_event_outcome(old(self)@, final(self)@, *event, id, r),
    {
        proof {
            lemma_find_event(old(self)@, id as int);
        }
        if id <= 0 || id == i64::MAX {
            return Err(AppError::ValidationError("row id out of range".to_owned()));
        }
        let ghost idx = find_event(old(self)@, id as int);
        let mut i: usize = 0;
        while i < self.rows.len()
            invariant
                i <= self.rows.len(),
                forall|j: int| 0 <= j < i ==> self@[j].id != id as int,
            decreases self.rows.len() - i,
        {
            if self.rows[i].id == id {
                proof {
                    if idx < i {
                        assert(self@[idx].id != id as int);
                    }
                    if idx > i || idx < 0 {
                        assert(self@[i as int].id != id as int);
                    }
                    assert(idx == i as int);
                }
                return Err(AppError::Conflict("row id already taken".to_owned()));
            }
            i = i + 1;
        }
        proof {
            assert(idx == -1);
        }
        if self.next_id <= id {
            self.next_id = id + 1;
        }
        let row = build_row(event, id);
        self.rows.push(row);
        Ok(())
    }

    /// Replaces the row with id `id` by a row storing `event`, reporting
    /// whether a row was affected.
    #[verifier::loop_isolation(false)]
    pub fn update(&mut self, id: i64, event: &NomEvent) -> (r: Result<bool, AppError>)
        requires
            old(self).wf(),
        ensures
            final(self).wf(),
            r is Ok,
            ({
                let idx = find_event(old(self)@, id as int);
                if idx >= 0 {
                    &&& r->Ok_0 == true
                    &&& final(self)@ == old(self)@.update(idx, row_from(*event, id))
                } else {
                    &&& r->Ok_0 == false
                    &&& final(self)@ == old(self)@
                }
            }),
    {
        proof {
            lemma_find_event(old(self)@, id as int);
        }
        let ghost idx = find_event(old(self)@, id as int);
        let mut i: usize = 0;
        while i < self.rows.len()
            invariant
                *self == *old(self),
                i <= self.rows.len(),
                forall|j: int| 0 <= j < i ==> self@[j].id != id as int,
            decreases self.rows.len() - i,
        {
            if self.rows[i].id == id {
                proof {
                    if idx < i {
                        assert(self@[idx].id != id as int);
                    }
                    if idx > i || idx < 0 {
                        assert(self@[i as int].id != id as int);
                    }
                    assert(idx == i as int);
                }
                let row = build_row(event, id);
                self.rows.set(i, row);
                return Ok(true);
            }
            i = i + 1;
        }
        Ok(false)
    }

    /// The rows whose point lies in the closed bounding box around
    /// `(lat, lon)`, ordered by name.  The box reaches `radius / 69`
    /// degrees in latitude and `radius / (69 cos lat)` degrees in
    /// longitude — an approximation by box rather than circle, so a point
    /// on the box's diagonal may be included although its true distance
    /// exceeds the radius.  The radius arrives in thousandths of a mile
    /// and the latitude's cosine in millionths; the query point may be
    /// anywhere — a far-fetched one simply matches nothing.
    #[verifier::loop_isolation(false)]
    pub fn find_nearby(&self, lat: i64, lon: i64, radius_milli: i64, cos_lat_micro: i64) -> (r:
        Result<Vec<EventRow>, AppError>)
        requires
            0 < radius_milli <= 500000,
            1 <= cos_lat_micro <= 1000000,
        ensures
            r is Ok,
            sorted_by(r->Ok_0@, by_name()),
            r->Ok_0@.to_multiset() == self@.filter(
                nearby_pred(lat as int, lon as int, radius_milli as int, cos_lat_micro as int),
            ).to_multiset(),
    {
        let ghost pred = nearby_pred(
            lat as int,
            lon as int,
            radius_milli as int,
            cos_lat_micro as int,
        );
        let lat_delta = radius_milli * 1000 / 69;
        let lon_delta = radius_milli * 1000000000 / (69 * cos_lat_micro);
        proof {
            assert(lat_delta == lat_delta_micro(radius_milli as int));
            assert(lon_delta == lon_delta_micro(radius_milli as int, cos_lat_micro as int));
        }
        // The box ends saturate at the integer extremes; a stored
        // coordinate is itself an i64, so membership is unchanged.
        let min_lat = if lat >= i64::MIN + lat_delta {
            lat - lat_delta
        } else {
            i64::MIN
        };
        let max_lat = if lat <= i64::MAX - lat_delta {
            lat + lat_delta
        } else {
            i64::MAX
        };
        let min_lon = if lon >= i64::MIN + lon_delta {
            lon - lon_delta
        } else {
            i64::MIN
        };
        let max_lon = if lon <= i64::MAX - lon_delta {
            lon + lon_delta
        } else {
            i64::MAX
        };
        let mut out: Vec<EventRow> = Vec::new();
        proof {
            reveal(Seq::filter);
            assert(self@.subrange(0, 0) =~= Seq::<EventRow>::empty());
            assert(out@ =~= self@.subrange(0, 0).filter(pred));
        }
        let mut i: usize = 0;
        while i < self.rows.len()
            invariant
                i <= self.rows.len(),
                sorted_by(out@, by_name()),
                out@.to_multiset() == self@.subrange(0, i as int).filter(pred).to_multiset(),
            decreases self.rows.len() - i,
        {
            let ghost prefix = self@.subrange(0, i as int);
            let within = match (self.rows[i].latitude, self.rows[i].longitude) {
                (Some(plat), Some(plon)) => min_lat <= plat && plat <= max_lat && min_lon <= plon
                    && plon <= max_lon,
                _ => false,
            };
            if within {
                insert_sorted(&mut out, self.rows[i].clone());
            }
            proof {
                broadcast use vstd::seq_lib::to_multiset_build;

                reveal(Seq::filter);
                assert(self@.subrange(0, i + 1).drop_last() =~= prefix);
                assert(self@.subrange(0, i + 1).last() == self@[i as int]);
                assert(within == pred(self@[i as int]));
            }
            i = i + 1;
        }
        proof {
            assert(self@.subrange(0, self@.len() as int) =~= self@);
        }
        Ok(out)
    }

    /// Deletes the row with id `id`, reporting whether a row was affected.
    #[verifier::loop_isolation(false)]
    pub fn delete(&mut self, id: i64) -> (r: Result<bool, AppError>)
        requires
            old(self).wf(),
        ensures
            final(self).wf(),
            r is Ok,
            ({
                let idx = find_event(old(self)@, id as int);
                if idx >= 0 {
                    &&& r->Ok_0 == true
                    &&& final(self)@ == old(self)@.remove(idx)
                } else {
                    &&& r->Ok_0 == false
                    &&& final(self)@ == old(self)@
                }
            }),
    {
        proof {
            lemma_find_event(old(self)@, id as int);
        }
        let ghost idx = find_event(old(self)@, id as int);
        let mut i: usize = 0;
        while i < self.rows.len()
            invariant
                *self == *old(self),
                i <= self.rows.len(),
                forall|j: int| 0 <= j < i ==> self@[j].id != id as int,
            decreases self.rows.len() - i,
        {
            if self.rows[i].id == id {
                proof {
                    if idx < i {
                        assert(self@[idx].id != id as int);
                    }
                    if idx > i || idx < 0 {
                        assert(self@[i as int].id != id as int);
                    }
                    assert(idx == i as int);
                    old(self)@.remove_ensures(i as int);
                }
                self.rows.remove(i);
                return Ok(true);
            }
            i = i + 1;
        }
        Ok(false)
    }
}

} // verus!

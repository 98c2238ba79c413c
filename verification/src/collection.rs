//! A user's collection record: six id lists (favorite, saved and created,
//! each for events and for microevents), kept duplicate-free, together with
//! the membership mutations the engine performs on them.
//!
//! A toggle flips presence: it appends an absent id and removes a present
//! one, so a pair of toggles restores the original list.  Ownership grant
//! appends unconditionally — its caller must guarantee the id is fresh —
//! and revocation removes the first occurrence, a no-op when absent.

use vstd::prelude::*;

verus! {

broadcast use vstd::seq_lib::group_seq_properties;

/// The mathematical value of a collection record.
#[verifier::ext_equal]
pub ghost struct RecordView {
    pub id: int,
    pub user_id: Seq<char>,
    pub favorite_events: Seq<i64>,
    pub favorite_microevents: Seq<i64>,
    pub saved_events: Seq<i64>,
    pub saved_microevents: Seq<i64>,
    pub created_events: Seq<i64>,
    pub created_microevents: Seq<i64>,
}

impl RecordView {
    /// A well-formed record holds each of its six lists free of duplicates,
    /// so that every list denotes a set.
    pub open spec fn wf(self) -> bool {
        &&& self.favorite_events.no_duplicates()
        &&& self.favorite_microevents.no_duplicates()
        &&& self.saved_events.no_duplicates()
        &&& self.saved_microevents.no_duplicates()
        &&& self.created_events.no_duplicates()
        &&& self.created_microevents.no_duplicates()
    }

    /// The record with all six lists empty.
    pub open spec fn emptied(self) -> bool {
        &&& self.favorite_events == Seq::<i64>::empty()
        &&& self.favorite_microevents == Seq::<i64>::empty()
        &&& self.saved_events == Seq::<i64>::empty()
        &&& self.saved_microevents == Seq::<i64>::empty()
        &&& self.created_events == Seq::<i64>::empty()
        &&& self.created_microevents == Seq::<i64>::empty()
    }
}

/// One record per user: the user's favorite, saved and created ids,
/// for events and microevents alike.
#[derive(Debug)]
pub struct UserEventDataRow {
    /// The record's own id at the store.
    pub id: i64,
    /// The id of the user the record belongs to.
    pub user_id: String,
    pub favorite_events: Vec<i64>,
    pub favorite_microevents: Vec<i64>,
    pub saved_events: Vec<i64>,
    pub saved_microevents: Vec<i64>,
    pub created_events: Vec<i64>,
    pub created_microevents: Vec<i64>,
}

impl View for UserEventDataRow {
    type V = RecordView;

    open spec fn view(&self) -> RecordView {
        RecordView {
            id: self.id as int,
            user_id: self.user_id@,
            favorite_events: self.favorite_events@,
            favorite_microevents: self.favorite_microevents@,
            saved_events: self.saved_events@,
            saved_microevents: self.saved_microevents@,
            created_events: self.created_events@,
            created_microevents: self.created_microevents@,
        }
    }
}

impl Clone for UserEventDataRow {
    fn clone(&self) -> (r: Self)
        ensures
            r@ == self@,
    {
        let r = UserEventDataRow {
            id: self.id,
            user_id: self.user_id.clone(),
            favorite_events: self.favorite_events.clone(),
            favorite_microevents: self.favorite_microevents.clone(),
            saved_events: self.saved_events.clone(),
            saved_microevents: self.saved_microevents.clone(),
            created_events: self.created_events.clone(),
            created_microevents: self.created_microevents.clone(),
        };
        proof {
            assert(r.favorite_events@ =~= self.favorite_events@);
            assert(r.favorite_microevents@ =~= self.favorite_microevents@);
            assert(r.saved_events@ =~= self.saved_events@);
            assert(r.saved_microevents@ =~= self.saved_microevents@);
            assert(r.created_events@ =~= self.created_events@);
            assert(r.created_microevents@ =~= self.created_microevents@);
            assert(r@ =~= self@);
        }
        r
    }
}

/// Which of the six id lists an operation addresses.
#[derive(Debug, Clone, Copy, PartialEq, Eq, Structural)]
pub enum CollectionSlot {
    FavoriteEvents,
    FavoriteMicroevents,
    SavedEvents,
    SavedMicroevents,
    CreatedEvents,
    CreatedMicroevents,
}

impl CollectionSlot {
    /// The addressed list of a record.
    pub open spec fn of(self, r: RecordView) -> Seq<i64> {
        match self {
            CollectionSlot::FavoriteEvents => r.favorite_events,
            CollectionSlot::FavoriteMicroevents => r.favorite_microevents,
            CollectionSlot::SavedEvents => r.saved_events,
            CollectionSlot::SavedMicroevents => r.saved_microevents,
            CollectionSlot::CreatedEvents => r.created_events,
            CollectionSlot::CreatedMicroevents => r.created_microevents,
        }
    }

    /// The record with the addressed list replaced by `s`.
    pub open spec fn updated(self, r: RecordView, s: Seq<i64>) -> RecordView {
        match self {
            CollectionSlot::FavoriteEvents => RecordView { favorite_events: s, ..r },
            CollectionSlot::FavoriteMicroevents => RecordView { favorite_microevents: s, ..r },
            CollectionSlot::SavedEvents => RecordView { saved_events: s, ..r },
            CollectionSlot::SavedMicroevents => RecordView { saved_microevents: s, ..r },
            CollectionSlot::CreatedEvents => RecordView { created_events: s, ..r },
            CollectionSlot::CreatedMicroevents => RecordView { created_microevents: s, ..r },
        }
    }
}

/// The list after a presence toggle: an absent id is appended,
/// a present id loses its first occurrence.
pub open spec fn toggle_seq(s: Seq<i64>, id: i64) -> Seq<i64> {
    if s.contains(id) {
        s.remove_value(id)
    } else {
        s.push(id)
    }
}

/// The index of the first occurrence of `id`, as the store's scans find it.
fn position_of(list: &Vec<i64>, id: i64) -> (r: Option<usize>)
    ensures
        (match r {
            Some(i) => list@.index_of_first(id) == Some(i as int),
            None => list@.index_of_first(id) is None,
        }),
{
    let mut i: usize = 0;
    while i < list.len()
        invariant
            i <= list@.len(),
            forall|j: int| 0 <= j < i ==> list@[j] != id,
        decreases list@.len() - i,
    {
        if list[i] == id {
            proof {
                list@.index_of_first_ensures(id);
            }
            return Some(i);
        }
        i = i + 1;
    }
    proof {
        list@.index_of_first_ensures(id);
    }
    None
}

/// Removing any element of a duplicate-free list leaves it duplicate-free.
pub proof fn lemma_remove_no_duplicates(s: Seq<i64>, i: int)
    requires
        0 <= i < s.len(),
        s.no_duplicates(),
    ensures
        s.remove(i).no_duplicates(),
{
    s.remove_ensures(i);
}

/// Appending an absent element to a duplicate-free list leaves it
/// duplicate-free.
pub proof fn lemma_push_no_duplicates(s: Seq<i64>, id: i64)
    requires
        s.no_duplicates(),
        !s.contains(id),
    ensures
        s.push(id).no_duplicates(),
{
}

/// Flips the presence of `id` in `list`.
fn toggle_id(list: &mut Vec<i64>, id: i64)
    ensures
        final(list)@ == toggle_seq(old(list)@, id),
        old(list)@.no_duplicates() ==> final(list)@.no_duplicates(),
{
    let pos = position_of(list, id);
    proof {
        old(list)@.index_of_first_ensures(id);
    }
    match pos {
        Some(i) => {
            list.remove(i);
            proof {
                if old(list)@.no_duplicates() {
                    lemma_remove_no_duplicates(old(list)@, i as int);
                }
            }
        }
        None => {
            list.push(id);
            proof {
                if old(list)@.no_duplicates() {
                    lemma_push_no_duplicates(old(list)@, id);
                }
            }
        }
    }
}

/// Appends `id` unconditionally, as ownership grant does.
fn append_id(list: &mut Vec<i64>, id: i64)
    ensures
        final(list)@ == old(list)@.push(id),
{
    list.push(id);
}

/// Removes the first occurrence of `id` if there is one, as ownership
/// revocation does; absent ids leave the list untouched.
fn withdraw_id(list: &mut Vec<i64>, id: i64)
    ensures
        final(list)@ == old(list)@.remove_value(id),
        old(list)@.no_duplicates() ==> final(list)@.no_duplicates(),
{
    let pos = position_of(list, id);
    proof {
        old(list)@.index_of_first_ensures(id);
    }
    match pos {
        Some(i) => {
            list.remove(i);
            proof {
                if old(list)@.no_duplicates() {
                    lemma_remove_no_duplicates(old(list)@, i as int);
                }
            }
        }
        None => {}
    }
}

/// Whether `id` is in `list`.
pub(crate) fn holds_id(list: &Vec<i64>, id: i64) -> (r: bool)
    ensures
        r == list@.contains(id),
{
    let pos = position_of(list, id);
    proof {
        list@.index_of_first_ensures(id);
    }
    pos.is_some()
}

/// Law: toggling an id that is absent from a list appends exactly that id,
/// one occurrence, at the end.
pub proof fn lemma_toggle_absent_appends(s: Seq<i64>, id: i64)
    requires
        !s.contains(id),
    ensures
        toggle_seq(s, id) == s.push(id),
{
}

/// Removing the first occurrence of a freshly appended absent id restores
/// the original list.
pub proof fn lemma_remove_value_of_push(s: Seq<i64>, id: i64)
    requires
        !s.contains(id),
    ensures
        s.push(id).remove_value(id) == s,
{
    let t = s.push(id);
    assert(t[s.len() as int] == id);
    t.index_of_first_ensures(id);
    let idx = t.index_of_first(id)->Some_0;
    if idx < s.len() {
        assert(t[idx] == s[idx]);
        assert(s.contains(id));
    }
    assert(idx == s.len() as int);
    assert(t.remove(idx) =~= s);
}

/// Law (toggle idempotence of pairs): for an id not initially in the list,
/// toggling twice returns the list to its original state.
pub proof fn lemma_toggle_twice_restores(s: Seq<i64>, id: i64)
    requires
        !s.contains(id),
    ensures
        toggle_seq(toggle_seq(s, id), id) == s,
{
    let t = s.push(id);
    assert(t[s.len() as int] == id);
    assert(t.contains(id));
    lemma_remove_value_of_push(s, id);
}

/// Law (no duplicate ownership): granting an id once to a created list that
/// does not hold it makes it occur exactly once, and revoking it afterwards
/// leaves the list exactly as it began — no duplicate and no negative count.
pub proof fn lemma_grant_once_revoke_restores(s: Seq<i64>, id: i64)
    requires
        !s.contains(id),
    ensures
        s.push(id).to_multiset().count(id) == 1,
        s.push(id).remove_value(id) == s,
{
    broadcast use vstd::multiset::group_multiset_axioms;

    s.to_multiset_ensures();
    assert(s.to_multiset().count(id) == 0);
    assert(s.push(id).to_multiset() =~= s.to_multiset().insert(id));
    lemma_remove_value_of_push(s, id);
}

/// The list after a sequence of toggles, applied first to last.
pub open spec fn apply_toggles(s: Seq<i64>, ids: Seq<i64>) -> Seq<i64>
    decreases ids.len(),
{
    if ids.len() == 0 {
        s
    } else {
        apply_toggles(toggle_seq(s, ids[0]), ids.drop_first())
    }
}

/// Law (concurrent toggles converge): toggling distinct ids, none of them
/// initially present, appends them all, in whichever order they were
/// serialized.  Any two serial orders thus end with the same set of ids —
/// the original ids plus every toggled one — and no toggle is lost.
pub proof fn lemma_toggles_of_distinct_absent_ids(s: Seq<i64>, ids: Seq<i64>)
    requires
        ids.no_duplicates(),
        forall|i: int| 0 <= i < ids.len() ==> !s.contains(#[trigger] ids[i]),
    ensures
        apply_toggles(s, ids) == s + ids,
    decreases ids.len(),
{
    if ids.len() == 0 {
        assert(s + ids =~= s);
    } else {
        let id0 = ids[0];
        assert(!s.contains(id0));
        let s1 = s.push(id0);
        let rest = ids.drop_first();
        assert forall|i: int| 0 <= i < rest.len() implies !s1.contains(#[trigger] rest[i]) by {
            assert(rest[i] == ids[i + 1]);
            assert(ids[i + 1] != ids[0]);
            if s1.contains(rest[i]) {
                let k = choose|k: int| 0 <= k < s1.len() && s1[k] == rest[i];
                if k < s.len() {
                    assert(s[k] == rest[i]);
                    assert(s.contains(ids[i + 1]));
                }
            }
        }
        lemma_toggles_of_distinct_absent_ids(s1, rest);
        assert(s1 + rest =~= s + ids);
    }
}

/// Law (concurrent toggles converge, order independence): two serial
/// orders of the same toggles — distinct ids, none initially present —
/// leave the list with the same ids, differing at most in arrangement.
pub proof fn lemma_toggle_orders_converge(s: Seq<i64>, ids1: Seq<i64>, ids2: Seq<i64>)
    requires
        ids1.no_duplicates(),
        ids2.no_duplicates(),
        ids1.to_multiset() == ids2.to_multiset(),
        forall|i: int| 0 <= i < ids1.len() ==> !s.contains(#[trigger] ids1[i]),
    ensures
        apply_toggles(s, ids1).to_multiset() == apply_toggles(s, ids2).to_multiset(),
{
    broadcast use vstd::seq_lib::lemma_multiset_commutative;
    broadcast use vstd::multiset::group_multiset_axioms;

    ids1.to_multiset_ensures();
    ids2.to_multiset_ensures();
    assert forall|i: int| 0 <= i < ids2.len() implies !s.contains(#[trigger] ids2[i]) by {
        assert(ids2.to_multiset().count(ids2[i]) > 0);
        assert(ids1.contains(ids2[i]));
        let k = choose|k: int| 0 <= k < ids1.len() && ids1[k] == ids2[i];
        assert(!s.contains(ids1[k]));
    }
    lemma_toggles_of_distinct_absent_ids(s, ids1);
    lemma_toggles_of_distinct_absent_ids(s, ids2);
    assert((s + ids1).to_multiset() =~= (s + ids2).to_multiset());
}

impl UserEventDataRow {
    /// A fresh record for `user_id` with all six lists empty.
    pub fn new_empty(id: i64, user_id: String) -> (r: Self)
        ensures
            r@.id == id as int,
            r@.user_id == user_id@,
            r@.emptied(),
            r@.wf(),
    {
        UserEventDataRow {
            id,
            user_id,
            favorite_events: Vec::new(),
            favorite_microevents: Vec::new(),
            saved_events: Vec::new(),
            saved_microevents: Vec::new(),
            created_events: Vec::new(),
            created_microevents: Vec::new(),
        }
    }

    /// Flips the presence of `id` in the addressed list.
    pub fn toggle(&mut self, which: CollectionSlot, id: i64)
        ensures
            final(self)@ == which.updated(old(self)@, toggle_seq(which.of(old(self)@), id)),
            old(self)@.wf() ==> final(self)@.wf(),
    {
        match which {
            CollectionSlot::FavoriteEvents => toggle_id(&mut self.favorite_events, id),
            CollectionSlot::FavoriteMicroevents => toggle_id(&mut self.favorite_microevents, id),
            CollectionSlot::SavedEvents => toggle_id(&mut self.saved_events, id),
            CollectionSlot::SavedMicroevents => toggle_id(&mut self.saved_microevents, id),
            CollectionSlot::CreatedEvents => toggle_id(&mut self.created_events, id),
            CollectionSlot::CreatedMicroevents => toggle_id(&mut self.created_microevents, id),
        }
    }

    /// Appends `id` to the addressed list, as ownership grant does.
    pub fn append(&mut self, which: CollectionSlot, id: i64)
        ensures
            final(self)@ == which.updated(old(self)@, which.of(old(self)@).push(id)),
    {
        match which {
            CollectionSlot::FavoriteEvents => append_id(&mut self.favorite_events, id),
            CollectionSlot::FavoriteMicroevents => append_id(&mut self.favorite_microevents, id),
            CollectionSlot::SavedEvents => append_id(&mut self.saved_events, id),
            CollectionSlot::SavedMicroevents => append_id(&mut self.saved_microevents, id),
            CollectionSlot::CreatedEvents => append_id(&mut self.created_events, id),
            CollectionSlot::CreatedMicroevents => append_id(&mut self.created_microevents, id),
        }
    }

    /// Removes the first occurrence of `id` from the addressed list,
    /// leaving the record untouched when `id` is absent.
    pub fn withdraw(&mut self, which: CollectionSlot, id: i64)
        ensures
            final(self)@ == which.updated(
                old(self)@,
                which.of(old(self)@).remove_value(id),
            ),
            old(self)@.wf() ==> final(self)@.wf(),
    {
        match which {
            CollectionSlot::FavoriteEvents => withdraw_id(&mut self.favorite_events, id),
            CollectionSlot::FavoriteMicroevents => withdraw_id(&mut self.favorite_microevents, id),
            CollectionSlot::SavedEvents => withdraw_id(&mut self.saved_events, id),
            CollectionSlot::SavedMicroevents => withdraw_id(&mut self.saved_microevents, id),
            CollectionSlot::CreatedEvents => withdraw_id(&mut self.created_events, id),
            CollectionSlot::CreatedMicroevents => withdraw_id(&mut self.created_microevents, id),
        }
    }

    /// Whether `id` is in the addressed list.
    pub fn holds(&self, which: CollectionSlot, id: i64) -> (r: bool)
        ensures
            r == which.of(self@).contains(id),
    {
        match which {
            CollectionSlot::FavoriteEvents => holds_id(&self.favorite_events, id),
            CollectionSlot::FavoriteMicroevents => holds_id(&self.favorite_microevents, id),
            CollectionSlot::SavedEvents => holds_id(&self.saved_events, id),
            CollectionSlot::SavedMicroevents => holds_id(&self.saved_microevents, id),
            CollectionSlot::CreatedEvents => holds_id(&self.created_events, id),
            CollectionSlot::CreatedMicroevents => holds_id(&self.created_microevents, id),
        }
    }
}

} // verus!

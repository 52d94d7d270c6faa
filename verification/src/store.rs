//! The record store: the todo records of one process.
//!
//! A store is a sequence of records in which no identifier occurs twice.
//! Records are handed out in the order in which their identifiers first
//! came in. Every accessor returns copies; nothing outside the store
//! holds a reference into it.
//!
//! The records lie in a vector, so that a listing has an order that a
//! contract can name and two listings of one store agree; a hash map
//! from identifier to place finds a record without a search.

use vstd::prelude::*;
use std::collections::HashMap;
use crate::ident::{is_random_id, random_id};
use crate::models::{Todo, TodoView};

verus! {

/// No identifier occurs twice among `records`.
pub open spec fn distinct_ids(records: Seq<TodoView>) -> bool {
    forall|i: int, j: int| 0 <= i < j < records.len() ==> records[i].id != records[j].id
}

/// Whether `records` holds a record with the identifier `id`.
pub open spec fn holds(records: Seq<TodoView>, id: u128) -> bool {
    exists|i: int| 0 <= i < records.len() && #[trigger] records[i].id == id
}

/// A place at which `records` holds the identifier `id`, where there is
/// one. Among distinct identifiers it is the only one.
pub open spec fn position(records: Seq<TodoView>, id: u128) -> int {
    choose|i: int| 0 <= i < records.len() && #[trigger] records[i].id == id
}

/// The record with the identifier `id`, or nothing where there is none.
pub open spec fn lookup(records: Seq<TodoView>, id: u128) -> Option<TodoView> {
    if holds(records, id) {
        Some(records[position(records, id)])
    } else {
        None
    }
}

/// The record that a creation with the identifier `id` makes of `text`.
pub open spec fn fresh(id: u128, text: Seq<char>) -> TodoView {
    TodoView { id, text, completed: false }
}

/// The records after a creation with the identifier `id`: the new
/// record comes last. Should the identifier be held already, the new
/// record takes the place of the one that holds it.
pub open spec fn created(records: Seq<TodoView>, id: u128, text: Seq<char>) -> Seq<TodoView> {
    if holds(records, id) {
        records.update(position(records, id), fresh(id, text))
    } else {
        records.push(fresh(id, text))
    }
}

/// The part of `records` that a listing selects: it leaves out the first
/// `offset` records and keeps at most `limit` of the rest, or all of
/// them where no limit is given.
pub open spec fn window<A>(records: Seq<A>, offset: nat, limit: Option<nat>) -> Seq<A> {
    let start = if offset <= records.len() { offset } else { records.len() };
    let rest = (records.len() - start) as nat;
    let count = match limit {
        Some(most) => if most <= rest { most } else { rest },
        None => rest,
    };
    records.subrange(start as int, (start + count) as int)
}

/// The limit of a listing as a number, where it has one.
pub open spec fn limit_of(limit: Option<usize>) -> Option<nat> {
    match limit {
        Some(most) => Some(most as nat),
        None => None,
    }
}

/// Among distinct identifiers, the place of an identifier is the place
/// at which it is found.
pub proof fn lemma_position_is_unique(records: Seq<TodoView>, id: u128, at: int)
    requires
        distinct_ids(records),
        0 <= at < records.len(),
        records[at].id == id,
    ensures
        holds(records, id),
        position(records, id) == at,
        lookup(records, id) == Some(records[at]),
{
    let found = position(records, id);
    if found < at {
        assert(records[found].id != records[at].id);
    } else if at < found {
        assert(records[at].id != records[found].id);
    }
}

/// The records after one creation for each identifier in `ids`, in
/// order, the creation for `ids[i]` with the text `texts[i]`.
pub open spec fn created_all(records: Seq<TodoView>, ids: Seq<u128>, texts: Seq<Seq<char>>) -> Seq<
    TodoView,
>
    decreases ids.len(),
{
    if ids.len() == 0 {
        records
    } else {
        created(created_all(records, ids.drop_last(), texts.drop_last()), ids.last(), texts.last())
    }
}

/// A creation adds one record where the identifier is new and none
/// where it is held already; either way no identifier occurs twice
/// afterwards.
pub proof fn lemma_created_len(records: Seq<TodoView>, id: u128, text: Seq<char>)
    requires
        distinct_ids(records),
    ensures
        distinct_ids(created(records, id, text)),
        created(records, id, text).len() == records.len() + if holds(records, id) {
            0int
        } else {
            1int
        },
{
    let after = created(records, id, text);
    if holds(records, id) {
        let at = position(records, id);
        assert forall|i: int, j: int| 0 <= i < j < after.len() implies after[i].id
            != after[j].id by {
            assert(records[i].id != records[j].id);
        }
    } else {
        assert forall|i: int, j: int| 0 <= i < j < after.len() implies after[i].id
            != after[j].id by {
            if j < records.len() {
                assert(records[i].id != records[j].id);
            } else {
                assert(records[i].id != id);
            }
        }
    }
}

/// Looking an identifier up right after a creation under it yields the
/// record that the creation returned.
pub proof fn lemma_lookup_after_created(records: Seq<TodoView>, id: u128, text: Seq<char>)
    requires
        distinct_ids(records),
    ensures
        lookup(created(records, id, text), id) == Some(fresh(id, text)),
{
    let after = created(records, id, text);
    lemma_created_len(records, id, text);
    let at = if holds(records, id) { position(records, id) } else { records.len() as int };
    assert(after[at] == fresh(id, text));
    lemma_position_is_unique(after, id, at);
}

/// A creation leaves every other identifier as it was: held with the
/// same record, or not held.
pub proof fn lemma_created_keeps_others(
    records: Seq<TodoView>,
    id: u128,
    text: Seq<char>,
    other: u128,
)
    requires
        distinct_ids(records),
        other != id,
    ensures
        lookup(created(records, id, text), other) == lookup(records, other),
{
    let after = created(records, id, text);
    lemma_created_len(records, id, text);
    if holds(records, other) {
        let at = position(records, other);
        assert(after[at] == records[at]);
        lemma_position_is_unique(after, other, at);
    } else {
        if holds(after, other) {
            let at = position(after, other);
            if at < records.len() {
                assert(records[at].id == other);
            }
        }
    }
}

/// After creations under identifiers that are new and differ from each
/// other, the store holds one record more for each of them, no
/// identifier occurs twice, and each identifier yields its own record.
pub proof fn lemma_creations_count(records: Seq<TodoView>, ids: Seq<u128>, texts: Seq<Seq<char>>)
    requires
        distinct_ids(records),
        ids.len() == texts.len(),
        ids.no_duplicates(),
        forall|i: int| 0 <= i < ids.len() ==> !holds(records, #[trigger] ids[i]),
    ensures
        distinct_ids(created_all(records, ids, texts)),
        created_all(records, ids, texts).len() == records.len() + ids.len(),
        forall|i: int|
            0 <= i < ids.len() ==> lookup(created_all(records, ids, texts), #[trigger] ids[i])
                == Some(fresh(ids[i], texts[i])),
        forall|other: u128|
            !ids.contains(other) ==> #[trigger] lookup(created_all(records, ids, texts), other)
                == lookup(records, other),
    decreases ids.len(),
{
    if ids.len() > 0 {
        let before = created_all(records, ids.drop_last(), texts.drop_last());
        let id = ids.last();
        let text = texts.last();
        let after = created(before, id, text);
        assert forall|i: int| 0 <= i < ids.drop_last().len() implies !holds(
            records,
            #[trigger] ids.drop_last()[i],
        ) by {
            assert(ids.drop_last()[i] == ids[i]);
        }
        lemma_creations_count(records, ids.drop_last(), texts.drop_last());
        assert(!ids.drop_last().contains(id)) by {
            if ids.drop_last().contains(id) {
                let k = choose|k: int| 0 <= k < ids.drop_last().len() && ids.drop_last()[k] == id;
                assert(ids[k] == ids[ids.len() - 1]);
            }
        }
        assert(lookup(before, id) == lookup(records, id));
        assert(!holds(records, ids[ids.len() - 1]));
        assert(!holds(before, id));
        lemma_created_len(before, id, text);
        lemma_lookup_after_created(before, id, text);
        assert forall|i: int| 0 <= i < ids.len() implies lookup(after, #[trigger] ids[i]) == Some(
            fresh(ids[i], texts[i]),
        ) by {
            if i < ids.len() - 1 {
                assert(ids.drop_last()[i] == ids[i]);
                assert(texts.drop_last()[i] == texts[i]);
                assert(ids[i] != ids[ids.len() - 1]);
                lemma_created_keeps_others(before, id, text, ids[i]);
            }
        }
        assert forall|other: u128| !ids.contains(other) implies #[trigger] lookup(after, other)
            == lookup(records, other) by {
            assert(other != id) by {
                assert(ids[ids.len() - 1] == id);
            }
            assert(!ids.drop_last().contains(other)) by {
                if ids.drop_last().contains(other) {
                    let k = choose|k: int|
                        0 <= k < ids.drop_last().len() && ids.drop_last()[k] == other;
                    assert(ids[k] == other);
                }
            }
            lemma_created_keeps_others(before, id, text, other);
        }
    }
}

/// An identifier that was never issued is not found: after any
/// creations in an empty store, looking up an identifier that is none
/// of theirs yields nothing.
pub proof fn lemma_never_issued_is_absent(ids: Seq<u128>, texts: Seq<Seq<char>>, id: u128)
    requires
        ids.len() == texts.len(),
        !ids.contains(id),
    ensures
        distinct_ids(created_all(Seq::empty(), ids, texts)),
        lookup(created_all(Seq::empty(), ids, texts), id) is None,
    decreases ids.len(),
{
    if ids.len() > 0 {
        let before = created_all(Seq::empty(), ids.drop_last(), texts.drop_last());
        assert(!ids.drop_last().contains(id)) by {
            if ids.drop_last().contains(id) {
                let k = choose|k: int| 0 <= k < ids.drop_last().len() && ids.drop_last()[k] == id;
                assert(ids[k] == id);
            }
        }
        lemma_never_issued_is_absent(ids.drop_last(), texts.drop_last(), id);
        assert(ids[ids.len() - 1] != id);
        lemma_created_len(before, ids.last(), texts.last());
        lemma_created_keeps_others(before, ids.last(), texts.last(), id);
    }
}

/// A listing never holds more records than its limit; it holds the
/// records that the listing of everything holds at the places from
/// `offset` on, in the same order; and an offset at or beyond the end
/// selects nothing.
pub proof fn lemma_window<A>(records: Seq<A>, offset: nat, limit: Option<nat>)
    ensures
        window(records, 0, None) == records,
        limit matches Some(most) ==> window(records, offset, limit).len() <= most,
        offset >= records.len() ==> window(records, offset, limit).len() == 0,
        offset <= records.len() ==> window(records, offset, limit).len() == match limit {
            Some(most) => if most <= records.len() - offset {
                most as int
            } else {
                records.len() - offset
            },
            None => records.len() - offset,
        },
        forall|j: int|
            0 <= j < window(records, offset, limit).len() ==> #[trigger] window(
                records,
                offset,
                limit,
            )[j] == window(records, 0, None)[offset + j],
{
    assert(window(records, 0, None) =~= records);
}

/// The in-memory collection of todo records.
pub struct Store {
    records: Vec<Todo>,
    places: HashMap<u128, usize>,
}

impl View for Store {
    type V = Seq<TodoView>;

    /// The records of the store, in the order in which it lists them.
    closed spec fn view(&self) -> Seq<TodoView> {
        self.records.deep_view()
    }
}

impl Store {
    /// The store is sound: the index of places knows every record by its
    /// identifier and nothing else.
    pub closed spec fn wf(&self) -> bool {
        &&& forall|i: int|
            0 <= i < self.records.len() ==> {
                &&& self.places@.contains_key(#[trigger] self.records[i].id)
                &&& self.places@[self.records[i].id] == i
            }
        &&& forall|id: u128| #[trigger]
            self.places@.contains_key(id) ==> {
                &&& self.places@[id] < self.records.len()
                &&& self.records[self.places@[id] as int].id == id
            }
    }

    /// In a sound store no identifier occurs twice.
    pub proof fn lemma_distinct(&self)
        requires
            self.wf(),
        ensures
            distinct_ids(self@),
    {
        assert forall|i: int, j: int| 0 <= i < j < self@.len() implies self@[i].id != self@[j].id by {
            assert(self.places@[self.records[i].id] == i);
            assert(self.places@[self.records[j].id] == j);
        }
    }

    /// An empty store.
    pub fn new() -> (store: Store)
        ensures
            store.wf(),
            store@ == Seq::<TodoView>::empty(),
    {
        let store = Store { records: Vec::new(), places: HashMap::new() };
        assert(store@ =~= Seq::<TodoView>::empty());
        store
    }

    /// The number of records.
    pub fn len(&self) -> (n: usize)
        ensures
            n == self@.len(),
    {
        self.records.len()
    }

    /// A copy of the record with the identifier `id`, or nothing where
    /// the store holds none.
    pub fn get(&self, id: u128) -> (found: Option<Todo>)
        requires
            self.wf(),
        ensures
            found.deep_view() == lookup(self@, id),
            found matches Some(record) ==> record.id == id,
    {
        broadcast use vstd::std_specs::hash::group_hash_axioms;

        match self.places.get(&id) {
            Some(place) => {
                let copy = self.records[*place].clone();
                proof {
                    self.lemma_distinct();
                    lemma_position_is_unique(self@, id, *place as int);
                }
                Some(copy)
            },
            None => {
                proof {
                    if holds(self@, id) {
                        let i = position(self@, id);
                        assert(self.places@.contains_key(self.records[i].id));
                    }
                }
                None
            },
        }
    }

    /// Copies of the records after the first `offset`, at most `limit`
    /// of them, in the store's order. An offset beyond the last record
    /// gives an empty list.
    pub fn list(&self, offset: usize, limit: Option<usize>) -> (out: Vec<Todo>)
        ensures
            out.deep_view() == window(self@, offset as nat, limit_of(limit)),
    {
        let total = self.records.len();
        let start = if offset <= total { offset } else { total };
        let rest = total - start;
        let count = match limit {
            Some(most) => if most <= rest { most } else { rest },
            None => rest,
        };
        let end = start + count;
        let mut out: Vec<Todo> = Vec::new();
        let mut i = start;
        while i < end
            invariant
                start <= i <= end <= self.records.len(),
                out.len() == i - start,
                forall|j: int| 0 <= j < out.len() ==> out[j]@ == self.records[start + j]@,
            decreases end - i,
        {
            out.push(self.records[i].clone());
            i = i + 1;
        }
        assert(out.deep_view() =~= window(self@, offset as nat, limit_of(limit)));
        out
    }

    /// Stores a new record under the identifier `id` and returns a copy
    /// of it. The record holds `text` and is not completed. Where the
    /// store holds the identifier already, the new record replaces the
    /// one that held it.
    pub fn insert(&mut self, id: u128, text: String) -> (record: Todo)
        requires
            old(self).wf(),
        ensures
            final(self).wf(),
            final(self)@ == created(old(self)@, id, text@),
            record@ == fresh(id, text@),
            lookup(final(self)@, id) == Some(record@),
            final(self)@.len() == old(self)@.len() + if holds(old(self)@, id) {
                0int
            } else {
                1int
            },
    {
        broadcast use vstd::std_specs::hash::group_hash_axioms;

        proof {
            self.lemma_distinct();
            lemma_created_len(self@, id, text@);
            lemma_lookup_after_created(self@, id, text@);
        }

        let record = Todo { id, text, completed: false };
        let copy = record.clone();
        let known = match self.places.get(&id) {
            Some(place) => Some(*place),
            None => None,
        };
        match known {
            Some(place) => {
                proof {
                    lemma_position_is_unique(self@, id, place as int);
                }
                self.records.set(place, record);
                assert(self@ =~= created(old(self)@, id, text@));
            },
            None => {
                proof {
                    if holds(self@, id) {
                        let i = position(self@, id);
                        assert(self.places@.contains_key(self.records[i].id));
                    }
                }
                let place = self.records.len();
                self.records.push(record);
                self.places.insert(id, place);
                assert(self@ =~= created(old(self)@, id, text@));
            },
        }
        copy
    }

    /// Creates a record for `text` under an identifier drawn at random
    /// and returns a copy of it.
    ///
    /// The identifier is whatever the random source gives; the store
    /// afterwards is the one that [`created`] describes for it.
    pub fn create(&mut self, text: String) -> (record: Todo)
        requires
            old(self).wf(),
        ensures
            final(self).wf(),
            is_random_id(record.id),
            final(self)@ == created(old(self)@, record.id, text@),
            record@ == fresh(record.id, text@),
            lookup(final(self)@, record.id) == Some(record@),
            final(self)@.len() == old(self)@.len() + if holds(old(self)@, record.id) {
                0int
            } else {
                1int
            },
    {
        let id = random_id();
        self.insert(id, text)
    }
}

} // verus!

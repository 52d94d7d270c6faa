//! The shared state of the service: the record store behind a
//! reader/writer lock.
//!
//! One cache is made when the process starts and handed to every
//! handler invocation. Readers share the lock; a writer holds it alone
//! for the length of one store operation, and nothing else is done
//! while it is held. Whatever is in the lock is a sound store.
//!
//! Other callers may change the store between two calls, so a contract
//! here speaks of the records that the store held at the instant at
//! which the lock was taken, and cannot say which records those were.

use vstd::prelude::*;
use vstd::rwlock::RwLock;
use crate::ident::{is_random_id, random_id};
use crate::models::{Todo, TodoView};
use crate::reply::Reply;
use crate::store::{distinct_ids, lookup, Store};
use crate::todos::{
    create_todo_of, create_todo_with, get_todo_of, get_todos_of, CreateTodo, Pagination,
};
use crate::validation::rejection;

verus! {

/// The record store, shared between the handlers.
pub struct Cache {
    lock: RwLock<Store, spec_fn(Store) -> bool>,
}

impl Cache {
    /// Whether the lock takes `store` as the store that it guards.
    pub closed spec fn admits(&self, store: Store) -> bool {
        self.lock.inv(store)
    }

    /// A cache over an empty store. The lock that guards the store takes
    /// the sound stores and no others, from now on.
    pub fn new() -> (cache: Cache)
        ensures
            cache.wf(),
    {
        let store = Store::new();
        let lock = RwLock::new(store, Ghost(|s: Store| s.wf()));
        Cache { lock }
    }

    /// The cache is sound: whatever its lock guards is a sound store, and
    /// every sound store may be put back into it.
    pub open spec fn wf(&self) -> bool {
        forall|store: Store| #[trigger] self.admits(store) <==> store.wf()
    }

    /// Lists the todos while holding the lock as a reader: the reply
    /// that [`crate::todos::get_todos`] gives for the records held at
    /// that instant, among which no identifier occurs twice.
    pub fn get_todos(&self, pagination: Option<Pagination>) -> (reply: Reply<Vec<Todo>>)
        requires
            self.wf(),
        ensures
            exists|records: Seq<TodoView>|
                distinct_ids(records) && reply.deep_view() == #[trigger] get_todos_of(
                    pagination,
                    records,
                ),
    {
        let handle = self.lock.acquire_read();
        assert(self.admits(handle.view()));
        let reply = crate::todos::get_todos(pagination, handle.borrow());
        proof {
            handle.view().lemma_distinct();
            assert(reply.deep_view() == get_todos_of(pagination, handle.view()@));
        }
        handle.release_read();
        reply
    }

    /// Looks one todo up while holding the lock as a reader: the reply
    /// that [`crate::todos::get_todo`] gives for the records held at
    /// that instant.
    pub fn get_todo(&self, id: u128) -> (reply: Reply<Todo>)
        requires
            self.wf(),
        ensures
            exists|records: Seq<TodoView>|
                distinct_ids(records) && reply.deep_view() == get_todo_of(
                    #[trigger] lookup(records, id),
                ),
    {
        let handle = self.lock.acquire_read();
        assert(self.admits(handle.view()));
        let reply = crate::todos::get_todo(id, handle.borrow());
        proof {
            handle.view().lemma_distinct();
            assert(reply.deep_view() == get_todo_of(lookup(handle.view()@, id)));
        }
        handle.release_read();
        reply
    }

    /// Creates a todo. A request that breaks a rule is refused without
    /// the lock being taken. For any other, the identifier is drawn
    /// first; the lock is then held as the only writer just for storing
    /// the record. The reply is the one that
    /// [`crate::todos::create_todo_with`] gives for the records held at
    /// that instant.
    pub fn create_todo(&self, input: CreateTodo) -> (reply: Reply<Todo>)
        requires
            self.wf(),
        ensures
            exists|records: Seq<TodoView>, id: u128|
                distinct_ids(records) && is_random_id(id) && reply.deep_view()
                    == (#[trigger] create_todo_of(records, input, id)).1,
    {
        match input.validate() {
            Err(broken) => {
                let reply = rejection(&broken);
                proof {
                    let id = 0x0000_0000_0000_4000_8000_0000_0000_0000u128;
                    assert(0x0000_0000_0000_4000_8000_0000_0000_0000u128
                        & 0x0000_0000_0000_F000_C000_0000_0000_0000u128
                        == 0x0000_0000_0000_4000_8000_0000_0000_0000u128) by (bit_vector);
                    assert(is_random_id(id));
                    assert(reply.deep_view() == create_todo_of(Seq::empty(), input, id).1);
                }
                reply
            },
            Ok(_) => {
                let id = random_id();
                let (mut store, handle) = self.lock.acquire_write();
                assert(self.admits(store));
                let ghost before = store@;
                proof {
                    store.lemma_distinct();
                }
                let reply = create_todo_with(&mut store, input, id);
                assert(reply.deep_view() == create_todo_of(before, input, id).1);
                assert(self.admits(store));
                handle.release_write(store);
                reply
            },
        }
    }
}

} // verus!

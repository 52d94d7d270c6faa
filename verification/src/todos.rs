//! The handlers of the todo resource.
//!
//! A handler works on a store that its caller has to itself for the
//! length of the call, and its contract says exactly what is stored and
//! answered. The shared cache runs the same handlers under its lock.

use vstd::prelude::*;
use crate::ident::{is_random_id, random_id};
use crate::models::{Todo, TodoView};
use crate::reply::{failure_view, json_view, Reply, ReplyView, Status};
use crate::store::{created, fresh, limit_of, lookup, window, Store};
use crate::validation::{breach, message_of, note, rejection, Rule};

verus! {

/// The query parameters of a listing of todos: how many records to
/// leave out, and how many to return at most.
#[derive(Clone, Copy, Debug, PartialEq, Eq, Default)]
pub struct Pagination {
    pub offset: Option<usize>,
    pub limit: Option<usize>,
}

/// The number of records that a listing leaves out: the offset given,
/// or none.
pub open spec fn offset_of(pagination: Option<Pagination>) -> nat {
    match pagination {
        Some(Pagination { offset: Some(offset), .. }) => offset as nat,
        _ => 0,
    }
}

/// The greatest number of records that a listing returns, where it has
/// one: the limit given.
pub open spec fn most_of(pagination: Option<Pagination>) -> Option<nat> {
    match pagination {
        Some(Pagination { limit, .. }) => limit_of(limit),
        None => None,
    }
}

/// The reply to a listing of the records `records`.
pub open spec fn get_todos_of(pagination: Option<Pagination>, records: Seq<TodoView>) -> ReplyView<
    Seq<TodoView>,
> {
    json_view(Status::Okay, window(records, offset_of(pagination), most_of(pagination)))
}

/// Lists the todos of `db`: the records after the first `offset`, at
/// most `limit` of them. Without parameters the listing holds every
/// record. The reply is always a success, if with an empty list.
pub fn get_todos(pagination: Option<Pagination>, db: &Store) -> (reply: Reply<Vec<Todo>>)
    ensures
        reply.deep_view() == get_todos_of(pagination, db@),
{
    let (offset, limit) = match pagination {
        Some(given) => (
            match given.offset {
                Some(offset) => offset,
                None => 0,
            },
            given.limit,
        ),
        None => (0, None),
    };
    Reply::json(Status::Okay, db.list(offset, limit))
}

/// The reply to the lookup of a todo, from what the store holds under
/// the identifier.
pub open spec fn get_todo_of(found: Option<TodoView>) -> ReplyView<TodoView> {
    match found {
        Some(todo) => json_view(Status::Okay, todo),
        None => failure_view(Status::NotFound, "The requested todo could not be found"@),
    }
}

/// Looks one todo up in `db`: the record as the body where the store
/// holds the identifier, the report that it was not found where not.
pub fn get_todo(id: u128, db: &Store) -> (reply: Reply<Todo>)
    requires
        db.wf(),
    ensures
        reply.deep_view() == get_todo_of(lookup(db@, id)),
{
    match db.get(id) {
        Some(todo) => Reply::json(Status::Okay, todo),
        None => Reply::failure(Status::NotFound, "The requested todo could not be found"),
    }
}

/// The body of a request to create a todo.
#[derive(Debug, PartialEq, Eq)]
pub struct CreateTodo {
    pub text: String,
}

impl CreateTodo {
    /// The rules that the request breaks.
    pub open spec fn broken(&self) -> Seq<Rule> {
        breach(Rule::Text, self.text@)
    }

    /// Accepts the request where the text is not empty.
    pub fn validate(&self) -> (r: Result<(), Vec<Rule>>)
        ensures
            match r {
                Ok(_) => self.broken().len() == 0,
                Err(broken) => broken@ == self.broken() && broken@.len() > 0,
            },
    {
        let mut broken: Vec<Rule> = Vec::new();
        note(Rule::Text, self.text.as_str(), &mut broken);
        if broken.len() == 0 {
            Ok(())
        } else {
            Err(broken)
        }
    }
}

/// What a request to create a todo does where the identifier `id` is
/// the one drawn for it: the records afterwards and the reply.
///
/// A request with an empty text is refused and the records stay as they
/// were. For any other text the store gains a record under `id`, not
/// completed, and the reply reports it as created with the record as
/// its body.
pub open spec fn create_todo_of(records: Seq<TodoView>, input: CreateTodo, id: u128) -> (
    Seq<TodoView>,
    ReplyView<TodoView>,
) {
    if input.broken().len() > 0 {
        (records, failure_view(Status::BadRequest, message_of(input.broken())))
    } else {
        (created(records, id, input.text@), json_view(Status::Created, fresh(id, input.text@)))
    }
}

/// Creates a todo in `db` under the identifier `id`, which the caller
/// has drawn for it.
pub fn create_todo_with(db: &mut Store, input: CreateTodo, id: u128) -> (reply: Reply<Todo>)
    requires
        old(db).wf(),
    ensures
        final(db).wf(),
        (final(db)@, reply.deep_view()) == create_todo_of(old(db)@, input, id),
{
    match input.validate() {
        Err(broken) => rejection(&broken),
        Ok(_) => {
            let record = db.insert(id, input.text);
            Reply::json(Status::Created, record)
        },
    }
}

/// Creates a todo in `db` under an identifier drawn at random: what
/// [`create_todo_of`] describes for the identifier that was drawn.
pub fn create_todo(db: &mut Store, input: CreateTodo) -> (reply: Reply<Todo>)
    requires
        old(db).wf(),
    ensures
        final(db).wf(),
        exists|id: u128|
            is_random_id(id) && (final(db)@, reply.deep_view()) == #[trigger] create_todo_of(
                old(db)@,
                input,
                id,
            ),
{
    let id = random_id();
    create_todo_with(db, input, id)
}

} // verus!

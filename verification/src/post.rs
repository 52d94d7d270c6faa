//! The handlers of the post resource.
//!
//! Posts live in a relational store that the caller talks to. A handler
//! here is the part that decides: it checks the request, says which
//! statement to run with which parameters, and turns what the store
//! handed back into a reply.

use vstd::prelude::*;
use crate::clock::now_micros;
use crate::ident::{hyphenated, id_text};
use crate::models::{Post, PostView, QueryFailed};
use crate::reply::{
    data_view, failure_view, internal_error, message_view, Reply, ReplyView, Status,
};
use crate::validation::{breach, breach_if_present, message_of, note, rejection, Rule};

verus! {

/// The page size of a listing that names none.
pub const DEFAULT_LIMIT: usize = 10;

/// The page of a listing that names none. Pages are counted from one.
pub const DEFAULT_PAGE: usize = 1;

/// The greatest row count that the store takes as a limit or an offset.
pub const MAX_ROWS: u128 = 0x7FFF_FFFF_FFFF_FFFF;

/// The query parameters of a listing of posts. `offset` is the number
/// of the page, counted from one, and `limit` the size of a page.
#[derive(Clone, Copy, Debug, PartialEq, Eq, Default)]
pub struct GetPostsQuery {
    pub offset: Option<usize>,
    pub limit: Option<usize>,
}

impl GetPostsQuery {
    /// The size of a page: the limit given, or [`DEFAULT_LIMIT`].
    pub open spec fn page_size(&self) -> int {
        match self.limit {
            Some(limit) => limit as int,
            None => DEFAULT_LIMIT as int,
        }
    }

    /// The number of the page: the offset given, or [`DEFAULT_PAGE`].
    /// Page zero does not exist and is read as the first page.
    pub open spec fn page_number(&self) -> int {
        match self.offset {
            Some(page) => if page == 0 { 1 } else { page as int },
            None => DEFAULT_PAGE as int,
        }
    }

    /// The number of rows that lie before the page.
    pub open spec fn rows_before(&self) -> int {
        (self.page_number() - 1) * self.page_size()
    }

    /// Whether the store can be asked for the page: both the size of the
    /// page and the number of rows before it are row counts it takes.
    pub open spec fn fits(&self) -> bool {
        self.page_size() <= MAX_ROWS && self.rows_before() <= MAX_ROWS
    }
}

/// The query that stands for a request without parameters.
pub open spec fn query_or_default(opts: Option<GetPostsQuery>) -> GetPostsQuery {
    match opts {
        Some(query) => query,
        None => GetPostsQuery { offset: None, limit: None },
    }
}

/// The window of rows that a listing selects: at most `limit` rows
/// after the first `offset` rows, in the order of their identifiers.
#[derive(Clone, Copy, Debug, PartialEq, Eq, Structural)]
pub struct Page {
    pub limit: i64,
    pub offset: i64,
}

/// The reply to a listing whose window the store cannot be asked for.
pub open spec fn listing_failed() -> ReplyView<Seq<PostView>> {
    failure_view(Status::BadRequest, "Failed to fetch posts"@)
}

/// Works out the window of rows for a listing of posts.
///
/// A request without parameters asks for the first page of ten. The
/// window starts after `(page - 1) * limit` rows. A window that the
/// store cannot be asked for is refused as a listing that failed.
pub fn get_posts(opts: Option<GetPostsQuery>) -> (r: Result<Page, Reply<Vec<Post>>>)
    ensures
        match r {
            Ok(page) => {
                &&& query_or_default(opts).fits()
                &&& page.limit == query_or_default(opts).page_size()
                &&& page.offset == query_or_default(opts).rows_before()
            },
            Err(reply) => {
                &&& !query_or_default(opts).fits()
                &&& reply.deep_view() == listing_failed()
            },
        },
{
    let query = match opts {
        Some(query) => query,
        None => GetPostsQuery { offset: None, limit: None },
    };
    let limit: u128 = match query.limit {
        Some(limit) => limit as u128,
        None => DEFAULT_LIMIT as u128,
    };
    let page: u128 = match query.offset {
        Some(page) => if page == 0 { 1 } else { page as u128 },
        None => DEFAULT_PAGE as u128,
    };
    let before: u128 = page - 1;
    assert(before * limit <= 0xFFFF_FFFF_FFFF_FFFF * 0xFFFF_FFFF_FFFF_FFFF) by (nonlinear_arith)
        requires
            0 <= before <= 0xFFFF_FFFF_FFFF_FFFF,
            0 <= limit <= 0xFFFF_FFFF_FFFF_FFFF,
    ;
    let skip: u128 = before * limit;
    if limit <= MAX_ROWS && skip <= MAX_ROWS {
        Ok(Page { limit: limit as i64, offset: skip as i64 })
    } else {
        Err(Reply::failure(Status::BadRequest, "Failed to fetch posts"))
    }
}

/// The reply to a listing of posts, from what the store handed back:
/// the rows as data. A statement that failed is an internal error.
pub fn get_posts_reply(rows: Result<Vec<Post>, QueryFailed>) -> (reply: Reply<Vec<Post>>)
    ensures
        reply.deep_view() == match rows {
            Ok(posts) => data_view(Status::Okay, posts.deep_view()),
            Err(_) => internal_error(),
        },
{
    match rows {
        Ok(posts) => Reply::data(Status::Okay, posts),
        Err(_) => Reply::internal_error(),
    }
}

/// The body of a request to create a post.
#[derive(Debug, PartialEq, Eq)]
pub struct CreatePostDto {
    pub title: String,
    pub body: String,
}

impl CreatePostDto {
    /// The rules that the request breaks, title before body.
    pub open spec fn broken(&self) -> Seq<Rule> {
        breach(Rule::Title, self.title@) + breach(Rule::Body, self.body@)
    }

    /// Accepts the request where title and body keep their length
    /// rules, and lists the broken rules where not.
    pub fn validate(&self) -> (r: Result<(), Vec<Rule>>)
        ensures
            match r {
                Ok(_) => self.broken().len() == 0,
                Err(broken) => broken@ == self.broken() && broken@.len() > 0,
            },
    {
        let mut broken: Vec<Rule> = Vec::new();
        note(Rule::Title, self.title.as_str(), &mut broken);
        note(Rule::Body, self.body.as_str(), &mut broken);
        if broken.len() == 0 {
            Ok(())
        } else {
            Err(broken)
        }
    }
}

/// The parameters of the statement that inserts a post.
#[derive(Debug, PartialEq, Eq)]
pub struct NewPost {
    pub title: String,
    pub body: String,
}

/// Checks a request to create a post and hands out the values to
/// insert. A request that breaks a rule is refused, and nothing is
/// handed out for the store.
pub fn create_post(body: CreatePostDto) -> (r: Result<NewPost, Reply<Post>>)
    ensures
        match r {
            Ok(row) => {
                &&& body.broken().len() == 0
                &&& row.title == body.title
                &&& row.body == body.body
            },
            Err(reply) => {
                &&& body.broken().len() > 0
                &&& reply.deep_view() == failure_view::<PostView>(
                    Status::BadRequest,
                    message_of(body.broken()),
                )
            },
        },
{
    match body.validate() {
        Ok(_) => Ok(NewPost { title: body.title, body: body.body }),
        Err(broken) => Err(rejection(&broken)),
    }
}

/// The reply to the creation of a post, from what the store handed
/// back: the new row as data. An insert that failed has nothing to do
/// with a missing row and is an internal error.
pub fn create_post_reply(inserted: Result<Post, QueryFailed>) -> (reply: Reply<Post>)
    ensures
        reply.deep_view() == match inserted {
            Ok(post) => data_view(Status::Created, post@),
            Err(_) => internal_error(),
        },
{
    match inserted {
        Ok(post) => Reply::data(Status::Created, post),
        Err(_) => Reply::internal_error(),
    }
}

/// The reply to the lookup of one post, from what the store handed
/// back: the row as data, or the report that there is no such post.
pub fn get_post(found: Result<Post, QueryFailed>) -> (reply: Reply<Post>)
    ensures
        reply.deep_view() == match found {
            Ok(post) => data_view(Status::Okay, post@),
            Err(_) => failure_view(Status::NotFound, "The requested post could not be found"@),
        },
{
    match found {
        Ok(post) => Reply::data(Status::Okay, post),
        Err(_) => Reply::failure(Status::NotFound, "The requested post could not be found"),
    }
}

/// The text that reports that no post has the identifier written as
/// `written`.
pub open spec fn no_such_post_text(written: Seq<char>) -> Seq<char> {
    "Post with ID: "@ + written + " not found"@
}

/// The text that reports that no post has the identifier `id`.
pub open spec fn no_such_post(id: u128) -> Seq<char> {
    no_such_post_text(hyphenated(id))
}

/// The reply to the deletion of the post whose identifier is written as
/// `written`, for each thing the store can hand back.
pub open spec fn delete_reply_for(written: Seq<char>, deleted: Result<u64, QueryFailed>)
    -> ReplyView<()> {
    match deleted {
        Err(_) => internal_error(),
        Ok(rows) => if rows == 0 {
            failure_view(Status::NotFound, no_such_post_text(written))
        } else {
            message_view(Status::Okay, "Post deleted"@)
        },
    }
}

/// The reply to the deletion of the post `id`, for each thing the store
/// can hand back.
pub open spec fn delete_reply_of(id: u128, deleted: Result<u64, QueryFailed>) -> ReplyView<()> {
    delete_reply_for(hyphenated(id), deleted)
}

/// The reply to a deletion, from the identifier as it is written out and
/// the number of rows that the store removed: no row means that there
/// was no such post, and the report names the identifier; a statement
/// that failed is an internal error.
pub fn delete_post_reply(written: &str, deleted: Result<u64, QueryFailed>) -> (reply: Reply<()>)
    ensures
        reply.deep_view() == delete_reply_for(written@, deleted),
{
    match deleted {
        Err(_) => Reply::internal_error(),
        Ok(rows) => if rows == 0 {
            let mut text = String::from_str("Post with ID: ");
            text.append(written);
            text.append(" not found");
            Reply::failure(Status::NotFound, text.as_str())
        } else {
            Reply::message(Status::Okay, "Post deleted")
        },
    }
}

/// The reply to the deletion of the post `id`, from the number of rows
/// that the store removed: what [`delete_post_reply`] gives for the
/// identifier in its hyphenated form.
pub fn delete_post(id: u128, deleted: Result<u64, QueryFailed>) -> (reply: Reply<()>)
    ensures
        reply.deep_view() == delete_reply_of(id, deleted),
{
    let written = id_text(id);
    delete_post_reply(written.as_str(), deleted)
}

/// The report that a post was not found holds the identifier that was
/// asked for, written out in full after the words `Post with ID: `.
pub proof fn lemma_no_such_post_names_id(id: u128)
    ensures
        no_such_post(id).subrange(14, 14 + hyphenated(id).len() as int) == hyphenated(id),
{
    reveal_strlit("Post with ID: ");
    reveal_strlit(" not found");
    assert(no_such_post(id).subrange(14, 14 + hyphenated(id).len() as int) =~= hyphenated(id));
}

/// The body of a request to edit a post: each field is optional, and a
/// field that is absent keeps its stored value.
#[derive(Debug, PartialEq, Eq)]
pub struct EditPostDto {
    pub title: Option<String>,
    pub body: Option<String>,
}

impl EditPostDto {
    /// The rules that the request breaks, title before body.
    pub open spec fn broken(&self) -> Seq<Rule> {
        breach_if_present(Rule::Title, self.title) + breach_if_present(Rule::Body, self.body)
    }

    /// Accepts the request where each field that is present keeps its
    /// length rule, and lists the broken rules where not.
    pub fn validate(&self) -> (r: Result<(), Vec<Rule>>)
        ensures
            match r {
                Ok(_) => self.broken().len() == 0,
                Err(broken) => broken@ == self.broken() && broken@.len() > 0,
            },
    {
        let mut broken: Vec<Rule> = Vec::new();
        match &self.title {
            Some(title) => note(Rule::Title, title.as_str(), &mut broken),
            None => {},
        }
        match &self.body {
            Some(body) => note(Rule::Body, body.as_str(), &mut broken),
            None => {},
        }
        if broken.len() == 0 {
            Ok(())
        } else {
            Err(broken)
        }
    }
}

/// The parameters of the statement that rewrites a post.
#[derive(Debug, PartialEq, Eq)]
pub struct PostChange {
    pub id: u128,
    pub title: String,
    pub body: String,
    pub updated_at: i64,
}

/// The mathematical value of a [`PostChange`].
pub struct PostChangeView {
    pub id: u128,
    pub title: Seq<char>,
    pub body: Seq<char>,
    pub updated_at: i64,
}

impl View for PostChange {
    type V = PostChangeView;

    open spec fn view(&self) -> PostChangeView {
        PostChangeView {
            id: self.id,
            title: self.title@,
            body: self.body@,
            updated_at: self.updated_at,
        }
    }
}

/// The value of a field after an edit: the new text where the request
/// gives one, the stored text where it does not.
pub open spec fn merged(given: Option<String>, stored: Seq<char>) -> Seq<char> {
    match given {
        Some(text) => text@,
        None => stored,
    }
}

/// The change that an edit request makes to the stored post `current` at
/// the instant `now`.
pub open spec fn change_of(id: u128, body: EditPostDto, current: PostView, now: i64)
    -> PostChangeView {
    PostChangeView {
        id,
        title: merged(body.title, current.title),
        body: merged(body.body, current.body),
        updated_at: now,
    }
}

/// Lays the fields of an edit request over the stored post: a field
/// that the request leaves out keeps its stored value, and the update
/// time becomes `now`.
pub fn merge_post(id: u128, body: &EditPostDto, current: Post, now: i64) -> (change: PostChange)
    ensures
        change@ == change_of(id, *body, current@, now),
{
    let title = match &body.title {
        Some(title) => title.clone(),
        None => current.title,
    };
    let text = match &body.body {
        Some(text) => text.clone(),
        None => current.body,
    };
    PostChange { id, title, body: text, updated_at: now }
}

/// What has happened so far in the handling of an edit request.
#[derive(Debug, PartialEq, Eq)]
pub enum EditEvent {
    /// The request has arrived; nothing was asked of the store yet.
    Received,
    /// The store answered the lookup of the post.
    Fetched(Result<Post, QueryFailed>),
    /// The store answered the rewrite of the post.
    Updated(Result<Post, QueryFailed>),
}

/// What the caller does next for an edit request.
#[derive(Debug, PartialEq, Eq)]
pub enum EditStep {
    /// Look the post with this identifier up, then report `Fetched`.
    Fetch(u128),
    /// Rewrite the post with these values, then report `Updated`.
    Update(PostChange),
    /// Send this reply; the request is done.
    Answer(Reply<Post>),
}

/// The mathematical value of an [`EditStep`].
pub enum EditStepView {
    Fetch(u128),
    Update(PostChangeView),
    Answer(ReplyView<PostView>),
}

impl View for EditStep {
    type V = EditStepView;

    open spec fn view(&self) -> EditStepView {
        match *self {
            EditStep::Fetch(id) => EditStepView::Fetch(id),
            EditStep::Update(change) => EditStepView::Update(change@),
            EditStep::Answer(reply) => EditStepView::Answer(reply.deep_view()),
        }
    }
}

/// The step that follows `event` in the handling of the request `body`
/// for the post `id`, where the clock shows `now`.
///
/// A request that breaks a rule is refused before the store is asked
/// anything. A post that the lookup does not find is reported as not
/// found, and so is a rewrite that fails.
pub open spec fn edit_step_of(id: u128, body: EditPostDto, event: EditEvent, now: i64)
    -> EditStepView {
    if body.broken().len() > 0 {
        EditStepView::Answer(failure_view(Status::BadRequest, message_of(body.broken())))
    } else {
        match event {
            EditEvent::Received => EditStepView::Fetch(id),
            EditEvent::Fetched(Ok(current)) => EditStepView::Update(
                change_of(id, body, current@, now),
            ),
            EditEvent::Fetched(Err(_)) => EditStepView::Answer(
                failure_view(Status::NotFound, "The requested post could not be found"@),
            ),
            EditEvent::Updated(Ok(post)) => EditStepView::Answer(data_view(Status::Okay, post@)),
            EditEvent::Updated(Err(_)) => EditStepView::Answer(
                failure_view(Status::NotFound, "Failed to update post"@),
            ),
        }
    }
}

/// Decides the next step of an edit request from what has happened so
/// far, with the clock's reading given.
pub fn edit_post_at(id: u128, body: &EditPostDto, event: EditEvent, now: i64) -> (step: EditStep)
    ensures
        step@ == edit_step_of(id, *body, event, now),
{
    match body.validate() {
        Err(broken) => EditStep::Answer(rejection(&broken)),
        Ok(_) => match event {
            EditEvent::Received => EditStep::Fetch(id),
            EditEvent::Fetched(Ok(current)) => EditStep::Update(merge_post(id, body, current, now)),
            EditEvent::Fetched(Err(_)) => EditStep::Answer(
                Reply::failure(Status::NotFound, "The requested post could not be found"),
            ),
            EditEvent::Updated(Ok(post)) => EditStep::Answer(Reply::data(Status::Okay, post)),
            EditEvent::Updated(Err(_)) => EditStep::Answer(
                Reply::failure(Status::NotFound, "Failed to update post"),
            ),
        },
    }
}

/// Decides the next step of an edit request from what has happened so
/// far. The update time of a rewrite is read from the clock, so the step
/// is the one that [`edit_step_of`] gives for some instant.
pub fn edit_post(id: u128, body: &EditPostDto, event: EditEvent) -> (step: EditStep)
    ensures
        exists|now: i64| step@ == edit_step_of(id, *body, event, now),
{
    let now = now_micros();
    edit_post_at(id, body, event, now)
}

} // verus!

//! The posts service in its plain form: requests are checked, the store
//! is asked, and the outcome is a value or an error, with no reply
//! envelope around it.

use vstd::prelude::*;
use crate::models::QueryFailed;
use crate::post::NewPost;
use crate::validation::{breach, note, Rule};

verus! {

/// The query parameters of a listing. The listing of this service
/// returns every post, newest first, whatever they say.
#[derive(Clone, Copy, Debug, PartialEq, Eq, Default)]
pub struct Pagination {
    pub offset: Option<usize>,
    pub limit: Option<usize>,
}

/// The body of a request to create a post.
#[derive(Debug, PartialEq, Eq)]
pub struct CreatePostRequest {
    pub id: u128,
    pub title: String,
    pub body: String,
}

impl CreatePostRequest {
    /// The rules that the request breaks, title before body.
    pub open spec fn broken(&self) -> Seq<Rule> {
        breach(Rule::Title, self.title@) + breach(Rule::Body, self.body@)
    }

    /// Accepts the request where title and body keep their length
    /// rules, and lists the broken rules where not.
    pub fn validate(&self) -> (r: Result<(), Vec<Rule>>)
        ensures
            match r {
                Ok(_) => self.broken().len() == 0,
                Err(broken) => broken@ == self.broken() && broken@.len() > 0,
            },
    {
        let mut broken: Vec<Rule> = Vec::new();
        note(Rule::Title, self.title.as_str(), &mut broken);
        note(Rule::Body, self.body.as_str(), &mut broken);
        if broken.len() == 0 {
            Ok(())
        } else {
            Err(broken)
        }
    }
}

/// Why the service could not do what was asked.
#[derive(Debug, PartialEq, Eq)]
pub enum ServiceError {
    /// The request broke these rules.
    Invalid(Vec<Rule>),
    /// The store could not carry out the statement.
    Store,
}

/// Checks a request to create a post and hands out the values to
/// insert; the identifier in the request is not used, the store assigns
/// one. A request that breaks a rule is an error that lists the rules.
pub fn create_todo(input: CreatePostRequest) -> (r: Result<NewPost, ServiceError>)
    ensures
        match r {
            Ok(row) => {
                &&& input.broken().len() == 0
                &&& row.title == input.title
                &&& row.body == input.body
            },
            Err(error) => {
                &&& input.broken().len() > 0
                &&& error matches ServiceError::Invalid(broken)
                &&& broken@ == input.broken()
            },
        },
{
    match input.validate() {
        Ok(_) => Ok(NewPost { title: input.title, body: input.body }),
        Err(broken) => Err(ServiceError::Invalid(broken)),
    }
}

/// The outcome of the creation, from what the store handed back: the
/// words `Post created`, or the error of the store.
pub fn create_todo_reply(inserted: Result<u64, QueryFailed>) -> (r: Result<String, ServiceError>)
    ensures
        match inserted {
            Ok(_) => r matches Ok(text) && text@ == "Post created"@,
            Err(_) => r == Err::<String, ServiceError>(ServiceError::Store),
        },
{
    match inserted {
        Ok(_) => Ok(String::from_str("Post created")),
        Err(_) => Err(ServiceError::Store),
    }
}

} // verus!

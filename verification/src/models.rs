//! The records that the service stores and returns.
//!
//! Identifiers are 128-bit values (the integer form of a UUID) and
//! timestamps are microseconds since the Unix epoch, so that every field
//! is a plain value that contracts can speak of.

use vstd::prelude::*;

verus! {

/// A todo entry held by the in-memory store.
#[derive(Debug, PartialEq, Eq)]
pub struct Todo {
    pub id: u128,
    pub text: String,
    pub completed: bool,
}

/// The mathematical value of a [`Todo`].
pub struct TodoView {
    pub id: u128,
    pub text: Seq<char>,
    pub completed: bool,
}

impl View for Todo {
    type V = TodoView;

    open spec fn view(&self) -> TodoView {
        TodoView { id: self.id, text: self.text@, completed: self.completed }
    }
}

impl DeepView for Todo {
    type V = TodoView;

    open spec fn deep_view(&self) -> TodoView {
        self@
    }
}

impl Clone for Todo {
    fn clone(&self) -> (r: Todo)
        ensures
            r == *self,
    {
        Todo { id: self.id, text: self.text.clone(), completed: self.completed }
    }
}

/// A post as the relational store returns it.
#[derive(Debug, PartialEq, Eq)]
pub struct Post {
    pub id: u128,
    pub title: String,
    pub body: String,
    pub created_at: Option<i64>,
    pub updated_at: Option<i64>,
}

/// The mathematical value of a [`Post`].
pub struct PostView {
    pub id: u128,
    pub title: Seq<char>,
    pub body: Seq<char>,
    pub created_at: Option<i64>,
    pub updated_at: Option<i64>,
}

impl View for Post {
    type V = PostView;

    open spec fn view(&self) -> PostView {
        PostView {
            id: self.id,
            title: self.title@,
            body: self.body@,
            created_at: self.created_at,
            updated_at: self.updated_at,
        }
    }
}

impl DeepView for Post {
    type V = PostView;

    open spec fn deep_view(&self) -> PostView {
        self@
    }
}

impl Clone for Post {
    fn clone(&self) -> (r: Post)
        ensures
            r == *self,
    {
        Post {
            id: self.id,
            title: self.title.clone(),
            body: self.body.clone(),
            created_at: self.created_at,
            updated_at: self.updated_at,
        }
    }
}

/// A user as the relational store returns it; `password` is the stored
/// digest, never the plaintext.
#[derive(Debug, PartialEq, Eq)]
pub struct User {
    pub id: u128,
    pub email: String,
    pub password: String,
    pub created_at: Option<i64>,
    pub updated_at: Option<i64>,
}

/// The mathematical value of a [`User`].
pub struct UserView {
    pub id: u128,
    pub email: Seq<char>,
    pub password: Seq<char>,
    pub created_at: Option<i64>,
    pub updated_at: Option<i64>,
}

impl View for User {
    type V = UserView;

    open spec fn view(&self) -> UserView {
        UserView {
            id: self.id,
            email: self.email@,
            password: self.password@,
            created_at: self.created_at,
            updated_at: self.updated_at,
        }
    }
}

impl DeepView for User {
    type V = UserView;

    open spec fn deep_view(&self) -> UserView {
        self@
    }
}

impl Clone for User {
    fn clone(&self) -> (r: User)
        ensures
            r == *self,
    {
        User {
            id: self.id,
            email: self.email.clone(),
            password: self.password.clone(),
            created_at: self.created_at,
            updated_at: self.updated_at,
        }
    }
}

/// The relational store could not carry out a statement, or found no
/// row where one was asked for.
#[derive(Clone, Copy, Debug, PartialEq, Eq, Structural)]
pub struct QueryFailed;

} // verus!

//! The handlers of the user resource: registration, lookup and login.
//!
//! Users live in the relational store that the caller talks to. A
//! password is stored as a bcrypt digest and never as plaintext.

use vstd::prelude::*;
use crate::crypto::{digest_accepts, hash, verify, HashingFailed};
use crate::models::{QueryFailed, User, UserView};
use crate::reply::{
    data_view, failure_view, internal_error, success_view, Reply, ReplyView, Status,
};
use crate::validation::{breach, message_of, note, rejection, Rule};

verus! {

/// The body of a request to register a user.
#[derive(Debug, PartialEq, Eq)]
pub struct CreateUserDto {
    pub email: String,
    pub password: String,
}

impl CreateUserDto {
    /// The rules that the request breaks.
    pub open spec fn broken(&self) -> Seq<Rule> {
        breach(Rule::Password, self.password@)
    }

    /// Accepts the request where the password keeps its length rule,
    /// and lists the broken rule where not.
    pub fn validate(&self) -> (r: Result<(), Vec<Rule>>)
        ensures
            match r {
                Ok(_) => self.broken().len() == 0,
                Err(broken) => broken@ == self.broken() && broken@.len() > 0,
            },
    {
        let mut broken: Vec<Rule> = Vec::new();
        note(Rule::Password, self.password.as_str(), &mut broken);
        if broken.len() == 0 {
            Ok(())
        } else {
            Err(broken)
        }
    }
}

/// The parameters of the statement that inserts a user: the address and
/// the digest of the password.
#[derive(Debug, PartialEq, Eq)]
pub struct NewUser {
    pub email: String,
    pub password: String,
}

/// Finishes a registration once the password is hashed: the row to
/// insert holds the address as given and the digest; a hashing that
/// failed is an internal error.
pub fn user_row(email: String, hashed: Result<String, HashingFailed>) -> (r: Result<
    NewUser,
    Reply<User>,
>)
    ensures
        match hashed {
            Ok(digest) => r matches Ok(row) && row.email == email && row.password == digest,
            Err(_) => r matches Err(reply) && reply.deep_view() == internal_error::<UserView>(),
        },
{
    match hashed {
        Ok(digest) => Ok(NewUser { email, password: digest }),
        Err(_) => Err(Reply::internal_error()),
    }
}

/// Checks a request to register a user, hashes the password and hands
/// out the row to insert.
///
/// A password that breaks its length rule is refused before anything is
/// hashed. For a password that keeps it, the row holds the address as
/// given and a digest that accepts the password; where the hashing
/// itself fails, the reply is an internal error.
pub fn create_user(body: CreateUserDto) -> (r: Result<NewUser, Reply<User>>)
    ensures
        match r {
            Ok(row) => {
                &&& body.broken().len() == 0
                &&& row.email == body.email
                &&& digest_accepts(body.password@, row.password@) == Some(true)
            },
            Err(reply) => if body.broken().len() > 0 {
                reply.deep_view() == failure_view::<UserView>(
                    Status::BadRequest,
                    message_of(body.broken()),
                )
            } else {
                reply.deep_view() == internal_error::<UserView>()
            },
        },
{
    match body.validate() {
        Err(broken) => Err(rejection(&broken)),
        Ok(_) => {
            let hashed = hash(body.password.as_str());
            user_row(body.email, hashed)
        },
    }
}

/// The reply to the registration of a user, from what the store handed
/// back: the new row as data. An insert that failed has nothing to do
/// with a missing row and is an internal error.
pub fn create_user_reply(inserted: Result<User, QueryFailed>) -> (reply: Reply<User>)
    ensures
        reply.deep_view() == match inserted {
            Ok(user) => data_view(Status::Created, user@),
            Err(_) => internal_error(),
        },
{
    match inserted {
        Ok(user) => Reply::data(Status::Created, user),
        Err(_) => Reply::internal_error(),
    }
}

/// The reply to the lookup of one user, from what the store handed
/// back: the row as data, or the report that there is no such user.
pub fn get_user(found: Result<User, QueryFailed>) -> (reply: Reply<User>)
    ensures
        reply.deep_view() == match found {
            Ok(user) => data_view(Status::Okay, user@),
            Err(_) => failure_view(Status::NotFound, "The requested user could not be found"@),
        },
{
    match found {
        Ok(user) => Reply::data(Status::Okay, user),
        Err(_) => Reply::failure(Status::NotFound, "The requested user could not be found"),
    }
}

/// The body of a request to log in.
#[derive(Debug, PartialEq, Eq)]
pub struct LoginDto {
    pub email: String,
    pub password: String,
}

/// The reply to a login once the password was tested against the stored
/// digest: success on a match, unauthorized on a mismatch, an internal
/// error where the test could not be made.
pub open spec fn password_reply_of(tested: Result<bool, HashingFailed>) -> ReplyView<()> {
    match tested {
        Ok(matches) => if matches {
            success_view(Status::Okay)
        } else {
            failure_view(Status::Unauthorized, "Invalid password"@)
        },
        Err(_) => internal_error(),
    }
}

/// The reply to a login, from the lookup of the user by address and the
/// answer of the digest test for the password given.
pub open spec fn login_reply_of(
    password: Seq<char>,
    found: Result<User, QueryFailed>,
) -> ReplyView<()> {
    match found {
        Ok(user) => password_reply_of(
            crate::crypto::verdict(digest_accepts(password, user.password@)),
        ),
        Err(_) => failure_view(Status::NotFound, "User with email does not exist"@),
    }
}

/// Turns the outcome of the password test into the reply to a login.
pub fn password_reply(tested: Result<bool, HashingFailed>) -> (reply: Reply<()>)
    ensures
        reply.deep_view() == password_reply_of(tested),
{
    match tested {
        Ok(matches) => if matches {
            Reply::success(Status::Okay)
        } else {
            Reply::failure(Status::Unauthorized, "Invalid password")
        },
        Err(_) => Reply::internal_error(),
    }
}

/// Answers a login from what the lookup of the user by address handed
/// back. An address that no user has is reported as not found; for a
/// user that was found, the password is tested against the stored
/// digest and the reply says how the test went.
pub fn login(body: &LoginDto, found: Result<User, QueryFailed>) -> (reply: Reply<()>)
    ensures
        reply.deep_view() == login_reply_of(body.password@, found),
{
    match found {
        Ok(user) => password_reply(verify(body.password.as_str(), user.password.as_str())),
        Err(_) => Reply::failure(Status::NotFound, "User with email does not exist"),
    }
}

/// Whoever registered with a password can log in with it: where the
/// stored digest is one that accepts the password, as every digest that
/// [`create_user`] hands out does, the login succeeds.
pub proof fn lemma_registered_password_logs_in(password: Seq<char>, user: User)
    requires
        digest_accepts(password, user.password@) == Some(true),
    ensures
        login_reply_of(password, Ok(user)) == success_view::<()>(Status::Okay),
{
}

} // verus!

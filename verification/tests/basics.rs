use axum_api::crypto::{digest_or_failure, hash, verify, HashingFailed, HASH_COST};
use axum_api::models::QueryFailed;
use axum_api::post::NewPost;
use axum_api::posts::{create_todo, create_todo_reply, CreatePostRequest, ServiceError};
use axum_api::reply::{Body, Reply, Status};
use axum_api::validation::{message, rejection, Rule};

#[test]
fn status_codes() {
    assert_eq!(Status::Okay.code(), 200);
    assert_eq!(Status::Created.code(), 201);
    assert_eq!(Status::BadRequest.code(), 400);
    assert_eq!(Status::Unauthorized.code(), 401);
    assert_eq!(Status::NotFound.code(), 404);
    assert_eq!(Status::InternalServerError.code(), 500);
}

#[test]
fn reply_constructors() {
    assert_eq!(
        Reply::<u8>::failure(Status::NotFound, "gone"),
        Reply { status: Status::NotFound, body: Body::Text(String::from("gone")) }
    );
    assert_eq!(
        Reply::<u8>::message(Status::Okay, "done"),
        Reply { status: Status::Okay, body: Body::Message(String::from("done")) }
    );
    assert_eq!(Reply::<u8>::success(Status::Okay), Reply { status: Status::Okay, body: Body::Success });
    assert_eq!(
        Reply::<u8>::internal_error(),
        Reply {
            status: Status::InternalServerError,
            body: Body::Text(String::from("Something went wrong")),
        }
    );
    assert_eq!(Reply::data(Status::Created, 7u8), Reply { status: Status::Created, body: Body::Data(7u8) });
    assert_eq!(Reply::json(Status::Okay, 7u8), Reply { status: Status::Okay, body: Body::Json(7u8) });
}

#[test]
fn rule_bounds() {
    assert_eq!((Rule::Text.min(), Rule::Text.max()), (Some(1), None));
    assert_eq!((Rule::Title.min(), Rule::Title.max()), (Some(1), Some(100)));
    assert_eq!((Rule::Body.min(), Rule::Body.max()), (Some(1), Some(1000)));
    assert_eq!((Rule::Password.min(), Rule::Password.max()), (Some(6), Some(128)));
}

#[test]
fn rule_check_at_the_bounds() {
    let of = |n: usize| "x".repeat(n);
    assert!(!Rule::Text.check(""));
    assert!(Rule::Text.check("x"));
    assert!(Rule::Text.check(&of(100_000)));
    assert!(!Rule::Title.check(""));
    assert!(Rule::Title.check(&of(1)));
    assert!(Rule::Title.check(&of(100)));
    assert!(!Rule::Title.check(&of(101)));
    assert!(!Rule::Body.check(""));
    assert!(Rule::Body.check(&of(1000)));
    assert!(!Rule::Body.check(&of(1001)));
    assert!(!Rule::Password.check(&of(5)));
    assert!(Rule::Password.check(&of(6)));
    assert!(Rule::Password.check(&of(128)));
    assert!(!Rule::Password.check(&of(129)));
}

#[test]
fn rule_check_counts_characters() {
    assert!(Rule::Password.check("pässwö"));
    assert!(!Rule::Password.check("päss"));
    assert!(Rule::Title.check(&"ü".repeat(100)));
    assert!(!Rule::Title.check(&"ü".repeat(101)));
}

#[test]
fn message_has_one_line_for_each_rule() {
    assert_eq!(message(&Vec::new()), "");
    assert_eq!(message(&vec![Rule::Text]), "text: must not be empty");
    assert_eq!(message(&vec![Rule::Title]), "title: length must be between 1 and 100");
    assert_eq!(message(&vec![Rule::Body]), "body: length must be between 1 and 1000");
    assert_eq!(message(&vec![Rule::Password]), "password: length must be between 6 and 128");
    assert_eq!(
        message(&vec![Rule::Title, Rule::Body, Rule::Password]),
        "title: length must be between 1 and 100\n\
         body: length must be between 1 and 1000\n\
         password: length must be between 6 and 128"
    );
    assert_eq!(Rule::Title.line(), "title: length must be between 1 and 100");
}

#[test]
fn rejection_is_a_bad_request_with_the_message() {
    let reply: Reply<u8> = rejection(&vec![Rule::Body]);
    assert_eq!(reply.status.code(), 400);
    assert_eq!(
        reply,
        Reply {
            status: Status::BadRequest,
            body: Body::Text(String::from("body: length must be between 1 and 1000")),
        }
    );
}

#[test]
fn hash_makes_a_salted_digest_that_verifies() {
    assert_eq!(HASH_COST, 12);
    let digest = hash("hunter2").unwrap();
    assert_ne!(digest, "hunter2");
    assert!(digest.starts_with("$2b$12$"));
    assert_eq!(digest.chars().count(), 60);
    assert_eq!(verify("hunter2", &digest), Ok(true));
}

#[test]
fn digest_or_failure_maps_each_outcome() {
    assert_eq!(digest_or_failure(Ok(String::from("$2b$12$abc"))), Ok(String::from("$2b$12$abc")));
    assert_eq!(digest_or_failure(Ok(String::new())), Ok(String::new()));
    assert_eq!(
        digest_or_failure(Err(bcrypt::BcryptError::CostNotAllowed(3))),
        Err(HashingFailed)
    );
    assert_eq!(
        digest_or_failure(Err(bcrypt::BcryptError::InvalidSaltLen(2))),
        Err(HashingFailed)
    );
}

#[test]
fn hash_salts_each_digest() {
    let first = hash("hunter2").unwrap();
    let second = hash("hunter2").unwrap();
    assert_ne!(first, second);
}

#[test]
fn verify_tells_match_from_mismatch_from_malformed() {
    let digest = "$2b$04$EGdrhbKUv8Oc9vGiXX0HQOxSg445d458Muh7DAHskb6QbtCvdxcie";
    assert_eq!(verify("correctbatteryhorsestapler", digest), Ok(true));
    assert_eq!(verify("wrong", digest), Ok(false));
    assert_eq!(verify("", digest), Ok(false));
    assert_eq!(verify("correctbatteryhorsestapler", "not a digest"), Err(HashingFailed));
    assert_eq!(verify("correctbatteryhorsestapler", ""), Err(HashingFailed));
    assert_eq!(
        verify("correctbatteryhorsestapler", "$2a$04$tjARW6ZON3PhrAIRW2LG/u9a."),
        Err(HashingFailed)
    );
}

#[test]
fn plain_service_checks_the_request() {
    let input = CreatePostRequest { id: 1, title: String::from("t"), body: String::from("b") };
    assert_eq!(input.validate(), Ok(()));
    assert_eq!(
        create_todo(input),
        Ok(NewPost { title: String::from("t"), body: String::from("b") })
    );
    let input = CreatePostRequest { id: 1, title: String::new(), body: String::new() };
    assert_eq!(create_todo(input), Err(ServiceError::Invalid(vec![Rule::Title, Rule::Body])));
    let input = CreatePostRequest { id: 1, title: "t".repeat(101), body: String::from("b") };
    assert_eq!(create_todo(input), Err(ServiceError::Invalid(vec![Rule::Title])));
}

#[test]
fn plain_service_reports_the_outcome() {
    assert_eq!(create_todo_reply(Ok(1)), Ok(String::from("Post created")));
    assert_eq!(create_todo_reply(Err(QueryFailed)), Err(ServiceError::Store));
}

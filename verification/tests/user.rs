use axum_api::crypto::HashingFailed;
use axum_api::models::{QueryFailed, User};
use axum_api::reply::{Body, Reply, Status};
use axum_api::user::{
    create_user, create_user_reply, get_user, login, password_reply, user_row, CreateUserDto,
    LoginDto, NewUser,
};

const DIGEST: &str = "$2b$04$EGdrhbKUv8Oc9vGiXX0HQOxSg445d458Muh7DAHskb6QbtCvdxcie";
const PASSWORD: &str = "correctbatteryhorsestapler";

fn user(password: &str) -> User {
    User {
        id: 3,
        email: String::from("ann@example.com"),
        password: String::from(password),
        created_at: Some(1_700_000_000_000_000),
        updated_at: None,
    }
}

fn failure<T>(status: Status, text: &str) -> Reply<T> {
    Reply { status, body: Body::Text(String::from(text)) }
}

fn attempt(password: &str) -> LoginDto {
    LoginDto { email: String::from("ann@example.com"), password: String::from(password) }
}

#[test]
fn login_with_the_right_password_succeeds() {
    let reply = login(&attempt(PASSWORD), Ok(user(DIGEST)));
    assert_eq!(reply.status.code(), 200);
    assert_eq!(reply, Reply { status: Status::Okay, body: Body::Success });
}

#[test]
fn login_with_a_wrong_password_is_unauthorized() {
    let reply = login(&attempt("wrong"), Ok(user(DIGEST)));
    assert_eq!(reply.status.code(), 401);
    assert_eq!(reply, failure(Status::Unauthorized, "Invalid password"));
}

#[test]
fn login_with_an_unknown_email_is_not_found() {
    let reply = login(&attempt(PASSWORD), Err(QueryFailed));
    assert_eq!(reply.status.code(), 404);
    assert_eq!(reply, failure(Status::NotFound, "User with email does not exist"));
}

#[test]
fn login_against_a_malformed_digest_is_an_internal_error() {
    let reply = login(&attempt(PASSWORD), Ok(user("not a digest")));
    assert_eq!(reply.status.code(), 500);
    assert_eq!(reply, failure(Status::InternalServerError, "Something went wrong"));
}

#[test]
fn password_reply_maps_each_outcome() {
    assert_eq!(password_reply(Ok(true)), Reply { status: Status::Okay, body: Body::Success });
    assert_eq!(password_reply(Ok(false)), failure(Status::Unauthorized, "Invalid password"));
    assert_eq!(
        password_reply(Err(HashingFailed)),
        failure(Status::InternalServerError, "Something went wrong")
    );
}

#[test]
fn create_user_refuses_a_short_password() {
    let body = CreateUserDto { email: String::from("ann@example.com"), password: String::from("12345") };
    assert_eq!(body.validate(), Err(vec![axum_api::validation::Rule::Password]));
    let refused = create_user(body);
    assert_eq!(
        refused,
        Err(failure(Status::BadRequest, "password: length must be between 6 and 128"))
    );
    assert_eq!(refused.unwrap_err().status.code(), 400);
}

#[test]
fn create_user_refuses_a_long_password() {
    let body = CreateUserDto { email: String::from("ann@example.com"), password: "p".repeat(129) };
    assert_eq!(
        create_user(body),
        Err(failure(Status::BadRequest, "password: length must be between 6 and 128"))
    );
    let body = CreateUserDto { email: String::from("ann@example.com"), password: "p".repeat(128) };
    assert_eq!(body.validate(), Ok(()));
    let body = CreateUserDto { email: String::new(), password: "p".repeat(6) };
    assert_eq!(body.validate(), Ok(()));
}

#[test]
fn create_user_stores_a_digest_that_accepts_the_password() {
    let body = CreateUserDto { email: String::from("ann@example.com"), password: String::from("hunter22") };
    let row = create_user(body).unwrap();
    assert_eq!(row.email, "ann@example.com");
    assert_ne!(row.password, "hunter22");
    assert!(bcrypt::verify("hunter22", &row.password).unwrap());
    assert!(!bcrypt::verify("hunter23", &row.password).unwrap());
    let reply = login(&attempt("hunter22"), Ok(user(&row.password)));
    assert_eq!(reply, Reply { status: Status::Okay, body: Body::Success });
}

#[test]
fn user_row_takes_the_digest_or_reports_the_failure() {
    assert_eq!(
        user_row(String::from("a@b.c"), Ok(String::from(DIGEST))),
        Ok(NewUser { email: String::from("a@b.c"), password: String::from(DIGEST) })
    );
    let refused = user_row(String::from("a@b.c"), Err(HashingFailed));
    assert_eq!(refused, Err(failure(Status::InternalServerError, "Something went wrong")));
    assert_eq!(refused.unwrap_err().status.code(), 500);
}

#[test]
fn create_user_reply_reports_the_row() {
    let row = user(DIGEST);
    let reply = create_user_reply(Ok(row.clone()));
    assert_eq!(reply.status.code(), 201);
    assert_eq!(reply, Reply { status: Status::Created, body: Body::Data(row) });
    let reply = create_user_reply(Err(QueryFailed));
    assert_eq!(reply.status.code(), 500);
    assert_eq!(reply, failure(Status::InternalServerError, "Something went wrong"));
}

#[test]
fn get_user_reports_the_row_or_its_absence() {
    let row = user(DIGEST);
    assert_eq!(get_user(Ok(row.clone())), Reply { status: Status::Okay, body: Body::Data(row) });
    let reply = get_user(Err(QueryFailed));
    assert_eq!(reply.status.code(), 404);
    assert_eq!(reply, failure(Status::NotFound, "The requested user could not be found"));
}

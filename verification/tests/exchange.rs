use sage_auth::auth::{AuthenticateBuilder, AuthenticateResponse};
use sage_auth::error::{ApiError, Error, TransportError, TransportKind};
use sage_auth::exchange::{accept, Dispatch, NO_CONTENT, OK};
use sage_auth::invalidate::InvalidateBuilder;
use sage_auth::refresh::{RefreshBuilder, RefreshResponse};
use sage_auth::types::{ErrorMessage, Profile, User, Uuid};
use sage_auth::validate::ValidateBuilder;
use sage_auth::wire::{Json, Member};

const TOKEN: u128 = 0x67e5_5044_10b1_426f_9247_bb68_0e5f_e0c8;

/// What a server answers: a status, and a body of one of the two shapes.
enum Answer<T> {
    Result(u16, T),
    Message(u16, &'static str, &'static str),
}

/// One exchange with a server that gives `answer`, as the application makes it.
fn exchange<T>(dispatch: &Dispatch, answer: Answer<T>) -> Result<T, Error> {
    match answer {
        Answer::Result(status, body) => {
            assert!(dispatch.is_success(status));
            accept(Ok(body))
        }
        Answer::Message(status, error, message) => {
            assert!(!dispatch.is_success(status));
            Err(Error::from_response(Ok(ErrorMessage {
                error: error.to_string(),
                error_message: message.to_string(),
                cause: None,
            })))
        }
    }
}

fn client_token_of(dispatch: &Dispatch) -> Uuid {
    let Json::Object(members) = &dispatch.body else {
        panic!("no object")
    };
    let sent: Vec<&Member> = members.iter().filter(|m| m.name == "clientToken").collect();
    let Json::Text(text) = &sent[0].value else {
        panic!("no string")
    };
    Uuid::from_u128(uuid::Uuid::parse_str(text).unwrap().as_u128())
}

#[test]
fn the_statuses_of_success() {
    assert_eq!(OK, 200);
    assert_eq!(NO_CONTENT, 204);
}

#[test]
fn one_status_is_success() {
    let dispatch = ValidateBuilder::new()
        .access_token("access")
        .client_token(Uuid::from_u128(TOKEN))
        .request()
        .unwrap();
    assert!(dispatch.is_success(204));
    for status in [0, 100, 200, 201, 203, 205, 301, 400, 403, 404, 500, u16::MAX] {
        assert!(!dispatch.is_success(status));
    }
    let dispatch = RefreshBuilder::new()
        .access_token("access")
        .client_token(Uuid::from_u128(TOKEN))
        .request()
        .unwrap();
    assert!(dispatch.is_success(200));
    for status in [0, 199, 201, 204, 400, 403, 500] {
        assert!(!dispatch.is_success(status));
    }
}

#[test]
fn an_accepted_body_is_handed_on() {
    assert_eq!(accept(Ok(17u8)), Ok(17u8));
    assert_eq!(accept(Ok(())), Ok(()));
    let user = User {
        id: Uuid::from_u128(3),
        username: "user@example.com".to_string(),
    };
    assert_eq!(accept(Ok(user.clone())), Ok(user));
}

#[test]
fn a_body_that_could_not_be_read_is_a_transport_error() {
    let e = TransportError {
        kind: TransportKind::Decode,
        message: "missing field `accessToken`".to_string(),
    };
    assert_eq!(accept::<u8>(Err(e.clone())), Err(Error::Reqwest(e)));
    let e = TransportError {
        kind: TransportKind::Timeout,
        message: "operation timed out".to_string(),
    };
    assert_eq!(accept::<()>(Err(e.clone())), Err(Error::Reqwest(e)));
}

#[test]
fn the_client_token_comes_back_from_a_login() {
    let mut builder = AuthenticateBuilder::new();
    let dispatch = builder
        .username("user")
        .password("secret")
        .request_user()
        .request()
        .unwrap();
    let sent = client_token_of(&dispatch);
    let answer = AuthenticateResponse {
        access_token: "access".to_string(),
        client_token: sent,
        available_profiles: vec![Profile {
            agent: None,
            id: Uuid::from_u128(9),
            name: "Steve".to_string(),
            legacy: false,
        }],
        selected_profile: None,
        user: Some(User {
            id: Uuid::from_u128(3),
            username: "user".to_string(),
        }),
    };
    let got = exchange(&dispatch, Answer::Result(200, answer.clone())).unwrap();
    assert_eq!(got.client_token, sent);
    assert_eq!(got, answer);
    assert!(got.user.is_some());
}

#[test]
fn the_client_token_comes_back_from_a_refresh() {
    let sent = Uuid::from_u128(TOKEN);
    let dispatch = RefreshBuilder::new()
        .access_token("access")
        .client_token(sent)
        .request()
        .unwrap();
    assert_eq!(client_token_of(&dispatch), sent);
    let answer = RefreshResponse {
        access_token: "next".to_string(),
        client_token: client_token_of(&dispatch),
        selected_profile: None,
        user: None,
    };
    let got = exchange(&dispatch, Answer::Result(200, answer)).unwrap();
    assert_eq!(got.client_token, sent);
    assert_eq!(got.access_token, "next");
}

#[test]
fn a_refused_login_is_an_api_error() {
    let dispatch = AuthenticateBuilder::new()
        .username("user")
        .password("wrong")
        .request()
        .unwrap();
    let got: Result<AuthenticateResponse, Error> = exchange(
        &dispatch,
        Answer::Message(403, "ForbiddenOperationException", "Invalid credentials."),
    );
    assert_eq!(
        got,
        Err(Error::API(ApiError::ForbiddenOperationException(
            "Invalid credentials.".to_string()
        )))
    );
}

#[test]
fn a_success_status_of_another_operation_is_a_failure() {
    let dispatch = ValidateBuilder::new()
        .access_token("access")
        .client_token(Uuid::from_u128(TOKEN))
        .request()
        .unwrap();
    let got: Result<(), Error> = exchange(&dispatch, Answer::Message(200, "SomeNewError", "x"));
    assert_eq!(
        got,
        Err(Error::API(ApiError::Unknown {
            error: "SomeNewError".to_string(),
            message: "x".to_string(),
        }))
    );
}

#[test]
fn validate_holds_until_the_token_is_invalidated() {
    let token = Uuid::from_u128(TOKEN);
    let mut validate = ValidateBuilder::new();
    validate.access_token("access").client_token(token);

    let first = validate.request().unwrap();
    assert_eq!(exchange(&first, Answer::Result(204, ())), Ok(()));
    let second = validate.request().unwrap();
    assert_eq!(exchange(&second, Answer::Result(204, ())), Ok(()));
    assert_eq!(first, second);

    let invalidate = InvalidateBuilder::new()
        .access_token("access")
        .client_token(token)
        .request()
        .unwrap();
    assert_eq!(exchange(&invalidate, Answer::Result(204, ())), Ok(()));

    let third = validate.request().unwrap();
    assert_eq!(third, first);
    let refused: Result<(), Error> = exchange(
        &third,
        Answer::Message(403, "ForbiddenOperationException", "Invalid token"),
    );
    assert_eq!(
        refused,
        Err(Error::API(ApiError::ForbiddenOperationException(
            "Invalid token".to_string()
        )))
    );
}

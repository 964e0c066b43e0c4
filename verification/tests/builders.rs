use sage_auth::address::append_path;
use sage_auth::auth::AuthenticateBuilder;
use sage_auth::consts::DEFAULT_SERVER;
use sage_auth::error::Error;
use sage_auth::exchange::Dispatch;
use sage_auth::invalidate::InvalidateBuilder;
use sage_auth::refresh::RefreshBuilder;
use sage_auth::signout::SignoutBuilder;
use sage_auth::types::Uuid;
use sage_auth::validate::ValidateBuilder;
use sage_auth::wire::{Json, Member};

const TOKEN: u128 = 0x67e5_5044_10b1_426f_9247_bb68_0e5f_e0c8;
const TOKEN_TEXT: &str = "67e55044-10b1-426f-9247-bb680e5fe0c8";

fn text(name: &str, value: &str) -> Member {
    Member {
        name: name.to_string(),
        value: Json::Text(value.to_string()),
    }
}

fn flag(name: &str, value: bool) -> Member {
    Member {
        name: name.to_string(),
        value: Json::Flag(value),
    }
}

fn member<'j>(body: &'j Json, name: &str) -> &'j Json {
    match body {
        Json::Object(members) => {
            let found: Vec<&Member> = members.iter().filter(|m| m.name == name).collect();
            assert_eq!(found.len(), 1, "member {} of {:?}", name, body);
            &found[0].value
        }
        other => panic!("no object: {:?}", other),
    }
}

fn token_sent(dispatch: &Dispatch) -> uuid::Uuid {
    match member(&dispatch.body, "clientToken") {
        Json::Text(text) => {
            assert_eq!(text.len(), 36);
            assert_eq!(*text, text.to_lowercase());
            uuid::Uuid::parse_str(text).unwrap()
        }
        other => panic!("no string: {:?}", other),
    }
}

#[test]
fn the_default_server_is_the_services_own() {
    assert_eq!(DEFAULT_SERVER, "https://authserver.mojang.com");
}

#[test]
fn authenticate_without_anything_misses_the_username() {
    let r = AuthenticateBuilder::new().request();
    assert_eq!(r, Err(Error::MissingField("username")));
}

#[test]
fn authenticate_without_password_misses_the_password() {
    let r = AuthenticateBuilder::new().username("user").request();
    assert_eq!(r, Err(Error::MissingField("password")));
}

#[test]
fn authenticate_without_username_misses_the_username() {
    let r = AuthenticateBuilder::new()
        .password("secret")
        .client_token(Uuid::from_u128(TOKEN))
        .request();
    assert_eq!(r, Err(Error::MissingField("username")));
}

#[test]
fn authenticate_reports_a_missing_field_before_a_bad_address() {
    let r = AuthenticateBuilder::new()
        .username("user")
        .endpoint("//[")
        .request();
    assert_eq!(r, Err(Error::MissingField("password")));
}

#[test]
fn authenticate_with_a_token_sends_that_token() {
    let dispatch = AuthenticateBuilder::new()
        .username("user@example.com")
        .password("secret")
        .client_token(Uuid::from_u128(TOKEN))
        .request()
        .unwrap();
    assert_eq!(
        dispatch,
        Dispatch {
            url: "https://authserver.mojang.com/authenticate".to_string(),
            body: Json::Object(vec![
                text("username", "user@example.com"),
                text("password", "secret"),
                text("clientToken", TOKEN_TEXT),
                flag("requestUser", false),
                Member {
                    name: "agent".to_string(),
                    value: Json::Object(vec![
                        text("name", "Minecraft"),
                        Member {
                            name: "version".to_string(),
                            value: Json::Number(1),
                        },
                    ]),
                },
            ]),
            success: 200,
        }
    );
}

#[test]
fn authenticate_sends_what_the_setters_were_given() {
    let dispatch = AuthenticateBuilder::new()
        .username("first")
        .username("second")
        .password("secret")
        .client_token(Uuid::from_u128(1))
        .client_token(Uuid::from_u128(TOKEN))
        .request_user()
        .agent_name("Scrolls")
        .agent_version(-3)
        .request()
        .unwrap();
    assert_eq!(
        dispatch.body,
        Json::Object(vec![
            text("username", "second"),
            text("password", "secret"),
            text("clientToken", TOKEN_TEXT),
            flag("requestUser", true),
            Member {
                name: "agent".to_string(),
                value: Json::Object(vec![
                    text("name", "Scrolls"),
                    Member {
                        name: "version".to_string(),
                        value: Json::Number(-3),
                    },
                ]),
            },
        ])
    );
}

#[test]
fn authenticate_without_a_token_makes_one_up() {
    let dispatch = AuthenticateBuilder::new()
        .username("user")
        .password("secret")
        .request()
        .unwrap();
    let token = token_sent(&dispatch);
    assert_eq!(token.get_version(), Some(uuid::Version::Random));
    assert_eq!(token.get_variant(), Some(uuid::Variant::RFC4122));
}

#[test]
fn authenticate_keeps_the_token_that_it_made_up() {
    let mut builder = AuthenticateBuilder::new();
    builder.username("user").password("secret");
    let first = builder.request().unwrap();
    let second = builder.request().unwrap();
    assert_eq!(token_sent(&first), token_sent(&second));
    assert_eq!(first, second);
}

#[test]
fn authenticate_makes_up_a_token_for_each_builder() {
    let first = AuthenticateBuilder::new()
        .username("user")
        .password("secret")
        .request()
        .unwrap();
    let second = AuthenticateBuilder::new()
        .username("user")
        .password("secret")
        .request()
        .unwrap();
    assert_ne!(token_sent(&first), token_sent(&second));
}

#[test]
fn authenticate_makes_up_no_token_while_a_field_is_missing() {
    let mut builder = AuthenticateBuilder::new();
    builder.username("user");
    assert_eq!(builder.request(), Err(Error::MissingField("password")));
    let at = builder
        .password("secret")
        .request_at(Ok("http://localhost/authenticate".to_string()));
    assert_eq!(at, Err(Error::MissingField("client_token")));
}

#[test]
fn authenticate_at_a_given_address() {
    let mut builder = AuthenticateBuilder::new();
    builder
        .username("user")
        .password("secret")
        .client_token(Uuid::from_u128(TOKEN));
    let dispatch = builder
        .request_at(Ok("http://localhost:8080/login".to_string()))
        .unwrap();
    assert_eq!(dispatch.url, "http://localhost:8080/login");
    assert_eq!(dispatch.success, 200);
    assert_eq!(
        member(&dispatch.body, "clientToken"),
        &Json::Text(TOKEN_TEXT.to_string())
    );
    assert_eq!(
        builder.request_at(Err(url::ParseError::EmptyHost)),
        Err(Error::UrlParseError(url::ParseError::EmptyHost))
    );
}

#[test]
fn refresh_asks_for_the_access_token_first() {
    assert_eq!(
        RefreshBuilder::new().request(),
        Err(Error::MissingField("access_token"))
    );
    assert_eq!(
        RefreshBuilder::new()
            .client_token(Uuid::from_u128(TOKEN))
            .request(),
        Err(Error::MissingField("access_token"))
    );
}

#[test]
fn refresh_makes_up_no_client_token() {
    let mut builder = RefreshBuilder::new();
    builder.access_token("access");
    assert_eq!(builder.request(), Err(Error::MissingField("client_token")));
    assert_eq!(builder.request(), Err(Error::MissingField("client_token")));
    assert_eq!(
        builder.request_at(Ok("http://localhost/refresh".to_string())),
        Err(Error::MissingField("client_token"))
    );
}

#[test]
fn refresh_sends_both_tokens() {
    let dispatch = RefreshBuilder::new()
        .access_token("access")
        .client_token(Uuid::from_u128(TOKEN))
        .request()
        .unwrap();
    assert_eq!(
        dispatch,
        Dispatch {
            url: "https://authserver.mojang.com/refresh".to_string(),
            body: Json::Object(vec![
                text("accessToken", "access"),
                text("clientToken", TOKEN_TEXT),
                flag("requestUser", false),
            ]),
            success: 200,
        }
    );
    let asked = RefreshBuilder::new()
        .access_token("access")
        .client_token(Uuid::from_u128(TOKEN))
        .request_user()
        .request()
        .unwrap();
    assert_eq!(member(&asked.body, "requestUser"), &Json::Flag(true));
}

#[test]
fn validate_asks_for_both_tokens_in_order() {
    assert_eq!(
        ValidateBuilder::new().request(),
        Err(Error::MissingField("access_token"))
    );
    assert_eq!(
        ValidateBuilder::new()
            .client_token(Uuid::from_u128(TOKEN))
            .request(),
        Err(Error::MissingField("access_token"))
    );
    assert_eq!(
        ValidateBuilder::new().access_token("access").request(),
        Err(Error::MissingField("client_token"))
    );
}

#[test]
fn validate_sends_both_tokens() {
    let dispatch = ValidateBuilder::new()
        .access_token("access")
        .client_token(Uuid::from_u128(TOKEN))
        .request()
        .unwrap();
    assert_eq!(
        dispatch,
        Dispatch {
            url: "https://authserver.mojang.com/validate".to_string(),
            body: Json::Object(vec![
                text("accessToken", "access"),
                text("clientToken", TOKEN_TEXT),
            ]),
            success: 204,
        }
    );
}

#[test]
fn validate_twice_prepares_the_same_request() {
    let mut builder = ValidateBuilder::new();
    builder
        .access_token("access")
        .client_token(Uuid::from_u128(TOKEN));
    let first = builder.request().unwrap();
    let second = builder.request().unwrap();
    assert_eq!(first, second);
}

#[test]
fn invalidate_asks_for_both_tokens_in_order() {
    assert_eq!(
        InvalidateBuilder::new().request(),
        Err(Error::MissingField("access_token"))
    );
    assert_eq!(
        InvalidateBuilder::new().access_token("access").request(),
        Err(Error::MissingField("client_token"))
    );
    assert_eq!(
        InvalidateBuilder::default()
            .client_token(Uuid::from_u128(TOKEN))
            .request(),
        Err(Error::MissingField("access_token"))
    );
}

#[test]
fn invalidate_sends_both_tokens() {
    let dispatch = InvalidateBuilder::new()
        .access_token("access")
        .client_token(Uuid::from_u128(TOKEN))
        .request()
        .unwrap();
    assert_eq!(
        dispatch,
        Dispatch {
            url: "https://authserver.mojang.com/invalidate".to_string(),
            body: Json::Object(vec![
                text("accessToken", "access"),
                text("clientToken", TOKEN_TEXT),
            ]),
            success: 204,
        }
    );
}

#[test]
fn signout_asks_for_username_then_password() {
    assert_eq!(
        SignoutBuilder::new().request(),
        Err(Error::MissingField("username"))
    );
    assert_eq!(
        SignoutBuilder::new().password("secret").request(),
        Err(Error::MissingField("username"))
    );
    assert_eq!(
        SignoutBuilder::default().username("user").request(),
        Err(Error::MissingField("password"))
    );
}

#[test]
fn signout_sends_the_credentials() {
    let dispatch = SignoutBuilder::new()
        .username("user")
        .password("secret")
        .request()
        .unwrap();
    assert_eq!(
        dispatch,
        Dispatch {
            url: "https://authserver.mojang.com/signout".to_string(),
            body: Json::Object(vec![text("username", "user"), text("password", "secret")]),
            success: 204,
        }
    );
}

#[test]
fn a_default_builder_is_a_new_one() {
    let from_default = InvalidateBuilder::default()
        .access_token("access")
        .client_token(Uuid::from_u128(TOKEN))
        .request();
    let from_new = InvalidateBuilder::new()
        .access_token("access")
        .client_token(Uuid::from_u128(TOKEN))
        .request();
    assert_eq!(from_default, from_new);
    let from_default = SignoutBuilder::default()
        .username("user")
        .password("secret")
        .request();
    let from_new = SignoutBuilder::new()
        .username("user")
        .password("secret")
        .request();
    assert_eq!(from_default, from_new);
}

#[test]
fn a_server_that_is_no_url_is_refused() {
    let mut builder = AuthenticateBuilder::new();
    let refused = builder.server("authserver.mojang.com").map(|_| ());
    assert_eq!(
        refused,
        Err(Error::UrlParseError(
            url::ParseError::RelativeUrlWithoutBase
        ))
    );
    let refused = builder.server("").map(|_| ());
    assert_eq!(
        refused,
        Err(Error::UrlParseError(
            url::ParseError::RelativeUrlWithoutBase
        ))
    );
    let refused = builder.server("http://").map(|_| ());
    assert_eq!(refused, Err(Error::UrlParseError(url::ParseError::EmptyHost)));
    let refused = builder.server("http://localhost:port").map(|_| ());
    assert_eq!(
        refused,
        Err(Error::UrlParseError(url::ParseError::InvalidPort))
    );
}

#[test]
fn a_refused_server_leaves_the_builder_as_it_was() {
    let mut builder = AuthenticateBuilder::new();
    builder
        .username("user")
        .password("secret")
        .client_token(Uuid::from_u128(TOKEN));
    assert!(builder.server("no url").is_err());
    let dispatch = builder.request().unwrap();
    assert_eq!(dispatch.url, "https://authserver.mojang.com/authenticate");
}

#[test]
fn every_builder_takes_another_server() {
    let server = "http://127.0.0.1:25585";
    let token = Uuid::from_u128(TOKEN);
    let mut a = AuthenticateBuilder::new();
    a.username("u").password("p");
    assert_eq!(
        a.server(server).unwrap().request().unwrap().url,
        "http://127.0.0.1:25585/authenticate"
    );
    let mut r = RefreshBuilder::new();
    r.access_token("a").client_token(token);
    assert_eq!(
        r.server(server).unwrap().request().unwrap().url,
        "http://127.0.0.1:25585/refresh"
    );
    let mut v = ValidateBuilder::new();
    v.access_token("a").client_token(token);
    assert_eq!(
        v.server(server).unwrap().request().unwrap().url,
        "http://127.0.0.1:25585/validate"
    );
    let mut i = InvalidateBuilder::new();
    i.access_token("a").client_token(token);
    assert_eq!(
        i.server(server).unwrap().request().unwrap().url,
        "http://127.0.0.1:25585/invalidate"
    );
    let mut s = SignoutBuilder::new();
    s.username("u").password("p");
    assert_eq!(
        s.server(server).unwrap().request().unwrap().url,
        "http://127.0.0.1:25585/signout"
    );
}

#[test]
fn a_server_parsed_elsewhere_is_taken_as_it_is() {
    let mut builder = ValidateBuilder::new();
    builder
        .access_token("access")
        .client_token(Uuid::from_u128(TOKEN));
    let parsed = url::Url::parse("http://localhost:3000").map(String::from);
    let dispatch = builder.server_from(parsed).unwrap().request().unwrap();
    assert_eq!(dispatch.url, "http://localhost:3000/validate");
    let refused = builder
        .server_from(Err(url::ParseError::InvalidIpv6Address))
        .map(|_| ());
    assert_eq!(
        refused,
        Err(Error::UrlParseError(url::ParseError::InvalidIpv6Address))
    );
    assert_eq!(
        builder.request().unwrap().url,
        "http://localhost:3000/validate"
    );
}

#[test]
fn another_server_is_written_back_by_the_parser() {
    let mut builder = ValidateBuilder::new();
    builder
        .access_token("access")
        .client_token(Uuid::from_u128(TOKEN));
    let dispatch = builder
        .server("HTTP://LocalHost:80/api/")
        .unwrap()
        .request()
        .unwrap();
    assert_eq!(dispatch.url, "http://localhost/api/validate");
}

#[test]
fn the_endpoint_is_appended_to_a_base_with_a_path() {
    let mut builder = InvalidateBuilder::new();
    builder.access_token("a").client_token(Uuid::from_u128(0));
    let dispatch = builder
        .server("http://localhost:8080/api")
        .unwrap()
        .request()
        .unwrap();
    assert_eq!(dispatch.url, "http://localhost:8080/api/invalidate");

    let mut builder = SignoutBuilder::new();
    builder.username("user").password("secret");
    let dispatch = builder
        .server("http://localhost:8080/api/v1")
        .unwrap()
        .request()
        .unwrap();
    assert_eq!(dispatch.url, "http://localhost:8080/api/v1/signout");
    let dispatch = builder.endpoint("/other/path").request().unwrap();
    assert_eq!(dispatch.url, "http://localhost:8080/api/v1/other/path");
}

#[test]
fn a_base_loses_one_slash_at_its_end() {
    let mut builder = RefreshBuilder::new();
    builder
        .access_token("access")
        .client_token(Uuid::from_u128(TOKEN));
    let dispatch = builder
        .server("http://localhost:8080/api/")
        .unwrap()
        .request()
        .unwrap();
    assert_eq!(dispatch.url, "http://localhost:8080/api/refresh");
    let dispatch = builder
        .server("http://localhost:8080")
        .unwrap()
        .request()
        .unwrap();
    assert_eq!(dispatch.url, "http://localhost:8080/refresh");
}

#[test]
fn an_endpoint_is_appended_as_it_is() {
    let mut builder = RefreshBuilder::new();
    builder
        .access_token("access")
        .client_token(Uuid::from_u128(TOKEN));
    let dispatch = builder
        .server("http://localhost/api")
        .unwrap()
        .endpoint("v2")
        .request()
        .unwrap();
    assert_eq!(dispatch.url, "http://localhost/apiv2");
    let dispatch = builder.endpoint("").request().unwrap();
    assert_eq!(dispatch.url, "http://localhost/api");
    let dispatch = builder.endpoint("/refresh?soon=1").request().unwrap();
    assert_eq!(dispatch.url, "http://localhost/api/refresh?soon=1");
}

#[test]
fn an_address_that_does_not_parse_is_a_url_error() {
    let mut builder = ValidateBuilder::new();
    builder
        .access_token("access")
        .client_token(Uuid::from_u128(TOKEN));
    let r = builder.endpoint(":port").request();
    assert_eq!(r, Err(Error::UrlParseError(url::ParseError::InvalidPort)));
    let mut builder = SignoutBuilder::new();
    let r = builder
        .username("user")
        .password("secret")
        .server_from(Ok("no url".to_string()))
        .unwrap()
        .request();
    assert_eq!(
        r,
        Err(Error::UrlParseError(
            url::ParseError::RelativeUrlWithoutBase
        ))
    );
}

#[test]
fn appending_a_path_to_a_base() {
    assert_eq!(
        append_path("https://authserver.mojang.com", "/authenticate"),
        "https://authserver.mojang.com/authenticate"
    );
    assert_eq!(
        append_path("http://localhost:8080/api", "/invalidate"),
        "http://localhost:8080/api/invalidate"
    );
    assert_eq!(
        append_path("http://localhost:8080/api/", "/invalidate"),
        "http://localhost:8080/api/invalidate"
    );
    assert_eq!(append_path("http://h//", "/x"), "http://h//x");
    assert_eq!(append_path("http://h/", "x"), "http://hx");
    assert_eq!(append_path("", "/x"), "/x");
    assert_eq!(append_path("/", ""), "");
    assert_eq!(append_path("", ""), "");
    assert_eq!(
        append_path("http://h/\u{e9}\u{1f600}/", "/\u{fc}"),
        "http://h/\u{e9}\u{1f600}/\u{fc}"
    );
}

//! Authenticate request

use crate::address::append_path;
use crate::address::appended;
use crate::address::parse_url;
use crate::address::resolve;
use crate::address::text_of;
use crate::address::url_parse;
use crate::consts::DEFAULT_SERVER;
use crate::error::Error;
use crate::error::ErrorView;
use crate::exchange::prepared;
use crate::exchange::Dispatch;
use crate::exchange::DispatchView;
use crate::exchange::OK;
use crate::types::hyphenated_text;
use crate::types::is_random_v4;
use crate::types::Profile;
use crate::types::User;
use crate::types::Uuid;
use crate::wire::Json;
use crate::wire::JsonView;
use crate::wire::Member;
use vstd::prelude::*;
use vstd::string::StringExecFns;

verus! {

struct AgentInfo<'a> {
    name: &'a str,
    version: i32,
}

struct AuthenticateParams<'a> {
    username: Option<&'a str>,
    password: Option<&'a str>,
    client_token: Option<Uuid>,
    request_user: bool,
    agent: AgentInfo<'a>,
}

/// `AuthenticateBuilder` prepares an authenticate request: a login with a
/// username and a password, which the service answers with an access token.
///
/// The username and the password must be set before `request` is called. A
/// client token that was not set is made up then.
pub struct AuthenticateBuilder<'a> {
    params: AuthenticateParams<'a>,
    server: String,
    endpoint: &'a str,
}

/// What an [`AuthenticateBuilder`] holds.
pub struct AuthenticateView {
    pub username: Option<Seq<char>>,
    pub password: Option<Seq<char>>,
    pub client_token: Option<u128>,
    pub request_user: bool,
    pub agent_name: Seq<char>,
    pub agent_version: i32,
    pub server: Seq<char>,
    pub endpoint: Seq<char>,
}

impl<'a> View for AuthenticateBuilder<'a> {
    type V = AuthenticateView;

    closed spec fn view(&self) -> AuthenticateView {
        AuthenticateView {
            username: match self.params.username {
                Some(username) => Some(username@),
                None => None,
            },
            password: match self.params.password {
                Some(password) => Some(password@),
                None => None,
            },
            client_token: match self.params.client_token {
                Some(token) => Some(token@),
                None => None,
            },
            request_user: self.params.request_user,
            agent_name: self.params.agent.name@,
            agent_version: self.params.agent.version,
            server: self.server@,
            endpoint: self.endpoint@,
        }
    }
}

/// The body of the service's answer to a login.
#[derive(Clone, Debug, PartialEq, Eq)]
pub struct AuthenticateResponse {
    /// The token that stands for the login from now on.
    pub access_token: String,
    /// The same as sent.
    pub client_token: Uuid,
    /// The profiles of the account; only there if the request named an agent.
    pub available_profiles: Vec<Profile>,
    pub selected_profile: Option<Profile>,
    /// Only there if the request asked for it.
    pub user: Option<User>,
}

/// What a new builder holds: no credentials, no client token, the agent
/// `Minecraft` in version 1, the service's own server and the endpoint
/// `/authenticate`.
pub open spec fn initial() -> AuthenticateView {
    AuthenticateView {
        username: None,
        password: None,
        client_token: None,
        request_user: false,
        agent_name: "Minecraft"@,
        agent_version: 1,
        server: DEFAULT_SERVER@,
        endpoint: "/authenticate"@,
    }
}

/// The first required field that is not set, in the order in which they are
/// asked for: the username, then the password.
pub open spec fn missing_field(v: AuthenticateView) -> Option<Seq<char>> {
    if v.username is None {
        Some("username"@)
    } else if v.password is None {
        Some("password"@)
    } else {
        None
    }
}

/// The body of the request, for a builder that lacks no required field and
/// has a client token.
pub open spec fn body_of(v: AuthenticateView) -> JsonView {
    JsonView::Object(
        seq![
            ("username"@, JsonView::Text(v.username->0)),
            ("password"@, JsonView::Text(v.password->0)),
            ("clientToken"@, JsonView::Text(hyphenated_text(v.client_token->0))),
            ("requestUser"@, JsonView::Flag(v.request_user)),
            (
                "agent"@,
                JsonView::Object(
                    seq![
                        ("name"@, JsonView::Text(v.agent_name)),
                        ("version"@, JsonView::Number(v.agent_version as int)),
                    ],
                ),
            ),
        ],
    )
}

/// What is made of a builder that holds `v`, where `address` is what the
/// parser made of its endpoint appended to its server: the first missing field, and after
/// the username and the password the client token counts as one; or the
/// reason why there is no address; or the request.
pub open spec fn dispatch_at(
    v: AuthenticateView,
    address: Result<Seq<char>, url::ParseError>,
) -> Result<DispatchView, ErrorView> {
    match missing_field(v) {
        Some(field) => Err(ErrorView::MissingField(field)),
        None => if v.client_token is None {
            Err(ErrorView::MissingField("client_token"@))
        } else {
            match address {
                Ok(url) => Ok(DispatchView { url, body: body_of(v), success: 200 }),
                Err(e) => Err(ErrorView::UrlParseError(e)),
            }
        },
    }
}

/// What `request` returns for a builder that holds `v` once its client token
/// is settled.
pub open spec fn dispatch_of(v: AuthenticateView) -> Result<DispatchView, ErrorView> {
    dispatch_at(v, resolve(v.server, v.endpoint))
}

impl<'a> AuthenticateBuilder<'a> {
    pub fn new() -> (builder: AuthenticateBuilder<'a>)
        ensures
            builder@ == initial(),
    {
        AuthenticateBuilder {
            params: AuthenticateParams {
                username: None,
                password: None,
                client_token: None,
                request_user: false,
                agent: AgentInfo { name: "Minecraft", version: 1 },
            },
            server: String::from_str(DEFAULT_SERVER),
            endpoint: "/authenticate",
        }
    }

    /// Set username
    pub fn username(&mut self, username: &'a str) -> (ret: &mut AuthenticateBuilder<'a>)
        ensures
            ret@ == (AuthenticateView { username: Some(username@), ..old(self)@ }),
            *final(self) == *final(ret),
    {
        self.params.username = Some(username);
        self
    }

    /// Set password
    pub fn password(&mut self, password: &'a str) -> (ret: &mut AuthenticateBuilder<'a>)
        ensures
            ret@ == (AuthenticateView { password: Some(password@), ..old(self)@ }),
            *final(self) == *final(ret),
    {
        self.params.password = Some(password);
        self
    }

    /// Specify a client token.
    /// If none is set, one is made up when the request is prepared.
    pub fn client_token(&mut self, client_token: Uuid) -> (ret: &mut AuthenticateBuilder<'a>)
        ensures
            ret@ == (AuthenticateView { client_token: Some(client_token@), ..old(self)@ }),
            *final(self) == *final(ret),
    {
        self.params.client_token = Some(client_token);
        self
    }

    /// Ask for the account information.
    /// If set, the answer holds the user.
    pub fn request_user(&mut self) -> (ret: &mut AuthenticateBuilder<'a>)
        ensures
            ret@ == (AuthenticateView { request_user: true, ..old(self)@ }),
            *final(self) == *final(ret),
    {
        self.params.request_user = true;
        self
    }

    /// Set agent name, default is `Minecraft`
    pub fn agent_name(&mut self, agent_name: &'a str) -> (ret: &mut AuthenticateBuilder<'a>)
        ensures
            ret@ == (AuthenticateView { agent_name: agent_name@, ..old(self)@ }),
            *final(self) == *final(ret),
    {
        self.params.agent.name = agent_name;
        self
    }

    /// Set agent version, default is `1`
    pub fn agent_version(&mut self, agent_version: i32) -> (ret: &mut AuthenticateBuilder<'a>)
        ensures
            ret@ == (AuthenticateView { agent_version: agent_version, ..old(self)@ }),
            *final(self) == *final(ret),
    {
        self.params.agent.version = agent_version;
        self
    }

    /// Set base url, default is `https://authserver.mojang.com`.
    ///
    /// The text must be an absolute URL. The builder keeps the URL as the
    /// parser wrote it back; a text that does not parse leaves the builder as
    /// it was.
    pub fn server(&mut self, server: &str) -> (res: Result<&mut AuthenticateBuilder<'a>, Error>)
        ensures
            match url_parse(server@) {
                Ok(text) => {
                    &&& res is Ok
                    &&& (*res->Ok_0)@ == (AuthenticateView { server: text, ..old(self)@ })
                    &&& *final(self) == *final(res->Ok_0)
                },
                Err(e) => {
                    &&& res is Err
                    &&& res->Err_0@ == ErrorView::UrlParseError(e)
                    &&& final(self)@ == old(self)@
                },
            },
    {
        let parsed = parse_url(server);
        self.server_from(parsed)
    }

    /// Set base url to one that was parsed already: `parsed` is the URL's
    /// text as the parser wrote it back, or the parser's error.
    pub fn server_from(&mut self, parsed: Result<String, url::ParseError>) -> (res: Result<
        &mut AuthenticateBuilder<'a>,
        Error,
    >)
        ensures
            match parsed {
                Ok(text) => {
                    &&& res is Ok
                    &&& (*res->Ok_0)@ == (AuthenticateView { server: text@, ..old(self)@ })
                    &&& *final(self) == *final(res->Ok_0)
                },
                Err(e) => {
                    &&& res is Err
                    &&& res->Err_0@ == ErrorView::UrlParseError(e)
                    &&& final(self)@ == old(self)@
                },
            },
    {
        match parsed {
            Ok(text) => {
                self.server = text;
                Ok(self)
            },
            Err(e) => Err(Error::UrlParseError(e)),
        }
    }

    /// set endpoint, default is `/authenticate`.
    ///
    /// The path is appended to the base URL as it is given, so it should
    /// begin with a slash.
    pub fn endpoint(&mut self, endpoint: &'a str) -> (ret: &mut AuthenticateBuilder<'a>)
        ensures
            ret@ == (AuthenticateView { endpoint: endpoint@, ..old(self)@ }),
            *final(self) == *final(ret),
    {
        self.endpoint = endpoint;
        self
    }

    /// The name of the first required field that is not set.
    fn first_missing(&self) -> (missing: Option<&'static str>)
        ensures
            match missing {
                Some(field) => missing_field(self@) == Some(field@),
                None => missing_field(self@) is None,
            },
    {
        if self.params.username.is_none() {
            Some("username")
        } else if self.params.password.is_none() {
            Some("password")
        } else {
            None
        }
    }

    /// Prepare the request with the given parameters.
    ///
    /// Nothing is sent here. What comes back says where the request goes and
    /// what its body is; [`crate::exchange`] says what to make of the answer.
    ///
    /// Where the username or the password is missing, nothing else happens.
    /// Otherwise a builder without a client token gets a random one of
    /// version 4, and keeps it; a token that was set stays. What is returned
    /// then goes by what the builder holds after that.
    pub fn request(&mut self) -> (res: Result<Dispatch, Error>)
        ensures
            prepared(res) == dispatch_of(final(self)@),
            final(self)@ == (AuthenticateView {
                client_token: final(self)@.client_token,
                ..old(self)@
            }),
            missing_field(old(self)@) is Some || old(self)@.client_token is Some
                ==> final(self)@ == old(self)@,
            missing_field(old(self)@) is None && old(self)@.client_token is None
                ==> final(self)@.client_token is Some
                    && is_random_v4(final(self)@.client_token->0),
            missing_field(old(self)@) matches Some(field) ==> prepared(res) == Err::<
                DispatchView,
                ErrorView,
            >(ErrorView::MissingField(field)),
            res matches Ok(dispatch) ==> dispatch@.body->Object_0[2] == (
                "clientToken"@,
                JsonView::Text(hyphenated_text(final(self)@.client_token->0)),
            ),
    {
        if let Some(field) = self.first_missing() {
            return Err(Error::MissingField(field));
        }
        if self.params.client_token.is_none() {
            self.params.client_token = Some(Uuid::new_v4());
        }
        let text = append_path(self.server.as_str(), self.endpoint);
        let address = parse_url(text.as_str());
        self.request_at(address)
    }

    /// Prepare the request for the address `address`: what the parser made
    /// of the endpoint appended to the server, its text of the address or its
    /// error.
    ///
    /// The builder stays as it is. No client token is made up here: one that
    /// is not set is a missing field, after the username and the password.
    pub fn request_at(&mut self, address: Result<String, url::ParseError>) -> (res: Result<
        Dispatch,
        Error,
    >)
        ensures
            final(self)@ == old(self)@,
            prepared(res) == dispatch_at(old(self)@, text_of(address)),
    {
        let username = match self.params.username {
            Some(username) => username,
            None => {
                return Err(Error::MissingField("username"));
            },
        };
        let password = match self.params.password {
            Some(password) => password,
            None => {
                return Err(Error::MissingField("password"));
            },
        };
        let token = match self.params.client_token {
            Some(token) => token,
            None => {
                return Err(Error::MissingField("client_token"));
            },
        };
        let url = match address {
            Ok(url) => url,
            Err(e) => {
                return Err(Error::UrlParseError(e));
            },
        };
        let token_text = token.to_hyphenated();
        let mut agent: Vec<Member> = Vec::new();
        agent.push(Member::text("name", self.params.agent.name));
        agent.push(Member::number("version", self.params.agent.version));
        let mut members: Vec<Member> = Vec::new();
        members.push(Member::text("username", username));
        members.push(Member::text("password", password));
        members.push(Member::text("clientToken", token_text.as_str()));
        members.push(Member::flag("requestUser", self.params.request_user));
        members.push(Member::object("agent", agent));
        let body = Json::object(members);
        proof {
            let v = self@;
            assert(body@->Object_0 =~= body_of(v)->Object_0) by {
                assert(body@->Object_0[4].1->Object_0 =~= body_of(v)->Object_0[4].1->Object_0);
            }
        }
        Ok(Dispatch { url, body, success: OK })
    }
}

/// A builder that has kept the server and the endpoint that it started with
/// sends to the service's own server, at `/authenticate`: to what the parser makes
/// of `https://authserver.mojang.com/authenticate`.
pub proof fn lemma_default_address(v: AuthenticateView)
    requires
        v.server == initial().server,
        v.endpoint == initial().endpoint,
    ensures
        appended(v.server, v.endpoint) == "https://authserver.mojang.com/authenticate"@,
        dispatch_of(v) matches Ok(dispatch) ==> Ok::<Seq<char>, url::ParseError>(dispatch.url)
            == url_parse("https://authserver.mojang.com/authenticate"@),
{
    reveal_strlit("https://authserver.mojang.com");
    reveal_strlit("/authenticate");
    reveal_strlit("https://authserver.mojang.com/authenticate");
    assert(appended(DEFAULT_SERVER@, "/authenticate"@) =~= "https://authserver.mojang.com/authenticate"@);
}

} // verus!

//! Refresh request

use crate::address::append_path;
use crate::address::appended;
use crate::address::parse_url;
use crate::address::resolve;
use crate::address::text_of;
use crate::address::url_parse;
use crate::consts::DEFAULT_SERVER;
use crate::error::Error;
use crate::error::ErrorView;
use crate::exchange::prepared;
use crate::exchange::Dispatch;
use crate::exchange::DispatchView;
use crate::exchange::OK;
use crate::types::hyphenated_text;
use crate::types::Profile;
use crate::types::User;
use crate::types::Uuid;
use crate::wire::Json;
use crate::wire::JsonView;
use crate::wire::Member;
use vstd::prelude::*;
use vstd::string::StringExecFns;

verus! {

struct RefreshParams<'a> {
    access_token: Option<&'a str>,
    client_token: Option<Uuid>,
    request_user: bool,
}

/// `RefreshBuilder` prepares a refresh request, which trades a valid access
/// token for a new one.
///
/// It keeps a user logged in between sessions, so that no password has to be
/// stored. The access token and the client token that it was issued for must
/// both be set before `request` is called.
pub struct RefreshBuilder<'a> {
    params: RefreshParams<'a>,
    server: String,
    endpoint: &'a str,
}

/// What a [`RefreshBuilder`] holds.
pub struct RefreshView {
    pub access_token: Option<Seq<char>>,
    pub client_token: Option<u128>,
    pub request_user: bool,
    pub server: Seq<char>,
    pub endpoint: Seq<char>,
}

impl<'a> View for RefreshBuilder<'a> {
    type V = RefreshView;

    closed spec fn view(&self) -> RefreshView {
        RefreshView {
            access_token: match self.params.access_token {
                Some(token) => Some(token@),
                None => None,
            },
            client_token: match self.params.client_token {
                Some(token) => Some(token@),
                None => None,
            },
            request_user: self.params.request_user,
            server: self.server@,
            endpoint: self.endpoint@,
        }
    }
}

/// The body of the service's answer to a refresh.
#[derive(Clone, Debug, PartialEq, Eq)]
pub struct RefreshResponse {
    /// The new access token.
    pub access_token: String,
    /// The same as sent.
    pub client_token: Uuid,
    pub selected_profile: Option<Profile>,
    /// Only there if the request asked for it.
    pub user: Option<User>,
}

/// What a new builder holds: no tokens, the service's own server and the
/// endpoint `/refresh`.
pub open spec fn initial() -> RefreshView {
    RefreshView {
        access_token: None,
        client_token: None,
        request_user: false,
        server: DEFAULT_SERVER@,
        endpoint: "/refresh"@,
    }
}

/// The first required field that is not set, in the order in which they are
/// asked for: the access token, then the client token.
pub open spec fn missing_field(v: RefreshView) -> Option<Seq<char>> {
    if v.access_token is None {
        Some("access_token"@)
    } else if v.client_token is None {
        Some("client_token"@)
    } else {
        None
    }
}

/// The body of the request, for a builder that lacks no required field.
pub open spec fn body_of(v: RefreshView) -> JsonView {
    JsonView::Object(
        seq![
            ("accessToken"@, JsonView::Text(v.access_token->0)),
            ("clientToken"@, JsonView::Text(hyphenated_text(v.client_token->0))),
            ("requestUser"@, JsonView::Flag(v.request_user)),
        ],
    )
}

/// What is made of a builder that holds `v`, where `address` is what the
/// parser made of its endpoint appended to its server: the first missing field; or the
/// reason why there is no address; or the request.
pub open spec fn dispatch_at(
    v: RefreshView,
    address: Result<Seq<char>, url::ParseError>,
) -> Result<DispatchView, ErrorView> {
    match missing_field(v) {
        Some(field) => Err(ErrorView::MissingField(field)),
        None => match address {
            Ok(url) => Ok(DispatchView { url, body: body_of(v), success: 200 }),
            Err(e) => Err(ErrorView::UrlParseError(e)),
        },
    }
}

/// What `request` returns for a builder that holds `v`.
pub open spec fn dispatch_of(v: RefreshView) -> Result<DispatchView, ErrorView> {
    dispatch_at(v, resolve(v.server, v.endpoint))
}

impl<'a> RefreshBuilder<'a> {
    pub fn new() -> (builder: RefreshBuilder<'a>)
        ensures
            builder@ == initial(),
    {
        RefreshBuilder {
            params: RefreshParams { access_token: None, client_token: None, request_user: false },
            server: String::from_str(DEFAULT_SERVER),
            endpoint: "/refresh",
        }
    }

    /// Client token, the same as when the access token was requested.
    pub fn client_token(&mut self, client_token: Uuid) -> (ret: &mut RefreshBuilder<'a>)
        ensures
            ret@ == (RefreshView { client_token: Some(client_token@), ..old(self)@ }),
            *final(self) == *final(ret),
    {
        self.params.client_token = Some(client_token);
        self
    }

    /// Ask for the account information.
    /// If set, the answer holds the user.
    pub fn request_user(&mut self) -> (ret: &mut RefreshBuilder<'a>)
        ensures
            ret@ == (RefreshView { request_user: true, ..old(self)@ }),
            *final(self) == *final(ret),
    {
        self.params.request_user = true;
        self
    }

    /// The access token to refresh.
    pub fn access_token(&mut self, access_token: &'a str) -> (ret: &mut RefreshBuilder<'a>)
        ensures
            ret@ == (RefreshView { access_token: Some(access_token@), ..old(self)@ }),
            *final(self) == *final(ret),
    {
        self.params.access_token = Some(access_token);
        self
    }

    /// Set base url, default is `https://authserver.mojang.com`.
    ///
    /// The text must be an absolute URL. The builder keeps the URL as the
    /// parser wrote it back; a text that does not parse leaves the builder as
    /// it was.
    pub fn server(&mut self, server: &str) -> (res: Result<&mut RefreshBuilder<'a>, Error>)
        ensures
            match url_parse(server@) {
                Ok(text) => {
                    &&& res is Ok
                    &&& (*res->Ok_0)@ == (RefreshView { server: text, ..old(self)@ })
                    &&& *final(self) == *final(res->Ok_0)
                },
                Err(e) => {
                    &&& res is Err
                    &&& res->Err_0@ == ErrorView::UrlParseError(e)
                    &&& final(self)@ == old(self)@
                },
            },
    {
        let parsed = parse_url(server);
        self.server_from(parsed)
    }

    /// Set base url to one that was parsed already: `parsed` is the URL's
    /// text as the parser wrote it back, or the parser's error.
    pub fn server_from(&mut self, parsed: Result<String, url::ParseError>) -> (res: Result<
        &mut RefreshBuilder<'a>,
        Error,
    >)
        ensures
            match parsed {
                Ok(text) => {
                    &&& res is Ok
                    &&& (*res->Ok_0)@ == (RefreshView { server: text@, ..old(self)@ })
                    &&& *final(self) == *final(res->Ok_0)
                },
                Err(e) => {
                    &&& res is Err
                    &&& res->Err_0@ == ErrorView::UrlParseError(e)
                    &&& final(self)@ == old(self)@
                },
            },
    {
        match parsed {
            Ok(text) => {
                self.server = text;
                Ok(self)
            },
            Err(e) => Err(Error::UrlParseError(e)),
        }
    }

    /// set endpoint, default is `/refresh`.
    ///
    /// The path is appended to the base URL as it is given, so it should
    /// begin with a slash.
    pub fn endpoint(&mut self, endpoint: &'a str) -> (ret: &mut RefreshBuilder<'a>)
        ensures
            ret@ == (RefreshView { endpoint: endpoint@, ..old(self)@ }),
            *final(self) == *final(ret),
    {
        self.endpoint = endpoint;
        self
    }

    /// The name of the first required field that is not set.
    fn first_missing(&self) -> (missing: Option<&'static str>)
        ensures
            match missing {
                Some(field) => missing_field(self@) == Some(field@),
                None => missing_field(self@) is None,
            },
    {
        if self.params.access_token.is_none() {
            Some("access_token")
        } else if self.params.client_token.is_none() {
            Some("client_token")
        } else {
            None
        }
    }

    /// Prepare the request with the given parameters.
    ///
    /// Nothing is sent here. What comes back says where the request goes and
    /// what its body is; [`crate::exchange`] says what to make of the answer.
    ///
    /// The builder stays as it is: a client token that was not set is a
    /// missing field, and none is made up.
    pub fn request(&mut self) -> (res: Result<Dispatch, Error>)
        ensures
            final(self)@ == old(self)@,
            prepared(res) == dispatch_of(old(self)@),
            missing_field(old(self)@) matches Some(field) ==> prepared(res) == Err::<
                DispatchView,
                ErrorView,
            >(ErrorView::MissingField(field)),
            old(self)@.access_token is Some && old(self)@.client_token is None
                ==> final(self)@.client_token is None && prepared(res) == Err::<
                    DispatchView,
                    ErrorView,
                >(ErrorView::MissingField("client_token"@)),
    {
        if let Some(field) = self.first_missing() {
            return Err(Error::MissingField(field));
        }
        let text = append_path(self.server.as_str(), self.endpoint);
        let address = parse_url(text.as_str());
        self.request_at(address)
    }

    /// Prepare the request for the address `address`: what the parser made
    /// of the endpoint appended to the server, its text of the address or its
    /// error.
    ///
    /// The builder stays as it is.
    pub fn request_at(&mut self, address: Result<String, url::ParseError>) -> (res: Result<
        Dispatch,
        Error,
    >)
        ensures
            final(self)@ == old(self)@,
            prepared(res) == dispatch_at(old(self)@, text_of(address)),
    {
        let access_token = match self.params.access_token {
            Some(access_token) => access_token,
            None => {
                return Err(Error::MissingField("access_token"));
            },
        };
        let client_token = match self.params.client_token {
            Some(client_token) => client_token,
            None => {
                return Err(Error::MissingField("client_token"));
            },
        };
        let url = match address {
            Ok(url) => url,
            Err(e) => {
                return Err(Error::UrlParseError(e));
            },
        };
        let token_text = client_token.to_hyphenated();
        let mut members: Vec<Member> = Vec::new();
        members.push(Member::text("accessToken", access_token));
        members.push(Member::text("clientToken", token_text.as_str()));
        members.push(Member::flag("requestUser", self.params.request_user));
        let body = Json::object(members);
        proof {
            assert(body@->Object_0 =~= body_of(self@)->Object_0);
        }
        Ok(Dispatch { url, body, success: OK })
    }
}

/// A builder that has kept the server and the endpoint that it started with
/// sends to the service's own server, at `/refresh`: to what the parser makes
/// of `https://authserver.mojang.com/refresh`.
pub proof fn lemma_default_address(v: RefreshView)
    requires
        v.server == initial().server,
        v.endpoint == initial().endpoint,
    ensures
        appended(v.server, v.endpoint) == "https://authserver.mojang.com/refresh"@,
        dispatch_of(v) matches Ok(dispatch) ==> Ok::<Seq<char>, url::ParseError>(dispatch.url)
            == url_parse("https://authserver.mojang.com/refresh"@),
{
    reveal_strlit("https://authserver.mojang.com");
    reveal_strlit("/refresh");
    reveal_strlit("https://authserver.mojang.com/refresh");
    assert(appended(DEFAULT_SERVER@, "/refresh"@) =~= "https://authserver.mojang.com/refresh"@);
}

} // verus!

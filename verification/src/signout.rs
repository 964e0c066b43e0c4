//! Signout request

use crate::address::append_path;
use crate::address::appended;
use crate::address::parse_url;
use crate::address::resolve;
use crate::address::text_of;
use crate::address::url_parse;
use crate::consts::DEFAULT_SERVER;
use crate::error::Error;
use crate::error::ErrorView;
use crate::exchange::prepared;
use crate::exchange::Dispatch;
use crate::exchange::DispatchView;
use crate::exchange::NO_CONTENT;
use crate::wire::Json;
use crate::wire::JsonView;
use crate::wire::Member;
use vstd::prelude::*;
use vstd::string::StringExecFns;

verus! {

struct SignoutParams<'a> {
    username: Option<&'a str>,
    password: Option<&'a str>,
}

/// `SignoutBuilder` prepares a signout request, which makes every access
/// token of an account invalid, by the account's username and password.
///
/// Both must be set before `request` is called.
pub struct SignoutBuilder<'a> {
    params: SignoutParams<'a>,
    server: String,
    endpoint: &'a str,
}

/// What a [`SignoutBuilder`] holds.
pub struct SignoutView {
    pub username: Option<Seq<char>>,
    pub password: Option<Seq<char>>,
    pub server: Seq<char>,
    pub endpoint: Seq<char>,
}

impl<'a> View for SignoutBuilder<'a> {
    type V = SignoutView;

    closed spec fn view(&self) -> SignoutView {
        SignoutView {
            username: match self.params.username {
                Some(username) => Some(username@),
                None => None,
            },
            password: match self.params.password {
                Some(password) => Some(password@),
                None => None,
            },
            server: self.server@,
            endpoint: self.endpoint@,
        }
    }
}

/// What a new builder holds: no credentials, the service's own server and the
/// endpoint `/signout`.
pub open spec fn initial() -> SignoutView {
    SignoutView {
        username: None,
        password: None,
        server: DEFAULT_SERVER@,
        endpoint: "/signout"@,
    }
}

/// The first required field that is not set, in the order in which they are
/// asked for: the username, then the password.
pub open spec fn missing_field(v: SignoutView) -> Option<Seq<char>> {
    if v.username is None {
        Some("username"@)
    } else if v.password is None {
        Some("password"@)
    } else {
        None
    }
}

/// The body of the request, for a builder that lacks no required field.
pub open spec fn body_of(v: SignoutView) -> JsonView {
    JsonView::Object(
        seq![
            ("username"@, JsonView::Text(v.username->0)),
            ("password"@, JsonView::Text(v.password->0)),
        ],
    )
}

/// What is made of a builder that holds `v`, where `address` is what the
/// parser made of its endpoint appended to its server: the first missing field; or the
/// reason why there is no address; or the request.
pub open spec fn dispatch_at(
    v: SignoutView,
    address: Result<Seq<char>, url::ParseError>,
) -> Result<DispatchView, ErrorView> {
    match missing_field(v) {
        Some(field) => Err(ErrorView::MissingField(field)),
        None => match address {
            Ok(url) => Ok(DispatchView { url, body: body_of(v), success: 204 }),
            Err(e) => Err(ErrorView::UrlParseError(e)),
        },
    }
}

/// What `request` returns for a builder that holds `v`.
pub open spec fn dispatch_of(v: SignoutView) -> Result<DispatchView, ErrorView> {
    dispatch_at(v, resolve(v.server, v.endpoint))
}

impl<'a> SignoutParams<'a> {
    /// Whether no parameter is set.
    pub closed spec fn is_empty(&self) -> bool {
        self.username is None && self.password is None
    }
}

impl<'a> Default for SignoutParams<'a> {
    fn default() -> (params: SignoutParams<'a>)
        ensures
            params.is_empty(),
    {
        SignoutParams { username: None, password: None }
    }
}

impl<'a> Default for SignoutBuilder<'a> {
    fn default() -> (builder: SignoutBuilder<'a>)
        ensures
            builder@ == initial(),
    {
        SignoutBuilder {
            params: SignoutParams::default(),
            server: String::from_str(DEFAULT_SERVER),
            endpoint: "/signout",
        }
    }
}

impl<'a> SignoutBuilder<'a> {
    pub fn new() -> (builder: SignoutBuilder<'a>)
        ensures
            builder@ == initial(),
    {
        SignoutBuilder::default()
    }

    /// Set username
    pub fn username(&mut self, username: &'a str) -> (ret: &mut SignoutBuilder<'a>)
        ensures
            ret@ == (SignoutView { username: Some(username@), ..old(self)@ }),
            *final(self) == *final(ret),
    {
        self.params.username = Some(username);
        self
    }

    /// Set password
    pub fn password(&mut self, password: &'a str) -> (ret: &mut SignoutBuilder<'a>)
        ensures
            ret@ == (SignoutView { password: Some(password@), ..old(self)@ }),
            *final(self) == *final(ret),
    {
        self.params.password = Some(password);
        self
    }

    /// Set base url, default is `https://authserver.mojang.com`.
    ///
    /// The text must be an absolute URL. The builder keeps the URL as the
    /// parser wrote it back; a text that does not parse leaves the builder as
    /// it was.
    pub fn server(&mut self, server: &str) -> (res: Result<&mut SignoutBuilder<'a>, Error>)
        ensures
            match url_parse(server@) {
                Ok(text) => {
                    &&& res is Ok
                    &&& (*res->Ok_0)@ == (SignoutView { server: text, ..old(self)@ })
                    &&& *final(self) == *final(res->Ok_0)
                },
                Err(e) => {
                    &&& res is Err
                    &&& res->Err_0@ == ErrorView::UrlParseError(e)
                    &&& final(self)@ == old(self)@
                },
            },
    {
        let parsed = parse_url(server);
        self.server_from(parsed)
    }

    /// Set base url to one that was parsed already: `parsed` is the URL's
    /// text as the parser wrote it back, or the parser's error.
    pub fn server_from(&mut self, parsed: Result<String, url::ParseError>) -> (res: Result<
        &mut SignoutBuilder<'a>,
        Error,
    >)
        ensures
            match parsed {
                Ok(text) => {
                    &&& res is Ok
                    &&& (*res->Ok_0)@ == (SignoutView { server: text@, ..old(self)@ })
                    &&& *final(self) == *final(res->Ok_0)
                },
                Err(e) => {
                    &&& res is Err
                    &&& res->Err_0@ == ErrorView::UrlParseError(e)
                    &&& final(self)@ == old(self)@
                },
            },
    {
        match parsed {
            Ok(text) => {
                self.server = text;
                Ok(self)
            },
            Err(e) => Err(Error::UrlParseError(e)),
        }
    }

    /// set endpoint, default is `/signout`.
    ///
    /// The path is appended to the base URL as it is given, so it should
    /// begin with a slash.
    pub fn endpoint(&mut self, endpoint: &'a str) -> (ret: &mut SignoutBuilder<'a>)
        ensures
            ret@ == (SignoutView { endpoint: endpoint@, ..old(self)@ }),
            *final(self) == *final(ret),
    {
        self.endpoint = endpoint;
        self
    }

    /// The name of the first required field that is not set.
    fn first_missing(&self) -> (missing: Option<&'static str>)
        ensures
            match missing {
                Some(field) => missing_field(self@) == Some(field@),
                None => missing_field(self@) is None,
            },
    {
        if self.params.username.is_none() {
            Some("username")
        } else if self.params.password.is_none() {
            Some("password")
        } else {
            None
        }
    }

    /// Prepare the request with the given parameters.
    ///
    /// Nothing is sent here. What comes back says where the request goes and
    /// what its body is; [`crate::exchange`] says what to make of the answer.
    ///
    /// The builder stays as it is.
    pub fn request(&mut self) -> (res: Result<Dispatch, Error>)
        ensures
            final(self)@ == old(self)@,
            prepared(res) == dispatch_of(old(self)@),
            missing_field(old(self)@) matches Some(field) ==> prepared(res) == Err::<
                DispatchView,
                ErrorView,
            >(ErrorView::MissingField(field)),
    {
        if let Some(field) = self.first_missing() {
            return Err(Error::MissingField(field));
        }
        let text = append_path(self.server.as_str(), self.endpoint);
        let address = parse_url(text.as_str());
        self.request_at(address)
    }

    /// Prepare the request for the address `address`: what the parser made
    /// of the endpoint appended to the server, its text of the address or its
    /// error.
    ///
    /// The builder stays as it is.
    pub fn request_at(&mut self, address: Result<String, url::ParseError>) -> (res: Result<
        Dispatch,
        Error,
    >)
        ensures
            final(self)@ == old(self)@,
            prepared(res) == dispatch_at(old(self)@, text_of(address)),
    {
        let username = match self.params.username {
            Some(username) => username,
            None => {
                return Err(Error::MissingField("username"));
            },
        };
        let password = match self.params.password {
            Some(password) => password,
            None => {
                return Err(Error::MissingField("password"));
            },
        };
        let url = match address {
            Ok(url) => url,
            Err(e) => {
                return Err(Error::UrlParseError(e));
            },
        };
        let mut members: Vec<Member> = Vec::new();
        members.push(Member::text("username", username));
        members.push(Member::text("password", password));
        let body = Json::object(members);
        proof {
            assert(body@->Object_0 =~= body_of(self@)->Object_0);
        }
        Ok(Dispatch { url, body, success: NO_CONTENT })
    }
}

/// A builder that has kept the server and the endpoint that it started with
/// sends to the service's own server, at `/signout`: to what the parser makes
/// of `https://authserver.mojang.com/signout`.
pub proof fn lemma_default_address(v: SignoutView)
    requires
        v.server == initial().server,
        v.endpoint == initial().endpoint,
    ensures
        appended(v.server, v.endpoint) == "https://authserver.mojang.com/signout"@,
        dispatch_of(v) matches Ok(dispatch) ==> Ok::<Seq<char>, url::ParseError>(dispatch.url)
            == url_parse("https://authserver.mojang.com/signout"@),
{
    reveal_strlit("https://authserver.mojang.com");
    reveal_strlit("/signout");
    reveal_strlit("https://authserver.mojang.com/signout");
    assert(appended(DEFAULT_SERVER@, "/signout"@) =~= "https://authserver.mojang.com/signout"@);
}

} // verus!

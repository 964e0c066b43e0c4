//! One exchange with the service: what is sent, and what is made of the
//! answer.
//!
//! A builder's `request` says what to send. Whoever holds the HTTP client
//! sends it and comes back with the answer's status. Where
//! [`Dispatch::is_success`] holds of it, the body is read as the operation's
//! result and handed to [`accept`]; where it does not, the body is read as an
//! error message and handed to [`Error::from_response`].

use crate::error::Error;
use crate::error::ErrorView;
use crate::error::TransportError;
use crate::wire::Json;
use crate::wire::JsonView;
use vstd::prelude::*;

verus! {

/// A request that is ready to go: a POST of `body` to `url`.
#[derive(Debug, PartialEq, Eq)]
pub struct Dispatch {
    /// The address: the endpoint appended to the server's base URL, as the
    /// parser wrote it back.
    pub url: String,
    /// The body, a JSON object.
    pub body: Json,
    /// The status by which the service says that the operation succeeded.
    pub success: u16,
}

/// A [`Dispatch`] with its address and body in their mathematical form.
pub struct DispatchView {
    pub url: Seq<char>,
    pub body: JsonView,
    pub success: u16,
}

impl View for Dispatch {
    type V = DispatchView;

    open spec fn view(&self) -> DispatchView {
        DispatchView { url: self.url@, body: self.body@, success: self.success }
    }
}

/// What a builder's `request` returned, in its mathematical form.
pub open spec fn prepared(res: Result<Dispatch, Error>) -> Result<DispatchView, ErrorView> {
    match res {
        Ok(dispatch) => Ok(dispatch@),
        Err(e) => Err(e@),
    }
}

/// The status of an answer without a body, by which validate, invalidate and
/// signout succeed.
pub const NO_CONTENT: u16 = 204;

/// The status of an answer with a body, by which authenticate and refresh
/// succeed.
pub const OK: u16 = 200;

impl Dispatch {
    /// Whether an answer with the status `status` reports success. Every
    /// operation has one such status; any other one comes with an error
    /// message.
    pub fn is_success(&self, status: u16) -> (yes: bool)
        ensures
            yes == (status == self.success),
    {
        status == self.success
    }
}

/// The result of an operation whose answer had the status of success. `body`
/// is what came of reading the answer's body as the operation's result.
///
/// The result is handed on as it was read. A body that could not be read is
/// a failure of the HTTP client.
pub fn accept<T>(body: Result<T, TransportError>) -> (res: Result<T, Error>)
    ensures
        match body {
            Ok(result) => res == Ok::<T, Error>(result),
            Err(e) => res == Err::<T, Error>(Error::Reqwest(e)),
        },
{
    match body {
        Ok(result) => Ok(result),
        Err(e) => Err(Error::Reqwest(e)),
    }
}

} // verus!

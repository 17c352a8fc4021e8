//! The client sides of ANONYMOUS and PLAIN: each sends one message built
//! from the properties its provider holds.
use vstd::prelude::*;
use crate::property::{Credentials, Property};
use crate::session::{Step, StepView, SessionError, result_view};

verus! {

/// The message a PLAIN client sends: `authzid NUL authcid NUL password`,
/// with an empty first field when no authorization identity is held.
pub open spec fn plain_client_message(
    authzid: Option<Seq<u8>>,
    authcid: Seq<u8>,
    password: Seq<u8>,
) -> Seq<u8> {
    let z = match authzid {
        Some(z) => z,
        None => Seq::empty(),
    };
    z + seq![0u8] + authcid + seq![0u8] + password
}

/// What the single step of a PLAIN client returns.
pub open spec fn plain_client_result(c: Credentials) -> Result<StepView, SessionError> {
    match (c.lookup(Property::AuthId), c.lookup(Property::Password)) {
        (Some(id), Some(pw)) => Ok(StepView::Done(Some(plain_client_message(c.lookup(Property::AuthzId), id, pw)))),
        _ => Err(SessionError::MissingProperty),
    }
}

/// What the single step of an ANONYMOUS client returns.
pub open spec fn anonymous_client_result(c: Credentials) -> Result<StepView, SessionError> {
    match c.lookup(Property::AnonymousToken) {
        Some(t) => Ok(StepView::Done(Some(t))),
        None => Err(SessionError::MissingProperty),
    }
}

/// The client side of PLAIN.
#[derive(Debug, Clone, Copy, PartialEq, Eq, Structural)]
pub struct PlainClient;

impl PlainClient {
    /// Sends the credentials in one message and completes; the input is
    /// not consulted.
    pub fn step(&mut self, input: Option<&[u8]>, credentials: &Credentials) -> (r: Result<
        Step,
        SessionError,
    >)
        ensures
            result_view(r) == plain_client_result(*credentials),
    {
        let authcid = match credentials.request(Property::AuthId) {
            Some(v) => v,
            None => {
                return Err(SessionError::MissingProperty);
            },
        };
        let password = match credentials.request(Property::Password) {
            Some(v) => v,
            None => {
                return Err(SessionError::MissingProperty);
            },
        };
        let mut message = match credentials.request(Property::AuthzId) {
            Some(v) => v,
            None => Vec::new(),
        };
        let ghost z = message@;
        let ghost ids = authcid@;
        let ghost pws = password@;
        let mut id = authcid;
        let mut pw = password;
        message.push(0u8);
        message.append(&mut id);
        message.push(0u8);
        message.append(&mut pw);
        assert(message@ =~= z + seq![0u8] + ids + seq![0u8] + pws);
        Ok(Step::Done(Some(message)))
    }
}

/// The client side of ANONYMOUS.
#[derive(Debug, Clone, Copy, PartialEq, Eq, Structural)]
pub struct AnonymousClient;

impl AnonymousClient {
    /// Sends the trace token in one message and completes; the input is
    /// not consulted.
    pub fn step(&mut self, input: Option<&[u8]>, credentials: &Credentials) -> (r: Result<
        Step,
        SessionError,
    >)
        ensures
            result_view(r) == anonymous_client_result(*credentials),
    {
        match credentials.request(Property::AnonymousToken) {
            Some(token) => Ok(Step::Done(Some(token))),
            None => Err(SessionError::MissingProperty),
        }
    }
}

} // verus!

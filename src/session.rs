//! Step outcomes, errors, and the per-exchange session state machine.
use vstd::prelude::*;
use crate::anonymous::ParseError;
use crate::plain::PlainError;
use crate::validate::{Verdict, Validator};
use crate::anonymous::{Anonymous, anonymous_step_result, anonymous_validator_after, opt_bytes};
use crate::plain::{Plain, plain_step_result, plain_validator_after};
use crate::client::{AnonymousClient, PlainClient, anonymous_client_result, plain_client_result};
use crate::property::Credentials;

verus! {

/// What a successful step hands back.
#[derive(Debug, Clone, PartialEq, Eq)]
pub enum Step {
    /// The exchange goes on; the bytes, if any, are to be sent to the peer.
    NeedsMore(Option<Vec<u8>>),
    /// The exchange is complete; the bytes, if any, are still to be sent.
    Done(Option<Vec<u8>>),
}

/// The mathematical value of a step outcome.
pub enum StepView {
    NeedsMore(Option<Seq<u8>>),
    Done(Option<Seq<u8>>),
}

/// The view of optional outgoing bytes.
pub open spec fn opt_out(b: Option<Vec<u8>>) -> Option<Seq<u8>> {
    match b {
        Some(v) => Some(v@),
        None => None,
    }
}

impl View for Step {
    type V = StepView;

    open spec fn view(&self) -> StepView {
        match self {
            Step::NeedsMore(b) => StepView::NeedsMore(opt_out(*b)),
            Step::Done(b) => StepView::Done(opt_out(*b)),
        }
    }
}

/// The view of a step's result.
pub open spec fn result_view(r: Result<Step, SessionError>) -> Result<StepView, SessionError> {
    match r {
        Ok(s) => Ok(s@),
        Err(e) => Err(e),
    }
}

/// The coarse classes of failure.
#[derive(Debug, Clone, Copy, PartialEq, Eq, Structural)]
pub enum ErrorKind {
    /// A peer message is malformed.
    Parse,
    /// The validator refused the credentials.
    Rejected,
    /// The validator does not handle the request kind: a configuration error.
    Configuration,
    /// A property the mechanism needs was not provided.
    MissingProperty,
    /// The session was used against its state machine.
    ProtocolState,
}

/// Why a step failed.
#[derive(Debug, Clone, Copy, PartialEq, Eq, Structural)]
pub enum SessionError {
    /// ANONYMOUS could not parse the peer's token.
    Anonymous(ParseError),
    /// PLAIN could not parse the peer's message.
    Plain(PlainError),
    /// The validator refused the credentials.
    Rejected,
    /// The validator does not handle this kind of request.
    ValidationUnsupported,
    /// The credential provider holds no value for a needed property.
    MissingProperty,
    /// The session already finished, successfully or not.
    Finished,
}

impl SessionError {
    pub fn kind(&self) -> (r: ErrorKind)
        ensures
            r == error_kind(*self),
    {
        match self {
            SessionError::Anonymous(_) => ErrorKind::Parse,
            SessionError::Plain(_) => ErrorKind::Parse,
            SessionError::Rejected => ErrorKind::Rejected,
            SessionError::ValidationUnsupported => ErrorKind::Configuration,
            SessionError::MissingProperty => ErrorKind::MissingProperty,
            SessionError::Finished => ErrorKind::ProtocolState,
        }
    }
}

pub open spec fn error_kind(e: SessionError) -> ErrorKind {
    match e {
        SessionError::Anonymous(_) => ErrorKind::Parse,
        SessionError::Plain(_) => ErrorKind::Parse,
        SessionError::Rejected => ErrorKind::Rejected,
        SessionError::ValidationUnsupported => ErrorKind::Configuration,
        SessionError::MissingProperty => ErrorKind::MissingProperty,
        SessionError::Finished => ErrorKind::ProtocolState,
    }
}

/// The outcome of a single-round exchange once the validator has answered.
pub open spec fn verdict_outcome(v: Verdict) -> Result<StepView, SessionError> {
    match v {
        Verdict::Accepted => Ok(StepView::Done(None)),
        Verdict::Rejected => Err(SessionError::Rejected),
        Verdict::Unsupported => Err(SessionError::ValidationUnsupported),
    }
}

/// The role a mechanism instance plays in an exchange.
#[derive(Debug, Clone, Copy, PartialEq, Eq, Structural)]
pub enum Side {
    Client,
    Server,
}

/// A mechanism instance: the per-exchange state of one mechanism on one side.
#[derive(Debug, Clone, Copy, PartialEq, Eq, Structural)]
pub enum Instance {
    AnonymousServer(Anonymous),
    PlainServer(Plain),
    AnonymousClient(AnonymousClient),
    PlainClient(PlainClient),
}

/// What one step of a mechanism instance returns.
pub open spec fn instance_step_result<V: Validator>(
    m: Instance,
    input: Option<Seq<u8>>,
    credentials: Credentials,
    v: V,
) -> Result<StepView, SessionError> {
    match m {
        Instance::AnonymousServer(_) => anonymous_step_result(input, v),
        Instance::PlainServer(_) => plain_step_result(input, v),
        Instance::AnonymousClient(_) => anonymous_client_result(credentials),
        Instance::PlainClient(_) => plain_client_result(credentials),
    }
}

/// The validator's state after one step of a mechanism instance.
pub open spec fn instance_validator_after<V: Validator>(
    m: Instance,
    input: Option<Seq<u8>>,
    v: V,
) -> V {
    match m {
        Instance::AnonymousServer(_) => anonymous_validator_after(input, v),
        Instance::PlainServer(_) => plain_validator_after(input, v),
        Instance::AnonymousClient(_) => v,
        Instance::PlainClient(_) => v,
    }
}

/// Where an exchange stands.
#[derive(Debug, Clone, Copy, PartialEq, Eq, Structural)]
pub enum SessionState {
    NotStarted,
    InProgress,
    Done,
    Failed,
}

/// Whether a state is final.
pub open spec fn is_terminal(s: SessionState) -> bool {
    s == SessionState::Done || s == SessionState::Failed
}

/// The state a session enters after a step of its mechanism.
pub open spec fn next_state(r: Result<StepView, SessionError>) -> SessionState {
    match r {
        Ok(StepView::NeedsMore(_)) => SessionState::InProgress,
        Ok(StepView::Done(_)) => SessionState::Done,
        Err(_) => SessionState::Failed,
    }
}

/// One authentication exchange: a mechanism instance, its side, the name it
/// was selected under, and how far the exchange has come.
#[derive(Debug)]
pub struct Session {
    pub side: Side,
    pub mechanism: Instance,
    pub name: Vec<u8>,
    pub state: SessionState,
}

impl Session {
    /// A session that has taken no step yet.
    pub fn new(side: Side, mechanism: Instance, name: Vec<u8>) -> (r: Session)
        ensures
            r.side == side,
            r.mechanism == mechanism,
            r.name@ == name@,
            r.state == SessionState::NotStarted,
    {
        Session { side, mechanism, name, state: SessionState::NotStarted }
    }

    /// Whether the exchange has ended, successfully or not.
    pub fn is_finished(&self) -> (r: bool)
        ensures
            r == is_terminal(self.state),
    {
        match self.state {
            SessionState::Done => true,
            SessionState::Failed => true,
            _ => false,
        }
    }

    /// Whether the exchange ended successfully.
    pub fn is_authenticated(&self) -> (r: bool)
        ensures
            r == (self.state == SessionState::Done),
    {
        match self.state {
            SessionState::Done => true,
            _ => false,
        }
    }

    /// Drives the mechanism one step with the peer's latest message.
    /// A finished session refuses every step with a protocol-state error
    /// and consults neither provider nor validator; otherwise the
    /// mechanism's outcome is returned and decides the next state.
    pub fn step<V: Validator>(
        &mut self,
        input: Option<&[u8]>,
        credentials: &Credentials,
        validator: &mut V,
    ) -> (r: Result<Step, SessionError>)
        ensures
            is_terminal(old(self).state) ==> r == Err::<Step, SessionError>(SessionError::Finished)
                && *final(self) == *old(self) && *final(validator) == *old(validator),
            !is_terminal(old(self).state) ==> {
                &&& result_view(r) == instance_step_result(
                    old(self).mechanism,
                    opt_bytes(input),
                    *credentials,
                    *old(validator),
                )
                &&& *final(validator) == instance_validator_after(
                    old(self).mechanism,
                    opt_bytes(input),
                    *old(validator),
                )
                &&& final(self).state == next_state(result_view(r))
                &&& final(self).side == old(self).side
                &&& final(self).mechanism == old(self).mechanism
                &&& final(self).name == old(self).name
            },
    {
        if self.is_finished() {
            return Err(SessionError::Finished);
        }
        let r = match &mut self.mechanism {
            Instance::AnonymousServer(m) => m.step(input, validator),
            Instance::PlainServer(m) => m.step(input, validator),
            Instance::AnonymousClient(m) => m.step(input, credentials),
            Instance::PlainClient(m) => m.step(input, credentials),
        };
        self.state = match &r {
            Ok(Step::NeedsMore(_)) => SessionState::InProgress,
            Ok(Step::Done(_)) => SessionState::Done,
            Err(_) => SessionState::Failed,
        };
        r
    }
}

} // verus!

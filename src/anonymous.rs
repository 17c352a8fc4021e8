//! The ANONYMOUS mechanism (server side): one message, a trace token of one
//! to 255 Unicode scalar values, submitted to the validator.
use vstd::prelude::*;
use vstd::string::*;
use vstd::utf8::*;
use crate::session::{Step, StepView, SessionError, ErrorKind, verdict_outcome, result_view};
use crate::utf8::decode_utf8_str;
use crate::validate::{ValidationKind, Validator, Verdict};

verus! {

/// The most Unicode scalar values an anonymous token may hold.
pub const MAX_TOKEN_CHARS: usize = 255;

/// The peer's token is not UTF-8, is empty, or holds more than 255 scalar
/// values.
#[derive(Debug, Clone, Copy, PartialEq, Eq, Structural)]
pub struct ParseError;

impl ParseError {
    pub fn kind(&self) -> (r: ErrorKind)
        ensures
            r == ErrorKind::Parse,
    {
        ErrorKind::Parse
    }

    /// A description of the failure.
    pub fn message(&self) -> (r: &'static str)
        ensures
            r@ == "the given anonymous token is invalid UTF-8 or longer than 255 chars"@,
    {
        "the given anonymous token is invalid UTF-8 or longer than 255 chars"
    }
}

/// The validation request of ANONYMOUS: the peer's decoded token.
pub struct AnonymousValidation(pub String);

impl AnonymousValidation {
    pub fn validation() -> (r: ValidationKind)
        ensures
            r == ValidationKind::Anonymous,
    {
        ValidationKind::Anonymous
    }
}

/// The token that a peer message carries, if it is a valid one.
pub open spec fn anonymous_token(input: Seq<u8>) -> Option<Seq<char>> {
    if valid_utf8(input) && 1 <= decode_utf8(input).len() <= MAX_TOKEN_CHARS {
        Some(decode_utf8(input))
    } else {
        None
    }
}

/// What one step of ANONYMOUS returns, given the peer message and the
/// validator's state before the step.
pub open spec fn anonymous_step_result<V: Validator>(input: Option<Seq<u8>>, v: V) -> Result<
    StepView,
    SessionError,
> {
    match input {
        None => Ok(StepView::NeedsMore(None)),
        Some(b) => match anonymous_token(b) {
            None => Err(SessionError::Anonymous(ParseError)),
            Some(t) => verdict_outcome(v.anonymous_verdict(t)),
        },
    }
}

/// The validator's state after one step of ANONYMOUS: consulted once for a
/// valid token, and not at all otherwise.
pub open spec fn anonymous_validator_after<V: Validator>(input: Option<Seq<u8>>, v: V) -> V {
    match input {
        Some(b) => match anonymous_token(b) {
            Some(t) => v.after_anonymous(t),
            None => v,
        },
        None => v,
    }
}

/// The server side of ANONYMOUS.
#[derive(Debug, Clone, Copy, PartialEq, Eq, Structural)]
pub struct Anonymous;

impl Anonymous {
    /// Handles one peer message. With no message yet, waits for one; a valid
    /// token goes to the validator, whose verdict decides the outcome; any
    /// other message fails with a parse error and consults no validator.
    pub fn step<V: Validator>(&mut self, input: Option<&[u8]>, validator: &mut V) -> (r: Result<
        Step,
        SessionError,
    >)
        ensures
            result_view(r) == anonymous_step_result(opt_bytes(input), *old(validator)),
            *final(validator) == anonymous_validator_after(opt_bytes(input), *old(validator)),
    {
        let buf = match input {
            Some(buf) => buf,
            None => {
                return Ok(Step::NeedsMore(None));
            },
        };
        match decode_utf8_str(buf) {
            Some(text) => {
                let n = text.unicode_len();
                if n == 0 || n > MAX_TOKEN_CHARS {
                    return Err(SessionError::Anonymous(ParseError));
                }
                let request = AnonymousValidation(text.to_owned());
                let verdict = validator.validate_anonymous(&request);
                verdict_to_result(verdict)
            },
            None => Err(SessionError::Anonymous(ParseError)),
        }
    }
}

/// Every token of one to 255 Unicode scalar values, sent as its UTF-8
/// encoding, completes the exchange with no outgoing bytes when the validator
/// accepts it; an empty token, or one of more than 255 scalar values, is a
/// parse error whatever the validator would say.
pub proof fn lemma_anonymous_token_length<V: Validator>(token: Seq<char>, v: V)
    ensures
        1 <= token.len() <= MAX_TOKEN_CHARS && v.anonymous_verdict(token) == Verdict::Accepted
            ==> anonymous_step_result(Some(encode_utf8(token)), v) == Ok::<StepView, SessionError>(
            StepView::Done(None),
        ),
        (token.len() == 0 || token.len() > MAX_TOKEN_CHARS) ==> anonymous_step_result(
            Some(encode_utf8(token)),
            v,
        ) == Err::<StepView, SessionError>(SessionError::Anonymous(ParseError)),
{
    encode_utf8_valid_utf8(token);
    encode_utf8_decode_utf8(token);
}

/// The view of an optional byte slice.
pub open spec fn opt_bytes(input: Option<&[u8]>) -> Option<Seq<u8>> {
    match input {
        Some(b) => Some(b@),
        None => None,
    }
}

/// Turns a validator's verdict into the outcome of a single-round step.
pub fn verdict_to_result(verdict: crate::validate::Verdict) -> (r: Result<Step, SessionError>)
    ensures
        result_view(r) == verdict_outcome(verdict),
{
    match verdict {
        crate::validate::Verdict::Accepted => Ok(Step::Done(None)),
        crate::validate::Verdict::Rejected => Err(SessionError::Rejected),
        crate::validate::Verdict::Unsupported => Err(SessionError::ValidationUnsupported),
    }
}

} // verus!

//! Validation requests: a mechanism submits typed credentials to a
//! caller-supplied validator and branches on its verdict.
use vstd::prelude::*;
use crate::anonymous::AnonymousValidation;
use crate::plain::{PlainProvider, opt_chars};

verus! {

/// The kinds of validation request that mechanisms submit.
#[derive(Debug, Clone, Copy, PartialEq, Eq, Structural)]
pub enum ValidationKind {
    /// An anonymous trace token is to be accepted or refused.
    Anonymous,
    /// A PLAIN authentication identity, authorization identity and password.
    Plain,
}

/// A validator's answer to one request.
#[derive(Debug, Clone, Copy, PartialEq, Eq, Structural)]
pub enum Verdict {
    /// The credentials are accepted.
    Accepted,
    /// The credentials are refused.
    Rejected,
    /// This validator does not handle requests of this kind.
    Unsupported,
}

/// The caller-supplied policy that checks credentials. Each request kind has
/// a spec function that names the verdict the validator gives in a state.
pub trait Validator: Sized {
    spec fn anonymous_verdict(&self, token: Seq<char>) -> Verdict;

    spec fn plain_verdict(
        &self,
        authcid: Seq<char>,
        authzid: Option<Seq<char>>,
        password: Seq<u8>,
    ) -> Verdict;

    /// The validator's state after it answered one anonymous request.
    spec fn after_anonymous(&self, token: Seq<char>) -> Self;

    /// The validator's state after it answered one PLAIN request.
    spec fn after_plain(
        &self,
        authcid: Seq<char>,
        authzid: Option<Seq<char>>,
        password: Seq<u8>,
    ) -> Self;

    fn validate_anonymous(&mut self, request: &AnonymousValidation) -> (r: Verdict)
        ensures
            r == old(self).anonymous_verdict(request.0@),
            *final(self) == old(self).after_anonymous(request.0@),
    ;

    fn validate_plain(&mut self, request: &PlainProvider) -> (r: Verdict)
        ensures
            r == old(self).plain_verdict(
                request.authcid@,
                opt_chars(request.authzid),
                request.password@,
            ),
            *final(self) == old(self).after_plain(
                request.authcid@,
                opt_chars(request.authzid),
                request.password@,
            ),
    ;
}

/// A validator that gives the same verdict to every request and counts the
/// requests it has answered.
#[derive(Debug, Clone, Copy, PartialEq, Eq, Structural)]
pub struct FixedValidator {
    pub verdict: Verdict,
    pub calls: u64,
}

impl FixedValidator {
    pub fn new(verdict: Verdict) -> (r: FixedValidator)
        ensures
            r.verdict == verdict,
            r.calls == 0,
    {
        FixedValidator { verdict, calls: 0 }
    }
}

impl FixedValidator {
    /// The same validator with one more request counted, saturating at the
    /// largest count.
    pub open spec fn counted(&self) -> FixedValidator {
        FixedValidator {
            verdict: self.verdict,
            calls: if self.calls < u64::MAX {
                (self.calls + 1) as u64
            } else {
                self.calls
            },
        }
    }
}

impl Validator for FixedValidator {
    open spec fn anonymous_verdict(&self, token: Seq<char>) -> Verdict {
        self.verdict
    }

    open spec fn plain_verdict(
        &self,
        authcid: Seq<char>,
        authzid: Option<Seq<char>>,
        password: Seq<u8>,
    ) -> Verdict {
        self.verdict
    }

    /// One more answered request, saturating at the largest count.
    open spec fn after_anonymous(&self, token: Seq<char>) -> FixedValidator {
        self.counted()
    }

    open spec fn after_plain(
        &self,
        authcid: Seq<char>,
        authzid: Option<Seq<char>>,
        password: Seq<u8>,
    ) -> FixedValidator {
        self.counted()
    }

    fn validate_anonymous(&mut self, request: &AnonymousValidation) -> (r: Verdict) {
        if self.calls < u64::MAX {
            self.calls = self.calls + 1;
        }
        self.verdict
    }

    fn validate_plain(&mut self, request: &PlainProvider) -> (r: Verdict) {
        if self.calls < u64::MAX {
            self.calls = self.calls + 1;
        }
        self.verdict
    }
}

} // verus!

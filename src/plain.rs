//! The PLAIN mechanism (server side): one message
//! `authzid NUL authcid NUL password`, each field prepared with SASLprep and
//! submitted to the validator.
use vstd::prelude::*;
use vstd::slice::slice_subrange;
use vstd::string::*;
use vstd::utf8::*;
use crate::session::{Step, StepView, SessionError, ErrorKind, verdict_outcome, result_view};
use crate::anonymous::{opt_bytes, verdict_to_result};
use crate::utf8::decode_utf8_str;
use crate::validate::{ValidationKind, Validator};

verus! {

/// Why a PLAIN message was refused.
#[derive(Debug, Clone, Copy, PartialEq, Eq, Structural)]
pub enum PlainError {
    /// The message is not three fields split by exactly two NUL bytes.
    BadFormat,
    /// The authorization identity is not UTF-8.
    BadAuthzid,
    /// The authentication identity is not UTF-8.
    BadAuthcid,
    /// The password is not UTF-8.
    BadPassword,
    /// A field was refused by SASLprep.
    Saslprep,
}

impl PlainError {
    pub fn kind(&self) -> (r: ErrorKind)
        ensures
            r == ErrorKind::Parse,
    {
        ErrorKind::Parse
    }

    /// A description of the failure; it names the field at fault and
    /// depends on nothing else, so no byte of a credential appears in it.
    pub fn message(&self) -> (r: &'static str)
        ensures
            *self == PlainError::BadFormat ==> r@
                == "invalid format, expected three strings separated by two NULL-bytes"@,
            *self == PlainError::BadAuthzid ==> r@ == "authzid is invalid UTF-8"@,
            *self == PlainError::BadAuthcid ==> r@ == "authcid is invalid UTF-8"@,
            *self == PlainError::BadPassword ==> r@ == "password is invalid UTF-8"@,
            *self == PlainError::Saslprep ==> r@ == "saslprep failed"@,
    {
        match self {
            PlainError::BadFormat => "invalid format, expected three strings separated by two NULL-bytes",
            PlainError::BadAuthzid => "authzid is invalid UTF-8",
            PlainError::BadAuthcid => "authcid is invalid UTF-8",
            PlainError::BadPassword => "password is invalid UTF-8",
            PlainError::Saslprep => "saslprep failed",
        }
    }
}

/// The result of SASLprep on a string: the prepared string, or `None` where
/// the profile refuses it.
pub uninterp spec fn saslprep_of(s: Seq<char>) -> Option<Seq<char>>;

/// Printable ASCII, which SASLprep leaves as it is.
pub open spec fn is_printable_ascii(s: Seq<char>) -> bool {
    forall|i: int| 0 <= i < s.len() ==> 0x20 <= #[trigger] (s[i] as u32) <= 0x7e
}

#[verifier::external_type_specification]
#[verifier::external_body]
pub struct ExStringprepError(stringprep::Error);

/// Relies on `stringprep::saslprep`: the prepared form of the text, or its
/// error; text of printable ASCII alone comes back unchanged.
#[verifier::external_body]
fn saslprep(s: &str) -> (r: Result<String, stringprep::Error>)
    ensures
        r is Ok <==> saslprep_of(s@) is Some,
        r is Ok ==> saslprep_of(s@) == Some(r->Ok_0@),
        is_printable_ascii(s@) ==> r is Ok && r->Ok_0@ == s@,
{
    stringprep::saslprep(s).map(|c| c.into_owned())
}

/// The first NUL byte of `b` at or after `from`, or the length of `b`.
pub open spec fn nul_from(b: Seq<u8>, from: int) -> int
    decreases b.len() - from,
{
    if from < 0 || from >= b.len() {
        b.len() as int
    } else if b[from] == 0 {
        from
    } else {
        nul_from(b, from + 1)
    }
}

/// The number of NUL bytes of `b` at or after `from`.
pub open spec fn nuls_from(b: Seq<u8>, from: int) -> nat
    decreases b.len() - from,
{
    if from < 0 || from >= b.len() {
        0
    } else {
        (if b[from] == 0 { 1nat } else { 0nat }) + nuls_from(b, from + 1)
    }
}

/// The three fields of a PLAIN message, where it holds exactly two NUL bytes.
pub open spec fn plain_fields(b: Seq<u8>) -> Option<(Seq<u8>, Seq<u8>, Seq<u8>)> {
    let i = nul_from(b, 0);
    let j = nul_from(b, i + 1);
    let k = nul_from(b, j + 1);
    if i < b.len() && j < b.len() && k == b.len() {
        Some((b.subrange(0, i), b.subrange(i + 1, j), b.subrange(j + 1, b.len() as int)))
    } else {
        None
    }
}

/// A field decoded as UTF-8 and prepared, or the error it gives.
pub open spec fn prepared_field(f: Seq<u8>, bad_utf8: PlainError) -> Result<Seq<char>, PlainError> {
    if !valid_utf8(f) {
        Err(bad_utf8)
    } else {
        match saslprep_of(decode_utf8(f)) {
            None => Err(PlainError::Saslprep),
            Some(p) => Ok(p),
        }
    }
}

/// The credentials a PLAIN message carries, after framing, UTF-8 decoding
/// and SASLprep, checked in that order: the authentication identity, the
/// authorization identity (absent when its field is empty) and the password.
pub open spec fn plain_request(b: Seq<u8>) -> Result<
    (Seq<char>, Option<Seq<char>>, Seq<u8>),
    PlainError,
> {
    match plain_fields(b) {
        None => Err(PlainError::BadFormat),
        Some((z, c, p)) => {
            let zr: Result<Option<Seq<char>>, PlainError> = if z.len() == 0 {
                Ok(None)
            } else {
                match prepared_field(z, PlainError::BadAuthzid) {
                    Err(e) => Err(e),
                    Ok(x) => Ok(Some(x)),
                }
            };
            match zr {
                Err(e) => Err(e),
                Ok(zo) => match prepared_field(c, PlainError::BadAuthcid) {
                    Err(e) => Err(e),
                    Ok(cc) => match prepared_field(p, PlainError::BadPassword) {
                        Err(e) => Err(e),
                        Ok(pp) => Ok((cc, zo, encode_utf8(pp))),
                    },
                },
            }
        },
    }
}

/// A field of printable ASCII text, which SASLprep leaves as it is.
pub open spec fn printable_field(f: Seq<u8>) -> bool {
    valid_utf8(f) && is_printable_ascii(decode_utf8(f))
}

/// The credentials of a message whose fields are all printable ASCII (the
/// authorization field may be empty): the fields themselves, unchanged.
pub open spec fn printable_request(b: Seq<u8>) -> Option<(Seq<char>, Option<Seq<char>>, Seq<u8>)> {
    match plain_fields(b) {
        Some((z, c, p)) => if (z.len() == 0 || printable_field(z)) && printable_field(c)
            && printable_field(p) {
            Some(
                (
                    decode_utf8(c),
                    if z.len() == 0 {
                        None
                    } else {
                        Some(decode_utf8(z))
                    },
                    p,
                ),
            )
        } else {
            None
        },
        None => None,
    }
}

/// What one step of PLAIN returns, given the peer message and the
/// validator's state before the step.
pub open spec fn plain_step_result<V: Validator>(input: Option<Seq<u8>>, v: V) -> Result<
    StepView,
    SessionError,
> {
    match input {
        None => Ok(StepView::NeedsMore(None)),
        Some(b) => if b.len() == 0 {
            Ok(StepView::NeedsMore(None))
        } else {
            match plain_request(b) {
                Err(e) => Err(SessionError::Plain(e)),
                Ok((c, z, p)) => verdict_outcome(v.plain_verdict(c, z, p)),
            }
        },
    }
}

/// The first NUL byte at or after `from` lies between `from` and the end.
pub proof fn lemma_nul_from_bounds(b: Seq<u8>, from: int)
    requires
        0 <= from <= b.len(),
    ensures
        from <= nul_from(b, from) <= b.len(),
    decreases b.len() - from,
{
    if from < b.len() && b[from] != 0 {
        lemma_nul_from_bounds(b, from + 1);
    }
}

/// Where no NUL byte lies at or after `from`, none is counted there.
pub proof fn lemma_no_nul_counted(b: Seq<u8>, from: int)
    requires
        0 <= from <= b.len(),
        nul_from(b, from) == b.len(),
    ensures
        nuls_from(b, from) == 0,
    decreases b.len() - from,
{
    if from < b.len() {
        lemma_no_nul_counted(b, from + 1);
    }
}

/// The first NUL byte at or after `from` is counted once, and the rest are
/// those after it.
pub proof fn lemma_first_nul_counted(b: Seq<u8>, from: int)
    requires
        0 <= from <= b.len(),
        nul_from(b, from) < b.len(),
    ensures
        from <= nul_from(b, from),
        b[nul_from(b, from)] == 0,
        nuls_from(b, from) == 1 + nuls_from(b, nul_from(b, from) + 1),
    decreases b.len() - from,
{
    if b[from] != 0 {
        lemma_first_nul_counted(b, from + 1);
    }
}

/// A message splits into three fields exactly when it holds two NUL bytes.
pub proof fn lemma_plain_fields_iff_two_nuls(b: Seq<u8>)
    ensures
        plain_fields(b) is Some <==> nuls_from(b, 0) == 2,
{
    let i = nul_from(b, 0);
    lemma_nul_from_bounds(b, 0);
    if i == b.len() {
        lemma_no_nul_counted(b, 0);
    } else {
        lemma_first_nul_counted(b, 0);
        let j = nul_from(b, i + 1);
        lemma_nul_from_bounds(b, i + 1);
        if j == b.len() {
            lemma_no_nul_counted(b, i + 1);
        } else {
            lemma_first_nul_counted(b, i + 1);
            let k = nul_from(b, j + 1);
            lemma_nul_from_bounds(b, j + 1);
            if k == b.len() {
                lemma_no_nul_counted(b, j + 1);
            } else {
                lemma_first_nul_counted(b, j + 1);
            }
        }
    }
}

/// A non-empty message with no, one, or three or more NUL bytes is a format
/// error, which the step reports without consulting the validator.
pub proof fn lemma_plain_separator_count<V: Validator>(b: Seq<u8>, v: V)
    requires
        b.len() > 0,
        nuls_from(b, 0) != 2,
    ensures
        plain_request(b) == Err::<(Seq<char>, Option<Seq<char>>, Seq<u8>), PlainError>(
            PlainError::BadFormat,
        ),
        plain_step_result(Some(b), v) == Err::<StepView, SessionError>(
            SessionError::Plain(PlainError::BadFormat),
        ),
{
    lemma_plain_fields_iff_two_nuls(b);
}

/// A message whose authorization field is empty presents the validator no
/// authorization identity, never an empty one.
pub proof fn lemma_plain_empty_authzid<V: Validator>(b: Seq<u8>, v: V)
    requires
        b.len() > 0,
        b[0] == 0,
        plain_request(b) is Ok,
    ensures
        plain_request(b)->Ok_0.1 is None,
        plain_step_result(Some(b), v) == verdict_outcome(
            v.plain_verdict(plain_request(b)->Ok_0.0, None, plain_request(b)->Ok_0.2),
        ),
{
    assert(nul_from(b, 0) == 0);
    assert(b.subrange(0, 0).len() == 0);
}

/// The validator's state after one step of PLAIN: consulted once with the
/// credentials of a well-formed message, and not at all otherwise.
pub open spec fn plain_validator_after<V: Validator>(input: Option<Seq<u8>>, v: V) -> V {
    match input {
        Some(b) => if b.len() == 0 {
            v
        } else {
            match plain_request(b) {
                Ok((c, z, p)) => v.after_plain(c, z, p),
                Err(_) => v,
            }
        },
        None => v,
    }
}

/// The view of an optional string.
pub open spec fn opt_chars(s: Option<String>) -> Option<Seq<char>> {
    match s {
        Some(x) => Some(x@),
        None => None,
    }
}

/// The credentials of a PLAIN message, offered to the validator as
/// properties.
#[derive(Debug)]
pub struct PlainProvider {
    pub authcid: String,
    pub authzid: Option<String>,
    pub password: Vec<u8>,
}

/// The validation request kind of PLAIN; its answer is a verdict.
#[derive(Debug, Clone, Copy, PartialEq, Eq, Structural)]
pub struct PlainValidation;

impl PlainValidation {
    pub fn validation() -> (r: ValidationKind)
        ensures
            r == ValidationKind::Plain,
    {
        ValidationKind::Plain
    }
}

/// The first NUL byte of `b` at or after `from`, or the length of `b`.
pub fn find_nul(b: &[u8], from: usize) -> (r: usize)
    requires
        from <= b@.len(),
    ensures
        r == nul_from(b@, from as int),
        from <= r <= b@.len(),
{
    let mut i = from;
    while i < b.len()
        invariant
            from <= i <= b@.len(),
            nul_from(b@, from as int) == nul_from(b@, i as int),
        decreases b@.len() - i,
    {
        if b[i] == 0 {
            return i;
        }
        i = i + 1;
    }
    i
}

/// Splits a PLAIN message into its three fields.
pub fn split_plain(b: &[u8]) -> (r: Option<(&[u8], &[u8], &[u8])>)
    ensures
        match r {
            Some((z, c, p)) => plain_fields(b@) == Some((z@, c@, p@)),
            None => plain_fields(b@) is None,
        },
{
    let i = find_nul(b, 0);
    if i == b.len() {
        return None;
    }
    let j = find_nul(b, i + 1);
    if j == b.len() {
        return None;
    }
    let k = find_nul(b, j + 1);
    if k != b.len() {
        return None;
    }
    Some((slice_subrange(b, 0, i), slice_subrange(b, i + 1, j), slice_subrange(b, j + 1, b.len())))
}

/// Decodes one field as UTF-8 and prepares it.
fn prepare_field(f: &[u8], bad_utf8: PlainError) -> (r: Result<String, PlainError>)
    ensures
        match prepared_field(f@, bad_utf8) {
            Ok(p) => r is Ok && r->Ok_0@ == p,
            Err(e) => r == Err::<String, PlainError>(e),
        },
        printable_field(f@) ==> saslprep_of(decode_utf8(f@)) == Some(decode_utf8(f@)),
{
    match decode_utf8_str(f) {
        None => Err(bad_utf8),
        Some(s) => match saslprep(s) {
            Ok(p) => Ok(p),
            Err(_) => Err(PlainError::Saslprep),
        },
    }
}

/// Parses a PLAIN message into the credentials it carries.
pub fn parse_plain(b: &[u8]) -> (r: Result<PlainProvider, PlainError>)
    ensures
        match plain_request(b@) {
            Ok((c, z, p)) => r is Ok && r->Ok_0.authcid@ == c && opt_chars(r->Ok_0.authzid) == z
                && r->Ok_0.password@ == p,
            Err(e) => r is Err && r->Err_0 == e,
        },
        match printable_request(b@) {
            Some(x) => plain_request(b@) == Ok::<(Seq<char>, Option<Seq<char>>, Seq<u8>), PlainError>(x),
            None => true,
        },
{
    let (z, c, p) = match split_plain(b) {
        None => {
            return Err(PlainError::BadFormat);
        },
        Some(fields) => fields,
    };
    proof {
        if valid_utf8(p@) {
            decode_utf8_encode_utf8(p@);
        }
    }
    let authzid = if z.len() == 0 {
        None
    } else {
        match prepare_field(z, PlainError::BadAuthzid) {
            Ok(x) => Some(x),
            Err(e) => {
                return Err(e);
            },
        }
    };
    let authcid = match prepare_field(c, PlainError::BadAuthcid) {
        Ok(x) => x,
        Err(e) => {
            return Err(e);
        },
    };
    let password = match prepare_field(p, PlainError::BadPassword) {
        Ok(x) => x,
        Err(e) => {
            return Err(e);
        },
    };
    let bytes = password.as_str().as_bytes();
    Ok(PlainProvider { authcid, authzid, password: vstd::slice::slice_to_vec(bytes) })
}

/// The server side of PLAIN.
#[derive(Debug, Clone, Copy, PartialEq, Eq, Structural)]
pub struct Plain;

impl Plain {
    /// Handles one peer message. With no message, or an empty one, waits
    /// for one; a well-formed message goes to the validator, whose verdict
    /// decides the outcome; a malformed one fails before any validator call.
    pub fn step<V: Validator>(&mut self, input: Option<&[u8]>, validator: &mut V) -> (r: Result<
        Step,
        SessionError,
    >)
        ensures
            result_view(r) == plain_step_result(opt_bytes(input), *old(validator)),
            *final(validator) == plain_validator_after(opt_bytes(input), *old(validator)),
            input is Some ==> match printable_request(input->0@) {
                Some(x) => plain_request(input->0@) == Ok::<
                    (Seq<char>, Option<Seq<char>>, Seq<u8>),
                    PlainError,
                >(x),
                None => true,
            },
    {
        let buf = match input {
            Some(buf) => buf,
            None => {
                return Ok(Step::NeedsMore(None));
            },
        };
        if buf.len() == 0 {
            return Ok(Step::NeedsMore(None));
        }
        match parse_plain(buf) {
            Err(e) => Err(SessionError::Plain(e)),
            Ok(provider) => {
                let verdict = validator.validate_plain(&provider);
                verdict_to_result(verdict)
            },
        }
    }
}

} // verus!

//! Mechanism names: ASCII `A-Z`, `0-9`, `-`, `_`, at most twenty characters.
use vstd::prelude::*;

verus! {

/// The longest mechanism name that may be registered.
pub const MAX_MECHNAME_LEN: usize = 20;

/// Whether one byte belongs to the mechanism-name alphabet.
pub open spec fn is_mechname_byte(b: u8) -> bool {
    (65 <= b && b <= 90) || (48 <= b && b <= 57) || b == 45 || b == 95
}

/// A well-formed mechanism name: one to twenty bytes of the alphabet.
pub open spec fn valid_mechname(name: Seq<u8>) -> bool {
    &&& 1 <= name.len() <= MAX_MECHNAME_LEN
    &&& forall|i: int| 0 <= i < name.len() ==> is_mechname_byte(#[trigger] name[i])
}

/// Why a name is not a mechanism name.
#[derive(Debug, Clone, Copy, PartialEq, Eq, Structural)]
pub enum MechnameError {
    /// The name holds no characters.
    Empty,
    /// The name is longer than twenty characters.
    TooLong,
    /// The name holds a byte outside `A-Z0-9-_`.
    InvalidCharacter,
}

pub fn is_mechname_char(b: u8) -> (r: bool)
    ensures
        r == is_mechname_byte(b),
{
    (65 <= b && b <= 90) || (48 <= b && b <= 57) || b == 45 || b == 95
}

/// The error that `check_mechname` gives for a name, if any.
pub open spec fn mechname_error(name: Seq<u8>) -> Option<MechnameError> {
    if name.len() == 0 {
        Some(MechnameError::Empty)
    } else if name.len() > MAX_MECHNAME_LEN {
        Some(MechnameError::TooLong)
    } else if exists|i: int| 0 <= i < name.len() && !is_mechname_byte(#[trigger] name[i]) {
        Some(MechnameError::InvalidCharacter)
    } else {
        None
    }
}

/// A name is refused, with a reason, exactly when it holds a byte outside
/// `A-Z0-9-_`, is empty, or is longer than twenty characters.
pub proof fn lemma_invalid_names_refused(name: Seq<u8>)
    ensures
        mechname_error(name) is Some <==> !valid_mechname(name),
        (exists|i: int| 0 <= i < name.len() && !is_mechname_byte(#[trigger] name[i]))
            ==> mechname_error(name) is Some,
        name.len() > MAX_MECHNAME_LEN ==> mechname_error(name) == Some(MechnameError::TooLong),
{
}

/// Checks that `name` may be used as a mechanism name.
pub fn check_mechname(name: &[u8]) -> (r: Result<(), MechnameError>)
    ensures
        r is Ok <==> valid_mechname(name@),
        r == match mechname_error(name@) {
            None => Ok(()),
            Some(e) => Err(e),
        },
{
    if name.len() == 0 {
        return Err(MechnameError::Empty);
    }
    if name.len() > MAX_MECHNAME_LEN {
        return Err(MechnameError::TooLong);
    }
    let mut i: usize = 0;
    while i < name.len()
        invariant
            0 <= i <= name@.len(),
            1 <= name@.len() <= MAX_MECHNAME_LEN,
            forall|k: int| 0 <= k < i ==> is_mechname_byte(#[trigger] name@[k]),
        decreases name@.len() - i,
    {
        if !is_mechname_char(name[i]) {
            assert(!is_mechname_byte(name@[i as int]));
            return Err(MechnameError::InvalidCharacter);
        }
        i = i + 1;
    }
    Ok(())
}

} // verus!

//! Identifiers for artists and albums.
use vstd::prelude::*;

verus! {

/// The length asked of every identifier.
pub const ID_LENGTH: u16 = 18;

/// A character that may stand in an identifier: a digit or a lower-case
/// ASCII letter.
pub open spec fn is_id_char(c: char) -> bool {
    ('0' <= c && c <= '9') || ('a' <= c && c <= 'z')
}

/// An identifier of at most `max` characters: a lower-case letter, then
/// digits and lower-case letters. It can serve as a directory name.
pub open spec fn is_id_of_length(s: Seq<char>, max: nat) -> bool {
    &&& 1 <= s.len() <= max
    &&& 'a' <= s[0] && s[0] <= 'z'
    &&& forall|i: int| 0 <= i < s.len() ==> is_id_char(#[trigger] s[i])
}

pub open spec fn is_id(s: Seq<char>) -> bool {
    is_id_of_length(s, ID_LENGTH as nat)
}

/// Relies on cuid2's `CuidConstructor::with_length(length).create_id()`:
/// one letter of `a..z`, then at most `length - 1` base-36 digits of a hash
/// (0-9, a-z); `with_length` panics below 2. The value is random.
#[verifier::external_body]
fn cuid_with_length(length: u16) -> (r: String)
    requires
        2 <= length,
    ensures
        is_id_of_length(r@, length as nat),
{
    cuid2::CuidConstructor::new().with_length(length).create_id()
}

/// A fresh, random identifier of at most 18 characters. Two calls may in
/// principle give the same value: callers that need uniqueness check for it.
pub fn create_id() -> (r: String)
    ensures
        is_id(r@),
{
    cuid_with_length(ID_LENGTH)
}

} // verus!

//! Fresh identifiers.

use vstd::prelude::*;

verus! {

/// The lower case hexadecimal digits.
pub open spec fn is_hex(c: char) -> bool {
    '0' <= c <= '9' || 'a' <= c <= 'f'
}

/// Thirty-two lower case hexadecimal digits.
pub open spec fn is_token(s: Seq<char>) -> bool {
    s.len() == 32 && forall|i: int| 0 <= i < 32 ==> is_hex(#[trigger] s[i])
}

/// The hyphenated form of a UUID: groups of eight, four, four, four and twelve lower case
/// hexadecimal digits.
pub open spec fn is_uuid(s: Seq<char>) -> bool {
    s.len() == 36 && forall|i: int|
        0 <= i < 36 ==> if i == 8 || i == 13 || i == 18 || i == 23 {
            #[trigger] s[i] == '-'
        } else {
            is_hex(s[i])
        }
}

/// Calls `Uuid::new_v4`, then `Uuid::simple` and `to_string` on it: the UUID without hyphens.
/// Which one comes is left to chance.
#[verifier::external_body]
pub fn generate_token() -> (token: String)
    ensures
        is_token(token@),
{
    uuid::Uuid::new_v4().simple().to_string()
}

/// Calls `Uuid::new_v4`, then `to_string` on it: the UUID with hyphens. Which one comes is left
/// to chance.
#[verifier::external_body]
pub(crate) fn fresh_uuid() -> (id: String)
    ensures
        is_uuid(id@),
{
    uuid::Uuid::new_v4().to_string()
}

} // verus!

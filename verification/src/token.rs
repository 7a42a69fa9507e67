//! Opaque reconnect tokens.

use vstd::prelude::*;

verus! {

/// True of the characters a reconnect token is made of: lowercase
/// hexadecimal digits and hyphens.
pub open spec fn is_token_char(c: char) -> bool {
    ||| c as int == 45  // '-'
    ||| 48 <= c as int <= 57  // '0' ..= '9'
    ||| 97 <= c as int <= 102  // 'a' ..= 'f'
}

/// True of every string this module hands out.
pub open spec fn is_token(s: Seq<char>) -> bool {
    &&& s.len() == 36
    &&& forall|i: int| 0 <= i < s.len() ==> is_token_char(s[i])
}

/// Relies on uuid's `Uuid::new_v4` and its `Display` impl: the hyphenated
/// form of a version-4 UUID is 36 characters of lowercase hexadecimal
/// digits and hyphens. The value itself is random; nothing relates two
/// calls, in particular not that they differ.
#[verifier::external_body]
pub fn fresh_token() -> (r: String)
    ensures
        is_token(r@),
{
    uuid::Uuid::new_v4().to_string()
}

} // verus!

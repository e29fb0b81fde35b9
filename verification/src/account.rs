use vstd::prelude::*;
use vstd::utf8::encode_utf8;

verus! {

/// A lower-case letter or a digit, as a byte.
pub open spec fn is_name_byte(b: u8) -> bool {
    (97 <= b <= 122) || (48 <= b <= 57)
}

/// One of `-`, `_` and `.`, as a byte.
pub open spec fn is_separator_byte(b: u8) -> bool {
    b == 45 || b == 95 || b == 46
}

/// The bytes of a well-formed account identifier: 2 to 64 of them, each a lower-case
/// letter, a digit or a separator, with no separator at either end and no two
/// separators side by side.
pub open spec fn valid_account_bytes(id: Seq<u8>) -> bool {
    &&& 2 <= id.len() <= 64
    &&& forall|i: int| 0 <= i < id.len() ==> is_name_byte(#[trigger] id[i]) || is_separator_byte(id[i])
    &&& !is_separator_byte(id[0])
    &&& !is_separator_byte(id[id.len() - 1])
    &&& forall|i: int|
        0 < i < id.len() ==> !(is_separator_byte(#[trigger] id[i]) && is_separator_byte(id[i - 1]))
}

/// An account identifier is well formed where its UTF-8 bytes are.
pub open spec fn valid_account(id: Seq<char>) -> bool {
    valid_account_bytes(encode_utf8(id))
}

/// `near_sdk::env::is_valid_account_id` reads the bytes once: it refuses a length outside
/// 2 to 64, a byte that is neither a lower-case letter, a digit nor a separator, and a
/// separator that stands first, last or behind another separator. That is
/// `valid_account_bytes`.
pub assume_specification[ near_sdk::env::is_valid_account_id ](account_id: &[u8]) -> (valid: bool)
    ensures
        valid == valid_account_bytes(account_id@),
;

/// Says whether `id` is a well-formed account identifier.
pub fn is_valid_account(id: &String) -> (valid: bool)
    ensures
        valid == valid_account(id@),
{
    near_sdk::env::is_valid_account_id(id.as_str().as_bytes())
}

} // verus!

//! Identifiers of stored records.

use vstd::prelude::*;
use vstd::utf8::is_ascii_chars;

verus! {

/// The number of characters of an identifier.
pub const ID_LENGTH: usize = 36;

/// A digit of a lower-case hexadecimal number.
pub open spec fn is_hex_digit(c: char) -> bool {
    ('0' <= c && c <= '9') || ('a' <= c && c <= 'f')
}

/// Where the hyphens of an identifier stand.
pub open spec fn is_hyphen_position(i: int) -> bool {
    i == 8 || i == 13 || i == 18 || i == 23
}

/// What holds of every identifier that is issued: 36 characters, hyphens at
/// the four fixed places and lower-case hexadecimal digits elsewhere.
pub open spec fn is_record_id(id: Seq<char>) -> bool {
    &&& id.len() == ID_LENGTH
    &&& forall|i: int|
        0 <= i < id.len() ==> if is_hyphen_position(i) {
            #[trigger] id[i] == '-'
        } else {
            is_hex_digit(id[i])
        }
}

/// An identifier is not empty, and all its characters are ASCII.
pub proof fn lemma_record_id_ascii(id: Seq<char>)
    requires
        is_record_id(id),
    ensures
        id.len() > 0,
        is_ascii_chars(id),
{
    assert forall|i: int| 0 <= i < id.len() implies '\0' <= #[trigger] id[i] <= '\u{7f}' by {
        if is_hyphen_position(i) {
            assert(id[i] == '-');
        } else {
            assert(is_hex_digit(id[i]));
        }
    }
}

/// Calls `Uuid::new_v4` and formats the value with `to_string`. The value is
/// random, so the contract states only the shape of the text, which is the
/// hyphenated lower-case form of `uuid`'s `Display`. The call panics when the
/// operating system gives no random bytes.
#[verifier::external_body]
pub(crate) fn random_id() -> (id: String)
    ensures
        is_record_id(id@),
{
    uuid::Uuid::new_v4().to_string()
}

} // verus!

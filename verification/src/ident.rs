//! Session identifiers.

use vstd::prelude::*;

verus! {

/// A digit of a lower-case hexadecimal number.
pub open spec fn spec_is_lower_hex(c: char) -> bool {
    ('0' <= c && c <= '9') || ('a' <= c && c <= 'f')
}

/// The places of the hyphens in an identifier.
pub open spec fn spec_is_hyphen_position(i: int) -> bool {
    i == 8 || i == 13 || i == 18 || i == 23
}

/// A session identifier is the text of a random UUID: 36 characters, hyphens
/// after the 8th, 12th, 16th and 20th digit, lower-case hexadecimal digits
/// elsewhere, the version digit `4` and a variant digit of `8`, `9`, `a` or `b`.
pub open spec fn spec_is_session_id(id: Seq<char>) -> bool {
    &&& id.len() == 36
    &&& forall|i: int|
        0 <= i < 36 ==> if spec_is_hyphen_position(i) {
            #[trigger] id[i] == '-'
        } else {
            spec_is_lower_hex(id[i])
        }
    &&& id[14] == '4'
    &&& (id[19] == '8' || id[19] == '9' || id[19] == 'a' || id[19] == 'b')
}

/// Calls `uuid::Uuid::new_v4` and takes the text that `to_string` gives for
/// it. Nothing is claimed about which identifier comes back, only its shape:
/// the hyphenated lower-case form with the version and variant digits that
/// `new_v4` sets. The call aborts if the operating system gives no randomness.
#[verifier::external_body]
pub(crate) fn random_session_id() -> (id: String)
    ensures
        spec_is_session_id(id@),
{
    uuid::Uuid::new_v4().to_string()
}

/// An identifier is not empty and holds no path separator, so the directory
/// named after it is a single path component.
pub proof fn session_id_is_one_component(id: Seq<char>)
    requires
        spec_is_session_id(id),
    ensures
        id.len() > 0,
        !id.contains('/'),
        !id.contains('.'),
{
    assert forall|i: int| 0 <= i < id.len() implies id[i] != '/' && id[i] != '.' by {
        if spec_is_hyphen_position(i) {
            assert(id[i] == '-');
        } else {
            assert(spec_is_lower_hex(id[i]));
        }
    }
}

} // verus!

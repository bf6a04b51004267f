use vstd::prelude::*;

verus! {

/// `c` is a digit or a lowercase letter from `a` to `f`.
pub open spec fn is_lower_hex(c: char) -> bool {
    ('0' <= c <= '9') || ('a' <= c <= 'f')
}

/// `t` is a hyphenated lowercase UUID of version 4 and the RFC 4122 variant:
/// 36 characters, hyphens at 8, 13, 18 and 23, lowercase hex elsewhere, `4` at
/// 14 and one of `8`, `9`, `a`, `b` at 19.
pub open spec fn is_uuid_v4_text(t: Seq<char>) -> bool {
    &&& t.len() == 36
    &&& forall|i: int|
        0 <= i < 36 ==> if i == 8 || i == 13 || i == 18 || i == 23 {
            #[trigger] t[i] == '-'
        } else {
            is_lower_hex(t[i])
        }
    &&& t[14] == '4'
    &&& (t[19] == '8' || t[19] == '9' || t[19] == 'a' || t[19] == 'b')
}

/// Prints `uuid::Uuid::new_v4()`.
///
/// Trusted: the value is random, so nothing names it. What holds of every
/// value, by the uuid crate's source: `new_v4` masks the version nibble to 4
/// and the variant bits to `10`, and `Display` prints the lowercase hyphenated
/// form. A failure of the operating system's random source panics inside
/// uuid; nothing here states it.
#[verifier::external_body]
pub(crate) fn new_uuid_text() -> (text: String)
    ensures
        is_uuid_v4_text(text@),
{
    uuid::Uuid::new_v4().to_string()
}

} // verus!

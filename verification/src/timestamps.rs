use chrono::Local;
use vstd::prelude::*;

verus! {

/// `c` is an ASCII decimal digit.
pub open spec fn is_digit(c: char) -> bool {
    '0' <= c <= '9'
}

/// `t` reads `/MM/DD hh:mm:ss AM` or `/MM/DD hh:mm:ss PM`, each letter a digit.
pub open spec fn is_clock_suffix(t: Seq<char>) -> bool {
    &&& t.len() == 18
    &&& t[0] == '/' && is_digit(t[1]) && is_digit(t[2])
    &&& t[3] == '/' && is_digit(t[4]) && is_digit(t[5])
    &&& t[6] == ' ' && is_digit(t[7]) && is_digit(t[8])
    &&& t[9] == ':' && is_digit(t[10]) && is_digit(t[11])
    &&& t[12] == ':' && is_digit(t[13]) && is_digit(t[14])
    &&& t[15] == ' ' && (t[16] == 'A' || t[16] == 'P') && t[17] == 'M'
}

/// `text` is a date and time printed as `%Y/%m/%d %I:%M:%S %p`: a year of at
/// least four characters followed by the clock suffix.
pub open spec fn is_timestamp_text(text: Seq<char>) -> bool {
    text.len() >= 22 && is_clock_suffix(text.subrange(text.len() - 18, text.len() as int))
}

/// Formats `chrono::Local::now()` with `%Y/%m/%d %I:%M:%S %p`.
///
/// Trusted: the time is read from the machine, so nothing names the result.
/// What holds of every reading, by chrono's formatting code: the year takes at
/// least four characters (zero-padded, signed outside 0..=9999), month, day,
/// 12-hour clock hour, minute and second take two digits each, and `%p` prints
/// `AM` or `PM`.
#[verifier::external_body]
pub(crate) fn local_timestamp() -> (text: String)
    ensures
        is_timestamp_text(text@),
{
    Local::now().format("%Y/%m/%d %I:%M:%S %p").to_string()
}

} // verus!

//! Fresh user ids (uuid crate) and the server's clock (chrono crate).
use vstd::prelude::*;

verus! {

/// A lower-case hexadecimal digit.
pub open spec fn is_lower_hex(c: char) -> bool {
    (48 <= (c as u32) <= 57) || (97 <= (c as u32) <= 102)
}

/// The text of a random (version 4, RFC 4122 variant) UUID in hyphenated lower case:
/// 36 characters, hyphens at 8, 13, 18 and 23, the version digit `4` at 14, one of
/// `8`, `9`, `a`, `b` at 19, and lower-case hexadecimal digits elsewhere.
pub open spec fn is_uuid_v4_text(s: Seq<char>) -> bool {
    &&& s.len() == 36
    &&& s[8] == '-' && s[13] == '-' && s[18] == '-' && s[23] == '-'
    &&& s[14] == '4'
    &&& (s[19] == '8' || s[19] == '9' || s[19] == 'a' || s[19] == 'b')
    &&& forall|i: int|
        0 <= i < 36 && i != 8 && i != 13 && i != 18 && i != 23 ==> is_lower_hex(#[trigger] s[i])
}

/// A decimal digit.
pub open spec fn is_digit(c: char) -> bool {
    48 <= (c as u32) <= 57
}

/// Every character is a decimal digit.
pub open spec fn all_digits(s: Seq<char>) -> bool {
    forall|i: int| 0 <= i < s.len() ==> is_digit(#[trigger] s[i])
}

/// A date as chrono writes it: the year (four digits, or a sign and at least four digits
/// outside 0 to 9999), `-`, the two-digit month, `-`, the two-digit day.
pub open spec fn is_chrono_date(d: Seq<char>) -> bool {
    let n = d.len();
    let y = d.subrange(0, n - 6);
    &&& n >= 10
    &&& d[n - 6] == '-' && d[n - 3] == '-'
    &&& is_digit(d[n - 5]) && is_digit(d[n - 4]) && is_digit(d[n - 2]) && is_digit(d[n - 1])
    &&& ((y.len() == 4 && all_digits(y)) || (y.len() >= 5 && (y[0] == '+' || y[0] == '-')
        && all_digits(y.subrange(1, y.len() as int))))
}

/// A time of day as chrono writes it: two-digit hours, minutes and seconds separated by
/// `:`, then, unless the nanoseconds are zero, `.` and 3, 6 or 9 digits of the fraction.
pub open spec fn is_chrono_time(t: Seq<char>) -> bool {
    &&& t.len() == 8 || t.len() == 12 || t.len() == 15 || t.len() == 18
    &&& t[2] == ':' && t[5] == ':'
    &&& is_digit(t[0]) && is_digit(t[1]) && is_digit(t[3]) && is_digit(t[4])
    &&& is_digit(t[6]) && is_digit(t[7])
    &&& t.len() > 8 ==> t[8] == '.' && all_digits(t.subrange(9, t.len() as int))
}

/// The text of a UTC date and time as chrono writes it: a date, a space, a time of day,
/// a space and `UTC`.
pub open spec fn is_utc_clock_text(s: Seq<char>) -> bool {
    exists|k: int|
        0 <= k && k + 13 <= s.len() && #[trigger] s[k] == ' ' && is_chrono_date(s.subrange(0, k))
            && is_chrono_time(s.subrange(k + 1, s.len() - 4))
            && s.subrange(s.len() - 4, s.len() as int) == " UTC"@
}

/// `uuid::Uuid::new_v4().to_string()`: a random (version 4) UUID in its hyphenated form.
///
/// Trusted: `new_v4` sets the version bits to 4 and the variant bits to RFC 4122, and
/// `Display` writes the lower-case hyphenated form. Its other digits are random, so
/// nothing more is stated of them; in particular, that it differs from every id already
/// stored is not stated. It panics when the operating system's random source fails; that
/// depends on the machine, not on an input, and is not excluded here.
#[verifier::external_body]
pub(crate) fn new_user_id() -> (id: String)
    ensures
        is_uuid_v4_text(id@),
{
    uuid::Uuid::new_v4().to_string()
}

/// `chrono::Utc::now().to_string()`: the current date and time in UTC.
///
/// Trusted: chrono writes a `DateTime<Utc>` as its `NaiveDate` (year, month, day), a
/// space, its `NaiveTime` (hours, minutes, seconds and the fraction, if any), a space and
/// `UTC`; so the text has that form and ends with " UTC". Which date and time it holds
/// depends on the clock and is not stated.
/// `Utc::now` panics when the system clock is before the Unix epoch; that case is not
/// excluded here.
#[verifier::external_body]
pub(crate) fn now_utc_string() -> (s: String)
    ensures
        s@.len() >= 4,
        s@.subrange(s@.len() - 4, s@.len() as int) == " UTC"@,
        is_utc_clock_text(s@),
{
    chrono::Utc::now().to_string()
}

} // verus!

//! The wall clock, read through chrono.

use vstd::prelude::*;

verus! {

/// `c` is a decimal digit.
pub open spec fn is_digit(c: char) -> bool {
    '0' <= c && c <= '9'
}

/// Every character of `s` is a decimal digit.
pub open spec fn all_digits(s: Seq<char>) -> bool {
    forall|i: int| 0 <= i < s.len() ==> is_digit(#[trigger] s[i])
}

/// A year as RFC 3339 text writes it: four digits, or for years past 9999 a
/// `+` followed by at least five digits.
pub open spec fn is_year_text(y: Seq<char>) -> bool {
    ||| (y.len() == 4 && all_digits(y))
    ||| (y.len() >= 6 && y[0] == '+' && all_digits(y.drop_first()))
}

/// The fixed middle part `-MM-DDTHH:MM:SS` of an RFC 3339 date and time.
pub open spec fn is_date_time_text(t: Seq<char>) -> bool {
    &&& t.len() == 15
    &&& t[0] == '-' && is_digit(t[1]) && is_digit(t[2])
    &&& t[3] == '-' && is_digit(t[4]) && is_digit(t[5])
    &&& t[6] == 'T' && is_digit(t[7]) && is_digit(t[8])
    &&& t[9] == ':' && is_digit(t[10]) && is_digit(t[11])
    &&& t[12] == ':' && is_digit(t[13]) && is_digit(t[14])
}

/// The optional fraction of a second: nothing, or a `.` followed by three,
/// six or nine digits.
pub open spec fn is_fraction_text(f: Seq<char>) -> bool {
    ||| f.len() == 0
    ||| ((f.len() == 4 || f.len() == 7 || f.len() == 10) && f[0] == '.' && all_digits(
        f.drop_first(),
    ))
}

/// `s` is an RFC 3339 UTC time as `YYYY-MM-DDTHH:MM:SS[.fraction]+00:00`.
pub open spec fn is_rfc3339_utc(s: Seq<char>) -> bool {
    exists|y: int, f: int|
        #![trigger s.subrange(y, y + 15), s.subrange(y + 15, y + 15 + f)]
        {
            &&& 0 <= y
            &&& 0 <= f
            &&& y + 15 + f + 6 == s.len()
            &&& is_year_text(s.take(y))
            &&& is_date_time_text(s.subrange(y, y + 15))
            &&& is_fraction_text(s.subrange(y + 15, y + 15 + f))
            &&& s.skip(s.len() - 6) == seq!['+', '0', '0', ':', '0', '0']
        }
}

/// Reads `chrono::Utc::now()` and renders it with `DateTime::to_rfc3339`,
/// which writes `YYYY-MM-DDTHH:MM:SS`, then the non-zero sub-second digits
/// in groups of three, six or nine after a `.`, then the UTC offset
/// `+00:00`. The contract claims that shape; which instant it shows is the
/// current time and is left unsaid. (`Utc::now` panics when the system
/// clock reads before 1970.)
#[verifier::external_body]
pub(crate) fn now_rfc3339() -> (stamp: String)
    ensures
        is_rfc3339_utc(stamp@),
{
    chrono::Utc::now().to_rfc3339()
}

/// Reads `chrono::Utc::now()` and returns `DateTime::timestamp`, the number
/// of non-leap seconds since the Unix epoch. `Utc::now` refuses (panics on)
/// clocks before the epoch, so the result is not negative; its value is the
/// current time and is otherwise left unsaid.
#[verifier::external_body]
pub(crate) fn now_unix_seconds() -> (seconds: i64)
    ensures
        seconds >= 0,
{
    chrono::Utc::now().timestamp()
}

} // verus!

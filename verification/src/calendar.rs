//! UTC calendar formatting of millisecond timestamps, done by chrono.
use vstd::prelude::*;

verus! {

/// The last millisecond of the year 9999, UTC.
pub open spec fn last_four_digit_ms() -> int {
    253402300799999
}

/// The first millisecond of the year 0, UTC.
pub open spec fn first_four_digit_ms() -> int {
    -62167219200000
}

/// Timestamps from the start of the year 0 to the end of the year 9999: their years have
/// four digits, which `%Y` writes zero-padded and without a sign.
pub open spec fn in_calendar_range(ms: int) -> bool {
    first_four_digit_ms() <= ms <= last_four_digit_ms()
}

pub open spec fn digit_char(d: int) -> char {
    (48 + d) as char
}

/// `n` (0 to 99) with two digits.
pub open spec fn two_digits(n: int) -> Seq<char> {
    seq![digit_char(n / 10), digit_char(n % 10)]
}

/// `n` (0 to 9999) with four digits.
pub open spec fn four_digits(n: int) -> Seq<char> {
    seq![digit_char(n / 1000), digit_char((n / 100) % 10), digit_char((n / 10) % 10), digit_char(n % 10)]
}

/// The proleptic Gregorian date (year, month, day) of the day `z` days after 1970-01-01.
pub open spec fn civil_date(z: int) -> (int, int, int) {
    let zz = z + 719468;
    let era = zz / 146097;
    let doe = zz - era * 146097;
    let yoe = (doe - doe / 1460 + doe / 36524 - doe / 146096) / 365;
    let doy = doe - (365 * yoe + yoe / 4 - yoe / 100);
    let mp = (5 * doy + 2) / 153;
    let d = doy - (153 * mp + 2) / 5 + 1;
    let m = if mp < 10 {
        mp + 3
    } else {
        mp - 9
    };
    let y = yoe + era * 400 + if m <= 2 {
        1int
    } else {
        0int
    };
    (y, m, d)
}

/// `%Y-%m-%d` of a timestamp: the UTC date.
pub open spec fn utc_date_text(ms: int) -> Seq<char> {
    let (y, m, d) = civil_date(ms / 86400000);
    four_digits(y) + "-"@ + two_digits(m) + "-"@ + two_digits(d)
}

/// `%H:%M` of a timestamp: the UTC hour and minute.
pub open spec fn utc_time_text(ms: int) -> Seq<char> {
    let t = ms % 86400000;
    two_digits(t / 3600000) + ":"@ + two_digits((t % 3600000) / 60000)
}

/// What chrono gives outside `in_calendar_range` (years with a sign or more than four digits): `DateTime::<Utc>::from_timestamp_millis(ms)`
/// (None out of chrono's range), then `format(fmt)`.
pub uninterp spec fn chrono_format_beyond(ms: i64, fmt: Seq<char>) -> Option<Seq<char>>;

/// A timestamp formatted in UTC with `%Y-%m-%d` or `%H:%M`, as chrono does it.
pub open spec fn utc_format(ms: i64, fmt: Seq<char>) -> Option<Seq<char>> {
    if in_calendar_range(ms as int) {
        Some(
            if fmt == "%Y-%m-%d"@ {
                utc_date_text(ms as int)
            } else {
                utc_time_text(ms as int)
            },
        )
    } else {
        chrono_format_beyond(ms, fmt)
    }
}

/// Calls chrono's `DateTime::<Utc>::from_timestamp_millis` and formats the instant with `fmt`.
/// From the start of the year 0 to the end of the year 9999 the result is the UTC date (`%Y-%m-%d`: four-digit
/// year, two-digit month and day) or time of day (`%H:%M`: two-digit hour and minute); outside
/// that range it is only named. The two format strings admitted are valid chrono formats, so
/// `to_string` does not panic.
#[verifier::external_body]
pub(crate) fn format_utc_millis(ms: i64, fmt: &str) -> (r: Option<String>)
    requires
        fmt@ == "%Y-%m-%d"@ || fmt@ == "%H:%M"@,
    ensures
        match r {
            Some(s) => utc_format(ms, fmt@) == Some(s@),
            None => utc_format(ms, fmt@) is None,
        },
        !in_calendar_range(ms as int) ==> (r is Some <==> chrono_format_beyond(ms, fmt@) is Some),
{
    match chrono::DateTime::<chrono::Utc>::from_timestamp_millis(ms) {
        Some(dt) => Some(dt.format(fmt).to_string()),
        None => None,
    }
}

/// The UTC date (`%Y-%m-%d`) of a millisecond timestamp, as chrono formats it; `None` when
/// chrono cannot represent the instant.
pub fn utc_date(ms: i64) -> (r: Option<String>)
    ensures
        match r {
            Some(s) => utc_format(ms, "%Y-%m-%d"@) == Some(s@),
            None => utc_format(ms, "%Y-%m-%d"@) is None,
        },
        in_calendar_range(ms as int) ==> (r matches Some(s) && s@ == utc_date_text(ms as int)),
{
    proof {
        reveal_strlit("%Y-%m-%d");
    }
    format_utc_millis(ms, "%Y-%m-%d")
}

} // verus!

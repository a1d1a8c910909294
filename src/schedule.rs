//! The window in which a lobby may be scheduled, and the clock and
//! date-text readers it is checked against.
use vstd::prelude::*;
use crate::text::is_digit;

verus! {

/// A lobby must start more than this many seconds from now (15 minutes).
pub const MIN_NOTICE_SECS: i64 = 900;

/// A lobby must start less than this many seconds from now (2 weeks).
pub const MAX_AHEAD_SECS: i64 = 1209600;

/// Why a requested time was not accepted.
#[derive(Clone, Copy, Debug, PartialEq, Eq, Structural)]
pub enum ScheduleError {
    /// The text is not a time the date reader understands.
    Unreadable,
    /// Not more than 15 minutes ahead.
    TooSoon,
    /// Not less than 2 weeks ahead.
    TooFar,
}

/// The verdict on scheduling a lobby at `time` when the clock reads `now`.
pub open spec fn schedule_verdict(time: i64, now: i64) -> Result<i64, ScheduleError> {
    if time <= now + MIN_NOTICE_SECS {
        Err(ScheduleError::TooSoon)
    } else if time >= now + MAX_AHEAD_SECS {
        Err(ScheduleError::TooFar)
    } else {
        Ok(time)
    }
}

/// Relies on `chrono::Utc::now` and `DateTime::timestamp`: the current Unix
/// time in seconds. Nothing is known of its value.
#[verifier::external_body]
pub(crate) fn now_secs() -> (r: i64) {
    chrono::Utc::now().timestamp()
}

/// Whether a numeric time-zone offset of 24 hours or more begins at `k`:
/// a sign within the last six characters, followed by two digits above 23.
pub open spec fn wide_zone_at(s: Seq<char>, k: int) -> bool {
    &&& 0 <= k
    &&& s.len() - 6 <= k
    &&& k + 2 < s.len()
    &&& (s[k] == '+' || s[k] == '-')
    &&& is_digit(s[k + 1])
    &&& is_digit(s[k + 2])
    &&& (s[k + 1] as int - '0' as int) * 10 + (s[k + 2] as int - '0' as int) > 23
}

/// Whether `s` is a bare `yyyy-mm-dd` date.
pub open spec fn is_plain_date(s: Seq<char>) -> bool {
    &&& s.len() == 10
    &&& s[4] == '-'
    &&& s[7] == '-'
    &&& forall|k: int| 0 <= k < 10 && k != 4 && k != 7 ==> is_digit(#[trigger] s[k])
}

/// Whether `s` ends in a numeric time-zone offset of 24 hours or more (a
/// bare date is read as a date, whatever its day).
pub open spec fn has_wide_zone(s: Seq<char>) -> bool {
    !is_plain_date(s) && exists|k: int| wide_zone_at(s, k)
}

/// Whether `text` is a bare `yyyy-mm-dd` date.
fn plain_date(text: &str) -> (r: bool)
    ensures
        r == is_plain_date(text@),
{
    if text.unicode_len() != 10 {
        return false;
    }
    let mut k: usize = 0;
    while k < 10
        invariant
            text@.len() == 10,
            k <= 10,
            forall|j: int| 0 <= j < k && j != 4 && j != 7 ==> is_digit(#[trigger] text@[j]),
            k > 4 ==> text@[4] == '-',
            k > 7 ==> text@[7] == '-',
        decreases 10 - k,
    {
        let c = text.get_char(k);
        if k == 4 || k == 7 {
            if c != '-' {
                return false;
            }
        } else if c < '0' || c > '9' {
            assert(!is_digit(text@[k as int]));
            return false;
        }
        k = k + 1;
    }
    true
}

/// Whether `text` ends in a numeric time-zone offset of 24 hours or more.
pub fn wide_zone(text: &str) -> (r: bool)
    ensures
        r == has_wide_zone(text@),
{
    if plain_date(text) {
        return false;
    }
    let n = text.unicode_len();
    if n < 3 {
        assert(forall|k: int| !wide_zone_at(text@, k));
        return false;
    }
    let start: usize = if n >= 6 { n - 6 } else { 0 };
    let mut k: usize = start;
    while k + 2 < n
        invariant
            n == text@.len(),
            n >= 3,
            !is_plain_date(text@),
            start as int == if n >= 6 { n - 6 } else { 0 },
            start <= k,
            k <= n - 2,
            forall|j: int| j < k ==> !wide_zone_at(text@, j),
        decreases n - k,
    {
        let c = text.get_char(k);
        if c == '+' || c == '-' {
            let d1 = text.get_char(k + 1);
            let d2 = text.get_char(k + 2);
            if '0' <= d1 && d1 <= '9' && '0' <= d2 && d2 <= '9' {
                let h = (d1 as u32 - '0' as u32) * 10 + (d2 as u32 - '0' as u32);
                assert(h as int == (d1 as int - '0' as int) * 10 + (d2 as int - '0' as int));
                if h > 23 {
                    assert(text@[k as int] == c && text@[k + 1] == d1 && text@[k + 2] == d2);
                    assert(!is_plain_date(text@));
                    assert(wide_zone_at(text@, k as int));
                    assert(has_wide_zone(text@));
                    return true;
                }
            }
        }
        k = k + 1;
    }
    assert(forall|j: int| !wide_zone_at(text@, j));
    false
}

/// Relies on `dateparser::parse_with_timezone` (with the fixed UTC offset
/// built by `chrono::FixedOffset::east_opt`) and `DateTime::timestamp`: the
/// Unix time the text names, or `None` when it cannot read the text. A text
/// without a date is read relative to the current day, so nothing is known
/// of the result. A numeric zone in the text is turned into an offset with
/// `FixedOffset::east`, which panics at 24 hours or more, so such texts are
/// left out.
#[verifier::external_body]
fn read_time(text: &str, offset_secs: i32) -> (r: Option<i64>)
    requires
        -86400 < offset_secs < 86400,
        !has_wide_zone(text@),
{
    match chrono::FixedOffset::east_opt(offset_secs) {
        Some(tz) => match dateparser::parse_with_timezone(text, &tz) {
            Ok(t) => Some(t.timestamp()),
            Err(_) => None,
        },
        None => None,
    }
}

/// Accepts `time` when it is more than 15 minutes and less than 2 weeks
/// after `now`.
pub fn check_schedule(time: i64, now: i64) -> (r: Result<i64, ScheduleError>)
    ensures
        r == schedule_verdict(time, now),
{
    let gap = time as i128 - now as i128;
    if gap <= MIN_NOTICE_SECS as i128 {
        Err(ScheduleError::TooSoon)
    } else if gap >= MAX_AHEAD_SECS as i128 {
        Err(ScheduleError::TooFar)
    } else {
        Ok(time)
    }
}

/// Reads a requested lobby time, given in the guild's time zone
/// (`utc_offset_hours`, from -23 to 23), and checks it against the clock.
/// A text ending in a time-zone offset of 24 hours or more is unreadable.
/// An accepted time lay inside the window when the clock was read; a time
/// refused as too soon or too far lay outside it.
pub fn requested_schedule(text: &str, utc_offset_hours: i32) -> (r: Result<i64, ScheduleError>)
    requires
        -23 <= utc_offset_hours <= 23,
    ensures
        r matches Ok(t) ==> exists|now: i64| #[trigger] schedule_verdict(t, now) == Ok::<i64, ScheduleError>(t),
        has_wide_zone(text@) ==> r == Err::<i64, ScheduleError>(ScheduleError::Unreadable),
        r matches Err(e) ==> e == ScheduleError::Unreadable || exists|t: i64, now: i64|
            #[trigger] schedule_verdict(t, now) == Err::<i64, ScheduleError>(e),
{
    if wide_zone(text) {
        return Err(ScheduleError::Unreadable);
    }
    match read_time(text, utc_offset_hours * 3600) {
        None => Err(ScheduleError::Unreadable),
        Some(t) => {
            let now = now_secs();
            let r = check_schedule(t, now);
            assert(r matches Ok(u) ==> schedule_verdict(u, now) == Ok::<i64, ScheduleError>(u));
            assert(r matches Err(e) ==> schedule_verdict(t, now) == Err::<i64, ScheduleError>(e));
            r
        },
    }
}

} // verus!

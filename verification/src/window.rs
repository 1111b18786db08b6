//! The lower bound of the publication window: midnight of the day before.

use vstd::prelude::*;

verus! {

/// The seconds of one day.
pub const DAY_SECONDS: i64 = 86_400;

/// The calendar date in UTC of the instant `secs` seconds after the Unix
/// epoch, in the way `chrono` prints a date: as year, month and day between
/// hyphens for the years 0 to 9999, with a sign before the year for others.
/// `None` where `chrono` has no date for the instant.
pub uninterp spec fn utc_date_text(secs: i64) -> Option<Seq<char>>;

/// `DateTime::from_timestamp` with no nanoseconds, then `date_naive` of the
/// instant and the date's `Display`. The result is a function of `secs`
/// alone: no clock and no time zone is read.
#[verifier::external_body]
fn utc_date(secs: i64) -> (r: Option<String>)
    ensures
        match r {
            Some(date) => utc_date_text(secs) == Some(date@),
            None => utc_date_text(secs).is_none(),
        },
{
    match chrono::DateTime::from_timestamp(secs, 0) {
        Some(instant) => Some(instant.date_naive().to_string()),
        None => None,
    }
}

/// The characters of which a printed date is made.
pub open spec fn is_date_char(c: char) -> bool {
    ('0' <= c && c <= '9') || c == '-' || c == '+'
}

/// A text all of whose characters are those of a printed date.
pub open spec fn is_date_text(s: Seq<char>) -> bool {
    forall|i: int| 0 <= i < s.len() ==> is_date_char(#[trigger] s[i])
}

/// The time of day that ends every window: midnight, with no offset.
pub open spec fn midnight() -> Seq<char> {
    "T00:00:00"@
}

/// A date followed by midnight.
pub open spec fn is_window_text(s: Seq<char>) -> bool {
    exists|date: Seq<char>| is_date_text(date) && s == #[trigger] (date + midnight())
}

/// The window of a retrieval made at `now` seconds after the Unix epoch:
/// the UTC date of the instant 24 hours before, at midnight. `None` where
/// that instant is below the range of `i64` or has no date, and where the
/// date's text holds a character foreign to dates.
pub open spec fn window_text(now: i64) -> Option<Seq<char>> {
    if now - DAY_SECONDS < i64::MIN {
        None
    } else {
        match utc_date_text((now - DAY_SECONDS) as i64) {
            Some(date) => if is_date_text(date) {
                Some(date + midnight())
            } else {
                None
            },
            None => None,
        }
    }
}

/// Whatever the instant and wherever the caller is, the window is the UTC
/// date of the instant 24 hours before, followed by midnight.
pub proof fn lemma_window_is_the_day_before(now: i64)
    ensures
        window_text(now) matches Some(window) ==> {
            &&& i64::MIN <= now - DAY_SECONDS
            &&& utc_date_text((now - DAY_SECONDS) as i64) matches Some(date)
            &&& window == date + midnight()
            &&& is_window_text(window)
        },
{
}

/// The inclusive lower bound for "published since": a UTC date at midnight,
/// as an ISO 8601 date and time without offset.
#[derive(Debug, PartialEq, Eq)]
pub struct QueryWindow {
    text: String,
}

impl View for QueryWindow {
    type V = Seq<char>;

    closed spec fn view(&self) -> Seq<char> {
        self.text@
    }
}

fn is_date_string(s: &str) -> (b: bool)
    ensures
        b == is_date_text(s@),
{
    let n = s.unicode_len();
    let mut i: usize = 0;
    while i < n
        invariant
            n == s@.len(),
            i <= n,
            forall|k: int| 0 <= k < i ==> is_date_char(#[trigger] s@[k]),
        decreases n - i,
    {
        let c = s.get_char(i);
        if !(('0' <= c && c <= '9') || c == '-' || c == '+') {
            return false;
        }
        i += 1;
    }
    true
}

impl QueryWindow {
    #[verifier::type_invariant]
    spec fn well_formed(self) -> bool {
        is_window_text(self.text@)
    }

    /// The window that begins with the day `date`: the date followed by
    /// midnight. `None` where `date` holds a character foreign to dates.
    pub fn from_date(date: String) -> (r: Option<QueryWindow>)
        ensures
            match r {
                Some(w) => is_date_text(date@) && w@ == date@ + midnight(),
                None => !is_date_text(date@),
            },
    {
        if !is_date_string(date.as_str()) {
            return None;
        }
        let ghost printed = date@;
        let mut text = date;
        text.append("T00:00:00");
        assert(text@ == printed + midnight());
        Some(QueryWindow { text })
    }

    /// The window of a retrieval made at `now` seconds after the Unix epoch.
    pub fn at(now: i64) -> (r: Option<QueryWindow>)
        ensures
            match r {
                Some(w) => window_text(now) == Some(w@),
                None => window_text(now).is_none(),
            },
    {
        if now < i64::MIN + DAY_SECONDS {
            return None;
        }
        match utc_date(now - DAY_SECONDS) {
            None => None,
            Some(date) => QueryWindow::from_date(date),
        }
    }

    /// The window as text: a date followed by midnight.
    pub fn as_str(&self) -> (s: &str)
        ensures
            s@ == self@,
            is_window_text(s@),
    {
        proof {
            use_type_invariant(self);
        }
        self.text.as_str()
    }
}

} // verus!

//! Points in time as the backend reports them, and their text.

use vstd::prelude::*;
use vstd::string::*;

verus! {

/// The text of the point in time `seconds` after the epoch and
/// `subsecond_nanos` nanoseconds into that second, as the backend's own
/// types write it: for the years 1 to 9999 the calendar date and the time of
/// day in universal time; for any other year the number of seconds, with a
/// decimal fraction where the nanoseconds are not 0.
pub uninterp spec fn date_time_text(seconds: int, subsecond_nanos: int) -> Seq<char>;

/// Writes a point in time as the crate `aws_smithy_types` does: the value
/// is made with `DateTime::from_secs_and_nanos` and written by the `Display`
/// of `DateTime`. Trusted: the text depends on the two numbers alone, and
/// the call returns for every count of nanoseconds below a second's worth.
#[verifier::external_body]
fn format_date_time(seconds: i64, subsecond_nanos: u32) -> (text: String)
    requires
        subsecond_nanos < 1_000_000_000,
    ensures
        text@ == date_time_text(seconds as int, subsecond_nanos as int),
{
    aws_smithy_types::DateTime::from_secs_and_nanos(seconds, subsecond_nanos).to_string()
}

/// A point in time: whole seconds since the epoch, and the nanoseconds into
/// the second, of which there are fewer than a second holds.
pub struct Timestamp {
    seconds: i64,
    subsecond_nanos: u32,
}

impl Timestamp {
    #[verifier::type_invariant]
    spec fn well_formed(&self) -> bool {
        self.subsecond_nanos < 1_000_000_000
    }

    /// Whole seconds since the epoch.
    pub closed spec fn seconds_of(&self) -> int {
        self.seconds as int
    }

    /// Nanoseconds into the second.
    pub closed spec fn nanos_of(&self) -> int {
        self.subsecond_nanos as int
    }

    /// The text of this point in time.
    pub open spec fn text_of(&self) -> Seq<char> {
        date_time_text(self.seconds_of(), self.nanos_of())
    }

    /// The point in time `seconds` after the epoch and `subsecond_nanos`
    /// into that second; `None` where the nanoseconds make up a second or
    /// more.
    pub fn new(seconds: i64, subsecond_nanos: u32) -> (t: Option<Timestamp>)
        ensures
            t is Some <==> subsecond_nanos < 1_000_000_000,
            t matches Some(at) ==> at.seconds_of() == seconds && at.nanos_of() == subsecond_nanos,
    {
        if subsecond_nanos < 1_000_000_000 {
            Some(Timestamp { seconds, subsecond_nanos })
        } else {
            None
        }
    }

    /// The text of this point in time.
    pub fn text(&self) -> (text: String)
        ensures
            text@ == self.text_of(),
    {
        proof {
            use_type_invariant(self);
        }
        format_date_time(self.seconds, self.subsecond_nanos)
    }
}

/// The text of `at`, or `fallback` where no time is known.
pub open spec fn or_time(at: Option<Timestamp>, fallback: Seq<char>) -> Seq<char> {
    match at {
        Some(t) => t.text_of(),
        None => fallback,
    }
}

/// The text of `at`, or `fallback` where no time is known.
pub fn time_or(at: &Option<Timestamp>, fallback: &str) -> (text: String)
    ensures
        text@ == or_time(*at, fallback@),
{
    match at {
        Some(t) => t.text(),
        None => String::from_str(fallback),
    }
}

} // verus!

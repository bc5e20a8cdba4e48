//! Values with the moment at which they came about.

use crate::json::ToJson;
use crate::outside;
use vstd::prelude::*;
use vstd::string::*;

verus! {

/// A moment, counted from the Unix epoch.
#[derive(Clone, Copy, Debug, PartialEq, Eq)]
pub struct Timestamp {
    seconds: i64,
    nanoseconds: u32,
}

impl Timestamp {
    #[verifier::type_invariant]
    spec fn holds_a_moment(self) -> bool {
        outside::is_moment(self.seconds as int, self.nanoseconds as int)
    }

    /// The whole seconds since the Unix epoch.
    pub closed spec fn seconds(&self) -> int {
        self.seconds as int
    }

    /// The nanoseconds after the whole seconds.
    pub closed spec fn nanoseconds(&self) -> int {
        self.nanoseconds as int
    }

    /// The present moment. Which one of those that the clock can show is left to the clock.
    pub fn now() -> (now: Timestamp)
        ensures
            outside::is_clock_moment(now.seconds(), now.nanoseconds()),
    {
        let (seconds, nanoseconds): (i64, u32) = outside::utc_now();
        Timestamp { seconds, nanoseconds }
    }

    /// The moment at this many seconds and nanoseconds, where it can be held.
    pub fn from_parts(seconds: i64, nanoseconds: u32) -> (moment: Option<Timestamp>)
        ensures
            moment is Some <==> outside::is_moment(seconds as int, nanoseconds as int),
            moment matches Some(m) ==> m.seconds() == seconds && m.nanoseconds() == nanoseconds,
    {
        let last_of_minute = if seconds >= 0 {
            seconds % 60 == 59
        } else if seconds >= -8334601228800 {
            (seconds + 8334601228800) % 60 == 59
        } else {
            false
        };
        if seconds >= -8334601228800 && seconds <= 8210266876799 && nanoseconds < 2_000_000_000 && (
        nanoseconds < 1_000_000_000 || last_of_minute) {
            Some(Timestamp { seconds, nanoseconds })
        } else {
            None
        }
    }

    /// The whole seconds since the Unix epoch.
    pub fn unix_seconds(&self) -> (seconds: i64)
        ensures
            seconds == self.seconds(),
    {
        self.seconds
    }

    /// The nanoseconds after the whole seconds.
    pub fn subsec_nanoseconds(&self) -> (nanoseconds: u32)
        ensures
            nanoseconds == self.nanoseconds(),
    {
        self.nanoseconds
    }
}

impl ToJson for Timestamp {
    open spec fn json(&self) -> Seq<char> {
        outside::json_moment(self.seconds(), self.nanoseconds())
    }

    fn write_json(&self, out: &mut String) {
        proof {
            use_type_invariant(self);
        }
        let json = outside::json_timestamp(self.seconds, self.nanoseconds);
        out.append(json.as_str());
    }
}

/// A value with the moment at which it came about.
#[derive(Clone, Debug)]
pub struct Timestamped<T> {
    pub timestamp: Timestamp,
    pub value: T,
}

impl<T> Timestamped<T> {
    /// The value, at the present moment.
    pub fn now(value: T) -> (timestamped: Timestamped<T>)
        ensures
            timestamped.value == value,
            outside::is_clock_moment(
                timestamped.timestamp.seconds(),
                timestamped.timestamp.nanoseconds(),
            ),
    {
        Timestamped { timestamp: Timestamp::now(), value }
    }
}

impl<T: ToJson> ToJson for Timestamped<T> {
    open spec fn json(&self) -> Seq<char> {
        "{\"timestamp\":"@ + self.timestamp.json() + ",\"value\":"@ + self.value.json() + "}"@
    }

    fn write_json(&self, out: &mut String) {
        out.append("{\"timestamp\":");
        self.timestamp.write_json(out);
        out.append(",\"value\":");
        self.value.write_json(out);
        out.append("}");
        assert(out@ =~= old(out)@ + self.json());
    }
}

} // verus!

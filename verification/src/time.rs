//! UTC instants as chrono represents them, held as plain values.
use vstd::prelude::*;

verus! {

/// Whether `chrono::DateTime::<Utc>::from_timestamp(secs, nanos)` returns a value,
/// that is, whether chrono represents the UTC instant `secs` seconds and `nanos`
/// nanoseconds after the Unix epoch.
pub uninterp spec fn chrono_accepts(secs: i64, nanos: u32) -> bool;

/// Whole minutes from `earlier` to `later`, each given by Unix seconds and sub-second
/// nanoseconds, as chrono's `later.signed_duration_since(earlier).num_minutes()` counts
/// them: whole days apart times 86400 seconds, plus the difference of the times of day
/// (a leap second, nanoseconds of 10^9 or more, counting as one more second when the
/// other instant lies later in the day), plus the difference of the nanoseconds; the
/// whole seconds of that span, cut toward zero, divided by 60 toward zero.
pub open spec fn chrono_whole_minutes(
    later_secs: i64,
    later_nanos: u32,
    earlier_secs: i64,
    earlier_nanos: u32,
) -> i64 {
    let later_day = later_secs as int / 86400;
    let later_tod = later_secs as int % 86400;
    let earlier_day = earlier_secs as int / 86400;
    let earlier_tod = earlier_secs as int % 86400;
    let tod_secs = if later_tod > earlier_tod && earlier_nanos >= 1_000_000_000 {
        later_tod - earlier_tod + 1
    } else if later_tod < earlier_tod && later_nanos >= 1_000_000_000 {
        later_tod - earlier_tod - 1
    } else {
        later_tod - earlier_tod
    };
    let frac = later_nanos as int - earlier_nanos as int;
    let secs = (later_day - earlier_day) * 86400 + tod_secs + frac / 1_000_000_000;
    let nanos = frac % 1_000_000_000;
    let whole_secs = if secs < 0 && nanos > 0 { secs + 1 } else { secs };
    (if whole_secs >= 0 { whole_secs / 60 } else { -((-whole_secs) / 60) }) as i64
}

/// Calls `chrono::DateTime::<Utc>::from_timestamp(secs, nanos)` and reports whether it
/// returned a value. The contract claims only that the answer is `chrono_accepts`,
/// a function of the two arguments.
#[verifier::external_body]
fn chrono_from_timestamp_is_some(secs: i64, nanos: u32) -> (ok: bool)
    ensures
        ok == chrono_accepts(secs, nanos),
{
    chrono::DateTime::<chrono::Utc>::from_timestamp(secs, nanos).is_some()
}

/// Rebuilds both instants with `chrono::DateTime::<Utc>::from_timestamp` and returns
/// `later.signed_duration_since(earlier).num_minutes()`. The contract claims that the
/// result is what `chrono_whole_minutes` spells out for the four plain values; `requires` leaves out the
/// instants that chrono cannot represent, on which the rebuild would panic.
#[verifier::external_body]
fn chrono_minutes_since(later_secs: i64, later_nanos: u32, earlier_secs: i64, earlier_nanos: u32) -> (m: i64)
    requires
        chrono_accepts(later_secs, later_nanos),
        chrono_accepts(earlier_secs, earlier_nanos),
    ensures
        m == chrono_whole_minutes(later_secs, later_nanos, earlier_secs, earlier_nanos),
{
    let later = chrono::DateTime::<chrono::Utc>::from_timestamp(later_secs, later_nanos).unwrap();
    let earlier = chrono::DateTime::<chrono::Utc>::from_timestamp(earlier_secs, earlier_nanos).unwrap();
    later.signed_duration_since(earlier).num_minutes()
}

/// A UTC instant: seconds since the Unix epoch and the sub-second nanoseconds, as
/// chrono's `timestamp()` and `timestamp_subsec_nanos()` give them. Two instants are
/// equal exactly when the chrono values they stand for are equal.
#[derive(Clone, Copy, Debug, PartialEq, Eq, Structural)]
pub struct Instant {
    secs: i64,
    nanos: u32,
}

impl Instant {
    /// Only instants that chrono represents exist.
    #[verifier::type_invariant]
    spec fn representable(self) -> bool {
        chrono_accepts(self.secs, self.nanos)
    }

    /// Seconds since the Unix epoch.
    pub closed spec fn unix_secs(self) -> i64 {
        self.secs
    }

    /// Nanoseconds past `unix_secs`.
    pub closed spec fn subsec_nanos(self) -> u32 {
        self.nanos
    }

    /// The instant `secs` seconds and `nanos` nanoseconds after the Unix epoch, or `None`
    /// where chrono cannot represent it.
    pub fn from_unix(secs: i64, nanos: u32) -> (r: Option<Instant>)
        ensures
            r is Some <==> chrono_accepts(secs, nanos),
            r matches Some(t) ==> t.unix_secs() == secs && t.subsec_nanos() == nanos,
    {
        if chrono_from_timestamp_is_some(secs, nanos) {
            Some(Instant { secs, nanos })
        } else {
            None
        }
    }

    /// Seconds since the Unix epoch.
    pub fn secs(&self) -> (s: i64)
        ensures
            s == self.unix_secs(),
    {
        self.secs
    }

    /// Nanoseconds past `secs()`.
    pub fn nanos(&self) -> (n: u32)
        ensures
            n == self.subsec_nanos(),
    {
        self.nanos
    }

    /// Whole minutes elapsed from `earlier` to `self`, as chrono's
    /// `signed_duration_since(..).num_minutes()` counts them.
    pub fn minutes_since(&self, earlier: &Instant) -> (m: i64)
        ensures
            m == chrono_whole_minutes(
                self.unix_secs(),
                self.subsec_nanos(),
                earlier.unix_secs(),
                earlier.subsec_nanos(),
            ),
    {
        proof {
            use_type_invariant(self);
            use_type_invariant(earlier);
        }
        chrono_minutes_since(self.secs, self.nanos, earlier.secs, earlier.nanos)
    }
}

/// No time passes between an instant and itself, and a span of 60 seconds to the second
/// is one minute either way round.
pub proof fn law_whole_minutes_of_simple_spans(secs: i64, nanos: u32)
    requires
        nanos < 1_000_000_000,
        secs <= i64::MAX - 60,
    ensures
        chrono_whole_minutes(secs, nanos, secs, nanos) == 0,
        chrono_whole_minutes((secs + 60) as i64, nanos, secs, nanos) == 1,
        chrono_whole_minutes(secs, nanos, (secs + 60) as i64, nanos) == -1,
{
}

} // verus!

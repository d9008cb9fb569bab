//! Instants in time, as whole nanoseconds since the Unix epoch.

use vstd::prelude::*;

verus! {

/// Nanoseconds in one second.
pub const NANOS_PER_SECOND: i128 = 1_000_000_000;

/// The earliest instant a [`Timestamp`] can hold: `-009999-01-02T01:59:59Z`.
pub const MIN_SECOND: i64 = -377_705_023_201;

/// The last whole second a [`Timestamp`] can hold: `9999-12-30T22:00:00Z`.
pub const MAX_SECOND: i64 = 253_402_207_200;

/// [`MIN_SECOND`] in nanoseconds.
pub const MIN_NANOSECOND: i128 = -377_705_023_201_000_000_000;

/// The last nanosecond of [`MAX_SECOND`].
pub const MAX_NANOSECOND: i128 = 253_402_207_200_999_999_999;

/// Whether `nanos` nanoseconds since the epoch is an instant that a
/// [`Timestamp`] can hold.
pub open spec fn representable(nanos: int) -> bool {
    MIN_NANOSECOND <= nanos <= MAX_NANOSECOND
}

/// An instant in time, with nanosecond precision.
///
/// The range is that of `jiff::Timestamp`, so every value converts to one and
/// back without loss.
#[derive(Clone, Copy, Debug, PartialEq, Eq)]
pub struct Timestamp {
    nanos: i128,
}

impl View for Timestamp {
    type V = int;

    /// Nanoseconds since the Unix epoch.
    closed spec fn view(&self) -> int {
        self.nanos as int
    }
}

/// The instant `seconds` whole seconds after `t`, where it is representable.
pub open spec fn add_seconds(t: Timestamp, seconds: i64) -> Option<int> {
    let sum = t@ + seconds * NANOS_PER_SECOND;
    if representable(sum) {
        Some(sum)
    } else {
        None
    }
}

impl Timestamp {
    #[verifier::type_invariant]
    spec fn in_range(self) -> bool {
        representable(self.nanos as int)
    }

    /// Every timestamp that executable code holds is representable.
    pub open spec fn wf(&self) -> bool {
        representable(self@)
    }

    /// The instant `nanosecond` nanoseconds after the Unix epoch (before it,
    /// where negative), or `None` where that is out of range.
    pub fn from_nanosecond(nanosecond: i128) -> (r: Option<Timestamp>)
        ensures
            representable(nanosecond as int) ==> r.is_some() && r.unwrap()@ == nanosecond,
            !representable(nanosecond as int) ==> r.is_none(),
            r.is_some() ==> r.unwrap().wf(),
    {
        if MIN_NANOSECOND <= nanosecond && nanosecond <= MAX_NANOSECOND {
            Some(Timestamp { nanos: nanosecond })
        } else {
            None
        }
    }

    /// The instant `second` whole seconds after the Unix epoch, or `None`
    /// where that is out of range.
    pub fn from_second(second: i64) -> (r: Option<Timestamp>)
        ensures
            MIN_SECOND <= second <= MAX_SECOND ==> r.is_some() && r.unwrap()@ == second
                * NANOS_PER_SECOND,
            !(MIN_SECOND <= second <= MAX_SECOND) ==> r.is_none(),
            r.is_some() ==> r.unwrap().wf(),
    {
        if MIN_SECOND <= second && second <= MAX_SECOND {
            let wide: i128 = second as i128;
            Some(Timestamp { nanos: wide * NANOS_PER_SECOND })
        } else {
            None
        }
    }

    /// Nanoseconds since the Unix epoch.
    pub fn as_nanosecond(&self) -> (n: i128)
        ensures
            n == self@,
            representable(n as int),
    {
        proof {
            use_type_invariant(self);
        }
        self.nanos
    }

    /// The current system time; `None` where the system clock is set to an
    /// instant outside the range.
    pub fn now() -> (t: Option<Timestamp>)
        ensures
            t matches Some(x) ==> x.wf(),
    {
        system_now()
    }

    /// This instant moved by `seconds` whole seconds; `None` where the result
    /// is out of range.
    pub fn checked_add_seconds(self, seconds: i64) -> (r: Option<Timestamp>)
        ensures
            match add_seconds(self, seconds) {
                Some(n) => r.is_some() && r.unwrap()@ == n,
                None => r.is_none(),
            },
            r.is_some() ==> r.unwrap().wf(),
    {
        proof {
            use_type_invariant(self);
        }
        jiff_checked_add(self, seconds)
    }

    /// The instant as text: date and time in UTC, as in
    /// `2025-01-15T10:30:00Z`.
    pub fn to_text(&self) -> (r: String)
        ensures
            r@ == instant_text(self@),
    {
        proof {
            use_type_invariant(self);
        }
        jiff_display(*self)
    }

    /// Whether this instant is strictly later than `other`.
    pub fn is_after(&self, other: &Timestamp) -> (r: bool)
        ensures
            r == (self@ > other@),
    {
        self.nanos > other.nanos
    }
}

/// The text that jiff's `Display` writes for the instant `nanos` nanoseconds
/// after the Unix epoch.
pub uninterp spec fn instant_text(nanos: int) -> Seq<char>;

/// Writes an instant with the `Display` of `jiff::Timestamp`.
///
/// Trusted: the text depends on the instant alone.
#[verifier::external_body]
fn jiff_display(t: Timestamp) -> (r: String)
    requires
        t.wf(),
    ensures
        r@ == instant_text(t@),
{
    match jiff::Timestamp::from_nanosecond(t.nanos) {
        Ok(instant) => instant.to_string(),
        Err(_) => String::new(),
    }
}

/// Reads the system clock with `std::time::SystemTime::now` and takes it as
/// a `jiff::Timestamp` through jiff's `TryFrom`.
///
/// Trusted: an instant that jiff accepts lies in jiff's own range. jiff
/// refuses a system time outside that range; nothing is promised of when it
/// accepts.
#[verifier::external_body]
fn system_now() -> (t: Option<Timestamp>)
    ensures
        t matches Some(x) ==> x.wf(),
{
    match jiff::Timestamp::try_from(std::time::SystemTime::now()) {
        Ok(instant) => Some(Timestamp { nanos: instant.as_nanosecond() }),
        Err(_) => None,
    }
}

/// Adds whole seconds with `jiff::Timestamp::checked_add`.
///
/// Trusted: jiff adds the duration to the instant exactly and refuses the sum
/// if and only if it lies outside its range.
#[verifier::external_body]
fn jiff_checked_add(t: Timestamp, seconds: i64) -> (r: Option<Timestamp>)
    requires
        t.wf(),
    ensures
        match add_seconds(t, seconds) {
            Some(n) => r.is_some() && r.unwrap()@ == n,
            None => r.is_none(),
        },
        r.is_some() ==> r.unwrap().wf(),
{
    let start = jiff::Timestamp::from_nanosecond(t.nanos).ok()?;
    let end = start.checked_add(jiff::SignedDuration::from_secs(seconds)).ok()?;
    Some(Timestamp { nanos: end.as_nanosecond() })
}

} // verus!

//! The two kinds of time values: a span of elapsed time and a point in time
//! after the Unix epoch.
use vstd::prelude::*;

verus! {

/// Nanoseconds in one second.
pub const NANOS_PER_SEC: u32 = 1_000_000_000;

/// The first second of the year 10000: timestamps stay below it.
pub const TIMESTAMP_SECS_LIMIT: u64 = 253402300800;

/// A non-negative span of time: whole seconds and a fraction of a second in
/// nanoseconds.
#[derive(Clone, Copy, Debug, PartialEq, Eq, Structural, Hash)]
pub struct Span {
    secs: u64,
    nanos: u32,
}

impl Span {
    /// The fraction of a second is below one second.
    pub open spec fn wf(self) -> bool {
        self.nanos_spec() < NANOS_PER_SEC
    }

    #[verifier::type_invariant]
    spec fn inv(self) -> bool {
        self.wf()
    }

    /// Whole seconds of the span.
    pub closed spec fn secs_spec(self) -> u64 {
        self.secs
    }

    /// Nanoseconds past the whole seconds.
    pub closed spec fn nanos_spec(self) -> u32 {
        self.nanos
    }

    /// The span with exactly these parts.
    pub closed spec fn of(secs: u64, nanos: u32) -> Span {
        Span { secs, nanos }
    }

    /// The parts of `Span::of` are the ones given.
    pub broadcast proof fn lemma_of_parts(secs: u64, nanos: u32)
        ensures
            #[trigger] Span::of(secs, nanos).secs_spec() == secs,
            Span::of(secs, nanos).nanos_spec() == nanos,
    {
    }

    /// A span is determined by its parts.
    pub broadcast proof fn lemma_parts_of(s: Span)
        ensures
            #[trigger] Span::of(s.secs_spec(), s.nanos_spec()) == s,
    {
    }

    /// A span of `secs` seconds and `nanos` nanoseconds; nanoseconds beyond
    /// one second carry into the seconds.
    pub fn new(secs: u64, nanos: u32) -> (r: Span)
        requires
            secs + nanos / NANOS_PER_SEC <= u64::MAX,
        ensures
            r.secs_spec() == secs + nanos / NANOS_PER_SEC,
            r.nanos_spec() == nanos % NANOS_PER_SEC,
            r.wf(),
            nanos < NANOS_PER_SEC ==> r == Span::of(secs, nanos),
    {
        Span { secs: secs + (nanos / NANOS_PER_SEC) as u64, nanos: nanos % NANOS_PER_SEC }
    }

    /// A span of whole seconds.
    pub fn from_secs(secs: u64) -> (r: Span)
        ensures
            r.secs_spec() == secs,
            r.nanos_spec() == 0,
            r.wf(),
    {
        Span { secs, nanos: 0 }
    }

    /// Whole seconds of the span.
    pub fn as_secs(&self) -> (r: u64)
        ensures
            r == self.secs_spec(),
    {
        self.secs
    }

    /// Nanoseconds past the whole seconds; always below one second.
    pub fn subsec_nanos(&self) -> (r: u32)
        ensures
            r == self.nanos_spec(),
            r < NANOS_PER_SEC,
    {
        proof {
            use_type_invariant(self);
        }
        self.nanos
    }
}

/// A point in time: seconds and nanoseconds after 1970-01-01T00:00:00Z,
/// before the year 10000.
#[derive(Clone, Copy, Debug, PartialEq, Eq, Structural, Hash)]
pub struct Timestamp {
    secs: u64,
    nanos: u32,
}

impl Timestamp {
    /// Within the years 1970 to 9999, with the fraction below one second.
    pub open spec fn wf(self) -> bool {
        self.secs_spec() < TIMESTAMP_SECS_LIMIT && self.nanos_spec() < NANOS_PER_SEC
    }

    #[verifier::type_invariant]
    spec fn inv(self) -> bool {
        self.wf()
    }

    /// Whole seconds since the Unix epoch.
    pub closed spec fn secs_spec(self) -> u64 {
        self.secs
    }

    /// Nanoseconds past the whole seconds.
    pub closed spec fn nanos_spec(self) -> u32 {
        self.nanos
    }

    /// The point in time with exactly these parts.
    pub closed spec fn of(secs: u64, nanos: u32) -> Timestamp {
        Timestamp { secs, nanos }
    }

    /// The parts of `Timestamp::of` are the ones given.
    pub broadcast proof fn lemma_of_parts(secs: u64, nanos: u32)
        ensures
            #[trigger] Timestamp::of(secs, nanos).secs_spec() == secs,
            Timestamp::of(secs, nanos).nanos_spec() == nanos,
    {
    }

    /// A point in time is determined by its parts.
    pub broadcast proof fn lemma_parts_of(s: Timestamp)
        ensures
            #[trigger] Timestamp::of(s.secs_spec(), s.nanos_spec()) == s,
    {
    }

    /// The point `secs` seconds and `nanos` nanoseconds after the epoch, or
    /// `None` where that is not a point of the years 1970 to 9999 written
    /// with a fraction below one second.
    pub fn from_unix(secs: u64, nanos: u32) -> (r: Option<Timestamp>)
        ensures
            r is Some <==> secs < TIMESTAMP_SECS_LIMIT && nanos < NANOS_PER_SEC,
            r matches Some(t) ==> t == Timestamp::of(secs, nanos),
    {
        if secs < TIMESTAMP_SECS_LIMIT && nanos < NANOS_PER_SEC {
            Some(Timestamp { secs, nanos })
        } else {
            None
        }
    }

    /// Whole seconds since the Unix epoch.
    pub fn unix_secs(&self) -> (r: u64)
        ensures
            r == self.secs_spec(),
            r < TIMESTAMP_SECS_LIMIT,
    {
        proof {
            use_type_invariant(self);
        }
        self.secs
    }

    /// Nanoseconds past the whole seconds; always below one second.
    pub fn subsec_nanos(&self) -> (r: u32)
        ensures
            r == self.nanos_spec(),
            r < NANOS_PER_SEC,
    {
        proof {
            use_type_invariant(self);
        }
        self.nanos
    }
}

} // verus!

//! Time spans and points in time as plain integer values.
//!
//! `Duration` is an exact count of nanoseconds split into whole seconds and a
//! sub-second part, as the frame metadata model needs it (TTL checks, TTL
//! projections to whole milliseconds, nanosecond wire fields).
use vstd::prelude::*;

verus! {

/// Nanoseconds per second.
pub const NANOS_PER_SEC: u32 = 1_000_000_000;

/// A span of time: `secs` whole seconds plus `nanos` nanoseconds (`nanos < 10^9`).
#[derive(Clone, Copy, Debug, PartialEq, Eq, Hash, PartialOrd, Ord)]
pub struct Duration {
    secs: u64,
    nanos: u32,
}

impl Duration {
    /// Every `Duration` keeps its sub-second part below one second.
    #[verifier::type_invariant]
    spec fn inv(self) -> bool {
        self.nanos < NANOS_PER_SEC
    }

    /// Well-formedness: the sub-second part is below one second.
    pub open spec fn wf(self) -> bool {
        self.spec_subsec_nanos() < NANOS_PER_SEC
    }

    /// The span of `millis` whole milliseconds.
    pub closed spec fn spec_from_millis(millis: u64) -> Duration {
        Duration { secs: millis / 1000, nanos: ((millis % 1000) * 1_000_000) as u32 }
    }

    /// The span of `nanos` nanoseconds.
    pub closed spec fn spec_from_nanos(nanos: u64) -> Duration {
        Duration { secs: nanos / 1_000_000_000, nanos: (nanos % 1_000_000_000) as u32 }
    }

    /// A well-formed span is recovered from its total nanoseconds.
    pub proof fn lemma_from_total_nanos(t: Duration)
        requires
            t.wf(),
            t.total_nanos() <= u64::MAX,
        ensures
            Duration::spec_from_nanos(t.total_nanos() as u64) == t,
    {
        let n = t.total_nanos() as u64;
        assert(n / 1_000_000_000 == t.secs && n % 1_000_000_000 == t.nanos) by (nonlinear_arith)
            requires
                n == t.secs * 1_000_000_000 + t.nanos,
                t.nanos < 1_000_000_000,
        ;
    }

    /// The span of `millis` whole milliseconds is well formed and lasts
    /// `millis` million nanoseconds.
    pub proof fn lemma_spec_from_millis(millis: u64)
        ensures
            Duration::spec_from_millis(millis).wf(),
            Duration::spec_from_millis(millis).total_nanos() == millis as int * 1_000_000,
    {
        let d = Duration::spec_from_millis(millis);
        assert(d.secs * 1_000_000_000 + d.nanos == millis * 1_000_000 && d.nanos < 1_000_000_000) by (nonlinear_arith)
            requires
                d.secs == millis / 1000,
                d.nanos == (millis % 1000) * 1_000_000,
        ;
    }

    /// A well-formed span of whole milliseconds is recovered from its
    /// millisecond count.
    pub proof fn lemma_from_whole_millis(t: Duration)
        requires
            t.wf(),
            t.spec_subsec_nanos() % 1_000_000 == 0,
            t.total_nanos() / 1_000_000 <= u64::MAX,
        ensures
            Duration::spec_from_millis((t.total_nanos() / 1_000_000) as u64) == t,
    {
        let q = t.nanos / 1_000_000;
        assert(t.nanos == q * 1_000_000 && q < 1000) by (nonlinear_arith)
            requires
                q == t.nanos / 1_000_000,
                t.nanos % 1_000_000 == 0,
                t.nanos < 1_000_000_000,
        ;
        let ms = t.secs * 1000 + q;
        assert(t.total_nanos() == ms * 1_000_000) by (nonlinear_arith)
            requires
                t.total_nanos() == t.secs * 1_000_000_000 + t.nanos,
                t.nanos == q * 1_000_000,
                ms == t.secs * 1000 + q,
        ;
        assert(t.total_nanos() / 1_000_000 == ms) by (nonlinear_arith)
            requires
                t.total_nanos() == ms * 1_000_000,
                ms >= 0,
        ;
        assert(ms / 1000 == t.secs && ms % 1000 == q) by (nonlinear_arith)
            requires
                ms == t.secs * 1000 + q,
                0 <= q < 1000,
        ;
    }

    /// A well-formed span is determined by its total nanoseconds.
    pub proof fn lemma_determined_by_total(a: Duration, b: Duration)
        requires
            a.wf(),
            b.wf(),
            a.total_nanos() == b.total_nanos(),
        ensures
            a == b,
    {
        assert(a.secs == b.secs && a.nanos == b.nanos) by (nonlinear_arith)
            requires
                a.secs * 1_000_000_000 + a.nanos == b.secs * 1_000_000_000 + b.nanos,
                a.nanos < 1_000_000_000,
                b.nanos < 1_000_000_000,
        ;
    }

    /// The span built from `n` nanoseconds is well formed and totals `n`.
    pub proof fn lemma_spec_from_nanos(n: u64)
        ensures
            Duration::spec_from_nanos(n).wf(),
            Duration::spec_from_nanos(n).total_nanos() == n,
    {
        let d = Duration::spec_from_nanos(n);
        assert(d.secs * 1_000_000_000 + d.nanos == n) by (nonlinear_arith)
            requires
                d.secs == n / 1_000_000_000,
                d.nanos == n % 1_000_000_000,
        ;
    }

    /// The whole-second part.
    pub closed spec fn spec_secs(self) -> u64 {
        self.secs
    }

    /// The sub-second part in nanoseconds.
    pub closed spec fn spec_subsec_nanos(self) -> u32 {
        self.nanos
    }

    /// The total span in nanoseconds.
    pub open spec fn total_nanos(self) -> nat {
        (self.spec_secs() as nat) * 1_000_000_000 + self.spec_subsec_nanos() as nat
    }

    /// The zero-length span.
    pub fn zero() -> (d: Duration)
        ensures
            d.wf(),
            d.total_nanos() == 0,
            d.spec_secs() == 0,
            d.spec_subsec_nanos() == 0,
    {
        Duration { secs: 0, nanos: 0 }
    }

    /// Creates a span from whole seconds and extra nanoseconds; nanoseconds
    /// beyond one second carry into the seconds.
    pub fn new(secs: u64, nanos: u32) -> (d: Duration)
        requires
            secs as int + nanos as int / 1_000_000_000 <= u64::MAX,
        ensures
            d.wf(),
            d.total_nanos() == secs as nat * 1_000_000_000 + nanos as nat,
    {
        let extra = (nanos / NANOS_PER_SEC) as u64;
        let rest = nanos % NANOS_PER_SEC;
        Duration { secs: secs + extra, nanos: rest }
    }

    /// Creates a span of whole seconds.
    pub fn from_secs(secs: u64) -> (d: Duration)
        ensures
            d.wf(),
            d.total_nanos() == secs as nat * 1_000_000_000,
            d.spec_subsec_nanos() == 0,
    {
        Duration { secs, nanos: 0 }
    }

    /// Creates a span of whole milliseconds.
    pub fn from_millis(millis: u64) -> (d: Duration)
        ensures
            d == Duration::spec_from_millis(millis),
            d.wf(),
            d.total_nanos() == millis as nat * 1_000_000,
    {
        let secs = millis / 1000;
        let rest = (millis % 1000) as u32;
        Duration { secs, nanos: rest * 1_000_000 }
    }

    /// Creates a span of whole microseconds.
    pub fn from_micros(micros: u64) -> (d: Duration)
        ensures
            d.wf(),
            d.total_nanos() == micros as nat * 1_000,
    {
        let secs = micros / 1_000_000;
        let rest = (micros % 1_000_000) as u32;
        Duration { secs, nanos: rest * 1000 }
    }

    /// Creates a span of nanoseconds.
    pub fn from_nanos(nanos: u64) -> (d: Duration)
        ensures
            d == Duration::spec_from_nanos(nanos),
            d.wf(),
            d.total_nanos() == nanos as nat,
    {
        let secs = nanos / 1_000_000_000;
        let rest = (nanos % 1_000_000_000) as u32;
        Duration { secs, nanos: rest }
    }

    /// Returns the whole seconds of this span.
    pub fn as_secs(&self) -> (s: u64)
        ensures
            s == self.spec_secs(),
    {
        self.secs
    }

    /// Returns the sub-second nanoseconds of this span.
    pub fn subsec_nanos(&self) -> (n: u32)
        ensures
            n == self.spec_subsec_nanos(),
            n < NANOS_PER_SEC,
    {
        proof { use_type_invariant(self); }
        self.nanos
    }

    /// Returns whether this span has zero length.
    pub fn is_zero(&self) -> (b: bool)
        ensures
            b <==> self.total_nanos() == 0,
    {
        self.secs == 0 && self.nanos == 0
    }

    /// Returns the total span in nanoseconds.
    pub fn as_nanos(&self) -> (n: u128)
        ensures
            n as nat == self.total_nanos(),
    {
        (self.secs as u128) * 1_000_000_000 + (self.nanos as u128)
    }

    /// Returns the total span in whole milliseconds (rounded down).
    pub fn as_millis(&self) -> (n: u128)
        ensures
            n as nat == self.total_nanos() / 1_000_000,
    {
        proof { use_type_invariant(self); }
        (self.secs as u128) * 1000 + (self.nanos / 1_000_000) as u128
    }
}

/// A point in time: signed whole seconds and nanoseconds relative to the
/// Unix epoch (nanoseconds always count forward, as in a protobuf timestamp).
#[derive(Clone, Copy, Debug, PartialEq, Eq, Hash, PartialOrd, Ord)]
pub struct SystemTime {
    secs: i64,
    nanos: u32,
}

/// The text that `{:?}` renders for a `std::time::Duration` of `secs`
/// seconds and `nanos` nanoseconds.
pub uninterp spec fn std_duration_debug(secs: u64, nanos: u32) -> Seq<char>;

/// `<std::time::Duration as Debug>::fmt` of the span of `secs` seconds and
/// `nanos` (below one second) nanoseconds: the text is a function of the
/// span alone, named `std_duration_debug`; which text it is, std decides.
#[verifier::external_body]
fn std_duration_debug_text(secs: u64, nanos: u32) -> (s: String)
    requires
        nanos < 1_000_000_000,
    ensures
        s@ == std_duration_debug(secs, nanos),
{
    format!("{:?}", std::time::Duration::new(secs, nanos))
}

impl Duration {
    /// Returns the debug text of this span, as std renders a span of the
    /// same length (for example `1.5ms`).
    pub fn debug_text(&self) -> (s: String)
        ensures
            s@ == std_duration_debug(self.spec_secs(), self.spec_subsec_nanos()),
    {
        std_duration_debug_text(self.as_secs(), self.subsec_nanos())
    }
}

#[verifier::external_type_specification]
#[verifier::external_body]
pub struct ExStdSystemTime(std::time::SystemTime);

/// `std::time::SystemTime::now`: the system clock's current reading.
/// Nothing is promised of it: it is the time.
#[verifier::external_body]
fn clock_now() -> std::time::SystemTime {
    std::time::SystemTime::now()
}

/// `std::time::SystemTime::duration_since(UNIX_EPOCH)`: the span from the
/// epoch to `t` (`Ok`) or, for a time before the epoch, from `t` to the
/// epoch (`Err`, the error's `duration`), as whole seconds and a sub-second
/// part in nanoseconds, which std documents to be below one second. Nothing
/// else is promised: the reading is opaque here.
#[verifier::external_body]
fn span_from_epoch(t: &std::time::SystemTime) -> (r: Result<(u64, u32), (u64, u32)>)
    ensures
        r matches Ok(p) ==> p.1 < 1_000_000_000,
        r matches Err(p) ==> p.1 < 1_000_000_000,
{
    match t.duration_since(std::time::UNIX_EPOCH) {
        Ok(d) => Ok((d.as_secs(), d.subsec_nanos())),
        Err(e) => Err((e.duration().as_secs(), e.duration().subsec_nanos())),
    }
}

/// Nanoseconds in a second.
pub open spec fn nanos_per_sec() -> int {
    1_000_000_000
}

/// The earliest representable instant, in nanoseconds since the epoch.
pub open spec fn min_time_nanos() -> int {
    i64::MIN * nanos_per_sec()
}

/// The signed distance from the epoch, in nanoseconds, of a clock span:
/// after the epoch for `Ok`, before it for `Err`.
pub open spec fn epoch_span_nanos(span: Result<(u64, u32), (u64, u32)>) -> int {
    match span {
        Ok((secs, nanos)) => secs * 1_000_000_000 + nanos,
        Err((secs, nanos)) => -(secs * 1_000_000_000 + nanos),
    }
}

/// The latest representable instant, in nanoseconds since the epoch.
pub open spec fn max_time_nanos() -> int {
    i64::MAX * nanos_per_sec() + 999_999_999
}

impl SystemTime {
    /// The sub-second part is below one second.
    #[verifier::type_invariant]
    spec fn inv(self) -> bool {
        self.nanos < 1_000_000_000
    }

    /// The instant as signed nanoseconds since the Unix epoch.
    pub closed spec fn nanos_since_epoch(self) -> int {
        self.secs * 1_000_000_000 + self.nanos
    }

    /// Whether the sub-second part is below one second (as for every instant).
    pub closed spec fn wf(self) -> bool {
        self.nanos < 1_000_000_000
    }

    /// An instant is determined by its distance to the epoch.
    pub proof fn lemma_determined_by_nanos(a: SystemTime, b: SystemTime)
        requires
            a.wf(),
            b.wf(),
            a.nanos_since_epoch() == b.nanos_since_epoch(),
        ensures
            a == b,
    {
        assert(a.secs == b.secs && a.nanos == b.nanos) by (nonlinear_arith)
            requires
                a.secs * 1_000_000_000 + a.nanos == b.secs * 1_000_000_000 + b.nanos,
                a.nanos < 1_000_000_000,
                b.nanos < 1_000_000_000,
        ;
    }

    /// The Unix epoch.
    pub fn unix_epoch() -> (t: SystemTime)
        ensures
            t.wf(),
            t.nanos_since_epoch() == 0,
    {
        SystemTime { secs: 0, nanos: 0 }
    }

    /// Creates the instant `since_epoch` after the Unix epoch.
    pub fn from_unix_epoch(since_epoch: Duration) -> (t: SystemTime)
        requires
            since_epoch.spec_secs() <= i64::MAX,
        ensures
            t.wf(),
            t.nanos_since_epoch() == since_epoch.total_nanos(),
    {
        proof { use_type_invariant(&since_epoch); }
        SystemTime { secs: since_epoch.as_secs() as i64, nanos: since_epoch.subsec_nanos() }
    }

    /// Returns the instant `d` later, or `None` when it is not representable.
    pub fn checked_add(&self, d: Duration) -> (r: Option<SystemTime>)
        ensures
            r is Some <==> self.nanos_since_epoch() + d.total_nanos() <= max_time_nanos(),
            r matches Some(t) ==> t.wf() && t.nanos_since_epoch() == self.nanos_since_epoch() + d.total_nanos(),
    {
        proof {
            use_type_invariant(self);
            use_type_invariant(&d);
        }
        let extra = self.nanos + d.subsec_nanos();
        let (carry, nanos) = if extra >= 1_000_000_000 { (1i128, extra - 1_000_000_000) } else { (0i128, extra) };
        let total: i128 = self.secs as i128 + d.as_secs() as i128 + carry;
        let ghost sum = self.nanos_since_epoch() + d.total_nanos();
        assert(sum == total * 1_000_000_000 + nanos) by (nonlinear_arith)
            requires
                total == self.secs + d.spec_secs() + carry,
                nanos + carry * 1_000_000_000 == self.nanos + d.spec_subsec_nanos(),
                d.total_nanos() == d.spec_secs() * 1_000_000_000 + d.spec_subsec_nanos(),
                self.nanos_since_epoch() == self.secs * 1_000_000_000 + self.nanos,
                sum == self.nanos_since_epoch() + d.total_nanos(),
        ;
        if total > 0x7FFF_FFFF_FFFF_FFFFi128 {
            assert(sum > max_time_nanos()) by (nonlinear_arith)
                requires
                    sum == total * 1_000_000_000 + nanos,
                    total > i64::MAX,
            ;
            return None;
        }
        assert(sum <= max_time_nanos()) by (nonlinear_arith)
            requires
                sum == total * 1_000_000_000 + nanos,
                total <= i64::MAX,
                nanos < 1_000_000_000,
        ;
        Some(SystemTime { secs: total as i64, nanos })
    }

    /// Returns the instant `d` earlier, or `None` when it is not representable.
    pub fn checked_sub(&self, d: Duration) -> (r: Option<SystemTime>)
        ensures
            r is Some <==> self.nanos_since_epoch() - d.total_nanos() >= min_time_nanos(),
            r matches Some(t) ==> t.wf() && t.nanos_since_epoch() == self.nanos_since_epoch() - d.total_nanos(),
    {
        proof {
            use_type_invariant(self);
            use_type_invariant(&d);
        }
        let sub = d.subsec_nanos();
        let (borrow, nanos) = if self.nanos >= sub { (0i128, self.nanos - sub) } else { (1i128, self.nanos + 1_000_000_000 - sub) };
        let total: i128 = self.secs as i128 - d.as_secs() as i128 - borrow;
        let ghost diff = self.nanos_since_epoch() - d.total_nanos();
        assert(diff == total * 1_000_000_000 + nanos) by (nonlinear_arith)
            requires
                total == self.secs - d.spec_secs() - borrow,
                nanos == self.nanos + borrow * 1_000_000_000 - d.spec_subsec_nanos(),
                d.total_nanos() == d.spec_secs() * 1_000_000_000 + d.spec_subsec_nanos(),
                self.nanos_since_epoch() == self.secs * 1_000_000_000 + self.nanos,
                diff == self.nanos_since_epoch() - d.total_nanos(),
        ;
        if total < -0x8000_0000_0000_0000i128 {
            assert(diff < min_time_nanos()) by (nonlinear_arith)
                requires
                    diff == total * 1_000_000_000 + nanos,
                    total < i64::MIN,
                    nanos < 1_000_000_000,
            ;
            return None;
        }
        assert(diff >= min_time_nanos()) by (nonlinear_arith)
            requires
                diff == total * 1_000_000_000 + nanos,
                total >= i64::MIN,
                nanos >= 0,
        ;
        Some(SystemTime { secs: total as i64, nanos })
    }

    /// Returns the span from the Unix epoch to this instant, or, for an
    /// instant before the epoch, `Err` with the span from it to the epoch.
    pub fn duration_since_epoch(&self) -> (r: Result<Duration, Duration>)
        ensures
            r is Ok <==> self.nanos_since_epoch() >= 0,
            r matches Ok(d) ==> d.wf() && d.total_nanos() == self.nanos_since_epoch(),
            r matches Err(d) ==> d.wf() && d.total_nanos() == -self.nanos_since_epoch(),
            self.wf(),
            min_time_nanos() <= self.nanos_since_epoch() <= max_time_nanos(),
    {
        proof {
            use_type_invariant(self);
            assert(min_time_nanos() <= self.nanos_since_epoch() <= max_time_nanos()) by (nonlinear_arith)
                requires
                    self.nanos_since_epoch() == self.secs * 1_000_000_000 + self.nanos,
                    self.nanos < 1_000_000_000,
                    i64::MIN <= self.secs <= i64::MAX,
            ;
        }
        if self.secs >= 0 {
            Ok(Duration::new(self.secs as u64, self.nanos))
        } else if self.nanos == 0 {
            Err(Duration::new((-(self.secs as i128)) as u64, 0))
        } else {
            let whole = (-(self.secs as i128) - 1) as u64;
            let d = Duration::new(whole, 1_000_000_000 - self.nanos);
            assert(d.total_nanos() == -self.nanos_since_epoch()) by (nonlinear_arith)
                requires
                    d.total_nanos() == whole * 1_000_000_000 + (1_000_000_000 - self.nanos),
                    whole == -self.secs - 1,
                    self.nanos_since_epoch() == self.secs * 1_000_000_000 + self.nanos,
            ;
            Err(d)
        }
    }

    /// The instant at a clock's span from the epoch (`Ok`: after it, `Err`:
    /// before it), or the epoch itself when that instant is not representable.
    pub fn from_epoch_span(span: Result<(u64, u32), (u64, u32)>) -> (t: SystemTime)
        ensures
            t.wf(),
            min_time_nanos() <= epoch_span_nanos(span) <= max_time_nanos()
                ==> t.nanos_since_epoch() == epoch_span_nanos(span),
            !(min_time_nanos() <= epoch_span_nanos(span) <= max_time_nanos())
                ==> t.nanos_since_epoch() == 0,
    {
        let epoch = SystemTime::unix_epoch();
        let shifted = match span {
            Ok((secs, nanos)) => {
                if secs > u64::MAX - 4 {
                    None
                } else {
                    epoch.checked_add(Duration::new(secs, nanos))
                }
            },
            Err((secs, nanos)) => {
                if secs > u64::MAX - 4 {
                    None
                } else {
                    epoch.checked_sub(Duration::new(secs, nanos))
                }
            },
        };
        match shifted {
            Some(t) => t,
            None => epoch,
        }
    }

    /// Returns the current wall-clock time: the clock's span from the epoch
    /// taken by `from_epoch_span`. Which time that is depends on the clock.
    pub fn now() -> (t: SystemTime)
        ensures
            t.wf(),
    {
        let clock = clock_now();
        SystemTime::from_epoch_span(span_from_epoch(&clock))
    }

    /// Whether this instant is not later than `other`.
    pub fn is_at_or_before(&self, other: &SystemTime) -> (b: bool)
        ensures
            b == (self.nanos_since_epoch() <= other.nanos_since_epoch()),
    {
        proof {
            use_type_invariant(self);
            use_type_invariant(other);
        }
        let b = self.secs < other.secs || (self.secs == other.secs && self.nanos <= other.nanos);
        assert(b == (self.nanos_since_epoch() <= other.nanos_since_epoch())) by (nonlinear_arith)
            requires
                b == (self.secs < other.secs || (self.secs == other.secs && self.nanos <= other.nanos)),
                self.nanos < 1_000_000_000,
                other.nanos < 1_000_000_000,
                self.nanos_since_epoch() == self.secs * 1_000_000_000 + self.nanos,
                other.nanos_since_epoch() == other.secs * 1_000_000_000 + other.nanos,
        ;
        b
    }
}

} // verus!

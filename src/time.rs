//! Calendar time and time-zone values.
use vstd::prelude::*;

verus! {

/// A high-resolution counter, known by its frequency in counts per second.
pub struct PerformanceCounter {
    frequency: i64,
}

/// Nanoseconds in a second.
pub const NANOS_PER_SEC: i64 = 1_000_000_000;

impl PerformanceCounter {
    /// The counter's frequency.
    pub closed spec fn freq(&self) -> int {
        self.frequency as int
    }

    /// A counter ticking `frequency` times per second.
    pub fn with_frequency(frequency: i64) -> (r: PerformanceCounter)
        requires
            frequency > 0,
        ensures
            r.freq() == frequency,
    {
        PerformanceCounter { frequency }
    }

    /// Counts per second.
    pub fn frequency(&self) -> (r: i64)
        ensures
            r == self.freq(),
    {
        self.frequency
    }

    /// The time between two readings `start <= end`, as whole seconds and the
    /// nanoseconds of the remaining fraction (rounded down).
    pub fn elapsed(&self, start: i64, end: i64) -> (r: (u64, u32))
        requires
            self.freq() > 0,
            start <= end,
            end - start <= i64::MAX,
            ((end - start) % self.freq()) * NANOS_PER_SEC <= i64::MAX,
        ensures
            r.0 == (end - start) / self.freq(),
            r.1 == (((end - start) % self.freq()) * NANOS_PER_SEC) / self.freq(),
            r.1 < NANOS_PER_SEC,
    {
        let delta: i64 = end - start;
        let secs: i64 = delta / self.frequency;
        let rem: i64 = delta % self.frequency;
        let nanos: i64 = (rem * NANOS_PER_SEC) / self.frequency;
        proof {
            let f = self.frequency as int;
            assert(0 <= rem < f);
            assert(rem * NANOS_PER_SEC < f * NANOS_PER_SEC) by (nonlinear_arith)
                requires
                    0 <= rem < f,
            ;
            assert((rem * NANOS_PER_SEC) / f < NANOS_PER_SEC) by (nonlinear_arith)
                requires
                    0 <= rem * NANOS_PER_SEC < f * NANOS_PER_SEC,
                    f > 0,
            ;
            assert(0 <= (rem * NANOS_PER_SEC) / f) by (nonlinear_arith)
                requires
                    0 <= rem * NANOS_PER_SEC,
                    f > 0,
            ;
        }
        (secs as u64, nanos as u32)
    }
}

/// A calendar date and time of day.
#[derive(Debug, Clone, Copy, PartialEq, Eq, Structural)]
pub struct SystemTime {
    pub year: u16,
    /// 1 (January) to 12 (December).
    pub month: u16,
    /// 0 (Sunday) to 6 (Saturday).
    pub day_of_week: u16,
    pub day: u16,
    pub hour: u16,
    pub minute: u16,
    pub second: u16,
    pub milliseconds: u16,
}

/// The English name of a day of the week, counted from 0 for Sunday.
pub open spec fn day_name_of(d: u16) -> Seq<char> {
    if d == 0 {
        "Sunday"@
    } else if d == 1 {
        "Monday"@
    } else if d == 2 {
        "Tuesday"@
    } else if d == 3 {
        "Wednesday"@
    } else if d == 4 {
        "Thursday"@
    } else if d == 5 {
        "Friday"@
    } else if d == 6 {
        "Saturday"@
    } else {
        "Unknown"@
    }
}

/// The English name of a month, counted from 1 for January.
pub open spec fn month_name_of(m: u16) -> Seq<char> {
    if m == 1 {
        "January"@
    } else if m == 2 {
        "February"@
    } else if m == 3 {
        "March"@
    } else if m == 4 {
        "April"@
    } else if m == 5 {
        "May"@
    } else if m == 6 {
        "June"@
    } else if m == 7 {
        "July"@
    } else if m == 8 {
        "August"@
    } else if m == 9 {
        "September"@
    } else if m == 10 {
        "October"@
    } else if m == 11 {
        "November"@
    } else if m == 12 {
        "December"@
    } else {
        "Unknown"@
    }
}

impl SystemTime {
    /// The day's English name, or "Unknown" for a value out of range.
    pub fn day_name(&self) -> (r: &'static str)
        ensures
            r@ == day_name_of(self.day_of_week),
    {
        match self.day_of_week {
            0 => "Sunday",
            1 => "Monday",
            2 => "Tuesday",
            3 => "Wednesday",
            4 => "Thursday",
            5 => "Friday",
            6 => "Saturday",
            _ => "Unknown",
        }
    }

    /// The month's English name, or "Unknown" for a value out of range.
    pub fn month_name(&self) -> (r: &'static str)
        ensures
            r@ == month_name_of(self.month),
    {
        match self.month {
            1 => "January",
            2 => "February",
            3 => "March",
            4 => "April",
            5 => "May",
            6 => "June",
            7 => "July",
            8 => "August",
            9 => "September",
            10 => "October",
            11 => "November",
            12 => "December",
            _ => "Unknown",
        }
    }
}

/// Whether a time zone is in standard or daylight time.
#[derive(Debug, Clone, Copy, PartialEq, Eq, Structural)]
pub enum TimeZoneStatus {
    /// Standard time.
    Standard,
    /// Daylight saving time.
    Daylight,
    /// Not known.
    Unknown,
}

/// A time zone's offsets from UTC, in minutes.
#[derive(Debug)]
pub struct TimeZone {
    /// Base offset from UTC.
    pub bias: i32,
    /// Name of standard time.
    pub standard_name: String,
    /// Offset added during standard time.
    pub standard_bias: i32,
    /// Name of daylight time.
    pub daylight_name: String,
    /// Offset added during daylight time.
    pub daylight_bias: i32,
    /// Which time is in effect.
    pub status: TimeZoneStatus,
}

/// The offset in effect: the daylight bias during daylight time, the standard bias otherwise.
pub open spec fn total_bias_of(tz: &TimeZone) -> int {
    if tz.status == TimeZoneStatus::Daylight {
        tz.bias + tz.daylight_bias
    } else {
        tz.bias + tz.standard_bias
    }
}

impl TimeZone {
    /// The offset from UTC in effect, in minutes.
    pub fn total_bias(&self) -> (r: i32)
        requires
            i32::MIN <= total_bias_of(self) <= i32::MAX,
        ensures
            r == total_bias_of(self),
    {
        match self.status {
            TimeZoneStatus::Daylight => self.bias + self.daylight_bias,
            _ => self.bias + self.standard_bias,
        }
    }

    /// The size of the offset from UTC in effect, in seconds.
    pub fn utc_offset(&self) -> (r: u64)
        requires
            i32::MIN < total_bias_of(self) <= i32::MAX,
            -i32::MAX <= total_bias_of(self) * 60 <= i32::MAX,
        ensures
            r == (if total_bias_of(self) < 0 {
                -total_bias_of(self)
            } else {
                total_bias_of(self)
            }) * 60,
    {
        let bias = self.total_bias();
        let magnitude: i32 = if bias < 0 {
            -bias
        } else {
            bias
        };
        (magnitude * 60) as u64
    }

    /// True when daylight saving time is in effect.
    pub fn is_daylight_saving(&self) -> (r: bool)
        ensures
            r == (self.status == TimeZoneStatus::Daylight),
    {
        self.status == TimeZoneStatus::Daylight
    }
}

/// A span of time as whole seconds and the nanoseconds of the fraction.
pub open spec fn span_wf(d: (u64, u32)) -> bool {
    d.1 < NANOS_PER_SEC
}

/// The sum of two spans, carrying whole seconds out of the nanoseconds.
pub open spec fn span_add(a: (u64, u32), b: (u64, u32)) -> (int, int) {
    if a.1 + b.1 >= NANOS_PER_SEC {
        (a.0 + b.0 + 1, a.1 + b.1 - NANOS_PER_SEC)
    } else {
        (a.0 + b.0, a.1 + b.1)
    }
}

/// Adds two spans.
pub fn add_spans(a: (u64, u32), b: (u64, u32)) -> (r: (u64, u32))
    requires
        span_wf(a),
        span_wf(b),
        span_add(a, b).0 <= u64::MAX,
    ensures
        r.0 == span_add(a, b).0,
        r.1 == span_add(a, b).1,
        span_wf(r),
{
    let nanos: u32 = a.1 + b.1;
    if nanos >= 1_000_000_000 {
        (a.0 + b.0 + 1, nanos - 1_000_000_000)
    } else {
        (a.0 + b.0, nanos)
    }
}

/// What a counter reading gives for the time since `start`.
pub open spec fn span_between(freq: int, start: int, end: int) -> (int, int) {
    ((end - start) / freq, (((end - start) % freq) * NANOS_PER_SEC) / freq)
}

/// Measures time across start and stop, from counter readings handed in by
/// the caller.
pub struct Stopwatch {
    counter: PerformanceCounter,
    start: i64,
    elapsed: (u64, u32),
    running: bool,
}

impl Stopwatch {
    /// The counter ticks, and the accumulated time is a valid span.
    pub closed spec fn wf(&self) -> bool {
        self.counter.freq() > 0 && span_wf(self.elapsed)
    }

    /// The time accumulated by earlier start-stop periods.
    pub closed spec fn accumulated(&self) -> (u64, u32) {
        self.elapsed
    }

    /// The reading at which the current period started.
    pub closed spec fn started_at(&self) -> int {
        self.start as int
    }

    /// True while a period is being measured.
    pub closed spec fn running(&self) -> bool {
        self.running
    }

    /// The frequency of the stopwatch's counter.
    pub closed spec fn freq(&self) -> int {
        self.counter.freq()
    }

    /// The running period, from its start up to reading `now`.
    pub open spec fn period(&self, now: i64) -> (u64, u32) {
        (
            span_between(self.freq(), self.started_at(), now as int).0 as u64,
            span_between(self.freq(), self.started_at(), now as int).1 as u32,
        )
    }

    /// A reading `now` that the running period can be measured up to, with
    /// room to add the result to the accumulated time.
    pub open spec fn reading_ok(&self, now: i64) -> bool {
        &&& self.started_at() <= now
        &&& now - self.started_at() <= i64::MAX
        &&& ((now - self.started_at()) % self.freq()) * NANOS_PER_SEC <= i64::MAX
        &&& span_add(self.accumulated(), self.period(now)).0 <= u64::MAX
    }

    /// A stopwatch that starts running at reading `now`.
    pub fn start_new(counter: PerformanceCounter, now: i64) -> (r: Stopwatch)
        requires
            counter.freq() > 0,
        ensures
            r.wf(),
            r.running(),
            r.started_at() == now,
            r.accumulated() == (0u64, 0u32),
            r.freq() == counter.freq(),
    {
        Stopwatch { counter, start: now, elapsed: (0, 0), running: true }
    }

    /// A stopped stopwatch with nothing accumulated.
    pub fn new(counter: PerformanceCounter) -> (r: Stopwatch)
        requires
            counter.freq() > 0,
        ensures
            r.wf(),
            !r.running(),
            r.accumulated() == (0u64, 0u32),
            r.freq() == counter.freq(),
    {
        Stopwatch { counter, start: 0, elapsed: (0, 0), running: false }
    }

    /// Starts a period at reading `now`; a running stopwatch is left as it is.
    pub fn start(&mut self, now: i64)
        requires
            old(self).wf(),
        ensures
            final(self).wf(),
            final(self).running(),
            final(self).accumulated() == old(self).accumulated(),
            final(self).freq() == old(self).freq(),
            final(self).started_at() == if old(self).running() {
                old(self).started_at()
            } else {
                now as int
            },
    {
        if !self.running {
            self.start = now;
            self.running = true;
        }
    }

    /// Ends the running period at reading `now` and adds it to the
    /// accumulated time; a stopped stopwatch is left as it is.
    pub fn stop(&mut self, now: i64)
        requires
            old(self).wf(),
            old(self).running() ==> old(self).reading_ok(now),
        ensures
            final(self).wf(),
            !final(self).running(),
            final(self).freq() == old(self).freq(),
            !old(self).running() ==> final(self).accumulated() == old(self).accumulated(),
            old(self).running() ==> final(self).accumulated().0 == span_add(
                old(self).accumulated(),
                old(self).period(now),
            ).0,
            old(self).running() ==> final(self).accumulated().1 == span_add(
                old(self).accumulated(),
                old(self).period(now),
            ).1,
    {
        if self.running {
            let period = self.counter.elapsed(self.start, now);
            self.elapsed = add_spans(self.elapsed, period);
            self.running = false;
        }
    }

    /// Stops and clears the accumulated time.
    pub fn reset(&mut self)
        requires
            old(self).wf(),
        ensures
            final(self).wf(),
            !final(self).running(),
            final(self).accumulated() == (0u64, 0u32),
            final(self).freq() == old(self).freq(),
    {
        self.elapsed = (0, 0);
        self.running = false;
    }

    /// Clears the accumulated time and starts a period at reading `now`.
    pub fn restart(&mut self, now: i64)
        requires
            old(self).wf(),
        ensures
            final(self).wf(),
            final(self).running(),
            final(self).started_at() == now,
            final(self).accumulated() == (0u64, 0u32),
            final(self).freq() == old(self).freq(),
    {
        self.reset();
        self.start(now);
    }

    /// The accumulated time, plus the running period up to reading `now`.
    pub fn elapsed(&self, now: i64) -> (r: (u64, u32))
        requires
            self.wf(),
            self.running() ==> self.reading_ok(now),
        ensures
            !self.running() ==> r == self.accumulated(),
            self.running() ==> r.0 == span_add(self.accumulated(), self.period(now)).0,
            self.running() ==> r.1 == span_add(self.accumulated(), self.period(now)).1,
    {
        if self.running {
            let period = self.counter.elapsed(self.start, now);
            add_spans(self.elapsed, period)
        } else {
            self.elapsed
        }
    }

    /// True while a period is being measured.
    pub fn is_running(&self) -> (r: bool)
        ensures
            r == self.running(),
    {
        self.running
    }
}

} // verus!

//! Timer primitives.
//!
//! The architectural counter ticks at a board-supplied frequency; the
//! embedder reads the counter and the frequency registers and hands their
//! plain values in.  Everything that converts between counter values and
//! durations is verified here, including the busy-wait planning: the
//! embedder spins until the counter reaches the returned target value.

use vstd::prelude::*;
use vstd::arithmetic::div_mod::lemma_fundamental_div_mod;
use vstd::arithmetic::div_mod::lemma_mod_division_less_than_divisor;

verus! {

/// Nanoseconds per second.
pub const NANOSEC_PER_SEC: u64 = 1_000_000_000;

/// A span of time: whole seconds and a sub-second nanosecond part.
///
/// The nanosecond part is always below one second, so the total nanosecond
/// count determines the value uniquely.
#[derive(Clone, Copy, PartialEq, Eq, Structural, Debug)]
pub struct Duration {
    secs: u64,
    nanos: u32,
}

impl Duration {
    /// The whole seconds of the span.
    pub closed spec fn spec_secs(&self) -> u64 {
        self.secs
    }

    /// The sub-second part of the span, in nanoseconds.
    pub closed spec fn spec_subsec_nanos(&self) -> u32 {
        self.nanos
    }

    /// Well-formedness: the sub-second part is below one second.
    pub closed spec fn wf(&self) -> bool {
        self.nanos < NANOSEC_PER_SEC
    }

    /// The whole span in nanoseconds.
    pub open spec fn spec_as_nanos(&self) -> int {
        self.spec_secs() * NANOSEC_PER_SEC + self.spec_subsec_nanos()
    }

    /// The zero-length span.
    pub fn zero() -> (r: Self)
        ensures
            r.wf(),
            r.spec_as_nanos() == 0,
    {
        Duration { secs: 0, nanos: 0 }
    }

    /// A span of whole seconds and a sub-second nanosecond part.
    pub fn new(secs: u64, nanos: u32) -> (r: Self)
        requires
            nanos < NANOSEC_PER_SEC,
        ensures
            r.wf(),
            r.spec_secs() == secs,
            r.spec_subsec_nanos() == nanos,
    {
        Duration { secs, nanos }
    }

    /// A span of whole seconds.
    pub fn from_secs(secs: u64) -> (r: Self)
        ensures
            r.wf(),
            r.spec_secs() == secs,
            r.spec_subsec_nanos() == 0,
    {
        Duration { secs, nanos: 0 }
    }

    /// A span of microseconds.
    pub fn from_micros(micros: u64) -> (r: Self)
        ensures
            r.wf(),
            r.spec_as_nanos() == micros * 1000,
    {
        let secs: u64 = micros / 1_000_000;
        let sub: u64 = micros % 1_000_000;
        let r = Duration { secs, nanos: (sub * 1000) as u32 };
        proof {
            lemma_fundamental_div_mod(micros as int, 1_000_000);
        }
        r
    }

    /// The whole seconds of the span.
    pub fn as_secs(&self) -> (r: u64)
        ensures
            r == self.spec_secs(),
    {
        self.secs
    }

    /// The sub-second part of the span, in nanoseconds.
    pub fn subsec_nanos(&self) -> (r: u32)
        ensures
            r == self.spec_subsec_nanos(),
    {
        self.nanos
    }

    /// The sub-second part of the span, in microseconds.
    pub fn subsec_micros(&self) -> (r: u32)
        ensures
            r == self.spec_subsec_nanos() / 1000,
    {
        self.nanos / 1000
    }

    /// The whole span in nanoseconds.
    pub fn as_nanos(&self) -> (r: u128)
        ensures
            r == self.spec_as_nanos(),
    {
        proof {
            assert((self.secs as int) * 1_000_000_000 + (self.nanos as int) < 0xffff_ffff_ffff_ffff
                * 1_000_000_000 + 0x1_0000_0000) by (nonlinear_arith)
                requires
                    (self.secs as int) <= 0xffff_ffff_ffff_ffff && (self.nanos as int)
                        < 0x1_0000_0000,
            ;
        }
        (self.secs as u128) * (NANOSEC_PER_SEC as u128) + (self.nanos as u128)
    }

    /// Whether this span is shorter than `other`.
    pub fn lt(&self, other: &Duration) -> (r: bool)
        requires
            self.wf(),
            other.wf(),
        ensures
            r == (self.spec_as_nanos() < other.spec_as_nanos()),
    {
        proof {
            assert((self.secs as int) * 1_000_000_000 + self.nanos < (other.secs as int)
                * 1_000_000_000 + other.nanos <==> (self.secs < other.secs || (self.secs
                == other.secs && self.nanos < other.nanos))) by (nonlinear_arith)
                requires
                    self.nanos < 1_000_000_000 && other.nanos < 1_000_000_000,
            ;
        }
        self.secs < other.secs || (self.secs == other.secs && self.nanos < other.nanos)
    }

    /// Whether this span is longer than `other`.
    pub fn gt(&self, other: &Duration) -> (r: bool)
        requires
            self.wf(),
            other.wf(),
        ensures
            r == (self.spec_as_nanos() > other.spec_as_nanos()),
    {
        other.lt(self)
    }
}

/// The whole seconds a counter value spans at the given frequency.
pub open spec fn counter_secs(v: u64, freq: u32) -> int {
    v as int / freq as int
}

/// The sub-second nanoseconds a counter value spans at the given frequency.
pub open spec fn counter_subsec_nanos(v: u64, freq: u32) -> int {
    (v as int % freq as int) * NANOSEC_PER_SEC / freq as int
}

/// The total nanoseconds a counter value converts to at the given frequency:
/// the whole seconds and the sub-second part, each rounded down.
pub open spec fn counter_total_nanos(v: u64, freq: u32) -> int {
    counter_secs(v, freq) * NANOSEC_PER_SEC + counter_subsec_nanos(v, freq)
}

/// The counter value a span of `nanos` nanoseconds converts to at the given
/// frequency, rounded down.
pub open spec fn counter_of_nanos(nanos: int, freq: u32) -> int {
    nanos * freq / NANOSEC_PER_SEC as int
}

/// A counter value's total nanoseconds are non-negative and lose at most
/// what rounding down can lose: scaled back by the frequency they never
/// exceed the exact product.
proof fn lemma_counter_total_nanos_bound(v: u64, freq: u32)
    requires
        freq >= 1,
    ensures
        0 <= counter_total_nanos(v, freq),
        counter_total_nanos(v, freq) * freq <= v * NANOSEC_PER_SEC,
{
    let f = freq as int;
    let vi = v as int;
    let k = NANOSEC_PER_SEC as int;
    let q = vi / f;
    let rm = vi % f;
    let sub = rm * k / f;
    lemma_fundamental_div_mod(vi, f);
    lemma_mod_division_less_than_divisor(vi, f);
    lemma_fundamental_div_mod(rm * k, f);
    lemma_mod_division_less_than_divisor(rm * k, f);
    assert(0 <= q * k + sub && (q * k + sub) * f <= vi * k) by (nonlinear_arith)
        requires
            vi == f * q + rm && 0 <= rm < f && rm * k == f * sub + (rm * k) % f && 0 <= (rm * k)
                % f < f && f >= 1 && k >= 1 && vi >= 0,
    ;
}

/// Convert a counter value at the given frequency into a duration; both
/// parts are rounded down.
pub fn counter_to_duration(v: u64, freq: u32) -> (d: Duration)
    requires
        freq >= 1,
    ensures
        d.wf(),
        d.spec_secs() == counter_secs(v, freq),
        d.spec_subsec_nanos() == counter_subsec_nanos(v, freq),
        d.spec_as_nanos() == counter_total_nanos(v, freq),
{
    if v == 0 {
        return Duration::zero();
    }
    let f: u64 = freq as u64;
    let secs: u64 = v / f;
    let sub: u64 = v % f;
    proof {
        assert((sub as int) * 1_000_000_000 <= 0xffff_fffe * 1_000_000_000 && (sub as int)
            * 1_000_000_000 / (f as int) < 1_000_000_000 && 0 <= (sub as int) * 1_000_000_000 / (
        f as int)) by (nonlinear_arith)
            requires
                (sub as int) < (f as int) && (f as int) <= 0xffff_ffff && (f as int) >= 1,
        ;
    }
    let nanos: u32 = (sub * NANOSEC_PER_SEC / f) as u32;
    Duration { secs, nanos }
}

/// The largest duration the counter can represent at the given frequency.
pub fn max_duration(freq: u32) -> (d: Duration)
    requires
        freq >= 1,
    ensures
        d.wf(),
        d.spec_as_nanos() == counter_total_nanos(u64::MAX, freq),
{
    counter_to_duration(u64::MAX, freq)
}

/// The timer's resolution: the duration of one counter tick.
pub fn resolution(freq: u32) -> (d: Duration)
    requires
        freq >= 1,
    ensures
        d.wf(),
        d.spec_as_nanos() == counter_total_nanos(1, freq),
{
    counter_to_duration(1, freq)
}

/// Convert a duration into a counter value at the given frequency.
///
/// A duration below the timer's resolution converts to zero; one above the
/// largest representable duration is a range error, never a silent wrap;
/// anything in between converts by scaling the nanoseconds, rounded down.
pub fn duration_to_counter(d: &Duration, freq: u32) -> (r: Result<u64, &'static str>)
    requires
        freq >= 1,
        d.wf(),
    ensures
        r is Err <==> d.spec_as_nanos() > counter_total_nanos(u64::MAX, freq),
        d.spec_as_nanos() < counter_total_nanos(1, freq) ==> r == Ok::<u64, &'static str>(0u64),
        counter_total_nanos(1, freq) <= d.spec_as_nanos() <= counter_total_nanos(u64::MAX, freq)
            ==> r == Ok::<u64, &'static str>(counter_of_nanos(d.spec_as_nanos(), freq) as u64),
{
    let res = resolution(freq);
    if d.lt(&res) {
        proof {
            lemma_counter_total_nanos_bound(u64::MAX, freq);
            assert(counter_total_nanos(1, freq) <= counter_total_nanos(u64::MAX, freq)) by {
                let f = freq as int;
                let k = NANOSEC_PER_SEC as int;
                let m = u64::MAX as int;
                lemma_fundamental_div_mod(1int, f);
                lemma_mod_division_less_than_divisor(1int, f);
                lemma_fundamental_div_mod(m, f);
                lemma_mod_division_less_than_divisor(m, f);
                assert(counter_secs(1, freq) * k + counter_subsec_nanos(1, freq) <= counter_secs(
                    u64::MAX,
                    freq,
                ) * k + counter_subsec_nanos(u64::MAX, freq)) by (nonlinear_arith)
                    requires
                        1int == f * counter_secs(1, freq) + 1int % f && m == f * counter_secs(
                            u64::MAX,
                            freq,
                        ) + m % f && 0 <= 1int % f < f && 0 <= m % f < f && f >= 1 && k
                            == 1_000_000_000 && m == 0xffff_ffff_ffff_ffff && counter_subsec_nanos(
                            1,
                            freq,
                        ) == (1int % f) * k / f && counter_subsec_nanos(u64::MAX, freq) == (m % f)
                            * k / f && counter_secs(1, freq) == 1int / f && counter_secs(
                            u64::MAX,
                            freq,
                        ) == m / f,
                ;
            }
        }
        return Ok(0);
    }
    let max = max_duration(freq);
    if d.gt(&max) {
        return Err("Conversion error; Duration too big");
    }
    let duration_nanos: u128 = d.as_nanos();
    proof {
        assert((duration_nanos as int) * (freq as int) < 0xffff_ffff_ffff_ffff_ffff_ffff_ffff_ffff)
            by (nonlinear_arith)
            requires
                (duration_nanos as int) <= 0xffff_ffff_ffff_ffff * 1_000_000_000 + 999_999_999
                    && (freq as int) <= 0xffff_ffff,
        ;
        assert((d.spec_secs() as int) * 1_000_000_000 + (d.spec_subsec_nanos() as int)
            <= 0xffff_ffff_ffff_ffff * 1_000_000_000 + 999_999_999) by (nonlinear_arith)
            requires
                (d.spec_secs() as int) <= 0xffff_ffff_ffff_ffff && (d.spec_subsec_nanos() as int)
                    <= 999_999_999,
        ;
    }
    let counter: u128 = duration_nanos * (freq as u128) / (NANOSEC_PER_SEC as u128);
    proof {
        lemma_counter_total_nanos_bound(u64::MAX, freq);
        let dn = d.spec_as_nanos();
        let f = freq as int;
        let k = NANOSEC_PER_SEC as int;
        let m = u64::MAX as int;
        let t = counter_total_nanos(u64::MAX, freq);
        assert(dn * f / k <= m && dn * f / k >= 0) by (nonlinear_arith)
            requires
                0 <= dn <= t && t * f <= m * k && f >= 1 && k >= 1 && m >= 0 && dn * f / k == dn
                    * f / k,
        ;
    }
    Ok(counter as u64)
}

/// Timer round trip at an exact frequency.
///
/// When the frequency divides one nanosecond's inverse exactly, converting
/// any counter value to a duration and that duration back to a counter value
/// reproduces the value: the duration's total nanoseconds are exactly
/// `(NANOSEC_PER_SEC / freq) * v`, which is never above the representable
/// maximum, is below the resolution only for the zero value, and scales back
/// to exactly `v`.
pub proof fn lemma_timer_conversion_round_trip(v: u64, freq: u32)
    requires
        freq >= 1,
        NANOSEC_PER_SEC as int % (freq as int) == 0,
    ensures
        counter_total_nanos(v, freq) == (NANOSEC_PER_SEC as int / freq as int) * v,
        counter_total_nanos(v, freq) <= counter_total_nanos(u64::MAX, freq),
        counter_total_nanos(v, freq) < counter_total_nanos(1, freq) ==> v == 0,
        counter_of_nanos(counter_total_nanos(v, freq), freq) == v,
{
    let f = freq as int;
    let k = NANOSEC_PER_SEC as int;
    let c = k / f;
    lemma_fundamental_div_mod(k, f);
    let vi = v as int;
    let q = vi / f;
    let rm = vi % f;
    lemma_fundamental_div_mod(vi, f);
    lemma_mod_division_less_than_divisor(vi, f);
    assert(rm * k == (rm * c) * f && rm * c >= 0) by (nonlinear_arith)
        requires
            k == c * f && 0 <= rm && c >= 0,
    ;
    vstd::arithmetic::div_mod::lemma_div_multiples_vanish(rm * c, f);
    assert(counter_subsec_nanos(v, freq) == rm * c);
    assert(counter_total_nanos(v, freq) == c * vi) by (nonlinear_arith)
        requires
            counter_total_nanos(v, freq) == q * k + rm * c && k == c * f && vi == f * q + rm,
    ;
    let m = u64::MAX as int;
    let qm = m / f;
    let rmm = m % f;
    lemma_fundamental_div_mod(m, f);
    lemma_mod_division_less_than_divisor(m, f);
    assert(rmm * k == (rmm * c) * f && rmm * c >= 0) by (nonlinear_arith)
        requires
            k == c * f && 0 <= rmm && c >= 0,
    ;
    vstd::arithmetic::div_mod::lemma_div_multiples_vanish(rmm * c, f);
    assert(counter_total_nanos(u64::MAX, freq) == c * m) by (nonlinear_arith)
        requires
            counter_total_nanos(u64::MAX, freq) == qm * k + rmm * c && k == c * f && m == f * qm
                + rmm,
    ;
    assert(c * vi <= c * m && c >= 1) by (nonlinear_arith)
        requires
            0 <= vi <= m && c * f == k && f >= 1 && k >= 1 && c >= 0,
    ;
    assert(counter_total_nanos(1, freq) == c * 1) by {
        let q1 = 1int / f;
        let r1 = 1int % f;
        lemma_fundamental_div_mod(1int, f);
        lemma_mod_division_less_than_divisor(1int, f);
        assert(r1 * k == (r1 * c) * f && r1 * c >= 0) by (nonlinear_arith)
            requires
                k == c * f && 0 <= r1 && c >= 0,
        ;
        vstd::arithmetic::div_mod::lemma_div_multiples_vanish(r1 * c, f);
        assert(counter_total_nanos(1, freq) == c * 1) by (nonlinear_arith)
            requires
                counter_total_nanos(1, freq) == q1 * k + r1 * c && k == c * f && 1int == f * q1
                    + r1,
        ;
    }
    assert(c * vi < c * 1 ==> vi < 1) by (nonlinear_arith)
        requires
            c >= 1,
    ;
    assert((c * vi) * f == vi * k) by (nonlinear_arith)
        requires
            c * f == k,
    ;
    vstd::arithmetic::div_mod::lemma_div_multiples_vanish(vi, k);
    assert(counter_of_nanos(counter_total_nanos(v, freq), freq) == (c * vi) * f / k);
}

/// The time manager: converts between counter values and durations and
/// plans busy waits, all from plain register values.
pub struct TimeManager;

/// Get an instance of the time manager.
pub fn time_manager() -> TimeManager {
    TimeManager
}

impl TimeManager {
    /// Create an instance.
    pub fn new() -> Self {
        TimeManager
    }

    /// The timer's resolution at the given counter frequency: one tick.
    pub fn resolution(&self, freq: u32) -> (d: Duration)
        requires
            freq >= 1,
        ensures
            d.wf(),
            d.spec_as_nanos() == counter_total_nanos(1, freq),
    {
        resolution(freq)
    }

    /// The uptime a counter value read since power-on spans, firmware and
    /// bootloader time included.
    pub fn uptime(&self, freq: u32, counter: u64) -> (d: Duration)
        requires
            freq >= 1,
        ensures
            d.wf(),
            d.spec_as_nanos() == counter_total_nanos(counter, freq),
    {
        counter_to_duration(counter, freq)
    }

    /// Plan a busy wait of the given duration starting at the given counter
    /// value: the embedder spins until the counter reaches the returned
    /// target.  A duration the counter cannot represent is an error; the
    /// embedder logs a warning and skips the wait instead of spinning
    /// indefinitely.
    pub fn spin_for(&self, freq: u32, curr_counter: u64, duration: &Duration) -> (r: Result<
        u64,
        &'static str,
    >)
        requires
            freq >= 1,
            duration.wf(),
        ensures
            r is Err <==> duration.spec_as_nanos() > counter_total_nanos(u64::MAX, freq),
            duration.spec_as_nanos() < counter_total_nanos(1, freq) ==> r == Ok::<
                u64,
                &'static str,
            >(curr_counter),
            counter_total_nanos(1, freq) <= duration.spec_as_nanos() <= counter_total_nanos(
                u64::MAX,
                freq,
            ) ==> r == Ok::<u64, &'static str>(
                curr_counter.wrapping_add(
                    counter_of_nanos(duration.spec_as_nanos(), freq) as u64,
                ),
            ),
    {
        let delta: u64 = match duration_to_counter(duration, freq) {
            Ok(v) => v,
            Err(msg) => {
                return Err(msg);
            },
        };
        Ok(curr_counter.wrapping_add(delta))
    }
}

} // verus!

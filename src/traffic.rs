//! Traffic shaping: the delay before the next request, in milliseconds.
//!
//! Each strategy has a verified function that takes its random draw or clock
//! reading as an argument and returns the exact delay, and a function that
//! makes the draw or reading itself and states what holds of every outcome.
use vstd::prelude::*;

use crate::chance::random_below;
use crate::clock::{local_hour, unix_millis};

verus! {

/// What a strategy may read about recent traffic.
#[derive(Clone, Copy, Debug, PartialEq, Eq, Structural)]
pub struct TrafficMetrics {
    pub latency_ms: u64,
    pub error_count: u64,
}

/// Delay used when a strategy's rate is zero: probe once a minute.
pub const IDLE_PROBE_MS: u64 = 60000;

/// Steady pacing: 300 ms plus up to 50 ms of jitter.
#[derive(Clone, Copy, Debug, PartialEq, Eq, Structural)]
pub struct SmoothFlow;

/// Long, widely spread pauses, with a penalty once errors were seen.
#[derive(Clone, Copy, Debug, PartialEq, Eq, Structural)]
pub struct StealthJitter;

/// A delay just under the target's `target_ms` idle timeout.
#[derive(Clone, Copy, Debug, PartialEq, Eq, Structural)]
pub struct Slowloris {
    pub target_ms: u64,
}

/// A fixed period.
#[derive(Clone, Copy, Debug, PartialEq, Eq, Structural)]
pub struct Heartbeat {
    pub period_ms: u64,
}

/// Bursts of `burst_rps` requests per second for `burst_ms`, then silence for
/// `idle_ms`, repeating.
#[derive(Clone, Copy, Debug, PartialEq, Eq, Structural)]
pub struct MicroBurst {
    pub burst_rps: u64,
    pub burst_ms: u64,
    pub idle_ms: u64,
}

/// A base latency, up to 20 ms of jitter, and the spacing of `rate_per_s`.
#[derive(Clone, Copy, Debug, PartialEq, Eq, Structural)]
pub struct GeoLatency {
    pub base_ms: u64,
    pub rate_per_s: u64,
}

/// One rate inside the local hours `start_hour..end_hour` (wrapping past
/// midnight when `end_hour < start_hour`), another outside them.
#[derive(Clone, Copy, Debug, PartialEq, Eq, Structural)]
pub struct WorkingHours {
    pub start_hour: u32,
    pub end_hour: u32,
    pub on_rps: u64,
    pub off_rps: u64,
}

pub open spec fn smooth_delay(jitter: u64) -> int {
    300 + jitter
}

pub open spec fn stealth_delay(metrics: TrafficMetrics, jitter: u64) -> int {
    2000 + jitter + if metrics.error_count > 0 {
        5000int
    } else {
        0int
    }
}

/// Lower end of the Slowloris window: 90% of the target, rounded down.
pub open spec fn slowloris_low(target_ms: u64) -> int {
    target_ms * 9 / 10
}

/// Upper end of the Slowloris window: 95% of the target, rounded down.
pub open spec fn slowloris_high(target_ms: u64) -> int {
    target_ms * 19 / 20
}

/// The spacing of a rate in requests per second, or the probe delay at rate 0.
pub open spec fn rate_spacing(rps: u64) -> int {
    if rps == 0 {
        IDLE_PROBE_MS as int
    } else {
        1000int / rps as int
    }
}

pub open spec fn burst_cycle(b: MicroBurst) -> int {
    b.burst_ms + b.idle_ms
}

/// Inside a burst window the spacing of the burst rate; inside an idle window
/// the rest of that window.
pub open spec fn micro_burst_delay(b: MicroBurst, now_ms: u64) -> int {
    let phase = (now_ms as int) % burst_cycle(b);
    if phase < b.burst_ms {
        1000int / b.burst_rps as int
    } else {
        burst_cycle(b) - phase
    }
}

/// A delay computed inside an idle window ends exactly where the next burst
/// window starts, so no request is scheduled inside an idle window; inside a
/// burst window the delay is the burst spacing.
pub proof fn lemma_micro_burst_windows(b: MicroBurst, now_ms: u64)
    requires
        b.burst_rps > 0,
        burst_cycle(b) > 0,
    ensures
        (now_ms as int) % burst_cycle(b) >= b.burst_ms ==> (now_ms + micro_burst_delay(b, now_ms))
            % burst_cycle(b) == 0,
        (now_ms as int) % burst_cycle(b) < b.burst_ms ==> micro_burst_delay(b, now_ms) == 1000int
            / b.burst_rps as int,
{
    let c = burst_cycle(b);
    let q = (now_ms as int) / c;
    let p = (now_ms as int) % c;
    vstd::arithmetic::div_mod::lemma_fundamental_div_mod(now_ms as int, c);
    if p >= b.burst_ms {
        assert(now_ms + micro_burst_delay(b, now_ms) == (q + 1) * c) by (nonlinear_arith)
            requires
                now_ms == c * q + p,
                micro_burst_delay(b, now_ms) == c - p,
        ;
        vstd::arithmetic::div_mod::lemma_mod_multiples_basic(q + 1, c);
    }
}

pub open spec fn geo_delay(g: GeoLatency, jitter: u64) -> int {
    g.base_ms + jitter + 1000int / g.rate_per_s as int
}

pub open spec fn in_working_hours(w: WorkingHours, hour: u32) -> bool {
    if w.start_hour <= w.end_hour {
        w.start_hour <= hour && hour < w.end_hour
    } else {
        hour >= w.start_hour || hour < w.end_hour
    }
}

pub open spec fn working_hours_delay(w: WorkingHours, hour: u32) -> int {
    if in_working_hours(w, hour) {
        rate_spacing(w.on_rps)
    } else {
        rate_spacing(w.off_rps)
    }
}

fn spacing_of(rps: u64) -> (r: u64)
    ensures
        r == rate_spacing(rps),
{
    if rps == 0 {
        IDLE_PROBE_MS
    } else {
        1000 / rps
    }
}

impl SmoothFlow {
    pub fn delay_with_jitter(&self, metrics: &TrafficMetrics, jitter: u64) -> (r: u64)
        requires
            jitter < 50,
        ensures
            r == smooth_delay(jitter),
    {
        300 + jitter
    }

    pub fn calculate_delay(&self, metrics: &TrafficMetrics) -> (r: u64)
        ensures
            300 <= r < 350,
    {
        let jitter = random_below(50);
        self.delay_with_jitter(metrics, jitter)
    }

    pub fn name(&self) -> (r: &'static str)
        ensures
            r@ == "SmoothFlow"@,
    {
        "SmoothFlow"
    }
}

impl StealthJitter {
    pub fn delay_with_jitter(&self, metrics: &TrafficMetrics, jitter: u64) -> (r: u64)
        requires
            jitter < 5000,
        ensures
            r == stealth_delay(*metrics, jitter),
    {
        let penalty: u64 = if metrics.error_count > 0 {
            5000
        } else {
            0
        };
        2000 + jitter + penalty
    }

    pub fn calculate_delay(&self, metrics: &TrafficMetrics) -> (r: u64)
        ensures
            metrics.error_count == 0 ==> 2000 <= r < 7000,
            metrics.error_count > 0 ==> 7000 <= r < 12000,
    {
        let jitter = random_below(5000);
        self.delay_with_jitter(metrics, jitter)
    }

    pub fn name(&self) -> (r: &'static str)
        ensures
            r@ == "StealthJitter"@,
    {
        "StealthJitter"
    }
}

impl Slowloris {
    /// The delay `jitter` milliseconds above the low end of the window.
    pub fn delay_with_jitter(&self, jitter: u64) -> (r: u64)
        requires
            jitter <= slowloris_high(self.target_ms) - slowloris_low(self.target_ms),
        ensures
            r == slowloris_low(self.target_ms) + jitter,
    {
        let low = ((self.target_ms as u128) * 9 / 10) as u64;
        low + jitter
    }

    /// A delay drawn from 90% to 95% of the target.
    pub fn calculate_delay(&self) -> (r: u64)
        ensures
            slowloris_low(self.target_ms) <= r <= slowloris_high(self.target_ms),
    {
        let low = ((self.target_ms as u128) * 9 / 10) as u64;
        let high = ((self.target_ms as u128) * 19 / 20) as u64;
        let jitter = random_below(high - low + 1);
        self.delay_with_jitter(jitter)
    }
}

impl Heartbeat {
    pub fn calculate_delay(&self) -> (r: u64)
        ensures
            r == self.period_ms,
    {
        self.period_ms
    }
}

impl MicroBurst {
    /// The delay for a request about to be scheduled at `now_ms`.
    pub fn delay_at(&self, now_ms: u64) -> (r: u64)
        requires
            self.burst_rps > 0,
            burst_cycle(*self) > 0,
            burst_cycle(*self) <= u64::MAX,
        ensures
            r == micro_burst_delay(*self, now_ms),
    {
        let cycle = self.burst_ms + self.idle_ms;
        let phase = now_ms % cycle;
        if phase < self.burst_ms {
            1000 / self.burst_rps
        } else {
            cycle - phase
        }
    }

    /// The delay for a request about to be scheduled now.
    pub fn calculate_delay(&self) -> (r: u64)
        requires
            self.burst_rps > 0,
            burst_cycle(*self) > 0,
            burst_cycle(*self) <= u64::MAX,
        ensures
            r == 1000int / self.burst_rps as int || r <= burst_cycle(*self),
    {
        let now = unix_millis();
        let now_ms: u64 = if now < 0 {
            0
        } else {
            now as u64
        };
        self.delay_at(now_ms)
    }
}

impl GeoLatency {
    pub fn delay_with_jitter(&self, jitter: u64) -> (r: u64)
        requires
            self.rate_per_s > 0,
            jitter <= 20,
            self.base_ms + 1020 <= u64::MAX,
        ensures
            r == geo_delay(*self, jitter),
    {
        self.base_ms + jitter + 1000 / self.rate_per_s
    }

    pub fn calculate_delay(&self) -> (r: u64)
        requires
            self.rate_per_s > 0,
            self.base_ms + 1020 <= u64::MAX,
        ensures
            self.base_ms + 1000int / self.rate_per_s as int <= r <= self.base_ms + 20 + 1000int
                / (self.rate_per_s as int),
    {
        let jitter = random_below(21);
        self.delay_with_jitter(jitter)
    }
}

impl WorkingHours {
    /// The delay at local hour `hour`.
    pub fn delay_at_hour(&self, hour: u32) -> (r: u64)
        ensures
            r == working_hours_delay(*self, hour),
    {
        let inside = if self.start_hour <= self.end_hour {
            self.start_hour <= hour && hour < self.end_hour
        } else {
            hour >= self.start_hour || hour < self.end_hour
        };
        if inside {
            spacing_of(self.on_rps)
        } else {
            spacing_of(self.off_rps)
        }
    }

    /// The delay at the current local hour.
    pub fn calculate_delay(&self) -> (r: u64)
        ensures
            exists|h: u32| h < 24 && r == #[trigger] working_hours_delay(*self, h),
    {
        let hour = local_hour();
        self.delay_at_hour(hour)
    }
}

/// A worker's shaping strategy, chosen when the worker is built.
#[derive(Clone, Copy, Debug, PartialEq, Eq, Structural)]
pub enum Strategy {
    Smooth(SmoothFlow),
    Stealth(StealthJitter),
    Slow(Slowloris),
    Beat(Heartbeat),
    Burst(MicroBurst),
    Geo(GeoLatency),
    Hours(WorkingHours),
}

/// Whether a strategy's parameters allow it to compute a delay: a positive
/// burst rate and cycle, a positive geo rate, and sums that fit in `u64`.
pub open spec fn strategy_usable(s: Strategy) -> bool {
    match s {
        Strategy::Burst(b) => b.burst_rps > 0 && burst_cycle(b) > 0 && burst_cycle(b) <= u64::MAX,
        Strategy::Geo(g) => g.rate_per_s > 0 && g.base_ms + 1020 <= u64::MAX,
        _ => true,
    }
}

pub open spec fn strategy_name(s: Strategy) -> Seq<char> {
    match s {
        Strategy::Smooth(_) => "SmoothFlow"@,
        Strategy::Stealth(_) => "StealthJitter"@,
        Strategy::Slow(_) => "Slowloris"@,
        Strategy::Beat(_) => "Heartbeat"@,
        Strategy::Burst(_) => "MicroBurst"@,
        Strategy::Geo(_) => "GeoLatency"@,
        Strategy::Hours(_) => "WorkingHours"@,
    }
}

/// The strategy a configuration names: stealth for `stealth`, smooth
/// otherwise.
pub open spec fn strategy_named(name: Seq<char>) -> Strategy {
    if name == "stealth"@ {
        Strategy::Stealth(StealthJitter)
    } else {
        Strategy::Smooth(SmoothFlow)
    }
}

impl Strategy {
    pub fn from_name(name: &str) -> (r: Strategy)
        ensures
            r == strategy_named(name@),
    {
        if crate::text::same_text(name, "stealth") {
            Strategy::Stealth(StealthJitter)
        } else {
            Strategy::Smooth(SmoothFlow)
        }
    }

    pub fn is_usable(&self) -> (r: bool)
        ensures
            r == strategy_usable(*self),
    {
        match self {
            Strategy::Burst(b) => b.burst_rps > 0 && (b.burst_ms > 0 || b.idle_ms > 0)
                && b.burst_ms <= u64::MAX - b.idle_ms,
            Strategy::Geo(g) => g.rate_per_s > 0 && g.base_ms <= u64::MAX - 1020,
            _ => true,
        }
    }

    /// The delay before the next request, as each strategy states it.
    pub fn next_delay(&self, metrics: &TrafficMetrics) -> (r: u64)
        requires
            strategy_usable(*self),
        ensures
            self is Smooth ==> 300 <= r < 350,
            self is Stealth && metrics.error_count == 0 ==> 2000 <= r < 7000,
            self is Stealth && metrics.error_count > 0 ==> 7000 <= r < 12000,
            self matches Strategy::Slow(s) ==> slowloris_low(s.target_ms) <= r <= slowloris_high(
                s.target_ms,
            ),
            self matches Strategy::Beat(h) ==> r == h.period_ms,
            self matches Strategy::Burst(b) ==> r == 1000int / b.burst_rps as int || r
                <= burst_cycle(*b),
            self matches Strategy::Geo(g) ==> g.base_ms + 1000int / g.rate_per_s as int <= r
                <= g.base_ms + 20 + 1000int / g.rate_per_s as int,
            self matches Strategy::Hours(w) ==> exists|h: u32|
                h < 24 && r == #[trigger] working_hours_delay(*w, h),
    {
        match self {
            Strategy::Smooth(s) => s.calculate_delay(metrics),
            Strategy::Stealth(s) => s.calculate_delay(metrics),
            Strategy::Slow(s) => s.calculate_delay(),
            Strategy::Beat(h) => h.calculate_delay(),
            Strategy::Burst(b) => b.calculate_delay(),
            Strategy::Geo(g) => g.calculate_delay(),
            Strategy::Hours(w) => w.calculate_delay(),
        }
    }

    pub fn name(&self) -> (r: &'static str)
        ensures
            r@ == strategy_name(*self),
    {
        match self {
            Strategy::Smooth(s) => s.name(),
            Strategy::Stealth(s) => s.name(),
            Strategy::Slow(_) => "Slowloris",
            Strategy::Beat(_) => "Heartbeat",
            Strategy::Burst(_) => "MicroBurst",
            Strategy::Geo(_) => "GeoLatency",
            Strategy::Hours(_) => "WorkingHours",
        }
    }
}

} // verus!

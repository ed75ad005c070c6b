//! The decisions of the watchdog: a monitor woken every `check_interval_ms`
//! that raises the control block's flags when the operation is overdue or its
//! heartbeat has stopped.

use crate::control::{deadline_passed, elapsed_ms, AssemblyControl, NANOS_PER_MILLI};
use vstd::prelude::*;

verus! {

/// Default wake-up period of the watchdog, in milliseconds.
pub const DEFAULT_CHECK_INTERVAL_MS: u64 = 100;

/// Default time without heartbeat after which an operation counts as stalled.
pub const DEFAULT_STALL_TIMEOUT_MS: u64 = 2000;

/// How a watchdog runs. Fixed once the watchdog is started.
#[derive(Debug, Clone, Copy)]
pub struct WatchdogConfig {
    /// Wake-up period, in milliseconds.
    pub check_interval_ms: u64,
    /// Time without a heartbeat after which the operation counts as stalled, in milliseconds.
    pub stall_timeout_ms: u64,
    /// Whether a watchdog runs at all.
    pub enabled: bool,
}

impl Default for WatchdogConfig {
    fn default() -> (r: WatchdogConfig)
        ensures
            r.check_interval_ms == DEFAULT_CHECK_INTERVAL_MS,
            r.stall_timeout_ms == DEFAULT_STALL_TIMEOUT_MS,
            r.enabled,
    {
        WatchdogConfig {
            check_interval_ms: DEFAULT_CHECK_INTERVAL_MS,
            stall_timeout_ms: DEFAULT_STALL_TIMEOUT_MS,
            enabled: true,
        }
    }
}

/// What one wake-up of the watchdog found.
#[derive(Debug, Clone, Copy, PartialEq, Eq, Structural)]
pub enum WatchdogVerdict {
    /// No operation is in progress.
    Idle,
    /// The operation is overdue: timeout and cancellation were raised.
    TimedOut,
    /// The heartbeat stood still too long: cancellation was raised.
    Stalled,
    /// The operation is in progress and within its limits.
    Watching,
}

/// What the watchdog remembers between wake-ups: the last heartbeat it saw and
/// when it first saw it, on a monotonic clock in milliseconds.
#[derive(Debug, Clone, Copy, PartialEq, Eq, Structural)]
pub struct WatchdogMonitor {
    /// The heartbeat value last observed; zero before any was tracked.
    pub last_heartbeat: u64,
    /// When `last_heartbeat` was first observed.
    pub last_heartbeat_time_ms: u64,
}

/// Milliseconds from `earlier` to `later`, zero when `later` comes first.
pub open spec fn span_ms(earlier: u64, later: u64) -> int {
    if later >= earlier {
        later - earlier
    } else {
        0
    }
}

impl WatchdogMonitor {
    /// The monitor and control block after a wake-up at wall-clock time `now_ns`
    /// (nanoseconds since the Unix epoch) and monotonic time `now_ms`, and what
    /// the wake-up found.
    pub open spec fn after_tick(
        self,
        config: WatchdogConfig,
        control: AssemblyControl,
        now_ns: u64,
        now_ms: u64,
    ) -> (WatchdogMonitor, AssemblyControl, WatchdogVerdict) {
        let fresh = WatchdogMonitor { last_heartbeat: control.heartbeat, last_heartbeat_time_ms: now_ms };
        if control.start_time == 0 {
            (WatchdogMonitor { last_heartbeat: 0, last_heartbeat_time_ms: now_ms }, control, WatchdogVerdict::Idle)
        } else if deadline_passed(control.start_time, now_ns, control.timeout_ms) {
            (
                self,
                AssemblyControl { timeout_flag: true, cancel_flag: true, ..control },
                WatchdogVerdict::TimedOut,
            )
        } else if control.heartbeat != self.last_heartbeat {
            (fresh, control, WatchdogVerdict::Watching)
        } else if self.last_heartbeat > 0 && span_ms(self.last_heartbeat_time_ms, now_ms)
            > config.stall_timeout_ms {
            (
                WatchdogMonitor { last_heartbeat_time_ms: now_ms, ..self },
                AssemblyControl { cancel_flag: true, ..control },
                WatchdogVerdict::Stalled,
            )
        } else if self.last_heartbeat == 0 {
            (fresh, control, WatchdogVerdict::Watching)
        } else {
            (self, control, WatchdogVerdict::Watching)
        }
    }

    /// A monitor that has seen no heartbeat yet, started at monotonic time `now_ms`.
    pub fn new(now_ms: u64) -> (r: WatchdogMonitor)
        ensures
            r == (WatchdogMonitor { last_heartbeat: 0, last_heartbeat_time_ms: now_ms }),
    {
        WatchdogMonitor { last_heartbeat: 0, last_heartbeat_time_ms: now_ms }
    }

    /// One wake-up of the watchdog over `control`.
    ///
    /// With no operation in progress it forgets what it tracked. An overdue
    /// operation gets its timeout and cancellation flags raised. Otherwise a
    /// heartbeat that has not moved for more than `stall_timeout_ms` gets the
    /// cancellation flag raised, and the stall clock restarts so that one stall
    /// is reported once.
    pub fn tick(
        &mut self,
        config: &WatchdogConfig,
        control: &mut AssemblyControl,
        now_ns: u64,
        now_ms: u64,
    ) -> (r: WatchdogVerdict)
        ensures
            (*final(self), *final(control), r) == old(self).after_tick(
                *config,
                *old(control),
                now_ns,
                now_ms,
            ),
    {
        if control.start_time == 0 {
            self.last_heartbeat = 0;
            self.last_heartbeat_time_ms = now_ms;
            return WatchdogVerdict::Idle;
        }
        if control.timeout_ms > 0 {
            let elapsed_ms = if now_ns >= control.start_time {
                (now_ns - control.start_time) / crate::control::NANOS_PER_MILLI
            } else {
                0
            };
            if elapsed_ms > control.timeout_ms {
                control.timeout_flag = true;
                control.cancel_flag = true;
                return WatchdogVerdict::TimedOut;
            }
        }
        let current = control.heartbeat;
        if current != self.last_heartbeat {
            self.last_heartbeat = current;
            self.last_heartbeat_time_ms = now_ms;
            return WatchdogVerdict::Watching;
        }
        let silent_ms = if now_ms >= self.last_heartbeat_time_ms {
            now_ms - self.last_heartbeat_time_ms
        } else {
            0
        };
        if self.last_heartbeat > 0 && silent_ms > config.stall_timeout_ms {
            control.cancel_flag = true;
            self.last_heartbeat_time_ms = now_ms;
            WatchdogVerdict::Stalled
        } else {
            if self.last_heartbeat == 0 {
                self.last_heartbeat = current;
                self.last_heartbeat_time_ms = now_ms;
            }
            WatchdogVerdict::Watching
        }
    }
}

/// The monitor and control block after wake-ups at the times in `ticks`
/// (wall-clock nanoseconds, monotonic milliseconds), with nothing but the
/// watchdog touching the control block in between.
pub open spec fn after_ticks(
    m: WatchdogMonitor,
    config: WatchdogConfig,
    control: AssemblyControl,
    ticks: Seq<(u64, u64)>,
) -> (WatchdogMonitor, AssemblyControl)
    decreases ticks.len(),
{
    if ticks.len() == 0 {
        (m, control)
    } else {
        let (m2, c2, _v) = m.after_tick(config, control, ticks[0].0, ticks[0].1);
        after_ticks(m2, config, c2, ticks.drop_first())
    }
}

proof fn lemma_cancel_survives_ticks(
    m: WatchdogMonitor,
    config: WatchdogConfig,
    control: AssemblyControl,
    ticks: Seq<(u64, u64)>,
)
    requires
        control.cancel_flag,
    ensures
        after_ticks(m, config, control, ticks).1.cancel_flag,
        after_ticks(m, config, control, ticks).1.heartbeat == control.heartbeat,
    decreases ticks.len(),
{
    if ticks.len() > 0 {
        let (m2, c2, _v) = m.after_tick(config, control, ticks[0].0, ticks[0].1);
        lemma_cancel_survives_ticks(m2, config, c2, ticks.drop_first());
    }
}

/// Watchdog stall detection, for any wake-up times: while an operation is in
/// progress and its heartbeat stands still at a value above zero since
/// `frozen_since`, a series of wake-ups whose last comes more than
/// `stall_timeout_ms` after `frozen_since` leaves the cancellation flag
/// raised. The monitor must have seen the frozen value no later than
/// `frozen_since`, or see it first at a wake-up no later than that.
pub proof fn lemma_frozen_heartbeat_fires(
    m: WatchdogMonitor,
    config: WatchdogConfig,
    control: AssemblyControl,
    ticks: Seq<(u64, u64)>,
    frozen_since: u64,
)
    requires
        control.start_time != 0,
        control.heartbeat > 0,
        ticks.len() > 0,
        m.last_heartbeat == control.heartbeat ==> m.last_heartbeat_time_ms <= frozen_since,
        m.last_heartbeat != control.heartbeat ==> ticks[0].1 <= frozen_since,
        ticks.last().1 > frozen_since + config.stall_timeout_ms,
    ensures
        after_ticks(m, config, control, ticks).1.cancel_flag,
    decreases ticks.len(),
{
    let (m2, c2, v) = m.after_tick(config, control, ticks[0].0, ticks[0].1);
    if c2.cancel_flag {
        lemma_cancel_survives_ticks(m2, config, c2, ticks.drop_first());
    } else {
        assert(m2.last_heartbeat == control.heartbeat);
        assert(m2.last_heartbeat_time_ms <= frozen_since);
        assert(c2 == control);
        lemma_frozen_heartbeat_fires(m2, config, c2, ticks.drop_first(), frozen_since);
    }
}

/// Watchdog stall detection: while an operation is in progress and its
/// heartbeat stands still at a value above zero from time `t0` on, a watchdog
/// that wakes every `check_interval_ms` from `t0` on has raised the
/// cancellation flag by its wake-up at index `stall_timeout_ms /
/// check_interval_ms + 1`, which comes no later than `stall_timeout_ms +
/// check_interval_ms` after `t0`. What the monitor remembered from before `t0`
/// must be no later than `t0`.
pub proof fn lemma_stall_detected(
    m: WatchdogMonitor,
    config: WatchdogConfig,
    control: AssemblyControl,
    ticks: Seq<(u64, u64)>,
    t0: u64,
)
    requires
        control.start_time != 0,
        control.heartbeat > 0,
        config.check_interval_ms > 0,
        m.last_heartbeat_time_ms <= t0,
        ticks.len() == config.stall_timeout_ms / config.check_interval_ms + 2,
        forall|i: int| 0 <= i < ticks.len() ==> #[trigger] ticks[i].1 == t0 + i * config.check_interval_ms,
    ensures
        after_ticks(m, config, control, ticks).1.cancel_flag,
        ticks.last().1 <= t0 + config.stall_timeout_ms + config.check_interval_ms,
{
    let iv = config.check_interval_ms as int;
    let st = config.stall_timeout_ms as int;
    let k = st / iv + 1;
    assert(ticks.last().1 == t0 + k * iv);
    assert(k * iv > st && k * iv <= st + iv) by (nonlinear_arith)
        requires
            k == st / iv + 1,
            iv > 0,
            st >= 0,
    {
        assert(st == (st / iv) * iv + st % iv);
    }
    assert(ticks[0].1 == t0);
    lemma_frozen_heartbeat_fires(m, config, control, ticks, t0);
}

proof fn lemma_flags_survive_ticks(
    m: WatchdogMonitor,
    config: WatchdogConfig,
    control: AssemblyControl,
    ticks: Seq<(u64, u64)>,
)
    requires
        control.timeout_flag,
        control.cancel_flag,
    ensures
        after_ticks(m, config, control, ticks).1.timeout_flag,
        after_ticks(m, config, control, ticks).1.cancel_flag,
    decreases ticks.len(),
{
    if ticks.len() > 0 {
        let (m2, c2, _v) = m.after_tick(config, control, ticks[0].0, ticks[0].1);
        lemma_flags_survive_ticks(m2, config, c2, ticks.drop_first());
    }
}

/// Timeout redundancy, for any wake-up times: when any wake-up of a series
/// comes after the deadline of an operation in progress, the series leaves
/// both the timeout and the cancellation flags raised, whatever the other
/// wake-ups found and whether or not the operation polls.
pub proof fn lemma_overdue_tick_fires(
    m: WatchdogMonitor,
    config: WatchdogConfig,
    control: AssemblyControl,
    ticks: Seq<(u64, u64)>,
    k: int,
)
    requires
        control.start_time != 0,
        0 <= k < ticks.len(),
        deadline_passed(control.start_time, ticks[k].0, control.timeout_ms),
    ensures
        after_ticks(m, config, control, ticks).1.timeout_flag,
        after_ticks(m, config, control, ticks).1.cancel_flag,
    decreases ticks.len(),
{
    let (m2, c2, _v) = m.after_tick(config, control, ticks[0].0, ticks[0].1);
    if k == 0 {
        lemma_flags_survive_ticks(m2, config, c2, ticks.drop_first());
    } else {
        assert(c2.start_time == control.start_time && c2.timeout_ms == control.timeout_ms);
        assert(ticks.drop_first()[k - 1] == ticks[k]);
        lemma_overdue_tick_fires(m2, config, c2, ticks.drop_first(), k - 1);
    }
}

/// Timeout redundancy over time: when the watchdog wakes every
/// `check_interval_ms` from the start of an operation with a time budget,
/// the timeout and cancellation flags are both raised by its wake-up at index
/// `timeout_ms / check_interval_ms + 1`, which comes no later than
/// `check_interval_ms` after the deadline, whether or not the operation ever
/// polls the control block.
pub proof fn lemma_timeout_detected_in_time(
    m: WatchdogMonitor,
    config: WatchdogConfig,
    control: AssemblyControl,
    ticks: Seq<(u64, u64)>,
)
    requires
        control.start_time != 0,
        control.timeout_ms > 0,
        config.check_interval_ms > 0,
        ticks.len() == control.timeout_ms / config.check_interval_ms + 2,
        forall|i: int|
            0 <= i < ticks.len() ==> #[trigger] ticks[i].0 == control.start_time + i
                * config.check_interval_ms * NANOS_PER_MILLI,
    ensures
        after_ticks(m, config, control, ticks).1.timeout_flag,
        after_ticks(m, config, control, ticks).1.cancel_flag,
        ticks.last().0 <= control.start_time + (control.timeout_ms + config.check_interval_ms)
            * NANOS_PER_MILLI,
{
    let iv = config.check_interval_ms as int;
    let to = control.timeout_ms as int;
    let k = to / iv + 1;
    let nm = NANOS_PER_MILLI as int;
    assert(k * iv > to && k * iv <= to + iv) by (nonlinear_arith)
        requires
            k == to / iv + 1,
            iv > 0,
            to >= 0,
    {
        assert(to == (to / iv) * iv + to % iv);
    }
    let w = ticks[k].0;
    assert(w == control.start_time + k * iv * nm);
    assert((k * iv * nm) / nm == k * iv) by (nonlinear_arith)
        requires
            nm > 0,
    ;
    assert(k * iv * nm <= (to + iv) * nm) by (nonlinear_arith)
        requires
            k * iv <= to + iv,
            nm > 0,
    ;
    assert(elapsed_ms(control.start_time, w) == k * iv);
    lemma_overdue_tick_fires(m, config, control, ticks, k);
}

/// Timeout redundancy: a wake-up of the watchdog after an operation's deadline
/// raises both the timeout and the cancellation flags by itself, whether or not
/// the operation ever polls the control block.
pub proof fn lemma_timeout_detected(
    m: WatchdogMonitor,
    config: WatchdogConfig,
    control: AssemblyControl,
    now_ns: u64,
    now_ms: u64,
)
    requires
        control.start_time != 0,
        deadline_passed(control.start_time, now_ns, control.timeout_ms),
    ensures
        m.after_tick(config, control, now_ns, now_ms).1.timeout_flag,
        m.after_tick(config, control, now_ns, now_ms).1.cancel_flag,
        m.after_tick(config, control, now_ns, now_ms).2 == WatchdogVerdict::TimedOut,
{
}

} // verus!

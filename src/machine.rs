use vstd::prelude::*;

verus! {

/// Utilization of 100%, in hundredths of a percent.
pub const FULL_SCALE: i64 = 10000;

/// Where the machine stands in the lifecycle of one threshold-crossing episode.
#[derive(Copy, Clone, Debug, PartialEq, Eq, Structural)]
pub enum CpuMonitorState {
    /// Start-up: no reading seen yet.
    Initial,
    /// Readings above the threshold, not yet confirmed by enough of them.
    RisingEdge,
    /// Committed to the high regime.
    OverThreshold,
    /// Readings at or below the threshold, not yet confirmed by enough of them.
    FallingEdge,
    /// Committed to the low regime: the regime that raises alerts.
    BelowThreshold,
}

/// A source of utilization readings, one per call, in hundredths of a percent.
/// Implemented outside the library (a system sampler, a scripted test source),
/// so nothing is promised of what a reading is.
pub trait CpuMonitor {
    fn get_cpu_usage(&mut self) -> i64;
}

/// Fixed configuration of the machine.
#[derive(Copy, Clone, Debug)]
pub struct Settings {
    /// Boundary between high and low utilization, in hundredths of a percent.
    pub threshold: i64,
    /// Consecutive readings on one side needed before committing to that side.
    pub debounce_count: i32,
    /// Most alerts raised in one unbroken below-threshold episode.
    pub alert_repeat_count: i32,
}

/// Streak counters, kept by the driver from one reading to the next.
#[derive(Copy, Clone, Debug)]
pub struct CpuMonitorArgs {
    /// Consecutive readings strictly above the threshold.
    pub above_threshold_count: i32,
    /// Consecutive readings at or below the threshold.
    pub below_threshold_count: i32,
    /// Alerts counted in the current below-threshold episode.
    pub alert_repeat_count: i32,
}

/// What one evaluation decided.
#[derive(Copy, Clone, Debug)]
pub struct CpuMonitorOutput {
    pub next_state: CpuMonitorState,
    /// The reading that was evaluated.
    pub cpu_usage: i64,
    /// Whether the driver should raise an alert.
    pub play_alert: bool,
    /// Whether the driver should log the reading.
    pub display_log: bool,
}

impl Settings {
    /// A configuration that construction accepts.
    pub open spec fn wf(self) -> bool {
        &&& 0 <= self.threshold <= FULL_SCALE
        &&& self.debounce_count >= 1
        &&& self.alert_repeat_count >= 0
    }

    /// Whether a reading lies strictly above the threshold.
    pub open spec fn is_above(self, sample: i64) -> bool {
        sample > self.threshold
    }

    /// Builds a configuration, rejecting a threshold outside 0..=100% and a
    /// debounce count below one or a negative alert bound.
    pub fn new(threshold: i64, debounce_count: i32, alert_repeat_count: i32) -> (r: Option<Settings>)
        ensures
            r is Some <==> (0 <= threshold <= FULL_SCALE && debounce_count >= 1
                && alert_repeat_count >= 0),
            r matches Some(s) ==> s.threshold == threshold && s.debounce_count == debounce_count
                && s.alert_repeat_count == alert_repeat_count && s.wf(),
    {
        if 0 <= threshold && threshold <= FULL_SCALE && debounce_count >= 1 && alert_repeat_count >= 0 {
            Some(Settings { threshold, debounce_count, alert_repeat_count })
        } else {
            None
        }
    }
}

impl CpuMonitorArgs {
    /// Counters that a driver can hold: none of them negative.
    pub open spec fn wf(self) -> bool {
        &&& self.above_threshold_count >= 0
        &&& self.below_threshold_count >= 0
        &&& self.alert_repeat_count >= 0
    }

    /// Exactly one of the two streaks is running.
    pub open spec fn streaks_exclusive(self) -> bool {
        ||| self.above_threshold_count > 0 && self.below_threshold_count == 0
        ||| self.above_threshold_count == 0 && self.below_threshold_count > 0
    }
}

/// One more, held at `i32::MAX` once there.
pub open spec fn saturating_inc(n: i32) -> i32 {
    if n < i32::MAX {
        (n + 1) as i32
    } else {
        n
    }
}

/// The counters after the bookkeeping that every reading gets, whatever the
/// state: the streak on the reading's side grows, the other one stops, and the
/// alert count restarts when a below-threshold episode begins.
pub open spec fn tally(settings: Settings, args: CpuMonitorArgs, sample: i64) -> CpuMonitorArgs {
    if settings.is_above(sample) {
        CpuMonitorArgs {
            above_threshold_count: saturating_inc(args.above_threshold_count),
            below_threshold_count: 0,
            alert_repeat_count: args.alert_repeat_count,
        }
    } else {
        CpuMonitorArgs {
            above_threshold_count: 0,
            below_threshold_count: saturating_inc(args.below_threshold_count),
            alert_repeat_count: if args.below_threshold_count == 0 {
                0
            } else {
                args.alert_repeat_count
            },
        }
    }
}

/// The state that follows `current` on `sample`, given the counters after
/// bookkeeping.
pub open spec fn next_state_of(
    current: CpuMonitorState,
    settings: Settings,
    tallied: CpuMonitorArgs,
    sample: i64,
) -> CpuMonitorState {
    match current {
        CpuMonitorState::Initial | CpuMonitorState::RisingEdge | CpuMonitorState::BelowThreshold => {
            if !settings.is_above(sample) {
                CpuMonitorState::BelowThreshold
            } else if tallied.above_threshold_count >= settings.debounce_count {
                CpuMonitorState::OverThreshold
            } else {
                CpuMonitorState::RisingEdge
            }
        },
        CpuMonitorState::OverThreshold | CpuMonitorState::FallingEdge => {
            if settings.is_above(sample) {
                CpuMonitorState::OverThreshold
            } else if tallied.below_threshold_count >= settings.debounce_count {
                CpuMonitorState::BelowThreshold
            } else {
                CpuMonitorState::FallingEdge
            }
        },
    }
}

/// The alerting arm: the machine already rests below and gets another reading
/// at or below the threshold.
pub open spec fn stays_below(current: CpuMonitorState, settings: Settings, sample: i64) -> bool {
    current == CpuMonitorState::BelowThreshold && !settings.is_above(sample)
}

/// One evaluation: what it decides, and the counters it leaves behind.
pub open spec fn step(
    current: CpuMonitorState,
    settings: Settings,
    args: CpuMonitorArgs,
    sample: i64,
) -> (CpuMonitorOutput, CpuMonitorArgs) {
    let tallied = tally(settings, args, sample);
    let holding = stays_below(current, settings, sample);
    let next_state = next_state_of(current, settings, tallied, sample);
    let out = CpuMonitorOutput {
        next_state,
        cpu_usage: sample,
        play_alert: holding && tallied.alert_repeat_count < settings.alert_repeat_count,
        display_log: current == CpuMonitorState::RisingEdge || (current == CpuMonitorState::Initial
            && next_state != CpuMonitorState::OverThreshold),
    };
    let counters = if holding {
        CpuMonitorArgs {
            above_threshold_count: tallied.above_threshold_count,
            below_threshold_count: tallied.below_threshold_count,
            alert_repeat_count: saturating_inc(tallied.alert_repeat_count),
        }
    } else {
        tallied
    };
    (out, counters)
}

fn saturating_increment(n: i32) -> (r: i32)
    ensures
        r == saturating_inc(n),
{
    if n < i32::MAX {
        n + 1
    } else {
        n
    }
}

/// Feeds one reading to the machine: updates the counters in place and
/// returns the next state and whether to alert and to log.
pub fn evaluate(
    current_state: CpuMonitorState,
    settings: &Settings,
    args: &mut CpuMonitorArgs,
    cpu_usage: i64,
) -> (out: CpuMonitorOutput)
    ensures
        (out, *final(args)) == step(current_state, *settings, *old(args), cpu_usage),
{
    let above = cpu_usage > settings.threshold;

    // Bookkeeping that every reading gets, whatever the state.
    if above {
        args.below_threshold_count = 0;
        args.above_threshold_count = saturating_increment(args.above_threshold_count);
    } else {
        if args.below_threshold_count == 0 {
            args.alert_repeat_count = 0;
        }
        args.above_threshold_count = 0;
        args.below_threshold_count = saturating_increment(args.below_threshold_count);
    }

    let mut play_alert = false;
    let mut display_log = false;
    let next_state = match current_state {
        CpuMonitorState::Initial => {
            if !above {
                display_log = true;
                CpuMonitorState::BelowThreshold
            } else if args.above_threshold_count >= settings.debounce_count {
                // Committed at once: nothing to log.
                CpuMonitorState::OverThreshold
            } else {
                display_log = true;
                CpuMonitorState::RisingEdge
            }
        },
        CpuMonitorState::RisingEdge => {
            display_log = true;
            if !above {
                CpuMonitorState::BelowThreshold
            } else if args.above_threshold_count >= settings.debounce_count {
                CpuMonitorState::OverThreshold
            } else {
                CpuMonitorState::RisingEdge
            }
        },
        CpuMonitorState::OverThreshold | CpuMonitorState::FallingEdge => {
            if above {
                CpuMonitorState::OverThreshold
            } else if args.below_threshold_count >= settings.debounce_count {
                CpuMonitorState::BelowThreshold
            } else {
                CpuMonitorState::FallingEdge
            }
        },
        CpuMonitorState::BelowThreshold => {
            if !above {
                if args.alert_repeat_count < settings.alert_repeat_count {
                    play_alert = true;
                }
                args.alert_repeat_count = saturating_increment(args.alert_repeat_count);
                CpuMonitorState::BelowThreshold
            } else if args.above_threshold_count >= settings.debounce_count {
                CpuMonitorState::OverThreshold
            } else {
                CpuMonitorState::RisingEdge
            }
        },
    };

    CpuMonitorOutput { next_state, cpu_usage, play_alert, display_log }
}

/// Takes one reading from `sys` and feeds it to the machine. Whatever the
/// reading, the outcome is that of [`evaluate`] on it.
pub fn evolve_cpu_state<T: CpuMonitor>(
    sys: &mut T,
    current_state: CpuMonitorState,
    settings: &Settings,
    args: &mut CpuMonitorArgs,
) -> (out: CpuMonitorOutput)
    ensures
        (out, *final(args)) == step(current_state, *settings, *old(args), out.cpu_usage),
{
    let cpu_usage = sys.get_cpu_usage();
    evaluate(current_state, settings, args, cpu_usage)
}

} // verus!

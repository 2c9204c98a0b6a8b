use vstd::prelude::*;

use crate::machine::{step, tally, CpuMonitorArgs, CpuMonitorState, Settings};

verus! {

/// The state and counters after feeding `samples`, in order, from `state` and
/// `args`.
pub open spec fn run(
    state: CpuMonitorState,
    settings: Settings,
    args: CpuMonitorArgs,
    samples: Seq<i64>,
) -> (CpuMonitorState, CpuMonitorArgs)
    decreases samples.len(),
{
    if samples.len() == 0 {
        (state, args)
    } else {
        let prev = run(state, settings, args, samples.drop_last());
        let next = step(prev.0, settings, prev.1, samples.last());
        (next.0.next_state, next.1)
    }
}

/// How many of the evaluations of [`run`] raise an alert.
pub open spec fn alerts_raised(
    state: CpuMonitorState,
    settings: Settings,
    args: CpuMonitorArgs,
    samples: Seq<i64>,
) -> nat
    decreases samples.len(),
{
    if samples.len() == 0 {
        0
    } else {
        let prev = run(state, settings, args, samples.drop_last());
        let alert = step(prev.0, settings, prev.1, samples.last()).0.play_alert;
        alerts_raised(state, settings, args, samples.drop_last()) + if alert {
            1nat
        } else {
            0nat
        }
    }
}

/// Every reading of `samples` lies strictly above the threshold.
pub open spec fn all_above(settings: Settings, samples: Seq<i64>) -> bool {
    forall|i: int| 0 <= i < samples.len() ==> settings.is_above(#[trigger] samples[i])
}

/// Every reading of `samples` lies at or below the threshold.
pub open spec fn all_at_or_below(settings: Settings, samples: Seq<i64>) -> bool {
    forall|i: int| 0 <= i < samples.len() ==> !settings.is_above(#[trigger] samples[i])
}

/// The alert bound of `settings`, a negative one read as zero.
pub open spec fn alert_bound(settings: Settings) -> int {
    if settings.alert_repeat_count > 0 {
        settings.alert_repeat_count as int
    } else {
        0
    }
}

/// `n`, but no more than `cap`.
pub open spec fn capped(n: int, cap: int) -> int {
    if n < cap {
        n
    } else {
        cap
    }
}

/// One evaluation from counters that a driver can hold leaves exactly one
/// streak running, so the two streaks differ, and leaves counters that a
/// driver can hold.
pub proof fn lemma_step_streaks_exclusive(
    state: CpuMonitorState,
    settings: Settings,
    args: CpuMonitorArgs,
    sample: i64,
)
    requires
        args.wf(),
    ensures
        step(state, settings, args, sample).1.wf(),
        step(state, settings, args, sample).1.streaks_exclusive(),
        step(state, settings, args, sample).1.above_threshold_count
            != step(state, settings, args, sample).1.below_threshold_count,
{
}

/// After one or more evaluations from counters that a driver can hold, exactly
/// one streak is running and the two streaks differ.
pub proof fn lemma_streaks_exclusive(
    state: CpuMonitorState,
    settings: Settings,
    args: CpuMonitorArgs,
    samples: Seq<i64>,
)
    requires
        args.wf(),
        samples.len() >= 1,
    ensures
        run(state, settings, args, samples).1.wf(),
        run(state, settings, args, samples).1.streaks_exclusive(),
        run(state, settings, args, samples).1.above_threshold_count
            != run(state, settings, args, samples).1.below_threshold_count,
    decreases samples.len(),
{
    let prefix = samples.drop_last();
    if prefix.len() >= 1 {
        lemma_streaks_exclusive(state, settings, args, prefix);
    }
    let prev = run(state, settings, args, prefix);
    lemma_step_streaks_exclusive(prev.0, settings, prev.1, samples.last());
}

/// In `OverThreshold`, readings that all lie above the threshold keep the
/// machine there, and the above streak grows by one with each of them, up to
/// `i32::MAX`.
pub proof fn lemma_holds_over_threshold(
    settings: Settings,
    args: CpuMonitorArgs,
    samples: Seq<i64>,
)
    requires
        all_above(settings, samples),
    ensures
        run(CpuMonitorState::OverThreshold, settings, args, samples).0
            == CpuMonitorState::OverThreshold,
        run(CpuMonitorState::OverThreshold, settings, args, samples).1.above_threshold_count
            == capped(args.above_threshold_count + samples.len(), i32::MAX as int),
    decreases samples.len(),
{
    if samples.len() > 0 {
        let prefix = samples.drop_last();
        assert(all_above(settings, prefix)) by {
            assert forall|i: int| 0 <= i < prefix.len() implies settings.is_above(
                #[trigger] prefix[i],
            ) by {
                assert(prefix[i] == samples[i]);
            }
        }
        assert(settings.is_above(samples[samples.len() - 1]));
        lemma_holds_over_threshold(settings, args, prefix);
    }
}

/// Counting from where the alert count of an episode starts, the alerts raised
/// so far and the alert count agree, up to the bound.
proof fn lemma_alert_tally(
    state: CpuMonitorState,
    settings: Settings,
    args: CpuMonitorArgs,
    samples: Seq<i64>,
)
    requires
        args.wf(),
        samples.len() >= 1,
        all_at_or_below(settings, samples),
    ensures
        ({
            let end = run(state, settings, args, samples).1;
            let start = if args.below_threshold_count == 0 {
                0
            } else {
                args.alert_repeat_count as int
            };
            &&& end.wf()
            &&& end.below_threshold_count >= 1
            &&& alerts_raised(state, settings, args, samples) + capped(start, alert_bound(settings))
                == capped(end.alert_repeat_count as int, alert_bound(settings))
        }),
    decreases samples.len(),
{
    let prefix = samples.drop_last();
    assert(all_at_or_below(settings, prefix)) by {
        assert forall|i: int| 0 <= i < prefix.len() implies !settings.is_above(
            #[trigger] prefix[i],
        ) by {
            assert(prefix[i] == samples[i]);
        }
    }
    assert(!settings.is_above(samples[samples.len() - 1]));
    if prefix.len() >= 1 {
        lemma_alert_tally(state, settings, args, prefix);
    }
    let start = if args.below_threshold_count == 0 {
        0
    } else {
        args.alert_repeat_count as int
    };
    let bound = alert_bound(settings);
    let prev = run(state, settings, args, prefix);
    let tallied = tally(settings, prev.1, samples.last());
    if prefix.len() == 0 {
        assert(prev == (state, args));
        assert(alerts_raised(state, settings, args, prefix) == 0);
    }
    // The alerts before this reading, counted from the episode's start.
    assert(alerts_raised(state, settings, args, prefix) + capped(start, bound) == capped(
        tallied.alert_repeat_count as int,
        bound,
    ));
}

/// Within an unbroken run of readings at or below the threshold, at most
/// `alert_repeat_count` of them raise an alert.
pub proof fn lemma_alerts_bounded(
    state: CpuMonitorState,
    settings: Settings,
    args: CpuMonitorArgs,
    samples: Seq<i64>,
)
    requires
        args.wf(),
        all_at_or_below(settings, samples),
    ensures
        alerts_raised(state, settings, args, samples) <= alert_bound(settings),
{
    if samples.len() >= 1 {
        lemma_alert_tally(state, settings, args, samples);
    }
}

/// Once the alert count of an episode has reached the bound, a reading that
/// continues the episode raises no alert, and the count stays at or past the
/// bound.
pub proof fn lemma_no_alert_past_bound(
    state: CpuMonitorState,
    settings: Settings,
    args: CpuMonitorArgs,
    sample: i64,
)
    requires
        args.below_threshold_count > 0,
        args.alert_repeat_count >= settings.alert_repeat_count,
        !settings.is_above(sample),
    ensures
        !step(state, settings, args, sample).0.play_alert,
        step(state, settings, args, sample).1.alert_repeat_count >= settings.alert_repeat_count,
{
}

/// An alert comes only from a reading that finds the machine resting in
/// `BelowThreshold` and keeps it there; never while it is still falling.
pub proof fn lemma_alert_only_when_staying_below(
    state: CpuMonitorState,
    settings: Settings,
    args: CpuMonitorArgs,
    sample: i64,
)
    ensures
        step(state, settings, args, sample).0.play_alert ==> state
            == CpuMonitorState::BelowThreshold && step(state, settings, args, sample).0.next_state
            == CpuMonitorState::BelowThreshold,
{
}

/// A reading above the threshold followed by one at or below it begins a new
/// episode: the alert count is back to zero.
pub proof fn lemma_episode_reset(
    state: CpuMonitorState,
    settings: Settings,
    args: CpuMonitorArgs,
    high: i64,
    low: i64,
)
    requires
        settings.is_above(high),
        !settings.is_above(low),
    ensures
        run(state, settings, args, seq![high, low]).1.alert_repeat_count == 0,
{
    let both = seq![high, low];
    let first = both.drop_last();
    assert(first =~= seq![high]);
    assert(first.drop_last() =~= Seq::<i64>::empty());
    assert(run(state, settings, args, first.drop_last()) == (state, args));
    let after_high = step(state, settings, args, high);
    assert(run(state, settings, args, first) == (after_high.0.next_state, after_high.1));
    assert(both.last() == low);
}

} // verus!

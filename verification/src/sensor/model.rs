//! Mathematical model of the debounce state machine.
//!
//! The executable code in `motion` is specified against the transition
//! function [`spec_evaluate`]; the laws at the bottom of this file are proved
//! about iterated transitions.

use vstd::prelude::*;

verus! {

/// The debounce parameters of one sensor, as mathematical integers.
pub struct DebounceConfig {
    /// Minimum interval between evaluations that do real work.
    pub refresh_rate: int,
    /// Width of the sliding accumulation window.
    pub motion_time_period: int,
    /// Trigger count that validates a detection.
    pub minimal_triggering_number: int,
}

/// The mutable debounce state of one sensor, as mathematical integers.
/// Timestamps are milliseconds on the sensor's monotone clock.
pub struct DebounceModel {
    /// Raw triggers accumulated in the current window.
    pub trigger_count: int,
    /// When the current accumulation window opened; `None` iff no window is
    /// open.
    pub window_start: Option<int>,
    /// The last instant an evaluation got past the rate gate.
    pub last_evaluation_time: int,
    /// The instant of the most recent validated detection, informational.
    pub last_valid_detection_time: Option<int>,
}

/// A configuration is meaningful when its durations are non-negative, which
/// holds of every configuration built from machine integers.
pub open spec fn config_wf(cfg: DebounceConfig) -> bool {
    &&& cfg.refresh_rate >= 0
    &&& cfg.motion_time_period >= 0
}

/// Invariant of the debounce state between evaluations:
/// the counter is non-negative and below the threshold (it resets on
/// emission), a window is open exactly while triggers are accumulating, and
/// an open window never postdates the last evaluation.
pub open spec fn state_wf(cfg: DebounceConfig, s: DebounceModel) -> bool {
    &&& 0 <= s.trigger_count
    &&& s.trigger_count == 0 || s.trigger_count < cfg.minimal_triggering_number
    &&& (s.window_start is Some <==> s.trigger_count > 0)
    &&& (s.window_start matches Some(w) ==> w <= s.last_evaluation_time)
    &&& 0 <= s.last_evaluation_time
}

/// The leading rate limit: an evaluation earlier than `refresh_rate` after
/// the previous effective one does no work at all.
pub open spec fn evaluation_gated(cfg: DebounceConfig, s: DebounceModel, now: int) -> bool {
    now - s.last_evaluation_time < cfg.refresh_rate
}

/// One evaluation of the debounce algorithm at instant `now`.
///
/// `marker` says whether a raw trigger marker was pending in the buffer.
/// Returns the successor state and whether a validated detection is emitted:
/// a pending marker opens a window if none is open, re-opens it at `now` if
/// the open one has expired, and then counts; reaching the threshold emits
/// and closes the window.
pub open spec fn spec_evaluate(cfg: DebounceConfig, s: DebounceModel, now: int, marker: bool) -> (
    DebounceModel,
    bool,
) {
    if evaluation_gated(cfg, s, now) {
        (s, false)
    } else if !marker {
        (DebounceModel { last_evaluation_time: now, ..s }, false)
    } else {
        let opened = match s.window_start {
            Some(w) => w,
            None => now,
        };
        let expired = now - opened > cfg.motion_time_period;
        let window = if expired {
            now
        } else {
            opened
        };
        let count = (if expired {
            0int
        } else {
            s.trigger_count
        }) + 1;
        if count >= cfg.minimal_triggering_number {
            (
                DebounceModel {
                    trigger_count: 0,
                    window_start: None,
                    last_evaluation_time: now,
                    last_valid_detection_time: Some(now),
                },
                true,
            )
        } else {
            (
                DebounceModel {
                    trigger_count: count,
                    window_start: Some(window),
                    last_evaluation_time: now,
                    last_valid_detection_time: s.last_valid_detection_time,
                },
                false,
            )
        }
    }
}

/// A sequence of evaluations, each given as the pair of its instant and
/// whether a raw marker was pending, applied in order. Returns the final
/// state together with the number of validated detections emitted.
pub open spec fn spec_run(cfg: DebounceConfig, s: DebounceModel, ticks: Seq<(int, bool)>) -> (
    DebounceModel,
    int,
)
    decreases ticks.len(),
{
    if ticks.len() == 0 {
        (s, 0)
    } else {
        let head = spec_evaluate(cfg, s, ticks[0].0, ticks[0].1);
        let rest = spec_run(cfg, head.0, ticks.drop_first());
        (rest.0, rest.1 + if head.1 {
            1int
        } else {
            0int
        })
    }
}

/// `spec_evaluate` keeps the state invariant whenever time moves forward.
pub proof fn lemma_evaluate_preserves_wf(cfg: DebounceConfig, s: DebounceModel, now: int, marker: bool)
    requires
        config_wf(cfg),
        state_wf(cfg, s),
        now >= s.last_evaluation_time,
    ensures
        state_wf(cfg, spec_evaluate(cfg, s, now, marker).0),
        spec_evaluate(cfg, s, now, marker).0.last_evaluation_time >= s.last_evaluation_time,
{
}

/// Law: with no raw marker ever pending — as for a sensor whose scripted
/// source is empty or exhausted — any number of evaluations emits no
/// detection and leaves the counter, the window and the detection record
/// unchanged.
pub proof fn lemma_idle_evaluations_emit_nothing(
    cfg: DebounceConfig,
    s: DebounceModel,
    ticks: Seq<(int, bool)>,
)
    requires
        forall|i: int| 0 <= i < ticks.len() ==> !(#[trigger] ticks[i]).1,
    ensures
        spec_run(cfg, s, ticks).1 == 0,
        spec_run(cfg, s, ticks).0.trigger_count == s.trigger_count,
        spec_run(cfg, s, ticks).0.window_start == s.window_start,
        spec_run(cfg, s, ticks).0.last_valid_detection_time == s.last_valid_detection_time,
    decreases ticks.len(),
{
    if ticks.len() > 0 {
        let head = spec_evaluate(cfg, s, ticks[0].0, ticks[0].1);
        assert forall|i: int| 0 <= i < ticks.drop_first().len() implies !(#[trigger] ticks.drop_first()[i]).1 by {
            assert(ticks.drop_first()[i] == ticks[i + 1]);
        }
        lemma_idle_evaluations_emit_nothing(cfg, head.0, ticks.drop_first());
    }
}

/// Law: when a marker is consumed after the open window has expired without
/// reaching the threshold, the counter resets and the late trigger is not
/// discarded: it starts a fresh window at the current instant as its first
/// trigger.
pub proof fn lemma_window_expiry_resets_without_discarding(
    cfg: DebounceConfig,
    s: DebounceModel,
    now: int,
)
    requires
        state_wf(cfg, s),
        1 < cfg.minimal_triggering_number,
        !evaluation_gated(cfg, s, now),
        s.window_start matches Some(w) && now - w > cfg.motion_time_period,
    ensures
        spec_evaluate(cfg, s, now, true).1 == false,
        spec_evaluate(cfg, s, now, true).0.trigger_count == 1,
        spec_evaluate(cfg, s, now, true).0.window_start == Some(now),
{
}

/// Number of ticks in the sequence at which a raw marker was pending.
pub open spec fn marker_ticks(ticks: Seq<(int, bool)>) -> nat
    decreases ticks.len(),
{
    if ticks.len() == 0 {
        0
    } else {
        (if ticks[0].1 {
            1nat
        } else {
            0nat
        }) + marker_ticks(ticks.drop_first())
    }
}

/// A sequence counts zero marker ticks exactly when none of its ticks has a
/// marker.
proof fn lemma_marker_ticks_zero(ticks: Seq<(int, bool)>)
    ensures
        (marker_ticks(ticks) == 0) <==> (forall|i: int|
            0 <= i < ticks.len() ==> !(#[trigger] ticks[i]).1),
    decreases ticks.len(),
{
    if ticks.len() > 0 {
        let rest = ticks.drop_first();
        lemma_marker_ticks_zero(rest);
        if marker_ticks(ticks) == 0 {
            assert forall|i: int| 0 <= i < ticks.len() implies !(#[trigger] ticks[i]).1 by {
                if i >= 1 {
                    assert(rest[i - 1] == ticks[i]);
                }
            }
        }
        if forall|i: int| 0 <= i < ticks.len() ==> !(#[trigger] ticks[i]).1 {
            assert forall|i: int| 0 <= i < rest.len() implies !(#[trigger] rest[i]).1 by {
                assert(rest[i] == ticks[i + 1]);
            }
            assert(marker_ticks(rest) == 0);
        }
    }
}

/// Helper for the threshold law: with a window already open at `w` and some
/// triggers counted, rate-respecting evaluations whose pending markers all
/// stay within the window — idle evaluations freely interleaved — raise the
/// counter to the threshold, and exactly the evaluation consuming the last
/// marker, at index `last_marker`, emits.
proof fn lemma_window_fills_to_threshold(
    cfg: DebounceConfig,
    s: DebounceModel,
    ticks: Seq<(int, bool)>,
    w: int,
    last_marker: int,
)
    requires
        config_wf(cfg),
        state_wf(cfg, s),
        s.window_start == Some(w),
        1 <= s.trigger_count,
        s.trigger_count + marker_ticks(ticks) == cfg.minimal_triggering_number,
        0 <= last_marker < ticks.len(),
        ticks[last_marker].1,
        forall|i: int| last_marker < i < ticks.len() ==> !(#[trigger] ticks[i]).1,
        ticks[0].0 >= s.last_evaluation_time + cfg.refresh_rate,
        forall|i: int|
            1 <= i < ticks.len() ==> (#[trigger] ticks[i]).0 >= ticks[i - 1].0 + cfg.refresh_rate,
        forall|i: int, j: int|
            #![trigger ticks[i], ticks[j]]
            0 <= i <= j < ticks.len() ==> ticks[i].0 <= ticks[j].0,
        ticks[last_marker].0 <= w + cfg.motion_time_period,
    ensures
        spec_run(cfg, s, ticks).1 == 1,
        spec_run(cfg, s, ticks).0.trigger_count == 0,
        spec_run(cfg, s, ticks).0.window_start is None,
        spec_run(cfg, s, ticks).0.last_valid_detection_time == Some(ticks[last_marker].0),
    decreases ticks.len(),
{
    let t0 = ticks[0].0;
    let head = spec_evaluate(cfg, s, t0, ticks[0].1);
    let rest = ticks.drop_first();
    assert(ticks[0].0 <= ticks[last_marker].0);
    assert forall|i: int| 0 <= i < rest.len() implies rest[i] == ticks[i + 1] by {}
    if ticks[0].1 && s.trigger_count + 1 >= cfg.minimal_triggering_number {
        assert(marker_ticks(rest) == 0);
        lemma_marker_ticks_zero(rest);
        assert(last_marker == 0) by {
            if last_marker >= 1 {
                assert(rest[last_marker - 1] == ticks[last_marker]);
                assert(!rest[last_marker - 1].1);
            }
        }
        assert(head.1);
        lemma_idle_evaluations_emit_nothing(cfg, head.0, rest);
    } else {
        assert(!head.1);
        assert(last_marker >= 1) by {
            if last_marker == 0 {
                lemma_marker_ticks_zero(rest);
            }
        }
        assert forall|i: int| last_marker - 1 < i < rest.len() implies !(#[trigger] rest[i]).1 by {
            assert(rest[i] == ticks[i + 1]);
        }
        assert forall|i: int|
            1 <= i < rest.len() implies (#[trigger] rest[i]).0 >= rest[i - 1].0
            + cfg.refresh_rate by {
            assert(rest[i] == ticks[i + 1]);
            assert(rest[i - 1] == ticks[i]);
        }
        assert forall|i: int, j: int|
            #![trigger rest[i], rest[j]]
            0 <= i <= j < rest.len() implies rest[i].0 <= rest[j].0 by {
            assert(rest[i] == ticks[i + 1]);
            assert(rest[j] == ticks[j + 1]);
        }
        assert(rest[last_marker - 1] == ticks[last_marker]);
        lemma_window_fills_to_threshold(cfg, head.0, rest, w, last_marker - 1);
    }
}

/// Law: threshold determinism. From a state with no open window and no
/// counted trigger, a rate-respecting run whose pending markers number
/// exactly `minimal_triggering_number` — the first at index `first_marker`,
/// the last at index `last_marker`, no later than `motion_time_period`
/// after the first, idle evaluations freely interleaved — emits exactly one
/// validated detection, recorded at the instant the last marker is
/// consumed.
#[verifier::rlimit(60)]
pub proof fn lemma_threshold_determinism(
    cfg: DebounceConfig,
    s: DebounceModel,
    ticks: Seq<(int, bool)>,
    first_marker: int,
    last_marker: int,
)
    requires
        config_wf(cfg),
        state_wf(cfg, s),
        s.trigger_count == 0,
        s.window_start is None,
        1 <= cfg.minimal_triggering_number,
        marker_ticks(ticks) == cfg.minimal_triggering_number,
        0 <= first_marker <= last_marker < ticks.len(),
        ticks[first_marker].1,
        forall|i: int| 0 <= i < first_marker ==> !(#[trigger] ticks[i]).1,
        ticks[last_marker].1,
        forall|i: int| last_marker < i < ticks.len() ==> !(#[trigger] ticks[i]).1,
        ticks[0].0 >= s.last_evaluation_time + cfg.refresh_rate,
        forall|i: int|
            1 <= i < ticks.len() ==> (#[trigger] ticks[i]).0 >= ticks[i - 1].0 + cfg.refresh_rate,
        forall|i: int, j: int|
            #![trigger ticks[i], ticks[j]]
            0 <= i <= j < ticks.len() ==> ticks[i].0 <= ticks[j].0,
        ticks[last_marker].0 - ticks[first_marker].0 <= cfg.motion_time_period,
    ensures
        spec_run(cfg, s, ticks).1 == 1,
        spec_run(cfg, s, ticks).0.trigger_count == 0,
        spec_run(cfg, s, ticks).0.window_start is None,
        spec_run(cfg, s, ticks).0.last_valid_detection_time == Some(ticks[last_marker].0),
    decreases ticks.len(),
{
    let t0 = ticks[0].0;
    let head = spec_evaluate(cfg, s, t0, ticks[0].1);
    let rest = ticks.drop_first();
    assert forall|i: int| 0 <= i < rest.len() implies rest[i] == ticks[i + 1] by {}
    if first_marker == 0 {
        assert(ticks[0].1);
        if cfg.minimal_triggering_number == 1 {
            assert(marker_ticks(rest) == 0);
            lemma_marker_ticks_zero(rest);
            assert(last_marker == 0) by {
                if last_marker >= 1 {
                    assert(rest[last_marker - 1] == ticks[last_marker]);
                    assert(!rest[last_marker - 1].1);
                }
            }
            assert(head.1);
            lemma_idle_evaluations_emit_nothing(cfg, head.0, rest);
        } else {
            assert(!head.1);
            assert(last_marker >= 1) by {
                if last_marker == 0 {
                    lemma_marker_ticks_zero(rest);
                }
            }
            assert forall|i: int| last_marker - 1 < i < rest.len() implies !(
            #[trigger] rest[i]).1 by {
                assert(rest[i] == ticks[i + 1]);
            }
            assert forall|i: int|
                1 <= i < rest.len() implies (#[trigger] rest[i]).0 >= rest[i - 1].0
                + cfg.refresh_rate by {
                assert(rest[i] == ticks[i + 1]);
                assert(rest[i - 1] == ticks[i]);
            }
            assert forall|i: int, j: int|
                #![trigger rest[i], rest[j]]
                0 <= i <= j < rest.len() implies rest[i].0 <= rest[j].0 by {
                assert(rest[i] == ticks[i + 1]);
                assert(rest[j] == ticks[j + 1]);
            }
            assert(rest[last_marker - 1] == ticks[last_marker]);
            lemma_window_fills_to_threshold(cfg, head.0, rest, t0, last_marker - 1);
        }
    } else {
        assert(!ticks[0].1);
        assert(!head.1);
        assert(rest[first_marker - 1] == ticks[first_marker]);
        assert(rest[last_marker - 1] == ticks[last_marker]);
        assert forall|i: int| 0 <= i < first_marker - 1 implies !(#[trigger] rest[i]).1 by {
            assert(rest[i] == ticks[i + 1]);
        }
        assert forall|i: int| last_marker - 1 < i < rest.len() implies !(#[trigger] rest[i]).1 by {
            assert(rest[i] == ticks[i + 1]);
        }
        assert forall|i: int|
            1 <= i < rest.len() implies (#[trigger] rest[i]).0 >= rest[i - 1].0
            + cfg.refresh_rate by {
            assert(rest[i] == ticks[i + 1]);
            assert(rest[i - 1] == ticks[i]);
        }
        assert forall|i: int, j: int|
            #![trigger rest[i], rest[j]]
            0 <= i <= j < rest.len() implies rest[i].0 <= rest[j].0 by {
            assert(rest[i] == ticks[i + 1]);
            assert(rest[j] == ticks[j + 1]);
        }
        lemma_threshold_determinism(cfg, head.0, rest, first_marker - 1, last_marker - 1);
    }
}

} // verus!

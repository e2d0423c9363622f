//! The position poller's per-tick decision.
//!
//! A background loop wakes on a fixed cadence, drains at most one freshly
//! loaded total duration from the duration channel, reads whether the sink
//! still holds audio and how far it has played, and derives the progress
//! signal shown to the user. All of that reading and sleeping is the loop's
//! own I/O; the decision of what to cache, what to emit and whether to stop
//! an emptied sink is [`poll_tick`], a pure function of the values read.

use vstd::prelude::*;
use crate::timefmt::format_duration;
use crate::timefmt::spec_format_duration;

verus! {

/// One progress update pushed to the presentation layer: the elapsed time as
/// an `MM:SS` label and the elapsed share of the track in whole percent.
pub struct ProgressSignal {
    pub elapsed_label: String,
    pub percent: u8,
}

/// Everything one tick decides: the total duration to cache for the next
/// tick, the signal to emit, and whether the (emptied) sink must be stopped.
pub struct TickOutcome {
    pub cached_total_secs: u64,
    pub signal: ProgressSignal,
    pub stop_sink: bool,
}

/// Elapsed share of the track in whole percent: `floor(100·elapsed/total)`,
/// clamped to `100`. While no nonzero total duration has been observed for
/// the current track the share is `0` — never a division by zero.
pub open spec fn spec_percent(elapsed_secs: nat, total_secs: nat) -> nat {
    if total_secs == 0 {
        0
    } else if 100 * elapsed_secs / total_secs > 100 {
        100
    } else {
        100 * elapsed_secs / total_secs
    }
}

/// The progress percent for `elapsed_secs` out of `total_secs` seconds,
/// always within `0..=100` and `0` while the total is unknown.
pub fn compute_percent(elapsed_secs: u64, total_secs: u64) -> (p: u8)
    ensures
        p == spec_percent(elapsed_secs as nat, total_secs as nat),
        p <= 100,
{
    if total_secs == 0 {
        0
    } else {
        let scaled: u128 = 100u128 * (elapsed_secs as u128);
        let q: u128 = scaled / (total_secs as u128);
        if q > 100 {
            100
        } else {
            q as u8
        }
    }
}

/// Law: against a fixed total duration, the progress percent never moves
/// backwards as the elapsed time grows — and it never leaves `0..=100`.
pub proof fn lemma_percent_monotone(e1: nat, e2: nat, total_secs: nat)
    requires
        e1 <= e2,
    ensures
        spec_percent(e1, total_secs) <= spec_percent(e2, total_secs),
        spec_percent(e2, total_secs) <= 100,
{
    if total_secs > 0 {
        vstd::arithmetic::div_mod::lemma_div_is_ordered(
            100 * e1 as int,
            100 * e2 as int,
            total_secs as int,
        );
    }
}

/// One tick of the position poller.
///
/// `cached_total_secs` is the total duration cached on the previous tick;
/// `received_total_secs` is the value drained from the duration channel this
/// tick, if one was pending; `sink_empty` and `elapsed_secs` are what the
/// sink reported. While the sink holds audio the tick emits the elapsed label
/// and percent against the freshest known total. When the sink has emptied
/// (the track finished or was stopped) it emits a zeroed signal, asks for the
/// sink to be stopped as an idempotent safety net, and resets the cached
/// total so a stale value cannot leak into the next track's first tick.
pub fn poll_tick(
    cached_total_secs: u64,
    received_total_secs: Option<u64>,
    sink_empty: bool,
    elapsed_secs: u64,
) -> (r: TickOutcome)
    ensures
        r.signal.percent <= 100,
        ({
            let drained = match received_total_secs {
                Some(d) => d,
                None => cached_total_secs,
            };
            if sink_empty {
                r.cached_total_secs == 0 && r.stop_sink && r.signal.percent == 0
                    && r.signal.elapsed_label@ == spec_format_duration(0)
            } else {
                r.cached_total_secs == drained && !r.stop_sink && r.signal.percent == spec_percent(
                    elapsed_secs as nat,
                    drained as nat,
                ) && r.signal.elapsed_label@ == spec_format_duration(elapsed_secs as nat)
            }
        }),
{
    let drained = match received_total_secs {
        Some(d) => d,
        None => cached_total_secs,
    };
    if sink_empty {
        TickOutcome {
            cached_total_secs: 0,
            signal: ProgressSignal { elapsed_label: format_duration(0), percent: 0 },
            stop_sink: true,
        }
    } else {
        let percent = compute_percent(elapsed_secs, drained);
        TickOutcome {
            cached_total_secs: drained,
            signal: ProgressSignal {
                elapsed_label: format_duration(elapsed_secs),
                percent,
            },
            stop_sink: false,
        }
    }
}

} // verus!

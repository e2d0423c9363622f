//! Wraparound playlist navigation.
//!
//! Given the identity of the current track and the playlist length, compute
//! which track a "next" or "previous" command selects. Selection cycles from
//! the last track back to the first and vice versa; on an empty playlist both
//! operations select nothing.

use vstd::prelude::*;

verus! {

/// Successor of `playing_id` in a playlist of `track_count` tracks,
/// cycling from the last track back to the first.
pub open spec fn spec_next(playing_id: nat, track_count: nat) -> nat
    recommends
        track_count > 0,
{
    if playing_id + 1 < track_count {
        playing_id + 1
    } else {
        0
    }
}

/// Predecessor of `playing_id` in a playlist of `track_count` tracks,
/// cycling from the first track back to the last.
pub open spec fn spec_previous(playing_id: nat, track_count: nat) -> nat
    recommends
        track_count > 0,
{
    if playing_id == 0 {
        (track_count - 1) as nat
    } else {
        (playing_id - 1) as nat
    }
}

/// The track a "next" command selects, or `None` on an empty playlist
/// (the command is then a no-op: nothing is looked up).
pub fn next(playing_id: usize, track_count: usize) -> (r: Option<usize>)
    ensures
        track_count == 0 ==> r is None,
        track_count > 0 ==> (r matches Some(t) && t == spec_next(
            playing_id as nat,
            track_count as nat,
        )),
        r matches Some(t) ==> t < track_count,
{
    if track_count == 0 {
        None
    } else if playing_id >= track_count - 1 {
        Some(0)
    } else {
        Some(playing_id + 1)
    }
}

/// The track a "previous" command selects, or `None` on an empty playlist
/// (the command is then a no-op: nothing is looked up).
pub fn previous(playing_id: usize, track_count: usize) -> (r: Option<usize>)
    ensures
        track_count == 0 ==> r is None,
        track_count > 0 ==> (r matches Some(t) && t == spec_previous(
            playing_id as nat,
            track_count as nat,
        )),
        r matches Some(t) ==> (playing_id < track_count ==> t < track_count),
{
    if track_count == 0 {
        None
    } else if playing_id == 0 {
        Some(track_count - 1)
    } else {
        Some(playing_id - 1)
    }
}

/// Law: on a non-empty playlist, navigation wraps around — stepping back from
/// the first track reaches the last, and stepping forward from the last
/// reaches the first.
pub proof fn lemma_wraparound(track_count: nat)
    requires
        track_count > 0,
    ensures
        spec_previous(0, track_count) == track_count - 1,
        spec_next((track_count - 1) as nat, track_count) == 0,
{
}

} // verus!

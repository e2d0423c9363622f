//! The transport state machine.
//!
//! A `Transport` records whether a track is playing, which one, and how long
//! it is. Every state change is funneled through its methods, which also tell
//! the caller what to do with the audio sink (pause it, resume it, stop it,
//! or load a new stream), so that the shared state and the audible device
//! stay in step. Opening and decoding a file is I/O done by the caller; its
//! outcome comes back in as a [`StreamProbe`] and only then does the state
//! change — a failed load leaves the transport exactly as it was.

use vstd::prelude::*;
use crate::navigator;

verus! {

/// Whether a track is currently audible, paused, or neither.
#[derive(Clone, Copy, PartialEq, Eq, Structural, Debug)]
pub enum Status {
    Stopped,
    Playing,
    Paused,
}

/// Why a load was aborted. A failed load never mutates the transport.
#[derive(Clone, Copy, PartialEq, Eq, Structural, Debug)]
pub enum LoadError {
    /// The file could not be opened.
    OpenError,
    /// The stream could not be parsed.
    DecodeError,
    /// The decoder could not report a total duration; without one, progress
    /// percent cannot be computed, so the track is not played at all.
    UnknownDurationError,
}

/// What the decode collaborator reported when the caller tried to open a
/// track's file: the open failed, the decode failed, or the stream is ready
/// and its total duration (in seconds) is as the decoder says — possibly
/// unknown.
#[derive(Clone, Copy, PartialEq, Eq, Structural, Debug)]
pub enum StreamProbe {
    OpenFailed,
    DecodeFailed,
    Decoded(Option<u64>),
}

/// What a track-selection command asks the caller to do with the sink.
#[derive(Clone, Copy, PartialEq, Eq, Structural, Debug)]
pub enum SelectAction {
    /// The selected track was already playing: pause the sink.
    PauseSink,
    /// The selected track was paused: resume the sink where it stood.
    ResumeSink,
    /// A different track was selected: open it and call
    /// [`Transport::load_and_play`] with the probe's outcome.
    LoadNew,
}

/// The playback state shared between command handlers and the poller,
/// plus the length of the current playlist.
pub struct Transport {
    pub status: Status,
    pub playing_id: Option<usize>,
    pub total_duration_secs: u64,
    pub track_count: usize,
}

impl Transport {
    /// When stopped nothing is selected and no duration is held; otherwise
    /// the selected track is a valid index into the current playlist.
    pub open spec fn wf(self) -> bool {
        &&& (self.status is Stopped ==> self.playing_id is None && self.total_duration_secs == 0)
        &&& (!(self.status is Stopped) ==> (match self.playing_id {
            Some(i) => i < self.track_count,
            None => false,
        }))
    }

    /// A fresh transport: stopped, nothing selected, empty playlist.
    pub fn new() -> (t: Transport)
        ensures
            t.wf(),
            t.status is Stopped,
            t.playing_id is None,
            t.total_duration_secs == 0,
            t.track_count == 0,
    {
        Transport { status: Status::Stopped, playing_id: None, total_duration_secs: 0, track_count: 0 }
    }

    /// Installing a playlist keeps playback running if the active track still
    /// exists in it, and stops otherwise, so that `playing_id` never points
    /// outside the playlist.
    pub open spec fn spec_set_playlist(self, track_count: usize) -> Transport {
        if self.playing_id matches Some(i) && i >= track_count {
            Transport { status: Status::Stopped, playing_id: None, total_duration_secs: 0, track_count }
        } else {
            Transport { track_count, ..self }
        }
    }

    /// Replace the playlist with a freshly scanned one of `track_count`
    /// tracks. Returns whether the caller must stop the sink (the active
    /// track does not exist in the new playlist).
    pub fn set_playlist(&mut self, track_count: usize) -> (stop_sink: bool)
        requires
            old(self).wf(),
        ensures
            final(self).wf(),
            *final(self) == old(self).spec_set_playlist(track_count),
            stop_sink == (old(self).playing_id matches Some(i) && i >= track_count),
    {
        let must_stop = match self.playing_id {
            Some(i) => i >= track_count,
            None => false,
        };
        if must_stop {
            self.status = Status::Stopped;
            self.playing_id = None;
            self.total_duration_secs = 0;
        }
        self.track_count = track_count;
        must_stop
    }

    /// A pause command moves Playing to Paused and changes nothing else;
    /// in any other state it does nothing.
    pub open spec fn spec_pause(self) -> Transport {
        if self.status is Playing {
            Transport { status: Status::Paused, ..self }
        } else {
            self
        }
    }

    /// Pause playback. Returns whether the caller must pause the sink.
    pub fn pause(&mut self) -> (pause_sink: bool)
        requires
            old(self).wf(),
        ensures
            final(self).wf(),
            *final(self) == old(self).spec_pause(),
            pause_sink == (old(self).status is Playing),
    {
        match self.status {
            Status::Playing => {
                self.status = Status::Paused;
                true
            },
            _ => false,
        }
    }

    /// A resume command moves Paused back to Playing and changes nothing
    /// else; in any other state it does nothing.
    pub open spec fn spec_resume(self) -> Transport {
        if self.status is Paused {
            Transport { status: Status::Playing, ..self }
        } else {
            self
        }
    }

    /// Resume paused playback. Returns whether the caller must resume the
    /// sink.
    pub fn resume(&mut self) -> (resume_sink: bool)
        requires
            old(self).wf(),
        ensures
            final(self).wf(),
            *final(self) == old(self).spec_resume(),
            resume_sink == (old(self).status is Paused),
    {
        match self.status {
            Status::Paused => {
                self.status = Status::Playing;
                true
            },
            _ => false,
        }
    }

    /// A stop command clears the selection and the held duration, but only
    /// out of Playing; when already stopped (or paused) it does nothing.
    pub open spec fn spec_stop(self) -> Transport {
        if self.status is Playing {
            Transport { status: Status::Stopped, playing_id: None, total_duration_secs: 0, ..self }
        } else {
            self
        }
    }

    /// Stop playback. Returns whether the caller must halt the sink.
    pub fn stop(&mut self) -> (stop_sink: bool)
        requires
            old(self).wf(),
        ensures
            final(self).wf(),
            *final(self) == old(self).spec_stop(),
            stop_sink == (old(self).status is Playing),
    {
        match self.status {
            Status::Playing => {
                self.status = Status::Stopped;
                self.playing_id = None;
                self.total_duration_secs = 0;
                true
            },
            _ => false,
        }
    }

    /// Selecting the track that is already active toggles pause/resume on the
    /// running stream — it never reloads it, so playback is not restarted
    /// from the beginning. Selecting anything else is a new-track request:
    /// the state is untouched until the caller reports the load's outcome to
    /// [`Transport::load_and_play`].
    pub fn select_track(&mut self, track_id: usize) -> (action: SelectAction)
        requires
            old(self).wf(),
            track_id < old(self).track_count,
        ensures
            final(self).wf(),
            old(self).playing_id == Some(track_id) && old(self).status is Playing ==> action
                is PauseSink && *final(self) == old(self).spec_pause(),
            old(self).playing_id == Some(track_id) && old(self).status is Paused ==> action
                is ResumeSink && *final(self) == old(self).spec_resume(),
            old(self).playing_id != Some(track_id) || old(self).status is Stopped ==> action
                is LoadNew && *final(self) == *old(self),
    {
        let same = match self.playing_id {
            Some(i) => i == track_id,
            None => false,
        };
        if same {
            match self.status {
                Status::Playing => {
                    self.status = Status::Paused;
                    SelectAction::PauseSink
                },
                Status::Paused => {
                    self.status = Status::Playing;
                    SelectAction::ResumeSink
                },
                Status::Stopped => SelectAction::LoadNew,
            }
        } else {
            SelectAction::LoadNew
        }
    }

    /// Record the outcome of opening and decoding `track_id`'s file. On
    /// success the transport is playing that track with the reported
    /// duration, and the caller must play the stream and hand the returned
    /// duration to the poller. Each failure returns its error and leaves the
    /// state exactly as it was: a stream whose total duration is unknown is
    /// rejected rather than played, since progress percent could never be
    /// computed for it.
    pub fn load_and_play(&mut self, track_id: usize, probe: StreamProbe) -> (r: Result<
        u64,
        LoadError,
    >)
        requires
            old(self).wf(),
            track_id < old(self).track_count,
        ensures
            final(self).wf(),
            match probe {
                StreamProbe::OpenFailed => r == Err::<u64, LoadError>(LoadError::OpenError)
                    && *final(self) == *old(self),
                StreamProbe::DecodeFailed => r == Err::<u64, LoadError>(LoadError::DecodeError)
                    && *final(self) == *old(self),
                StreamProbe::Decoded(None) => r == Err::<u64, LoadError>(
                    LoadError::UnknownDurationError,
                ) && *final(self) == *old(self),
                StreamProbe::Decoded(Some(d)) => r == Ok::<u64, LoadError>(d) && *final(self) == (
                Transport {
                    status: Status::Playing,
                    playing_id: Some(track_id),
                    total_duration_secs: d,
                    track_count: old(self).track_count,
                }),
            },
    {
        match probe {
            StreamProbe::OpenFailed => Err(LoadError::OpenError),
            StreamProbe::DecodeFailed => Err(LoadError::DecodeError),
            StreamProbe::Decoded(None) => Err(LoadError::UnknownDurationError),
            StreamProbe::Decoded(Some(d)) => {
                self.status = Status::Playing;
                self.playing_id = Some(track_id);
                self.total_duration_secs = d;
                Ok(d)
            },
        }
    }

    /// The track a "next" command selects: the wraparound successor of the
    /// active track, the first track when nothing is active, nothing when the
    /// playlist is empty.
    pub open spec fn spec_next_target(self) -> Option<usize> {
        if self.track_count == 0 {
            None
        } else {
            match self.playing_id {
                None => Some(0usize),
                Some(i) => Some(navigator::spec_next(i as nat, self.track_count as nat) as usize),
            }
        }
    }

    /// The track a "previous" command selects: the wraparound predecessor of
    /// the active track, the last track when nothing is active, nothing when
    /// the playlist is empty.
    pub open spec fn spec_previous_target(self) -> Option<usize> {
        if self.track_count == 0 {
            None
        } else {
            match self.playing_id {
                None => Some((self.track_count - 1) as usize),
                Some(i) => Some(
                    navigator::spec_previous(i as nat, self.track_count as nat) as usize,
                ),
            }
        }
    }

    /// Which track a "next" command should load; `None` is a silent no-op.
    pub fn next_target(&self) -> (r: Option<usize>)
        requires
            self.wf(),
        ensures
            r == self.spec_next_target(),
            r matches Some(t) ==> t < self.track_count,
    {
        match self.playing_id {
            None => {
                if self.track_count == 0 {
                    None
                } else {
                    Some(0)
                }
            },
            Some(i) => navigator::next(i, self.track_count),
        }
    }

    /// Which track a "previous" command should load; `None` is a silent
    /// no-op.
    pub fn previous_target(&self) -> (r: Option<usize>)
        requires
            self.wf(),
        ensures
            r == self.spec_previous_target(),
            r matches Some(t) ==> t < self.track_count,
    {
        match self.playing_id {
            None => {
                if self.track_count == 0 {
                    None
                } else {
                    Some(self.track_count - 1)
                }
            },
            Some(i) => navigator::previous(i, self.track_count),
        }
    }
}

} // verus!

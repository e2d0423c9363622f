//! Clamped volume control with mute memory.
//!
//! The level is held in tenths of full volume (`0..=10`), so that stepping by
//! one tenth is exact: ten consecutive `volume_up` calls from silence reach
//! exactly full volume, with no drift across repeated increments. The caller
//! that owns the audio device divides by ten to obtain the gain it applies.
//! `last_nonzero` remembers the level a mute started from, so that unmuting
//! restores it.

use vstd::prelude::*;

verus! {

/// Number of volume steps between silence (`0`) and full volume.
pub const VOLUME_STEPS: u8 = 10;

/// Volume level in tenths of full volume, plus the level the last mute
/// started from (`0` while no mute has happened yet).
pub struct VolumeState {
    pub level: u8,
    pub last_nonzero: u8,
}

impl VolumeState {
    /// Both fields stay within the `0..=10` scale.
    pub open spec fn wf(self) -> bool {
        self.level <= VOLUME_STEPS && self.last_nonzero <= VOLUME_STEPS
    }

    /// One step up, clamped to full volume.
    pub open spec fn spec_volume_up(self) -> VolumeState {
        if self.level >= VOLUME_STEPS {
            VolumeState { level: VOLUME_STEPS, ..self }
        } else {
            VolumeState { level: (self.level + 1) as u8, ..self }
        }
    }

    /// One step down, clamped to silence.
    pub open spec fn spec_volume_down(self) -> VolumeState {
        if self.level == 0 {
            VolumeState { level: 0, ..self }
        } else {
            VolumeState { level: (self.level - 1) as u8, ..self }
        }
    }

    /// Muting a nonzero level remembers it and silences; muting a zero level
    /// restores the remembered one (silence again while none was remembered).
    pub open spec fn spec_toggle_mute(self) -> VolumeState {
        if self.level != 0 {
            VolumeState { level: 0, last_nonzero: self.level }
        } else {
            VolumeState { level: self.last_nonzero, ..self }
        }
    }

    /// A fresh controller at the given level, with no mute memory yet.
    pub fn new(initial_level: u8) -> (v: VolumeState)
        requires
            initial_level <= VOLUME_STEPS,
        ensures
            v.wf(),
            v.level == initial_level,
            v.last_nonzero == 0,
    {
        VolumeState { level: initial_level, last_nonzero: 0 }
    }

    /// Raise the level by one tenth, clamped to full volume.
    pub fn volume_up(&mut self)
        requires
            old(self).wf(),
        ensures
            final(self).wf(),
            *final(self) == old(self).spec_volume_up(),
    {
        if self.level >= VOLUME_STEPS {
            self.level = VOLUME_STEPS;
        } else {
            self.level = self.level + 1;
        }
    }

    /// Lower the level by one tenth, clamped to silence.
    pub fn volume_down(&mut self)
        requires
            old(self).wf(),
        ensures
            final(self).wf(),
            *final(self) == old(self).spec_volume_down(),
    {
        if self.level > 0 {
            self.level = self.level - 1;
        }
    }

    /// Mute a nonzero level (remembering it), or restore the remembered
    /// level when already muted.
    pub fn toggle_mute(&mut self)
        requires
            old(self).wf(),
        ensures
            final(self).wf(),
            *final(self) == old(self).spec_toggle_mute(),
    {
        if self.level != 0 {
            self.last_nonzero = self.level;
            self.level = 0;
        } else {
            self.level = self.last_nonzero;
        }
    }
}

/// Law: below full volume, stepping up and then down returns to the original
/// level. (At full volume the upward step is clamped, so the pair ends one
/// step lower.)
pub proof fn lemma_volume_up_down_round_trip(v: VolumeState)
    requires
        v.wf(),
        v.level < VOLUME_STEPS,
    ensures
        v.spec_volume_up().spec_volume_down().level == v.level,
{
}

/// Law: on a nonzero level, toggling mute twice returns to that level —
/// the first toggle remembers the level and silences, the second restores it.
pub proof fn lemma_toggle_mute_involution(v: VolumeState)
    requires
        v.wf(),
        v.level != 0,
    ensures
        v.spec_toggle_mute().spec_toggle_mute().level == v.level,
{
}

} // verus!

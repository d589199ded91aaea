//! The volume adapter: levels as integer percentages in `[0, 100]`, the
//! clamping rule shared by every backend, and the model of the native
//! audio-endpoint backend.

use vstd::prelude::*;

verus! {

/// A volume level clamped into the valid percentage range `[0, 100]`.
pub open spec fn clamp_level(v: int) -> int {
    if v < 0 {
        0
    } else if v > 100 {
        100
    } else {
        v
    }
}

/// Clamp a requested volume level into `[0, 100]`, as every setter does
/// before dispatching to a backend.
pub fn clamp_volume(v: i32) -> (r: i32)
    ensures
        r == clamp_level(v as int),
{
    if v < 0 {
        0
    } else if v > 100 {
        100
    } else {
        v
    }
}

/// The native audio-endpoint backend, modelled as the state it controls: the
/// master output level as an integer percentage and the mute flag. The one
/// platform with a structured audio API reads and writes exactly this state;
/// the model makes the read-modify-write volume logic checkable.
pub struct VolumeControl {
    level: i32,
    muted: bool,
}

impl VolumeControl {
    /// The current master volume level, as a mathematical integer.
    pub closed spec fn spec_level(self) -> int {
        self.level as int
    }

    /// The current mute state.
    pub closed spec fn spec_muted(self) -> bool {
        self.muted
    }

    /// Well-formedness: the level is a valid percentage.
    pub open spec fn wf(self) -> bool {
        0 <= self.spec_level() <= 100
    }

    /// The state after a set: the requested level clamped into `[0, 100]`,
    /// mute untouched.
    pub closed spec fn spec_set(self, v: int) -> VolumeControl {
        VolumeControl { level: clamp_level(v) as i32, muted: self.muted }
    }

    /// The state after a relative adjustment by `d`.
    pub open spec fn spec_adjust(self, d: int) -> VolumeControl {
        self.spec_set(self.spec_level() + d)
    }

    /// An endpoint at the given level, clamped, unmuted.
    pub fn new(initial: i32) -> (c: VolumeControl)
        ensures
            c.wf(),
            c.spec_level() == clamp_level(initial as int),
            !c.spec_muted(),
    {
        VolumeControl { level: clamp_volume(initial), muted: false }
    }

    /// The current master volume level (0-100).
    pub fn get_volume(&self) -> (r: i32)
        requires
            self.wf(),
        ensures
            r == self.spec_level(),
            0 <= r <= 100,
    {
        self.level
    }

    /// Set the master volume level; the requested level is clamped into
    /// `[0, 100]` before it reaches the endpoint.
    pub fn set_volume(&mut self, level: i32)
        ensures
            *final(self) == old(self).spec_set(level as int),
            final(self).wf(),
    {
        self.level = clamp_volume(level);
    }

    /// Adjust the level by a signed delta: read, add, clamp, write back, and
    /// report the resulting level.
    pub fn adjust_volume(&mut self, delta: i32) -> (r: i32)
        requires
            old(self).wf(),
        ensures
            *final(self) == old(self).spec_adjust(delta as int),
            final(self).wf(),
            r == final(self).spec_level(),
            r == clamp_level(old(self).spec_level() + delta),
    {
        let target: i64 = self.level as i64 + delta as i64;
        let clamped: i32 = if target < 0 {
            0
        } else if target > 100 {
            100
        } else {
            target as i32
        };
        self.level = clamped;
        clamped
    }

    /// Increase volume by a specific amount and report the resulting level.
    pub fn increase_volume(&mut self, amount: i32) -> (r: i32)
        requires
            old(self).wf(),
        ensures
            *final(self) == old(self).spec_adjust(amount as int),
            final(self).wf(),
            r == clamp_level(old(self).spec_level() + amount),
    {
        self.adjust_volume(amount)
    }

    /// Decrease volume by a specific amount and report the resulting level.
    pub fn decrease_volume(&mut self, amount: i32) -> (r: i32)
        requires
            old(self).wf(),
            amount > i32::MIN,
        ensures
            *final(self) == old(self).spec_adjust(-(amount as int)),
            final(self).wf(),
            r == clamp_level(old(self).spec_level() - amount),
    {
        self.adjust_volume(-amount)
    }

    /// Mute or unmute the audio; the level is untouched.
    pub fn set_mute(&mut self, mute: bool)
        ensures
            final(self).spec_muted() == mute,
            final(self).spec_level() == old(self).spec_level(),
    {
        self.muted = mute;
    }

    /// The current mute state.
    pub fn get_mute(&self) -> (r: bool)
        ensures
            r == self.spec_muted(),
    {
        self.muted
    }
}

/// Setting the volume to `v` and then reading it yields exactly
/// `clamp_level(v)`, for every input `v` and every starting state.
pub proof fn lemma_set_then_get(c: VolumeControl, v: int)
    ensures
        c.spec_set(v).spec_level() == clamp_level(v),
        c.spec_set(v).wf(),
{
}

/// A relative adjustment by `d` from level `c` lands on exactly
/// `clamp_level(c + d)`, for every well-formed state and every delta.
pub proof fn lemma_adjust_lands_on_clamp(c: VolumeControl, d: int)
    requires
        c.wf(),
    ensures
        c.spec_adjust(d).spec_level() == clamp_level(c.spec_level() + d),
        c.spec_adjust(d).wf(),
{
}

/// Out-of-range set requests behave exactly like their clamped counterparts:
/// any `v <= 0` sets as `0` does, and any `v >= 100` sets as `100` does.
pub proof fn lemma_set_extremes(c: VolumeControl, v: int)
    ensures
        v <= 0 ==> c.spec_set(v) == c.spec_set(0),
        v >= 100 ==> c.spec_set(v) == c.spec_set(100),
{
}

} // verus!

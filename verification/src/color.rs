//! Fixed-point color channels.
//!
//! A channel holds a value in `[0, CHANNEL_MAX]`, standing for the unit
//! interval in steps of `1 / CHANNEL_MAX`. Slider input arrives as a signed
//! target that may lie far outside the range (a long drag in either
//! direction); it is clamped before it is stored, so a stored channel never
//! leaves the range.

use vstd::prelude::*;

verus! {

/// Number of fixed-point steps in the unit interval: a channel value of
/// `CHANNEL_MAX` stands for 1.0, a value of 0 for 0.0.
pub const CHANNEL_MAX: u32 = 1000;

/// What clamping a raw slider target to `[0, CHANNEL_MAX]` yields.
pub open spec fn clamp_spec(raw: int) -> int {
    if raw < 0 {
        0
    } else if raw > CHANNEL_MAX {
        CHANNEL_MAX as int
    } else {
        raw
    }
}

/// A three-channel color, each channel in `[0, CHANNEL_MAX]`.
#[derive(Clone, Copy, Debug, PartialEq, Eq)]
pub struct Rgb {
    pub red: u32,
    pub green: u32,
    pub blue: u32,
}

/// Which channel a slider drag addresses.
#[derive(Clone, Copy, Debug, PartialEq, Eq)]
pub enum Channel {
    Red,
    Green,
    Blue,
}

impl Rgb {
    /// All channels within range.
    pub open spec fn wf(self) -> bool {
        self.red <= CHANNEL_MAX && self.green <= CHANNEL_MAX && self.blue <= CHANNEL_MAX
    }

    /// The value of one channel.
    pub open spec fn channel_spec(self, c: Channel) -> u32 {
        match c {
            Channel::Red => self.red,
            Channel::Green => self.green,
            Channel::Blue => self.blue,
        }
    }

    /// The same color with one channel replaced.
    pub open spec fn with_channel_spec(self, c: Channel, v: u32) -> Rgb {
        match c {
            Channel::Red => Rgb { red: v, ..self },
            Channel::Green => Rgb { green: v, ..self },
            Channel::Blue => Rgb { blue: v, ..self },
        }
    }

    /// Reads one channel.
    pub fn channel(&self, c: Channel) -> (r: u32)
        ensures
            r == self.channel_spec(c),
    {
        match c {
            Channel::Red => self.red,
            Channel::Green => self.green,
            Channel::Blue => self.blue,
        }
    }

    /// Stores a slider target into one channel, clamped to the range.
    pub fn drag_to(&mut self, c: Channel, raw: i64)
        ensures
            *final(self) == old(self).with_channel_spec(c, clamp_spec(raw as int) as u32),
            final(self).channel_spec(c) == clamp_spec(raw as int),
            old(self).wf() ==> final(self).wf(),
    {
        let v = clamp_channel(raw);
        match c {
            Channel::Red => self.red = v,
            Channel::Green => self.green = v,
            Channel::Blue => self.blue = v,
        }
    }
}

/// Clamps a raw slider target to `[0, CHANNEL_MAX]`.
pub fn clamp_channel(raw: i64) -> (r: u32)
    ensures
        r == clamp_spec(raw as int),
{
    if raw < 0 {
        0
    } else if raw > CHANNEL_MAX as i64 {
        CHANNEL_MAX
    } else {
        raw as u32
    }
}

/// Law: whatever the drag direction or distance, a clamped channel lies in
/// `[0, CHANNEL_MAX]`, a target already in range is kept as it is, and
/// clamping twice is the same as clamping once.
pub proof fn lemma_clamp_bounds(raw: int)
    ensures
        0 <= clamp_spec(raw) <= CHANNEL_MAX,
        0 <= raw <= CHANNEL_MAX ==> clamp_spec(raw) == raw,
        clamp_spec(clamp_spec(raw)) == clamp_spec(raw),
{
}

} // verus!

//! Overlay (color picker) state.
//!
//! Each window carries one overlay: a visibility flag toggled by the
//! designated key, and the triangle color that the picker's sliders edit.
//! The overlay starts hidden with the fixed initial color.

use vstd::prelude::*;

use crate::color::{clamp_spec, Channel, Rgb, CHANNEL_MAX};

verus! {

/// Initial red channel: 1.0 in fixed point.
pub const INITIAL_RED: u32 = 1000;

/// Initial green channel: 0.5 in fixed point.
pub const INITIAL_GREEN: u32 = 500;

/// Initial blue channel: 0.2 in fixed point.
pub const INITIAL_BLUE: u32 = 200;

/// Per-window UI state: picker visibility and the picked color.
#[derive(Clone, Copy, Debug, PartialEq, Eq)]
pub struct OverlayState {
    pub visible: bool,
    pub color: Rgb,
}

/// The overlay state every new window starts with.
pub open spec fn initial_overlay() -> OverlayState {
    OverlayState {
        visible: false,
        color: Rgb { red: INITIAL_RED, green: INITIAL_GREEN, blue: INITIAL_BLUE },
    }
}

/// Visibility after `n` toggles of a flag that started as `init`.
pub open spec fn toggled(init: bool, n: nat) -> bool
    decreases n,
{
    if n == 0 {
        init
    } else {
        !toggled(init, (n - 1) as nat)
    }
}

impl OverlayState {
    /// The color stays within range.
    pub open spec fn wf(self) -> bool {
        self.color.wf()
    }

    /// A fresh overlay: hidden, with the initial color.
    pub fn new() -> (r: OverlayState)
        ensures
            r == initial_overlay(),
            r.wf(),
    {
        OverlayState {
            visible: false,
            color: Rgb { red: INITIAL_RED, green: INITIAL_GREEN, blue: INITIAL_BLUE },
        }
    }

    /// Flips picker visibility; the color is untouched.
    pub fn toggle(&mut self)
        ensures
            final(self).visible == !old(self).visible,
            final(self).color == old(self).color,
    {
        self.visible = !self.visible;
    }

    /// A key event reaches the overlay: only a press of the designated
    /// toggle key flips visibility; anything else leaves the state alone.
    pub fn handle_key(&mut self, pressed: bool, is_toggle_key: bool) -> (toggled_now: bool)
        ensures
            toggled_now == (pressed && is_toggle_key),
            final(self).visible == if pressed && is_toggle_key {
                !old(self).visible
            } else {
                old(self).visible
            },
            final(self).color == old(self).color,
    {
        if pressed && is_toggle_key {
            self.visible = !self.visible;
            true
        } else {
            false
        }
    }

    /// A slider drag on one channel: the raw target is clamped into
    /// `[0, CHANNEL_MAX]` before it is stored; visibility is untouched.
    pub fn drag_slider(&mut self, c: Channel, raw: i64)
        ensures
            final(self).visible == old(self).visible,
            final(self).color == old(self).color.with_channel_spec(
                c,
                clamp_spec(raw as int) as u32,
            ),
            final(self).color.channel_spec(c) <= CHANNEL_MAX,
            old(self).wf() ==> final(self).wf(),
    {
        self.color.drag_to(c, raw);
    }
}

/// Law: toggling an even number of times restores the initial visibility;
/// an odd number inverts it.
pub proof fn lemma_toggle_parity(init: bool, n: nat)
    ensures
        toggled(init, n) == if n % 2 == 0 {
            init
        } else {
            !init
        },
    decreases n,
{
    if n > 0 {
        lemma_toggle_parity(init, (n - 1) as nat);
    }
}

} // verus!

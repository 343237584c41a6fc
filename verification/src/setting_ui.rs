//! State of the settings window.
//!
//! The widget tree itself is drawn by the shell; this is the window's
//! decision state: whether it is open, and whether the next few drawn
//! frames must re-anchor it to the screen centre (a freshly opened
//! window has no settled position until it has been anchored twice).

use vstd::prelude::*;

verus! {

pub struct SettingWindow {
    /// The window is shown.
    pub open: bool,
    /// The window has just been opened and must be re-centred.
    pub first_open: bool,
    /// How many frames have been drawn since the window first opened.
    pub frame: u32,
}

impl Default for SettingWindow {
    fn default() -> (r: Self)
        ensures
            r.open == false,
            r.first_open == true,
            r.frame == 0,
    {
        SettingWindow { open: false, first_open: true, frame: 0 }
    }
}

impl SettingWindow {
    /// Toggles the window; opening it starts a fresh re-centring round.
    pub fn trigger_show(&mut self)
        ensures
            final(self).open == !old(self).open,
            final(self).first_open == (if !old(self).open {
                true
            } else {
                old(self).first_open
            }),
            final(self).frame == old(self).frame,
    {
        self.open = !self.open;
        if self.open {
            self.first_open = true;
        }
    }

    /// One drawing tick: counts the frame (wrapping) and decides whether
    /// the shell must anchor the window to the centre this time.  A
    /// closed window changes nothing.
    pub fn show_tick(&mut self) -> (anchor: bool)
        ensures
            !old(self).open ==> (*final(self) == *old(self) && !anchor),
            old(self).open ==> {
                let ticked: u32 = if old(self).frame == u32::MAX {
                    0u32
                } else {
                    (old(self).frame + 1) as u32
                };
                &&& final(self).frame == ticked
                &&& anchor == (ticked <= 2 || old(self).first_open)
                &&& final(self).first_open == ((!anchor) && old(self).first_open)
                &&& final(self).open == old(self).open
            },
    {
        if !self.open {
            return false;
        }
        self.frame = if self.frame == u32::MAX {
            0
        } else {
            self.frame + 1
        };
        if self.frame <= 2 || self.first_open {
            self.first_open = false;
            true
        } else {
            false
        }
    }
}

} // verus!

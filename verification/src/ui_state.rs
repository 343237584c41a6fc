//! Shell-side playback state: the coarse application state label and
//! the playlist the user walks through.

use vstd::prelude::*;

verus! {

/// Coarse state of the playing shell.
#[derive(Clone, Debug, PartialEq, Eq, Hash)]
pub enum GameState {
    Playing,
    Terminal,
    Restart,
}

/// Truncated (sign-of-dividend) remainder, as the shell's integer `%`
/// computes it.
pub open spec fn trunc_mod(a: int, b: int) -> int {
    if a >= 0 {
        a % b
    } else {
        -((-a) % b)
    }
}

/// The playlist and the cursor the user moves with previous / play /
/// next.
pub struct PlayList {
    /// The files, in list order.
    pub entries: Vec<String>,
    /// The entry currently playing, if one was picked.
    pub current_idx: Option<usize>,
    /// Stepping past either end wraps around instead of stopping.
    pub looping: bool,
}

impl PlayList {
    /// The cursor points into the list, and the list is small enough
    /// for 32-bit index arithmetic.
    pub open spec fn wf(self) -> bool {
        &&& self.entries@.len() <= i32::MAX
        &&& (self.current_idx matches Some(i) ==> i < self.entries@.len())
    }

    /// Picks the file `offset` steps from the current one and moves the
    /// cursor there.  With nothing picked yet, picks the first entry.
    /// Without looping, stepping back from the first or forward from
    /// the last yields `None`; with looping, the index wraps by the
    /// shell's truncated remainder — so a step that lands on a negative
    /// remainder also yields `None`, and the cursor stays put.
    pub fn current_filename(&mut self, offset: i32) -> (r: Option<String>)
        requires
            old(self).wf(),
        ensures
            final(self).wf(),
            final(self).entries@ == old(self).entries@,
            final(self).looping == old(self).looping,
            old(self).entries@.len() == 0 ==> (r is None && *final(self) == *old(self)),
            (old(self).entries@.len() > 0 && old(self).current_idx is None) ==> {
                &&& r matches Some(s) && s@ == old(self).entries@[0]@
                &&& final(self).current_idx == Some(0usize)
            },
            old(self).entries@.len() > 0 ==> (match old(self).current_idx {
                Some(idx) => {
                    let len = old(self).entries@.len() as int;
                    let target = trunc_mod(idx + offset, len);
                    if !old(self).looping && ((idx == 0 && offset < 0) || (idx == len - 1 && offset
                        > 0)) {
                        r is None && *final(self) == *old(self)
                    } else if target >= 0 {
                        &&& r matches Some(s) && s@ == old(self).entries@[target]@
                        &&& final(self).current_idx == Some(target as usize)
                    } else {
                        r is None && *final(self) == *old(self)
                    }
                },
                None => true,
            }),
    {
        let len: usize = self.entries.len();
        if len == 0 {
            return None;
        }
        let idx: usize = match self.current_idx {
            Some(i) => i,
            None => {
                self.current_idx = Some(0);
                return Some(self.entries[0].clone());
            },
        };
        if !self.looping {
            if (idx == 0 && offset < 0) || (idx == len - 1 && offset > 0) {
                return None;
            }
        }
        let t: i64 = idx as i64 + offset as i64;
        let len64: i64 = len as i64;
        let m: i64 = if t >= 0 {
            t % len64
        } else {
            -((-t) % len64)
        };
        if m >= 0 {
            let mi: usize = m as usize;
            self.current_idx = Some(mi);
            Some(self.entries[mi].clone())
        } else {
            None
        }
    }
}

} // verus!

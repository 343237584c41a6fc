//! Small shared utilities.

use vstd::prelude::*;

verus! {

/// An owned cell with explicit borrow accessors.  Verified code tracks
/// the value exactly, so the accessors relate what they hand out to the
/// cell's contents.
pub struct RcCell<T> {
    pub cell: T,
}

impl<T> RcCell<T> {
    pub fn new(data: T) -> (c: RcCell<T>)
        ensures
            c.cell == data,
    {
        RcCell { cell: data }
    }

    /// A mutable borrow of the contents: whatever the caller leaves in
    /// the borrow is what the cell holds afterwards.
    pub fn as_mut(&mut self) -> (r: &mut T)
        ensures
            *r == old(self).cell,
            final(self).cell == *final(r),
    {
        &mut self.cell
    }

    pub fn as_ref(&self) -> (r: &T)
        ensures
            *r == self.cell,
    {
        &self.cell
    }
}

} // verus!

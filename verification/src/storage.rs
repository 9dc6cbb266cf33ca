//! The storage cell: the slot a guarded value lives in.
//!
//! The cell itself enforces no discipline — it trusts its caller. The
//! write-once-then-read-only protocol is enforced by the guarded value's
//! invariant over its [`crate::gate::InitGate`]: the cell is only written
//! through `get_mut` by the one caller that won the init gate's claim, and only
//! read after the init gate reached `Initialized`.

use vstd::prelude::*;

verus! {

/// Storage for one value of type `T`.
///
/// Its mathematical view is simply the value it holds.
pub struct StorageCell<T> {
    value: T,
}

impl<T> View for StorageCell<T> {
    type V = T;

    closed spec fn view(&self) -> T {
        self.value
    }
}

impl<T> StorageCell<T> {
    /// A cell holding `value` (for a guarded value: the placeholder that
    /// the initializer later overwrites or mutates in place).
    pub fn new(value: T) -> (r: Self)
        ensures
            r@ == value,
    {
        StorageCell { value }
    }

    /// Read the cell.
    pub fn get(&self) -> (r: &T)
        ensures
            *r == self@,
    {
        &self.value
    }

    /// A mutable view directly onto the stored value, for the in-place
    /// initializer: mutations land in the cell itself, so no temporary
    /// copy of a large value is ever built on the stack.
    pub fn get_mut(&mut self) -> (r: &mut T)
        ensures
            *r == old(self)@,
            final(self)@ == *final(r),
    {
        &mut self.value
    }

    /// Write `value` into the cell. For a guarded value this happens at
    /// most once, by the initializing caller; the cell itself does not
    /// check that.
    pub fn write(&mut self, value: T)
        ensures
            final(self)@ == value,
    {
        self.value = value;
    }
}

} // verus!

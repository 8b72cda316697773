//! Shared cells and the critical-section discipline that guards them.
//!
//! Every piece of state that both the foreground loop and the interrupt
//! handler touch lives in a [`GuardedCell`]. A cell can only be read or
//! written by a caller that holds a [`CriticalSection`] witness, and a
//! witness exists only while the machine has interrupts disabled (see
//! [`crate::machine::Machine::enter_critical`]). On a single core this
//! makes every access to a cell mutually exclusive with every other: a
//! read can only observe a value some completed write put there, never a
//! mixture of two writes.

use vstd::prelude::*;

verus! {

/// A witness that the single core is currently inside a critical section:
/// interrupts are disabled, so no other context can run.
///
/// The field is private and the only constructor is crate-internal, so the
/// one way for outside code to obtain a witness is
/// [`crate::machine::Machine::enter_critical`], which disables interrupts,
/// and the witness is consumed by `exit_critical`, which restores them.
pub struct CriticalSection {
    token: (),
}

impl CriticalSection {
    /// Mint a witness. Only the machine model may do this, at the moment
    /// it disables interrupts.
    pub(crate) fn issue() -> CriticalSection {
        CriticalSection { token: () }
    }
}

/// A process-wide cell holding an optional value, accessible only inside
/// a critical section.
///
/// The view is the held value: `None` before first initialization,
/// `Some(v)` afterwards.
pub struct GuardedCell<T> {
    value: Option<T>,
}

impl<T> View for GuardedCell<T> {
    type V = Option<T>;

    closed spec fn view(&self) -> Option<T> {
        self.value
    }
}

impl<T> GuardedCell<T> {
    /// A cell before first initialization.
    pub fn empty() -> (r: Self)
        ensures
            r@ is None,
    {
        GuardedCell { value: None }
    }

    /// Store a value. Callable only inside a critical section.
    pub fn write(&mut self, _cs: &CriticalSection, v: T)
        ensures
            final(self)@ == Some(v),
    {
        self.value = Some(v);
    }

    /// Move the held value out, leaving the cell uninitialized.
    /// Callable only inside a critical section.
    pub fn take(&mut self, _cs: &CriticalSection) -> (r: Option<T>)
        ensures
            final(self)@ is None,
            r == old(self)@,
    {
        self.value.take()
    }

    /// Read the held value by reference. Callable only inside a critical
    /// section.
    pub fn inspect<'a>(&'a self, _cs: &CriticalSection) -> (r: &'a Option<T>)
        ensures
            *r == self@,
    {
        &self.value
    }
}

impl<T: Copy> GuardedCell<T> {
    /// Read the held value by copy. Callable only inside a critical
    /// section.
    pub fn read(&self, _cs: &CriticalSection) -> (r: Option<T>)
        ensures
            r == self@,
    {
        self.value
    }
}

} // verus!

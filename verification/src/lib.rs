//! Substituting a value's destructor.
//!
//! [`ReplaceDrop`] takes exclusive ownership of a value whose type implements
//! [`ReplaceDropImpl`]. While the guard is alive the value can be read and
//! mutated through it; when the guard itself is dropped it runs the type's
//! substitute finalizer instead of the value's ordinary destructor, which is
//! suppressed entirely. Extracting the value with [`ReplaceDrop::into_inner`]
//! cancels that obligation and restores ordinary destruction for the value.

use core::mem::ManuallyDrop;
use vstd::prelude::*;

verus! {

/// A substitute finalizer: cleanup to run in place of a type's ordinary
/// destructor.
///
/// Implementers promise that `finalize` is sound to run at most once per
/// value, and that it performs whatever cleanup must not be lost when the
/// ordinary destructor is suppressed. Under a [`ReplaceDrop`] guard none of
/// the value's fields are finalized automatically: an implementation that
/// still wants a field's cleanup must trigger it itself.
pub trait ReplaceDropImpl {
    /// Runs the substitute cleanup.
    ///
    /// Called with exclusive access to the value. [`ReplaceDrop`] routes
    /// every discharge through a single point, so it calls this at most once
    /// per guarded value; callers invoking it directly carry the same
    /// obligation themselves.
    fn finalize(&mut self)
        opens_invariants none
        no_unwind when true;
}

/// The unit value holds nothing, so its substitute finalizer has no effect
/// and cannot fail.
impl ReplaceDropImpl for () {
    fn finalize(&mut self)
        ensures
            *final(self) == *old(self),
    {
    }
}

/// A guard that owns one value of `T` and carries the obligation to run its
/// substitute finalizer exactly once.
///
/// The obligation is discharged either by the guard's own destructor, which
/// calls [`ReplaceDropImpl::finalize`] and suppresses `T`'s ordinary
/// destructor, or cancelled by [`ReplaceDrop::into_inner`], which hands the
/// value back to ordinary ownership. Cloning a guard clones the held value
/// into a fresh guard with an independent obligation.
#[derive(Clone, Debug)]
pub struct ReplaceDrop<T: ReplaceDropImpl>(Option<T>);

impl<T: ReplaceDropImpl> View for ReplaceDrop<T> {
    type V = T;

    /// The held value.
    closed spec fn view(&self) -> T {
        self.0->0
    }
}

impl<T: ReplaceDropImpl> ReplaceDrop<T> {
    /// Whether the guard still holds its value together with the discharge
    /// obligation. Both constructors establish this, and nothing short of
    /// consuming the guard revokes it.
    pub closed spec fn armed(&self) -> bool {
        self.0 is Some
    }

    /// Wraps `val`, taking over its destruction: from here on the guard's own
    /// destructor runs `val`'s substitute finalizer in place of its ordinary
    /// destructor.
    #[must_use]
    pub fn new(val: T) -> (g: Self)
        ensures
            g.armed(),
            g@ == val,
    {
        ReplaceDrop(Some(val))
    }

    /// Like [`ReplaceDrop::new`], for a value already held in a
    /// manually-finalized slot: the slot alone would simply never run any
    /// destructor, while the guard built from it runs the substitute
    /// finalizer on the same value.
    #[must_use]
    pub fn new_from_manually_drop(val: ManuallyDrop<T>) -> (g: Self)
        ensures
            g.armed(),
            g@ == val@,
    {
        ReplaceDrop(Some(ManuallyDrop::into_inner(val)))
    }

    /// Moves the held value back out, returning it to ordinary ownership:
    /// its ordinary destructor is re-enabled and the guard's obligation is
    /// cancelled, so the substitute finalizer does not run. The guard is
    /// emptied before it is consumed, leaving no instant at which both the
    /// returned value and the guard could finalize it.
    pub fn into_inner(self) -> (val: T)
        requires
            self.armed(),
        ensures
            val == self@,
    {
        let mut this = self;
        let taken = this.0.take();
        taken.unwrap()
    }

    /// Transparent read access: a reference to the held value itself, so
    /// reading through the guard observes exactly the value's own state.
    pub fn get(&self) -> (r: &T)
        requires
            self.armed(),
        ensures
            *r == self@,
    {
        self.0.as_ref().unwrap()
    }

    /// Transparent mutate access: a mutable reference to the held value
    /// itself, so writing through the guard mutates exactly the value's own
    /// state, and the guard afterwards holds whatever was written. Neither
    /// ownership nor the discharge obligation moves.
    pub fn get_mut(&mut self) -> (r: &mut T)
        requires
            old(self).armed(),
        ensures
            *r == old(self)@,
            final(self).armed(),
            final(self)@ == *final(r),
    {
        self.0.as_mut().unwrap()
    }
}

/// Relies on `core::mem::forget`: it takes ownership of the value and
/// discards it without running the value's destructor, and it does not
/// unwind.
#[verifier::external_body]
fn forget_value<T>(val: T)
    opens_invariants none
    no_unwind
{
    core::mem::forget(val);
}

impl<T: ReplaceDropImpl> Drop for ReplaceDrop<T> {
    /// Discharges the obligation: takes the held value out, runs its
    /// substitute finalizer, and suppresses its ordinary destructor, so the
    /// finalizer side effects are the only ones. On a guard already emptied
    /// by [`ReplaceDrop::into_inner`] this does nothing.
    fn drop(&mut self)
        ensures
            !final(self).armed(),
        opens_invariants none
        no_unwind
    {
        let mut taken: Option<T> = None;
        core::mem::swap(&mut self.0, &mut taken);
        if let Some(mut val) = taken {
            val.finalize();
            forget_value(val);
        }
    }
}

/// Works like dropping `val`, but runs its substitute finalizer in place of
/// its ordinary destructor: the value is wrapped in a guard that is discarded
/// at once, so the finalizer has run by the time this returns.
pub fn replace_drop<T: ReplaceDropImpl>(val: T) {
    let _ = ReplaceDrop::new(val);
}

} // verus!

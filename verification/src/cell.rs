//! Interior mutability with the shared/exclusive borrow rule enforced at
//! run time.
//!
//! A [`Cell`] wraps a value together with a borrow-state tag.  Acquiring a
//! guard that is incompatible with the guards already outstanding is not a
//! silent corruption but a reported [`BorrowConflict`], surfaced to the
//! immediate caller, who may release the conflicting guard and retry.
//! Guards are move-only values; releasing one hands it back to the cell,
//! which steps its state machine down again.

use vstd::prelude::*;

verus! {

/// The borrow-state tag of a [`Cell`]: either nobody holds a guard, or some
/// positive number of shared guards are out, or one exclusive guard is out.
#[derive(Clone, Copy, PartialEq, Eq, Structural, Debug)]
pub enum BorrowState {
    Unborrowed,
    SharedBorrowed(usize),
    ExclusivelyBorrowed,
}

/// The failure reported when an incompatible guard is requested.
#[derive(Clone, Copy, PartialEq, Eq, Structural, Debug)]
pub struct BorrowConflict;

/// A shared (read) guard on a [`Cell`]; released via [`Cell::release_shared`].
pub struct SharedGuard {
    _private: (),
}

/// An exclusive (write) guard on a [`Cell`]; released via
/// [`Cell::release_exclusive`].
pub struct ExclusiveGuard {
    _private: (),
}

/// A shared guard may be acquired whenever no exclusive guard is out.
pub open spec fn can_acquire_shared(s: BorrowState) -> bool {
    !(s is ExclusivelyBorrowed)
}

/// The state after a successful shared acquisition.
pub open spec fn after_acquire_shared(s: BorrowState) -> BorrowState {
    match s {
        BorrowState::Unborrowed => BorrowState::SharedBorrowed(1),
        BorrowState::SharedBorrowed(n) => BorrowState::SharedBorrowed((n + 1) as usize),
        BorrowState::ExclusivelyBorrowed => s,
    }
}

/// An exclusive guard may be acquired only while no guard at all is out.
pub open spec fn can_acquire_exclusive(s: BorrowState) -> bool {
    s is Unborrowed
}

/// The state after a successful exclusive acquisition.
pub open spec fn after_acquire_exclusive(s: BorrowState) -> BorrowState {
    BorrowState::ExclusivelyBorrowed
}

/// The state after one shared guard is released.
pub open spec fn after_release_shared(s: BorrowState) -> BorrowState {
    match s {
        BorrowState::SharedBorrowed(n) => if n <= 1 {
            BorrowState::Unborrowed
        } else {
            BorrowState::SharedBorrowed((n - 1) as usize)
        },
        _ => s,
    }
}

/// How many shared guards a state has out.
pub open spec fn shared_guards(s: BorrowState) -> int {
    match s {
        BorrowState::SharedBorrowed(n) => n as int,
        _ => 0,
    }
}

/// A value behind a run-time borrow check.
pub struct Cell<T> {
    value: T,
    state: BorrowState,
}

impl<T> Cell<T> {
    /// The wrapped value.
    pub closed spec fn value_spec(&self) -> T {
        self.value
    }

    /// The current borrow-state tag.
    pub closed spec fn state_spec(&self) -> BorrowState {
        self.state
    }

    /// The shared-guard count of a well-formed state is never stored as zero.
    pub open spec fn wf(&self) -> bool {
        self.state_spec() matches BorrowState::SharedBorrowed(n) ==> n >= 1
    }

    /// Wraps a value; no guard is out yet.
    pub fn new(value: T) -> (r: Cell<T>)
        ensures
            r.wf(),
            r.value_spec() == value,
            r.state_spec() == BorrowState::Unborrowed,
    {
        Cell { value, state: BorrowState::Unborrowed }
    }

    /// Acquires a shared read guard.  This fails — reporting a
    /// [`BorrowConflict`] and leaving the cell untouched — exactly when an
    /// exclusive guard is currently outstanding; otherwise the shared count
    /// rises by one.
    pub fn borrow(&mut self) -> (r: Result<SharedGuard, BorrowConflict>)
        requires
            old(self).wf(),
            shared_guards(old(self).state_spec()) < usize::MAX,
        ensures
            final(self).wf(),
            final(self).value_spec() == old(self).value_spec(),
            r is Ok <==> can_acquire_shared(old(self).state_spec()),
            r is Ok ==> final(self).state_spec() == after_acquire_shared(old(self).state_spec()),
            r is Err ==> final(self).state_spec() == old(self).state_spec(),
    {
        match self.state {
            BorrowState::Unborrowed => {
                self.state = BorrowState::SharedBorrowed(1);
                Ok(SharedGuard { _private: () })
            },
            BorrowState::SharedBorrowed(n) => {
                self.state = BorrowState::SharedBorrowed(n + 1);
                Ok(SharedGuard { _private: () })
            },
            BorrowState::ExclusivelyBorrowed => Err(BorrowConflict),
        }
    }

    /// Acquires the exclusive write guard.  This fails — reporting a
    /// [`BorrowConflict`] and leaving the cell untouched — exactly when any
    /// guard, shared or exclusive, is currently outstanding.
    pub fn borrow_mut(&mut self) -> (r: Result<ExclusiveGuard, BorrowConflict>)
        requires
            old(self).wf(),
        ensures
            final(self).wf(),
            final(self).value_spec() == old(self).value_spec(),
            r is Ok <==> can_acquire_exclusive(old(self).state_spec()),
            r is Ok ==> final(self).state_spec() == after_acquire_exclusive(
                old(self).state_spec(),
            ),
            r is Err ==> final(self).state_spec() == old(self).state_spec(),
    {
        match self.state {
            BorrowState::Unborrowed => {
                self.state = BorrowState::ExclusivelyBorrowed;
                Ok(ExclusiveGuard { _private: () })
            },
            _ => Err(BorrowConflict),
        }
    }

    /// Hands a shared guard back, lowering the shared count by one; at zero
    /// the cell returns to the unborrowed state.
    pub fn release_shared(&mut self, guard: SharedGuard)
        requires
            old(self).wf(),
            old(self).state_spec() is SharedBorrowed,
        ensures
            final(self).wf(),
            final(self).value_spec() == old(self).value_spec(),
            final(self).state_spec() == after_release_shared(old(self).state_spec()),
    {
        match self.state {
            BorrowState::SharedBorrowed(n) => {
                if n <= 1 {
                    self.state = BorrowState::Unborrowed;
                } else {
                    self.state = BorrowState::SharedBorrowed(n - 1);
                }
            },
            _ => (),
        }
    }

    /// Hands the exclusive guard back; the cell returns to the unborrowed
    /// state.
    pub fn release_exclusive(&mut self, guard: ExclusiveGuard)
        requires
            old(self).wf(),
            old(self).state_spec() is ExclusivelyBorrowed,
        ensures
            final(self).wf(),
            final(self).value_spec() == old(self).value_spec(),
            final(self).state_spec() == BorrowState::Unborrowed,
    {
        self.state = BorrowState::Unborrowed;
    }

    /// Reads the value through a shared guard.
    pub fn read_shared(&self, guard: &SharedGuard) -> (r: &T)
        requires
            self.state_spec() is SharedBorrowed,
        ensures
            *r == self.value_spec(),
    {
        &self.value
    }

    /// Reads the value through the exclusive guard.
    pub fn read_exclusive(&self, guard: &ExclusiveGuard) -> (r: &T)
        requires
            self.state_spec() is ExclusivelyBorrowed,
        ensures
            *r == self.value_spec(),
    {
        &self.value
    }

    /// Overwrites the value through the exclusive guard.
    pub fn set(&mut self, guard: &ExclusiveGuard, value: T)
        requires
            old(self).state_spec() is ExclusivelyBorrowed,
        ensures
            final(self).value_spec() == value,
            final(self).state_spec() == old(self).state_spec(),
            final(self).wf() == old(self).wf(),
    {
        self.value = value;
    }

    /// Swaps the value through the exclusive guard, returning the old value.
    pub fn replace(&mut self, guard: &ExclusiveGuard, value: T) -> (r: T)
        requires
            old(self).state_spec() is ExclusivelyBorrowed,
        ensures
            r == old(self).value_spec(),
            final(self).value_spec() == value,
            final(self).state_spec() == old(self).state_spec(),
            final(self).wf() == old(self).wf(),
    {
        let mut slot = value;
        core::mem::swap(&mut self.value, &mut slot);
        slot
    }

    /// How many shared guards are out right now.
    pub fn shared_count(&self) -> (r: usize)
        requires
            self.wf(),
        ensures
            r == shared_guards(self.state_spec()),
    {
        match self.state {
            BorrowState::SharedBorrowed(n) => n,
            _ => 0,
        }
    }

    /// Whether the exclusive guard is out right now.
    pub fn is_exclusively_borrowed(&self) -> (r: bool)
        ensures
            r == (self.state_spec() is ExclusivelyBorrowed),
    {
        match self.state {
            BorrowState::ExclusivelyBorrowed => true,
            _ => false,
        }
    }

    /// The current borrow-state tag.
    pub fn state(&self) -> (r: BorrowState)
        ensures
            r == self.state_spec(),
    {
        self.state
    }

    /// Unwraps the cell once no guard is out; the value's own teardown then
    /// lies with the caller again.
    pub fn into_inner(self) -> (r: T)
        requires
            self.state_spec() == BorrowState::Unborrowed,
        ensures
            r == self.value_spec(),
    {
        self.value
    }
}

/// Law: a shared guard held open excludes the exclusive guard, and the
/// exclusive guard held open excludes every further guard, shared or
/// exclusive.  Acquisitions of the two kinds can never both succeed without
/// a release in between.
pub proof fn lemma_borrow_conflict(s: BorrowState)
    ensures
        can_acquire_shared(s) ==> !can_acquire_exclusive(after_acquire_shared(s)),
        can_acquire_exclusive(s) ==> !can_acquire_shared(after_acquire_exclusive(s)),
        can_acquire_exclusive(s) ==> !can_acquire_exclusive(after_acquire_exclusive(s)),
{
}

/// Law: shared guards stack: while shared guards are out, another shared
/// guard may always be acquired, and each acquisition raises the count by
/// exactly one.
pub proof fn lemma_shared_guards_coexist(s: BorrowState)
    requires
        can_acquire_shared(s),
    ensures
        can_acquire_shared(after_acquire_shared(s)),
        shared_guards(s) < usize::MAX ==> shared_guards(after_acquire_shared(s)) == shared_guards(
            s,
        ) + 1,
{
}

/// Law: releasing a shared guard undoes its acquisition exactly.
pub proof fn lemma_release_undoes_acquire(s: BorrowState)
    requires
        can_acquire_shared(s),
        shared_guards(s) < usize::MAX,
        s matches BorrowState::SharedBorrowed(n) ==> n >= 1,
    ensures
        after_release_shared(after_acquire_shared(s)) == s,
{
}

} // verus!

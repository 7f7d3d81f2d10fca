use vstd::prelude::*;
use vstd::rwlock::{ReadHandle, RwLock, WriteHandle};

verus! {

/// Provider-wide resources behind a reader/writer lock: any number of readers
/// at once, or one writer alone. A waiting writer keeps new readers out, so it
/// gets the lock once the readers that hold it release.
#[verifier::reject_recursive_types(T)]
pub struct SharedState<T> {
    lock: RwLock<T, spec_fn(T) -> bool>,
}

/// A read access; the value cannot change while it is held.
#[verifier::reject_recursive_types(T)]
pub struct ReadGuard<'a, T> {
    handle: ReadHandle<'a, T, spec_fn(T) -> bool>,
}

/// The one write access: the value taken out, to be put back by `release`.
#[verifier::reject_recursive_types(T)]
pub struct WriteGuard<'a, T> {
    handle: WriteHandle<'a, T, spec_fn(T) -> bool>,
}

impl<T> SharedState<T> {
    /// The lock accepts every value.
    #[verifier::type_invariant]
    spec fn accepts_any(&self) -> bool {
        forall|v: T| self.lock.inv(v)
    }

    /// Shares `value`.
    pub fn new(value: T) -> (r: SharedState<T>) {
        SharedState { lock: RwLock::new(value, Ghost(|v: T| true)) }
    }

    /// Waits until no writer holds or awaits the lock, then reads.
    pub fn read(&self) -> (r: ReadGuard<'_, T>)
        ensures
            r.lock() == *self,
    {
        ReadGuard { handle: self.lock.acquire_read() }
    }

    /// Waits until it is the only holder, then takes the value out.
    pub fn write(&self) -> (r: (T, WriteGuard<'_, T>))
        ensures
            r.1.lock() == *self,
    {
        proof {
            use_type_invariant(self);
        }
        let (value, handle) = self.lock.acquire_write();
        (value, WriteGuard { handle })
    }
}

impl<'a, T> ReadGuard<'a, T> {
    /// The value read.
    pub closed spec fn view(&self) -> T {
        self.handle.view()
    }

    /// The state it reads.
    pub closed spec fn lock(&self) -> SharedState<T> {
        SharedState { lock: self.handle.rwlock() }
    }

    /// The value read.
    pub fn get(&self) -> (r: &T)
        ensures
            *r == self@,
    {
        self.handle.borrow()
    }

    /// Gives the read access back.
    pub fn release(self) {
        self.handle.release_read()
    }
}

impl<'a, T> WriteGuard<'a, T> {
    /// The lock it came from accepts every value.
    #[verifier::type_invariant]
    spec fn accepts_any(&self) -> bool {
        forall|v: T| self.handle.rwlock().inv(v)
    }

    /// The state it writes.
    pub closed spec fn lock(&self) -> SharedState<T> {
        SharedState { lock: self.handle.rwlock() }
    }

    /// Puts `value` in and gives the write access back.
    pub fn release(self, value: T) {
        proof {
            use_type_invariant(&self);
        }
        self.handle.release_write(value)
    }
}

} // verus!

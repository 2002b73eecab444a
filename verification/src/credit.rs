//! The credit pool: a count of bytes that may still be buffered.
//!
//! The count is kept by a `tokio::sync::Semaphore`. Nothing ever waits on it:
//! credit is either granted at once or refused.

use tokio::sync::Semaphore;
use vstd::prelude::*;

verus! {

/// `tokio::sync::Semaphore`.
#[verifier::external_type_specification]
#[verifier::external_body]
pub struct ExSemaphore(Semaphore);

/// The number of permits that a semaphore has available.
pub uninterp spec fn permits_of(sem: Semaphore) -> nat;

/// Whether a semaphore has been closed.
pub uninterp spec fn closed_of(sem: Semaphore) -> bool;

/// The largest number of permits that a semaphore can hold, and with it the
/// largest ceiling of a credit pool: `Semaphore::MAX_PERMITS`.
pub const MAX_CREDITS: usize = usize::MAX / 8;

/// The largest number of bytes that can be asked of a credit pool at once.
pub const MAX_REQUEST: usize = 0xffff_ffff;

/// `Semaphore::new` returns an open semaphore with the given number of
/// permits. It panics above `Semaphore::MAX_PERMITS`.
pub assume_specification[ Semaphore::new ](permits: usize) -> (sem: Semaphore)
    requires
        permits <= MAX_CREDITS,
    ensures
        permits_of(sem) == permits,
        !closed_of(sem),
;

/// `Semaphore::available_permits` returns the number of permits that are
/// available.
pub assume_specification[ Semaphore::available_permits ](sem: &Semaphore) -> (permits: usize)
    ensures
        permits == permits_of(*sem),
;

/// `Semaphore::try_acquire_many`, followed by `SemaphorePermit::forget` on
/// the permit that it grants. On an open semaphore it takes `n` permits
/// where that many are available and says so; where fewer are available it
/// takes none. The permits that it took stay away until they are added back.
/// It does not wait, and it panics above `Semaphore::MAX_PERMITS`.
///
/// The semaphore is taken by `&mut`: nobody is waiting on it and nobody else
/// changes it meanwhile.
#[verifier::external_body]
fn take_permits(sem: &mut Semaphore, n: u32) -> (granted: bool)
    requires
        n <= MAX_CREDITS,
        !closed_of(*old(sem)),
    ensures
        granted == (n <= permits_of(*old(sem))),
        granted ==> permits_of(*final(sem)) == permits_of(*old(sem)) - n,
        !granted ==> permits_of(*final(sem)) == permits_of(*old(sem)),
        !closed_of(*final(sem)),
{
    match sem.try_acquire_many(n) {
        Ok(permit) => {
            permit.forget();
            true
        },
        Err(_) => false,
    }
}

/// `Semaphore::add_permits` adds `n` permits to those that are available.
/// It panics where the sum would be above `Semaphore::MAX_PERMITS`.
///
/// The semaphore is taken by `&mut`: nobody is waiting on it, so every
/// permit that is added becomes available.
#[verifier::external_body]
fn add_permits(sem: &mut Semaphore, n: usize)
    requires
        permits_of(*old(sem)) + n <= MAX_CREDITS,
    ensures
        permits_of(*final(sem)) == permits_of(*old(sem)) + n,
        closed_of(*final(sem)) == closed_of(*old(sem)),
{
    sem.add_permits(n)
}

/// A pool of credit, counted in bytes and bounded by a ceiling.
///
/// Credit is taken for a message before it is buffered and given back when
/// the message leaves the buffer, so the bytes that are buffered and the
/// credit that is left always add up to the ceiling.
#[derive(Debug)]
pub struct CreditPool {
    permits: Semaphore,
    ceiling: usize,
}

impl CreditPool {
    /// The ceiling: the credit of a pool from which nothing is taken.
    pub closed spec fn ceiling(&self) -> nat {
        self.ceiling as nat
    }

    /// The credit that is left.
    pub closed spec fn available(&self) -> nat {
        permits_of(self.permits)
    }

    /// The credit that is taken.
    pub open spec fn held(&self) -> int {
        self.ceiling() - self.available()
    }

    /// What holds of every pool: no more credit is left than the ceiling
    /// allows.
    pub closed spec fn wf(&self) -> bool {
        &&& self.ceiling <= MAX_CREDITS
        &&& permits_of(self.permits) <= self.ceiling
        &&& !closed_of(self.permits)
    }

    /// A pool with the given ceiling, from which nothing is taken.
    pub fn new(ceiling: usize) -> (pool: Self)
        requires
            ceiling <= MAX_CREDITS,
        ensures
            pool.wf(),
            pool.ceiling() == ceiling,
            pool.available() == ceiling,
    {
        CreditPool { permits: Semaphore::new(ceiling), ceiling }
    }

    /// The ceiling.
    pub fn limit(&self) -> (n: usize)
        ensures
            n == self.ceiling(),
    {
        self.ceiling
    }

    /// The credit that is left.
    pub fn remaining(&self) -> (n: usize)
        ensures
            n == self.available(),
    {
        self.permits.available_permits()
    }

    /// Takes credit for `bytes` bytes, if that much is left. It never waits:
    /// credit is refused where less is left, and where more is asked for than
    /// can be asked at once.
    pub fn try_acquire(&mut self, bytes: usize) -> (granted: bool)
        requires
            old(self).wf(),
        ensures
            final(self).wf(),
            final(self).ceiling() == old(self).ceiling(),
            granted == (bytes <= old(self).available() && bytes <= MAX_REQUEST),
            granted ==> final(self).available() == old(self).available() - bytes,
            !granted ==> final(self).available() == old(self).available(),
    {
        if bytes > self.ceiling || bytes > MAX_REQUEST {
            return false;
        }
        take_permits(&mut self.permits, bytes as u32)
    }

    /// Gives back credit for `bytes` bytes that was taken before.
    pub fn release(&mut self, bytes: usize)
        requires
            old(self).wf(),
            bytes <= old(self).held(),
        ensures
            final(self).wf(),
            final(self).ceiling() == old(self).ceiling(),
            final(self).available() == old(self).available() + bytes,
    {
        add_permits(&mut self.permits, bytes);
    }
}

} // verus!

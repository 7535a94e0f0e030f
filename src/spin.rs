use crate::irq::{masked, released, InterruptState, SiePreserver};
use core::marker::PhantomData;
use vstd::prelude::*;

verus! {

/// Strategy run around a lock: what happens to interrupts while it is held.
pub trait MutexSupport {
    /// What the strategy keeps while the lock is held.
    type GuardData;

    /// Whether holding the lock keeps interrupts masked.
    spec fn masks_interrupts() -> bool;

    /// The interrupt-enable bit that releasing `g` brings back.
    spec fn prior(g: &Self::GuardData) -> bool;

    /// Runs before the lock is taken.
    fn before_lock(irq: &mut InterruptState) -> (g: Self::GuardData)
        ensures
            Self::masks_interrupts() ==> Self::prior(&g) == old(irq).enabled && *final(irq) == masked(
                *old(irq),
            ),
            !Self::masks_interrupts() ==> *final(irq) == *old(irq),
    ;

    /// Runs after the lock is released.
    fn after_unlock(g: Self::GuardData, irq: &mut InterruptState)
        ensures
            Self::masks_interrupts() ==> *final(irq) == released(Self::prior(&g), *old(irq)),
            !Self::masks_interrupts() ==> *final(irq) == *old(irq),
    ;
}

/// Plain spinning: interrupts may arrive while the lock is held.
pub struct NormalSpin;

impl MutexSupport for NormalSpin {
    type GuardData = ();

    open spec fn masks_interrupts() -> bool {
        false
    }

    open spec fn prior(g: &()) -> bool {
        false
    }

    fn before_lock(irq: &mut InterruptState) -> (g: ()) {
    }

    fn after_unlock(g: (), irq: &mut InterruptState) {
    }
}

/// Spinning with interrupts masked for as long as the lock is held.
pub struct NoInterruptSpin;

impl MutexSupport for NoInterruptSpin {
    type GuardData = SiePreserver;

    open spec fn masks_interrupts() -> bool {
        true
    }

    open spec fn prior(g: &SiePreserver) -> bool {
        g.prior()
    }

    fn before_lock(irq: &mut InterruptState) -> (g: SiePreserver) {
        SiePreserver::new(irq)
    }

    fn after_unlock(g: SiePreserver, irq: &mut InterruptState) {
        g.release(irq);
    }
}

/// How long a waiter spins on a held lock before it reports a deadlock, in
/// nanoseconds (15 seconds).
pub const DEADLOCK_THRESHOLD_NS: u64 = 15_000_000_000;

/// What a waiter does after one look at the lock.
#[derive(Clone, Copy, Debug, PartialEq, Eq)]
pub enum WaitStep {
    /// The lock is free: take it.
    Acquire,
    /// The lock is held and the wait is still under the threshold.
    Spin,
    /// The lock has been held past the threshold: a fatal deadlock.
    Deadlock,
}

/// The decision of a waiter that started waiting at `lock_time` and reads the
/// clock as `now` (both in nanoseconds).
pub open spec fn wait_decision(locked: bool, lock_time: u64, now: u64) -> WaitStep {
    if !locked {
        WaitStep::Acquire
    } else if now - lock_time > DEADLOCK_THRESHOLD_NS {
        WaitStep::Deadlock
    } else {
        WaitStep::Spin
    }
}

/// Proof that a guard is held on a lock; it carries what the strategy must
/// undo at release.
pub struct MutexGuard<S: MutexSupport> {
    support_guard: S::GuardData,
    lock_id: Ghost<int>,
}

impl<S: MutexSupport> MutexGuard<S> {
    /// Identity of the lock that handed out this guard.
    pub closed spec fn id(&self) -> int {
        self.lock_id@
    }

    /// The interrupt-enable bit that releasing this guard brings back.
    pub closed spec fn prior(&self) -> bool {
        S::prior(&self.support_guard)
    }
}

/// A value guarded by an exclusive-access flag.
pub struct SpinMutex<T, S: MutexSupport> {
    lock: bool,
    id: Ghost<int>,
    _marker: PhantomData<S>,
    data: T,
}

impl<T, S: MutexSupport> SpinMutex<T, S> {
    /// Identity of this lock; only guards with the same identity act on it.
    pub closed spec fn id(&self) -> int {
        self.id@
    }

    /// Whether a guard on this lock is live.
    pub closed spec fn is_locked(&self) -> bool {
        self.lock
    }

    /// The guarded value.
    pub closed spec fn value(&self) -> T {
        self.data
    }

    /// The mutex once a guard on it is live.
    pub closed spec fn acquired(&self) -> Self {
        SpinMutex { lock: true, ..*self }
    }

    /// An unlocked mutex holding `user_data`.
    pub fn new(user_data: T) -> (r: Self)
        ensures
            !r.is_locked(),
            r.value() == user_data,
    {
        SpinMutex { lock: false, id: Ghost(0), _marker: PhantomData, data: user_data }
    }

    /// Runs the strategy's pre-acquisition step (masking interrupts for
    /// [`NoInterruptSpin`]), then takes the lock if it is free. On a held
    /// lock the strategy's data comes back in `Err` and the mask stays in
    /// force: the caller spins with [`SpinMutex::wait_unlock`] and
    /// [`SpinMutex::try_lock`], or hands the data to `S::after_unlock`.
    pub fn lock(&mut self, irq: &mut InterruptState) -> (r: Result<MutexGuard<S>, S::GuardData>)
        ensures
            r is Ok <==> lock_granted(*old(self)),
            *final(self) == old(self).acquired(),
            final(self).is_locked(),
            final(self).value() == old(self).value(),
            final(self).id() == old(self).id(),
            r matches Ok(g) ==> g.id() == old(self).id(),
            S::masks_interrupts() ==> *final(irq) == masked(*old(irq)),
            !S::masks_interrupts() ==> *final(irq) == *old(irq),
            r matches Ok(g) ==> S::masks_interrupts() ==> g.prior() == old(irq).enabled,
            r matches Err(d) ==> S::masks_interrupts() ==> S::prior(&d) == old(irq).enabled,
    {
        let support_guard = S::before_lock(irq);
        self.try_lock(support_guard)
    }

    /// Takes the lock if it is free, keeping `support_guard` (the result of
    /// the strategy's pre-acquisition step) in the guard; hands it back if
    /// the lock is held.
    pub fn try_lock(&mut self, support_guard: S::GuardData) -> (r: Result<MutexGuard<S>, S::GuardData>)
        ensures
            r is Ok <==> lock_granted(*old(self)),
            *final(self) == old(self).acquired(),
            final(self).is_locked(),
            final(self).value() == old(self).value(),
            final(self).id() == old(self).id(),
            r matches Ok(g) ==> g.id() == old(self).id() && g.prior() == S::prior(&support_guard),
            r matches Err(d) ==> d == support_guard,
    {
        if self.lock {
            return Err(support_guard);
        }
        self.lock = true;
        Ok(MutexGuard { support_guard, lock_id: Ghost(self.id@) })
    }

    /// One look at the lock by a waiter that started waiting at `lock_time`
    /// and now reads the clock as `now` (nanoseconds): a deadlock is reported
    /// exactly when the lock is still held more than the threshold after the
    /// wait began.
    pub fn wait_unlock(&self, lock_time: u64, now: u64) -> (r: WaitStep)
        ensures
            r == wait_decision(self.is_locked(), lock_time, now),
    {
        if !self.lock {
            WaitStep::Acquire
        } else if now > lock_time && now - lock_time > DEADLOCK_THRESHOLD_NS {
            WaitStep::Deadlock
        } else {
            WaitStep::Spin
        }
    }

    /// Releases the lock held through `guard` and undoes the strategy's
    /// pre-acquisition step.
    pub fn unlock(&mut self, guard: MutexGuard<S>, irq: &mut InterruptState)
        requires
            old(self).is_locked(),
            guard.id() == old(self).id(),
        ensures
            !final(self).is_locked(),
            final(self).id() == old(self).id(),
            final(self).value() == old(self).value(),
            S::masks_interrupts() ==> *final(irq) == released(guard.prior(), *old(irq)),
            !S::masks_interrupts() ==> *final(irq) == *old(irq),
    {
        self.lock = false;
        S::after_unlock(guard.support_guard, irq);
    }

    /// Read access to the value while the lock is held.
    pub fn get(&self, guard: &MutexGuard<S>) -> (r: &T)
        requires
            self.is_locked(),
            guard.id() == self.id(),
        ensures
            *r == self.value(),
    {
        &self.data
    }

    /// Replaces the value while the lock is held and returns the old one.
    pub fn replace(&mut self, guard: &MutexGuard<S>, v: T) -> (r: T)
        requires
            old(self).is_locked(),
            guard.id() == old(self).id(),
        ensures
            r == old(self).value(),
            final(self).value() == v,
            final(self).is_locked(),
            final(self).id() == old(self).id(),
    {
        let mut v = v;
        core::mem::swap(&mut self.data, &mut v);
        v
    }
}

/// Whether an attempt on `m` hands out a guard.
pub open spec fn lock_granted<T, S: MutexSupport>(m: SpinMutex<T, S>) -> bool {
    !m.is_locked()
}

/// Mutual exclusion: an attempt that hands out a guard leaves the lock held;
/// from then on every attempt is refused and changes nothing, so no second
/// guard of this lock exists until `unlock` is given a guard with the lock's
/// own identity.
pub proof fn lemma_mutual_exclusion<T, S: MutexSupport>(m: SpinMutex<T, S>)
    ensures
        !lock_granted(m.acquired()),
        m.acquired().acquired() == m.acquired(),
        m.acquired().id() == m.id(),
        m.acquired().value() == m.value(),
{
}

} // verus!

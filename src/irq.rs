use vstd::prelude::*;

verus! {

/// The supervisor interrupt-enable bit of the hart.
#[derive(Clone, Copy, Debug, PartialEq, Eq)]
pub struct InterruptState {
    pub enabled: bool,
}

/// The interrupt state after a mask guard has been taken on `s`.
pub open spec fn masked(s: InterruptState) -> InterruptState {
    InterruptState { enabled: false }
}

/// The interrupt state after a guard that captured `prior` is released on `s`:
/// interrupts come back on only if they were on when the guard was taken.
pub open spec fn released(prior: bool, s: InterruptState) -> InterruptState {
    if prior {
        InterruptState { enabled: true }
    } else {
        s
    }
}

/// Whether supervisor interrupts are currently enabled.
pub fn sie_is_enabled(irq: &InterruptState) -> (r: bool)
    ensures
        r == irq.enabled,
{
    irq.enabled
}

/// Turns supervisor interrupts off.
pub fn disable_sie(irq: &mut InterruptState)
    ensures
        !final(irq).enabled,
{
    irq.enabled = false;
}

/// Turns supervisor interrupts on.
pub fn enable_sie(irq: &mut InterruptState)
    ensures
        final(irq).enabled,
{
    irq.enabled = true;
}

/// Interrupt-mask guard: records the interrupt-enable bit it found and keeps
/// interrupts off until it is released.
#[derive(Debug)]
pub struct SiePreserver {
    sie_old: bool,
}

impl SiePreserver {
    /// The interrupt-enable bit that was in force when the guard was taken.
    pub closed spec fn prior(&self) -> bool {
        self.sie_old
    }

    /// Captures the current interrupt-enable bit, then disables interrupts.
    pub fn new(irq: &mut InterruptState) -> (r: SiePreserver)
        ensures
            r.prior() == old(irq).enabled,
            *final(irq) == masked(*old(irq)),
    {
        let sie_status: bool = sie_is_enabled(irq);
        disable_sie(irq);
        SiePreserver { sie_old: sie_status }
    }

    /// Ends the critical section: re-enables interrupts only if they were
    /// enabled when the guard was taken.
    pub fn release(self, irq: &mut InterruptState)
        ensures
            *final(irq) == released(self.prior(), *old(irq)),
    {
        if self.sie_old {
            enable_sie(irq);
        }
    }
}

/// Nested guards: after the inner guard is released interrupts stay masked,
/// and releasing the outer guard brings back exactly the state found before it.
pub proof fn lemma_nested_guards(s0: InterruptState)
    ensures
        ({
            let s1 = masked(s0);
            let s2 = masked(s1);
            let s3 = released(s1.enabled, s2);
            let s4 = released(s0.enabled, s3);
            !s1.enabled && !s3.enabled && s4 == s0
        }),
{
}

} // verus!

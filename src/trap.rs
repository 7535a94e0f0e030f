use vstd::prelude::*;

verus! {

/// How the hart dispatches traps through the trap-vector register.
#[derive(Clone, Copy, Debug, PartialEq, Eq)]
pub enum TrapMode {
    Direct,
    Vectored,
}

/// A value of the trap-vector register `stvec`.
#[derive(Clone, Copy, Debug, PartialEq, Eq)]
pub struct Stvec {
    pub address: usize,
    pub mode: TrapMode,
}

/// Addresses of the two trap entry points.
#[derive(Clone, Copy, Debug, PartialEq, Eq)]
pub struct TrapEntries {
    /// Entry for traps taken while the hart runs kernel code.
    pub kernel: usize,
    /// Entry for traps taken from user mode.
    pub user: usize,
}

fn set_trap(stvec: &mut Stvec, addr: usize)
    ensures
        *final(stvec) == (Stvec { address: addr, mode: TrapMode::Direct }),
{
    *stvec = Stvec { address: addr, mode: TrapMode::Direct };
}

/// Points the trap vector at the user-mode trap entry, in direct mode.
pub fn set_user_trap(stvec: &mut Stvec, entries: &TrapEntries)
    ensures
        *final(stvec) == (Stvec { address: entries.user, mode: TrapMode::Direct }),
{
    set_trap(stvec, entries.user);
}

/// Points the trap vector at the kernel-mode trap entry, in direct mode.
pub fn set_kernel_trap(stvec: &mut Stvec, entries: &TrapEntries)
    ensures
        *final(stvec) == (Stvec { address: entries.kernel, mode: TrapMode::Direct }),
{
    set_trap(stvec, entries.kernel);
}

/// Boot-time setup: the kernel handles its own traps first.
pub fn init(stvec: &mut Stvec, entries: &TrapEntries)
    ensures
        *final(stvec) == (Stvec { address: entries.kernel, mode: TrapMode::Direct }),
{
    set_kernel_trap(stvec, entries);
}

} // verus!

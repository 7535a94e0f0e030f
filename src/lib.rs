//! Concurrency core of a single-hart RISC-V kernel: interrupt masking,
//! interrupt-aware spin locks, trap contexts with lazily saved
//! floating-point state, trap-vector selection and a cooperative run-queue.
//!
//! Hardware state (the interrupt-enable bit, the trap-vector register, the
//! floating-point register file, the cycle clock) is modelled by plain values
//! that callers read from and write back to the machine.

pub mod context;
pub mod executor;
pub mod irq;
pub mod spin;
pub mod trap;

pub use context::{
    FloatRegFile, FloatStatus, Spp, Sstatus, TrapContext, UserFloatContext, FS_CLEAN, FS_DIRTY,
    NEED_RESTORE, NEED_SAVE, SIGNAL_DIRTY, SSTATUS_SIE, SSTATUS_SPIE, SSTATUS_SPP,
};
pub use irq::{disable_sie, enable_sie, sie_is_enabled, InterruptState, SiePreserver};
pub use executor::{run_until_idle, CountdownTask, Runnable, ScheduleInfo, TaskQueue};
pub use spin::{
    MutexGuard, MutexSupport, NoInterruptSpin, NormalSpin, SpinMutex, WaitStep,
    DEADLOCK_THRESHOLD_NS,
};
pub use trap::{set_kernel_trap, set_user_trap, Stvec, TrapEntries, TrapMode};

use vstd::prelude::*;

verus! {

/// Bit of `sstatus` that enables supervisor interrupts.
pub const SSTATUS_SIE: usize = 2;

/// Bit of `sstatus` that holds the interrupt-enable bit restored on `sret`.
pub const SSTATUS_SPIE: usize = 32;

/// Bit of `sstatus` that records the privilege level the trap came from
/// (set: supervisor, clear: user).
pub const SSTATUS_SPP: usize = 256;

/// Encoding of the "clean" floating-point unit state.
pub const FS_CLEAN: u32 = 2;

/// Encoding of the "dirty" floating-point unit state.
pub const FS_DIRTY: usize = 3;

/// Privilege level that `sret` returns to.
#[derive(Clone, Copy, Debug, PartialEq, Eq)]
pub enum Spp {
    Supervisor,
    User,
}

/// A value of the supervisor status register, as raw bits.
#[derive(Clone, Copy, Debug, PartialEq, Eq)]
pub struct Sstatus {
    pub bits: usize,
}

impl Sstatus {
    pub open spec fn spec_sie(self) -> bool {
        self.bits & SSTATUS_SIE != 0
    }

    pub open spec fn spec_spie(self) -> bool {
        self.bits & SSTATUS_SPIE != 0
    }

    pub open spec fn spec_spp(self) -> Spp {
        if self.bits & SSTATUS_SPP != 0 {
            Spp::Supervisor
        } else {
            Spp::User
        }
    }

    /// The two-bit floating-point unit state field (bits 13 and 14).
    pub open spec fn spec_fs(self) -> usize {
        (self.bits >> 13usize) & 3
    }

    pub fn from_bits(bits: usize) -> (r: Sstatus)
        ensures
            r.bits == bits,
    {
        Sstatus { bits }
    }

    /// Supervisor interrupt-enable bit.
    pub fn sie(&self) -> (r: bool)
        ensures
            r == self.spec_sie(),
    {
        self.bits & SSTATUS_SIE != 0
    }

    /// Interrupt-enable bit that `sret` restores.
    pub fn spie(&self) -> (r: bool)
        ensures
            r == self.spec_spie(),
    {
        self.bits & SSTATUS_SPIE != 0
    }

    /// Privilege level that `sret` returns to.
    pub fn spp(&self) -> (r: Spp)
        ensures
            r == self.spec_spp(),
    {
        if self.bits & SSTATUS_SPP != 0 {
            Spp::Supervisor
        } else {
            Spp::User
        }
    }

    /// Floating-point unit state: 0 off, 1 initial, 2 clean, 3 dirty.
    pub fn fs(&self) -> (r: usize)
        ensures
            r == self.spec_fs(),
            r <= 3,
    {
        let b = self.bits;
        assert(((b >> 13usize) & 3) <= 3) by (bit_vector);
        (self.bits >> 13usize) & 3
    }

    /// Sets or clears the supervisor interrupt-enable bit.
    pub fn set_sie(&mut self, on: bool)
        ensures
            final(self).bits == if on {
                old(self).bits | SSTATUS_SIE
            } else {
                old(self).bits & !SSTATUS_SIE
            },
            final(self).spec_sie() == on,
            final(self).spec_spie() == old(self).spec_spie(),
            final(self).spec_spp() == old(self).spec_spp(),
            final(self).spec_fs() == old(self).spec_fs(),
    {
        let b = self.bits;
        if on {
            self.bits = b | SSTATUS_SIE;
            assert((b | 2) & 2 != 0 && ((b | 2) & 32 != 0) == (b & 32 != 0) && ((b | 2) & 256 != 0)
                == (b & 256 != 0) && ((b | 2) >> 13usize) & 3 == (b >> 13usize) & 3) by (bit_vector);
        } else {
            self.bits = b & !SSTATUS_SIE;
            assert((b & !2usize) & 2 == 0 && ((b & !2usize) & 32 != 0) == (b & 32 != 0) && ((b
                & !2usize) & 256 != 0) == (b & 256 != 0) && ((b & !2usize) >> 13usize) & 3 == (b
                >> 13usize) & 3) by (bit_vector);
        }
    }

    /// Sets or clears the interrupt-enable bit that `sret` restores.
    pub fn set_spie(&mut self, on: bool)
        ensures
            final(self).bits == if on {
                old(self).bits | SSTATUS_SPIE
            } else {
                old(self).bits & !SSTATUS_SPIE
            },
            final(self).spec_spie() == on,
            final(self).spec_sie() == old(self).spec_sie(),
            final(self).spec_spp() == old(self).spec_spp(),
            final(self).spec_fs() == old(self).spec_fs(),
    {
        let b = self.bits;
        if on {
            self.bits = b | SSTATUS_SPIE;
            assert((b | 32) & 32 != 0 && ((b | 32) & 2 != 0) == (b & 2 != 0) && ((b | 32) & 256
                != 0) == (b & 256 != 0) && ((b | 32) >> 13usize) & 3 == (b >> 13usize) & 3)
                by (bit_vector);
        } else {
            self.bits = b & !SSTATUS_SPIE;
            assert((b & !32usize) & 32 == 0 && ((b & !32usize) & 2 != 0) == (b & 2 != 0) && ((b
                & !32usize) & 256 != 0) == (b & 256 != 0) && ((b & !32usize) >> 13usize) & 3 == (b
                >> 13usize) & 3) by (bit_vector);
        }
    }

    /// Records the privilege level that `sret` returns to.
    pub fn set_spp(&mut self, spp: Spp)
        ensures
            final(self).bits == match spp {
                Spp::Supervisor => old(self).bits | SSTATUS_SPP,
                Spp::User => old(self).bits & !SSTATUS_SPP,
            },
            final(self).spec_spp() == spp,
            final(self).spec_sie() == old(self).spec_sie(),
            final(self).spec_spie() == old(self).spec_spie(),
            final(self).spec_fs() == old(self).spec_fs(),
    {
        let b = self.bits;
        match spp {
            Spp::Supervisor => {
                self.bits = b | SSTATUS_SPP;
                assert((b | 256) & 256 != 0 && ((b | 256) & 2 != 0) == (b & 2 != 0) && ((b | 256)
                    & 32 != 0) == (b & 32 != 0) && ((b | 256) >> 13usize) & 3 == (b >> 13usize)
                    & 3) by (bit_vector);
            },
            Spp::User => {
                self.bits = b & !SSTATUS_SPP;
                assert((b & !256usize) & 256 == 0 && ((b & !256usize) & 2 != 0) == (b & 2 != 0)
                    && ((b & !256usize) & 32 != 0) == (b & 32 != 0) && ((b & !256usize) >> 13usize)
                    & 3 == (b >> 13usize) & 3) by (bit_vector);
            },
        }
    }
}
/// Lazy save/restore flags of a floating-point sub-context.
#[derive(Clone, Copy, Debug, PartialEq, Eq)]
pub struct FloatStatus {
    pub bits: u32,
}

/// Floating-point registers must be copied to memory at the next save.
pub const NEED_SAVE: u32 = 1;

/// Floating-point registers must be reloaded from memory at the next restore.
pub const NEED_RESTORE: u32 = 2;

/// Floating-point state was dirty before a signal was delivered.
pub const SIGNAL_DIRTY: u32 = 4;

impl FloatStatus {
    pub open spec fn has(self, flag: u32) -> bool {
        self.bits & flag == flag
    }

    pub fn empty() -> (r: FloatStatus)
        ensures
            r.bits == 0,
    {
        FloatStatus { bits: 0 }
    }

    pub fn contains(&self, flag: u32) -> (r: bool)
        ensures
            r == self.has(flag),
    {
        self.bits & flag == flag
    }

    pub fn insert(&mut self, flag: u32)
        ensures
            final(self).bits == old(self).bits | flag,
    {
        self.bits = self.bits | flag;
    }

    pub fn remove(&mut self, flag: u32)
        ensures
            final(self).bits == old(self).bits & !flag,
    {
        self.bits = self.bits & !flag;
    }
}

/// The hart's floating-point register file: 32 registers as raw 64-bit
/// patterns, and the control/status word.
#[derive(Clone, Copy, Debug, PartialEq, Eq)]
pub struct FloatRegFile {
    pub regs: [u64; 32],
    pub fcsr: u32,
}

/// Saved floating-point state of a user task.
#[derive(Clone, Copy, Debug)]
pub struct UserFloatContext {
    pub user_fx: [u64; 32],
    pub fcsr: u32,
    pub status: FloatStatus,
}

/// `s` with the bits of `flag` cleared.
pub open spec fn without(s: FloatStatus, flag: u32) -> FloatStatus {
    FloatStatus { bits: s.bits & !flag }
}

/// `s` with the bits of `flag` set.
pub open spec fn with(s: FloatStatus, flag: u32) -> FloatStatus {
    FloatStatus { bits: s.bits | flag }
}

impl UserFloatContext {
    /// The context after `save` against the register file `hw`.
    pub open spec fn saved(self, hw: FloatRegFile) -> UserFloatContext {
        if self.status.has(NEED_SAVE) {
            UserFloatContext { user_fx: hw.regs, fcsr: hw.fcsr, status: without(self.status, NEED_SAVE) }
        } else {
            self
        }
    }

    /// The context and register file after `restore` into `hw`.
    pub open spec fn restored(self, hw: FloatRegFile) -> (UserFloatContext, FloatRegFile) {
        if self.status.has(NEED_RESTORE) {
            (
                UserFloatContext { status: without(self.status, NEED_RESTORE), ..self },
                FloatRegFile { regs: self.user_fx, fcsr: self.fcsr },
            )
        } else {
            (self, hw)
        }
    }

    /// All registers zero, control/status clean, no flag set.
    pub fn new() -> (r: UserFloatContext)
        ensures
            forall|i: int| 0 <= i < 32 ==> r.user_fx[i] == 0,
            r.fcsr == FS_CLEAN,
            r.status.bits == 0,
    {
        UserFloatContext { user_fx: [0u64; 32], fcsr: FS_CLEAN, status: FloatStatus::empty() }
    }

    /// On trap entry: if the unit reports dirty state, schedule a save and
    /// remember that the state was dirty.
    pub fn mark_save_if_needed(&mut self, sstatus: Sstatus)
        ensures
            sstatus.spec_fs() == FS_DIRTY ==> final(self).status == with(
                with(old(self).status, NEED_SAVE),
                SIGNAL_DIRTY,
            ),
            sstatus.spec_fs() != FS_DIRTY ==> final(self).status == old(self).status,
            final(self).user_fx == old(self).user_fx,
            final(self).fcsr == old(self).fcsr,
    {
        if sstatus.fs() == FS_DIRTY {
            self.status.insert(NEED_SAVE);
            self.status.insert(SIGNAL_DIRTY);
        }
    }

    /// On cooperative suspension: save, then ask for a restore on resume.
    pub fn yield_task(&mut self, hw: &FloatRegFile)
        ensures
            *final(self) == (UserFloatContext {
                status: with(old(self).saved(*hw).status, NEED_RESTORE),
                ..old(self).saved(*hw)
            }),
    {
        self.save(hw);
        self.status.insert(NEED_RESTORE);
    }

    /// Before signal delivery: capture the registers whatever the flags say,
    /// so that the handler never sees stale state.
    pub fn encounter_signal(&mut self, hw: &FloatRegFile)
        ensures
            final(self).user_fx == hw.regs,
            final(self).fcsr == hw.fcsr,
            final(self).status == without(old(self).status, NEED_SAVE),
    {
        self.status.insert(NEED_SAVE);
        self.save(hw);
        let ghost b = old(self).status.bits;
        assert(((b | 1u32) & 1u32 == 1u32) && ((b | 1u32) & !1u32) == b & !1u32) by (bit_vector);
    }

    /// Registers to memory, only if a save is pending.
    pub fn save(&mut self, hw: &FloatRegFile)
        ensures
            *final(self) == old(self).saved(*hw),
    {
        if !self.status.contains(NEED_SAVE) {
            return;
        }
        self.status.remove(NEED_SAVE);
        self.user_fx = hw.regs;
        self.fcsr = hw.fcsr;
    }

    /// Memory to registers, only if a restore is pending.
    pub fn restore(&mut self, hw: &mut FloatRegFile)
        ensures
            (*final(self), *final(hw)) == old(self).restored(*old(hw)),
    {
        if !self.status.contains(NEED_RESTORE) {
            return;
        }
        self.status.remove(NEED_RESTORE);
        hw.regs = self.user_fx;
        hw.fcsr = self.fcsr;
    }
}

/// Round trip of the lazy scheme: with a save pending, saving the registers
/// and later restoring (once a restore is requested) puts back exactly the
/// saved values; a second save with no new dirty mark changes nothing.
pub proof fn lemma_float_round_trip(c: UserFloatContext, hw: FloatRegFile, later: FloatRegFile)
    requires
        c.status.has(NEED_SAVE),
    ensures
        ({
            let c1 = c.saved(hw);
            let c2 = UserFloatContext { status: with(c1.status, NEED_RESTORE), ..c1 };
            let (c3, hw3) = c2.restored(later);
            &&& hw3 == hw
            &&& !c3.status.has(NEED_RESTORE)
            &&& c1.saved(later) == c1
        }),
{
    let b = c.status.bits;
    assert(((b & !1u32) & 1u32) != 1u32) by (bit_vector);
    assert((((b & !1u32) | 2u32) & 2u32) == 2u32) by (bit_vector);
    assert(((((b & !1u32) | 2u32) & !2u32) & 2u32) != 2u32) by (bit_vector);
}
/// Saved machine state of a user task, in the fixed slot order that the trap
/// entry and exit code expects.
#[derive(Clone, Copy, Debug)]
pub struct TrapContext {
    pub user_reg: [usize; 32],
    pub sstatus: Sstatus,
    pub sepc: usize,
    pub k_sp: usize,
    pub k_ra: usize,
    pub k_s: [usize; 12],
    pub k_fp: usize,
    pub k_tp: usize,
    pub user_fx: UserFloatContext,
}

impl TrapContext {
    /// Sets the saved stack pointer (register x2).
    pub fn set_sp(&mut self, sp: usize)
        ensures
            final(self).user_reg@ == old(self).user_reg@.update(2, sp),
            *final(self) == (TrapContext { user_reg: final(self).user_reg, ..*old(self) }),
    {
        self.user_reg[2] = sp;
    }

    /// Initial state of a new user task that starts at `entry` with stack
    /// pointer `sp`; `sstatus` is the status register as read when the task
    /// is created.
    pub fn new(entry: usize, sp: usize, sstatus: Sstatus) -> (r: TrapContext)
        ensures
            r.sepc == entry,
            r.user_reg[2] == sp,
            forall|i: int| 0 <= i < 32 && i != 2 ==> r.user_reg[i] == 0,
            r.sstatus.bits == sstatus.bits & !SSTATUS_SPP & !SSTATUS_SIE & !SSTATUS_SPIE,
            r.sstatus.spec_spp() == Spp::User,
            r.sstatus.spec_fs() == sstatus.spec_fs(),
            !r.sstatus.spec_sie(),
            !r.sstatus.spec_spie(),
            r.k_sp == 0 && r.k_ra == 0 && r.k_fp == 0 && r.k_tp == 0,
            forall|i: int| 0 <= i < 12 ==> r.k_s[i] == 0,
            forall|i: int| 0 <= i < 32 ==> r.user_fx.user_fx[i] == 0,
            r.user_fx.fcsr == FS_CLEAN,
            r.user_fx.status.bits == 0,
    {
        let mut sstatus = sstatus;
        sstatus.set_spp(Spp::User);
        sstatus.set_sie(false);
        sstatus.set_spie(false);
        let mut context = TrapContext {
            user_reg: [0usize; 32],
            sstatus,
            sepc: entry,
            k_sp: 0,
            k_ra: 0,
            k_s: [0usize; 12],
            k_fp: 0,
            k_tp: 0,
            user_fx: UserFloatContext::new(),
        };
        context.set_sp(sp);
        context
    }
}

} // verus!

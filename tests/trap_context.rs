use kernel_core::trap::init;
use kernel_core::{
    set_kernel_trap, set_user_trap, FloatRegFile, FloatStatus, Spp, Sstatus, Stvec, TrapContext,
    TrapEntries, TrapMode, UserFloatContext, FS_CLEAN, NEED_RESTORE, NEED_SAVE, SIGNAL_DIRTY,
};

fn regs_from(base: f64) -> FloatRegFile {
    let mut regs = [0u64; 32];
    for (i, r) in regs.iter_mut().enumerate() {
        *r = (base + i as f64 * 0.25).to_bits();
    }
    FloatRegFile { regs, fcsr: 0x61 }
}

#[test]
fn new_context_initial_state() {
    let current = Sstatus::from_bits(0x122 | (3 << 13));
    assert!(current.sie() && current.spie());
    assert_eq!(current.spp(), Spp::Supervisor);
    let c = TrapContext::new(0x8040_0000, 0x8020_0000, current);
    assert_eq!(c.sepc, 0x8040_0000);
    assert_eq!(c.user_reg[2], 0x8020_0000);
    assert_eq!(c.sstatus.spp(), Spp::User);
    assert!(!c.sstatus.sie());
    assert!(!c.sstatus.spie());
    assert_eq!(c.sstatus.fs(), 3);
    for (i, r) in c.user_reg.iter().enumerate() {
        if i != 2 {
            assert_eq!(*r, 0);
        }
    }
    assert_eq!(c.k_s, [0usize; 12]);
    assert_eq!(c.user_fx.fcsr, FS_CLEAN);
    assert_eq!(c.user_fx.status, FloatStatus::empty());
    assert_eq!(c.user_fx.user_fx, [0u64; 32]);
}

#[test]
fn set_sp_writes_register_two() {
    let mut c = TrapContext::new(4, 8, Sstatus::from_bits(0));
    c.set_sp(0x1000);
    assert_eq!(c.user_reg[2], 0x1000);
    assert_eq!(c.sepc, 4);
}

#[test]
fn sstatus_setters_touch_one_bit() {
    let mut s = Sstatus::from_bits(0);
    s.set_sie(true);
    assert_eq!(s.bits, 0x2);
    s.set_spie(true);
    assert_eq!(s.bits, 0x22);
    s.set_spp(Spp::Supervisor);
    assert_eq!(s.bits, 0x122);
    s.set_sie(false);
    assert_eq!(s.bits, 0x120);
    s.set_spp(Spp::User);
    s.set_spie(false);
    assert_eq!(s.bits, 0);
}

#[test]
fn float_context_starts_clean() {
    let f = UserFloatContext::new();
    assert_eq!(f.fcsr, 2);
    assert_eq!(f.status.bits, 0);
    assert_eq!(f.user_fx, [0u64; 32]);
}

#[test]
fn mark_save_only_when_dirty() {
    let mut f = UserFloatContext::new();
    f.mark_save_if_needed(Sstatus::from_bits(2 << 13));
    assert_eq!(f.status.bits, 0);
    f.mark_save_if_needed(Sstatus::from_bits(3 << 13));
    assert!(f.status.contains(NEED_SAVE));
    assert!(f.status.contains(SIGNAL_DIRTY));
    assert!(!f.status.contains(NEED_RESTORE));
}

#[test]
fn save_without_flag_is_a_no_op() {
    let mut f = UserFloatContext::new();
    let hw = regs_from(1.0);
    f.save(&hw);
    assert_eq!(f.user_fx, [0u64; 32]);
    assert_eq!(f.fcsr, FS_CLEAN);
}

#[test]
fn float_save_restore_round_trip() {
    let mut f = UserFloatContext::new();
    let hw = regs_from(-3.5);
    f.mark_save_if_needed(Sstatus::from_bits(3 << 13));
    f.save(&hw);
    assert!(!f.status.contains(NEED_SAVE));
    assert_eq!(f.user_fx, hw.regs);
    // a second save with no new dirty mark keeps the first copy
    let other = regs_from(100.0);
    f.save(&other);
    assert_eq!(f.user_fx, hw.regs);
    // restore does nothing until a restore is requested
    let mut live = regs_from(7.0);
    f.restore(&mut live);
    assert_eq!(live, regs_from(7.0));
    f.status.insert(NEED_RESTORE);
    f.restore(&mut live);
    assert_eq!(live, hw);
    assert!(!f.status.contains(NEED_RESTORE));
    for (i, r) in live.regs.iter().enumerate() {
        assert_eq!(f64::from_bits(*r), -3.5 + i as f64 * 0.25);
    }
}

#[test]
fn yield_task_saves_and_requests_restore() {
    let mut f = UserFloatContext::new();
    let hw = regs_from(2.0);
    f.mark_save_if_needed(Sstatus::from_bits(3 << 13));
    f.yield_task(&hw);
    assert_eq!(f.user_fx, hw.regs);
    assert_eq!(f.fcsr, hw.fcsr);
    assert!(f.status.contains(NEED_RESTORE));
    assert!(!f.status.contains(NEED_SAVE));
}

#[test]
fn encounter_signal_captures_registers() {
    let mut f = UserFloatContext::new();
    let hw = regs_from(9.0);
    f.encounter_signal(&hw);
    assert_eq!(f.user_fx, hw.regs);
    assert_eq!(f.fcsr, 0x61);
    assert!(!f.status.contains(NEED_SAVE));
}

#[test]
fn float_status_flags() {
    let mut s = FloatStatus::empty();
    s.insert(NEED_SAVE);
    s.insert(SIGNAL_DIRTY);
    assert_eq!(s.bits, 5);
    s.remove(NEED_SAVE);
    assert_eq!(s.bits, 4);
    assert!(s.contains(SIGNAL_DIRTY));
    assert!(!s.contains(NEED_SAVE));
}

#[test]
fn trap_vector_selection() {
    let entries = TrapEntries { kernel: 0x8000_1000, user: 0x8000_2000 };
    let mut stvec = Stvec { address: 0, mode: TrapMode::Vectored };
    init(&mut stvec, &entries);
    assert_eq!(stvec, Stvec { address: 0x8000_1000, mode: TrapMode::Direct });
    set_user_trap(&mut stvec, &entries);
    assert_eq!(stvec, Stvec { address: 0x8000_2000, mode: TrapMode::Direct });
    set_kernel_trap(&mut stvec, &entries);
    assert_eq!(stvec.address, 0x8000_1000);
}

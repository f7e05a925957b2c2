use lc3::memory::{Memory, KB_DATA, KB_READY, KB_STATUS};
use lc3::registers::Registers;

#[test]
fn registers_start_zero() {
    let regs = Registers::new();
    for i in 0..8u16 {
        assert_eq!(regs.get(i), 0);
    }
    assert_eq!(regs.pc(), 0);
    assert!(!regs.n() && !regs.z() && !regs.p());
}

#[test]
fn set_positive_sets_p_only() {
    let mut regs = Registers::new();
    regs.set(3, 0x7FFF);
    assert_eq!(regs.get(3), 0x7FFF);
    assert!(!regs.n() && !regs.z() && regs.p());
}

#[test]
fn set_zero_sets_z_only() {
    let mut regs = Registers::new();
    regs.set(0, 5);
    regs.set(0, 0);
    assert_eq!(regs.get(0), 0);
    assert!(!regs.n() && regs.z() && !regs.p());
}

#[test]
fn set_negative_sets_n_only() {
    let mut regs = Registers::new();
    regs.set(7, 0x8000);
    assert_eq!(regs.get(7), 0x8000);
    assert!(regs.n() && !regs.z() && !regs.p());
    regs.set(6, 0xFFFF);
    assert!(regs.n() && !regs.z() && !regs.p());
}

#[test]
fn set_keeps_program_counter_and_other_registers() {
    let mut regs = Registers::new();
    regs.set_pc(0x3000);
    regs.set(1, 9);
    regs.set(2, 4);
    assert_eq!(regs.pc(), 0x3000);
    assert_eq!(regs.get(1), 9);
    assert_eq!(regs.get(2), 4);
}

#[test]
fn exactly_one_flag_for_sampled_values() {
    let mut regs = Registers::new();
    for v in [0u16, 1, 0x7FFF, 0x8000, 0x8001, 0xFFFF, 0x1234] {
        regs.set(4, v);
        let count = [regs.n(), regs.z(), regs.p()].iter().filter(|b| **b).count();
        assert_eq!(count, 1);
        assert_eq!(regs.n(), (v as i16) < 0);
        assert_eq!(regs.z(), v == 0);
        assert_eq!(regs.p(), (v as i16) > 0);
    }
}

#[test]
fn load_elsewhere_clears_status() {
    let mut mem = Memory::new();
    mem.store(KB_STATUS, 0x8000);
    mem.store(0x3000, 42);
    assert_eq!(mem.load(0x3000, 0), 42);
    assert_eq!(mem.peek(KB_STATUS), 0);
}

#[test]
fn load_status_polls_keyboard() {
    let mut mem = Memory::new();
    assert_eq!(mem.load(KB_STATUS, 'a' as u16), KB_READY);
    assert_eq!(mem.peek(KB_STATUS), 0x8000);
    assert_eq!(mem.peek(KB_DATA), 'a' as u16);
    // the data register is an ordinary read, which clears the status
    assert_eq!(mem.load(KB_DATA, 0), 'a' as u16);
    assert_eq!(mem.peek(KB_STATUS), 0);
}

#[test]
fn store_writes_directly() {
    let mut mem = Memory::new();
    mem.store(KB_STATUS, 7);
    assert_eq!(mem.peek(KB_STATUS), 7);
    mem.store(0xFFFF, 1);
    assert_eq!(mem.peek(0xFFFF), 1);
}

#[test]
fn copy_wraps_past_top() {
    let mut mem = Memory::new();
    mem.copy(0xFFFE, &[1, 2, 3, 4]);
    assert_eq!(mem.peek(0xFFFE), 1);
    assert_eq!(mem.peek(0xFFFF), 2);
    assert_eq!(mem.peek(0x0000), 3);
    assert_eq!(mem.peek(0x0001), 4);
    assert_eq!(mem.peek(0x0002), 0);
}

use lc3::image::{load_executable, ImageError};
use lc3::machine::{Action, Fault, Machine, Mode};
use lc3::memory::{KB_DATA, KB_STATUS};
use lc3::ops::{decode, Op};

fn machine_with(base: u16, code: &[u16]) -> Machine {
    Machine::new(base, code)
}

#[test]
fn halt_trap_stops_the_machine() {
    let mut m = machine_with(0x3000, &[0xF025, 0x1283]);
    assert_eq!(m.mode, Mode::Running);
    assert_eq!(m.step(None), Ok(Action::Halt));
    assert_eq!(m.mode, Mode::Halted);
    assert_eq!(m.regs.pc(), 0x3001);
    // no further fetch happens
    assert_eq!(m.step(None), Ok(Action::Halt));
    assert_eq!(m.regs.pc(), 0x3001);
    assert_eq!(m.mode, Mode::Halted);
}

#[test]
fn add_register_sets_sum_and_positive_flag() {
    let mut m = machine_with(0x3000, &[0x1283]);
    m.regs.set(2, 5);
    m.regs.set(3, 7);
    assert_eq!(m.step(None), Ok(Action::Continue));
    assert_eq!(m.regs.get(1), 12);
    assert!(!m.regs.n() && !m.regs.z() && m.regs.p());
}

#[test]
fn add_immediate_wraps_below_zero() {
    let op = decode(0x12BF).unwrap();
    assert_eq!(op, Op::AddImm { dst: 1, src: 2, imm: -1 });
    let mut m = machine_with(0x3000, &[]);
    m.regs.set(2, 0);
    assert_eq!(m.execute(op, 0), Ok(Action::Continue));
    assert_eq!(m.regs.get(1), 0xFFFF);
    assert!(m.regs.n() && !m.regs.z() && !m.regs.p());
}

#[test]
fn halt_only_image_runs_one_cycle() {
    let program = load_executable(&[0x30, 0x00, 0xF0, 0x25]).unwrap();
    assert_eq!(program.base, 0x3000);
    assert_eq!(program.code, vec![0xF025]);
    let mut m = Machine::new(program.base, &program.code);
    let mut cycles = 0;
    loop {
        let action = m.step(None).unwrap();
        cycles += 1;
        if action == Action::Halt {
            break;
        }
    }
    assert_eq!(cycles, 1);
    assert_eq!(m.regs.pc(), 0x3001);
}

#[test]
fn load_is_relative_to_next_instruction() {
    // LD R0, #2 at 0x3000 reads 0x3003
    let mut m = machine_with(0x3000, &[0x2002, 0x0000, 0x1111, 0x2222]);
    assert_eq!(m.step(None), Ok(Action::Continue));
    assert_eq!(m.regs.get(0), 0x2222);
    // LD R1, #-1 at 0x0000 wraps to 0x0000 + 1 - 1
    let mut w = machine_with(0x0000, &[0x23FF]);
    assert_eq!(w.step(None), Ok(Action::Continue));
    assert_eq!(w.regs.get(1), 0x23FF);
}

#[test]
fn load_effective_address_and_store() {
    // LEA R0, #-1 ; ST R0, #1 ; (skipped) ; target
    let mut m = machine_with(0x3000, &[0xE1FF, 0x3001, 0x0000, 0x0000]);
    m.step(None).unwrap();
    assert_eq!(m.regs.get(0), 0x3000);
    m.step(None).unwrap();
    assert_eq!(m.mem.peek(0x3003), 0x3000);
}

#[test]
fn indirect_and_register_addressing() {
    // LDI R2, #1 ; STI R2, #1 ; pointer 0x4000 ; pointer 0x4001
    let mut m = machine_with(0x3000, &[0xA401, 0xB401, 0x4000, 0x4001]);
    m.mem.store(0x4000, 77);
    m.step(None).unwrap();
    assert_eq!(m.regs.get(2), 77);
    m.step(None).unwrap();
    assert_eq!(m.mem.peek(0x4001), 77);
    // LDR R3, R2, #-1 ; STR R3, R2, #2
    let mut r = machine_with(0x3000, &[0x66BF, 0x7682]);
    r.regs.set(2, 0x4001);
    r.mem.store(0x4000, 5);
    r.step(None).unwrap();
    assert_eq!(r.regs.get(3), 5);
    r.step(None).unwrap();
    assert_eq!(r.mem.peek(0x4003), 5);
}

#[test]
fn and_and_not() {
    let mut m = machine_with(0x3000, &[0x5283, 0x5660, 0x987F]);
    m.regs.set(2, 0b1100);
    m.regs.set(3, 0b1010);
    m.step(None).unwrap();
    assert_eq!(m.regs.get(1), 0b1000);
    m.step(None).unwrap();
    assert_eq!(m.regs.get(3), 0);
    assert!(m.regs.z());
    m.step(None).unwrap();
    assert_eq!(m.regs.get(4), 0xFFF7);
    assert!(m.regs.n());
}

#[test]
fn branch_taken_only_on_matching_flag() {
    // BRz #2 with Z set jumps; BRp #2 with Z set falls through
    let mut m = machine_with(0x3000, &[0x0402]);
    m.regs.set(0, 0);
    m.step(None).unwrap();
    assert_eq!(m.regs.pc(), 0x3003);
    let mut f = machine_with(0x3000, &[0x0202]);
    f.regs.set(0, 0);
    f.step(None).unwrap();
    assert_eq!(f.regs.pc(), 0x3001);
}

#[test]
fn call_saves_return_address() {
    let mut m = machine_with(0x3000, &[0x4805]);
    m.step(None).unwrap();
    assert_eq!(m.regs.get(7), 0x3001);
    assert_eq!(m.regs.pc(), 0x3006);
    let mut r = machine_with(0x3000, &[0x4080, 0xC0C0]);
    r.regs.set(2, 0x3001);
    r.step(None).unwrap();
    assert_eq!(r.regs.pc(), 0x3001);
    assert_eq!(r.regs.get(7), 0);
    r.regs.set(3, 0x5000);
    r.step(None).unwrap();
    assert_eq!(r.regs.pc(), 0x5000);
}

#[test]
fn getc_waits_for_a_character() {
    let mut m = machine_with(0x3000, &[0xF020]);
    assert!(m.needs_input());
    assert_eq!(m.step(None), Ok(Action::NeedInput));
    assert_eq!(m.regs.pc(), 0x3000);
    assert_eq!(m.step(Some('x' as u16)), Ok(Action::Continue));
    assert_eq!(m.regs.get(0), 'x' as u16);
    assert_eq!(m.regs.pc(), 0x3001);
}

#[test]
fn putc_outputs_low_byte() {
    let mut m = machine_with(0x3000, &[0xF021]);
    m.regs.set(0, 0x1241);
    assert!(!m.needs_input());
    assert_eq!(m.step(None), Ok(Action::Output(b'A')));
}

#[test]
fn puts_prints_until_zero_word() {
    let mut m = machine_with(0x3000, &[0xF022, 0xF025, 0x0068, 0x0169, 0x0000]);
    m.regs.set(0, 0x3002);
    assert_eq!(m.step(None), Ok(Action::Continue));
    assert_eq!(m.mode, Mode::Printing { next: 0x3002 });
    assert_eq!(m.step(None), Ok(Action::Output(b'h')));
    assert_eq!(m.step(None), Ok(Action::Output(b'i')));
    assert_eq!(m.step(None), Ok(Action::Continue));
    assert_eq!(m.mode, Mode::Running);
    assert_eq!(m.step(None), Ok(Action::Halt));
}

#[test]
fn keyboard_poll_through_indirect_load() {
    // LDI R0, #0 reads the pointer at 0x3001, which is the status address
    let mut m = machine_with(0x3000, &[0xA000, KB_STATUS]);
    assert!(m.needs_input());
    assert_eq!(m.step(None), Ok(Action::NeedInput));
    assert_eq!(m.step(Some('q' as u16)), Ok(Action::Continue));
    assert_eq!(m.regs.get(0), 0x8000);
    assert_eq!(m.mem.peek(KB_DATA), 'q' as u16);
}

#[test]
fn unknown_trap_is_fatal() {
    let mut m = machine_with(0x3000, &[0xF0FF]);
    assert_eq!(m.step(None), Err(Fault::UnknownTrap(0xFF)));
}

#[test]
fn reserved_opcode_is_fatal() {
    let mut m = machine_with(0x3000, &[0xD123]);
    assert_eq!(m.step(None), Err(Fault::Decode(0xD123)));
    assert_eq!(m.regs.pc(), 0x3001);
}

#[test]
fn image_with_odd_length_is_refused() {
    assert_eq!(load_executable(&[0x30, 0x00, 0xF0]).unwrap_err(), ImageError::OddLength);
    assert_eq!(load_executable(&[0x30]).unwrap_err(), ImageError::OddLength);
}

#[test]
fn empty_image_is_refused() {
    assert_eq!(load_executable(&[]).unwrap_err(), ImageError::Empty);
}

#[test]
fn image_words_are_big_endian() {
    let program = load_executable(&[0x12, 0x34, 0xAB, 0xCD, 0x00, 0x01]).unwrap();
    assert_eq!(program.base, 0x1234);
    assert_eq!(program.code, vec![0xABCD, 0x0001]);
    let only_base = load_executable(&[0xFF, 0xFF]).unwrap();
    assert_eq!(only_base.base, 0xFFFF);
    assert!(only_base.code.is_empty());
}

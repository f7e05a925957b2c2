use vstd::arithmetic::div_mod::{lemma_add_mod_noop, lemma_small_mod};
use vstd::prelude::*;

use crate::memory::{copied, polled, wrap, Memory, KB_STATUS, MEMORY_WORDS};
use crate::ops::{decode, decode_spec, lemma_decoded_registers_in_range, Op};
use crate::registers::{Registers, RegistersView, NUM_REGS};

verus! {

/// Trap vector that reads one character into register 0.
pub const TRAP_GETC: u8 = 0x20;

/// Trap vector that writes the low byte of register 0.
pub const TRAP_PUTC: u8 = 0x21;

/// Trap vector that writes the string of words starting at the address in
/// register 0, up to a zero word.
pub const TRAP_PUTS: u8 = 0x22;

/// Trap vector that halts the machine.
pub const TRAP_HALT: u8 = 0x25;

/// Where the machine stands between steps.
#[derive(Debug, Clone, Copy, PartialEq, Eq, Structural)]
pub enum Mode {
    /// Fetching and executing instructions.
    Running,
    /// Inside the string-output trap: the next step prints the word at
    /// `next`, or returns to `Running` if that word is zero.
    Printing { next: u16 },
    /// Stopped by the halt trap.
    Halted,
}

/// What a step asks of the world outside the machine.
#[derive(Debug, Clone, Copy, PartialEq, Eq, Structural)]
pub enum Action {
    /// The step needs a character and none was given; nothing changed.
    NeedInput,
    /// Nothing to do outside.
    Continue,
    /// Write this character.
    Output(u8),
    /// The machine has halted.
    Halt,
}

/// A condition that ends a run.
#[derive(Debug, Clone, Copy, PartialEq, Eq, Structural)]
pub enum Fault {
    /// The fetched word has a reserved opcode.
    Decode(u16),
    /// A trap with a vector that has no service.
    UnknownTrap(u8),
}

/// Mathematical model of a machine.
pub ghost struct MachineView {
    pub regs: RegistersView,
    pub mem: Seq<u16>,
    pub mode: Mode,
}

impl MachineView {
    /// Eight registers and one word per address, as every machine has.
    pub open spec fn valid(self) -> bool {
        &&& self.regs.r.len() == NUM_REGS
        &&& self.mem.len() == MEMORY_WORDS
    }
}

/// The result of executing `op` on `m`, whose program counter already
/// points past the instruction. `key` is the character delivered if the
/// instruction reads the keyboard.
pub open spec fn exec_spec(m: MachineView, op: Op, key: u16) -> (MachineView, Result<Action, Fault>) {
    let regs = m.regs;
    let r = regs.r;
    let pc = regs.pc;
    let cont = Ok(Action::Continue);
    match op {
        Op::Nop => (m, cont),
        Op::Not { dst, src } => (MachineView { regs: regs.with_reg(dst, !r[src as int]), ..m }, cont),
        Op::AddReg { dst, src1, src2 } => (
            MachineView { regs: regs.with_reg(dst, wrap(r[src1 as int] + r[src2 as int])), ..m },
            cont,
        ),
        Op::AddImm { dst, src, imm } => (
            MachineView { regs: regs.with_reg(dst, wrap(r[src as int] + imm)), ..m },
            cont,
        ),
        Op::AndReg { dst, src1, src2 } => (
            MachineView { regs: regs.with_reg(dst, r[src1 as int] & r[src2 as int]), ..m },
            cont,
        ),
        Op::AndImm { dst, src, imm } => (
            MachineView { regs: regs.with_reg(dst, r[src as int] & (imm as u16)), ..m },
            cont,
        ),
        Op::Load { dst, offset } => {
            let a = wrap(pc + offset);
            let mem = polled(m.mem, a, key);
            (MachineView { regs: regs.with_reg(dst, mem[a as int]), mem, ..m }, cont)
        },
        Op::LoadInd { dst, offset } => {
            let a = wrap(pc + offset);
            let mem1 = polled(m.mem, a, key);
            let b = mem1[a as int];
            let mem = polled(mem1, b, key);
            (MachineView { regs: regs.with_reg(dst, mem[b as int]), mem, ..m }, cont)
        },
        Op::LoadReg { dst, base, offset } => {
            let a = wrap(r[base as int] + offset);
            let mem = polled(m.mem, a, key);
            (MachineView { regs: regs.with_reg(dst, mem[a as int]), mem, ..m }, cont)
        },
        Op::LoadEffAddr { dst, offset } => (
            MachineView { regs: regs.with_reg(dst, wrap(pc + offset)), ..m },
            cont,
        ),
        Op::Store { src, offset } => (
            MachineView { mem: m.mem.update(wrap(pc + offset) as int, r[src as int]), ..m },
            cont,
        ),
        Op::StoreInd { src, offset } => {
            let a = wrap(pc + offset);
            let mem1 = polled(m.mem, a, key);
            (MachineView { mem: mem1.update(mem1[a as int] as int, r[src as int]), ..m }, cont)
        },
        Op::StoreReg { src, base, offset } => (
            MachineView {
                mem: m.mem.update(wrap(r[base as int] + offset) as int, r[src as int]),
                ..m
            },
            cont,
        ),
        Op::Call { offset } => (
            MachineView { regs: regs.with_reg(7, pc).with_pc(wrap(pc + offset)), ..m },
            cont,
        ),
        Op::CallReg { src } => (MachineView { regs: regs.with_pc(r[src as int]), ..m }, cont),
        Op::Branch { n, z, p, offset } => if (n && regs.n) || (z && regs.z) || (p && regs.p) {
            (MachineView { regs: regs.with_pc(wrap(pc + offset)), ..m }, cont)
        } else {
            (m, cont)
        },
        Op::Jump { base } => (MachineView { regs: regs.with_pc(r[base as int]), ..m }, cont),
        Op::Trap { vector } => if vector == TRAP_GETC {
            (MachineView { regs: regs.with_reg(0, key), ..m }, cont)
        } else if vector == TRAP_PUTC {
            (m, Ok(Action::Output(r[0] as u8)))
        } else if vector == TRAP_PUTS {
            (MachineView { mode: Mode::Printing { next: r[0] }, ..m }, cont)
        } else if vector == TRAP_HALT {
            (MachineView { mode: Mode::Halted, ..m }, Ok(Action::Halt))
        } else {
            (m, Err(Fault::UnknownTrap(vector)))
        },
    }
}

/// One step of `m`, with `key` the character delivered if the step reads
/// the keyboard. A running machine fetches the word at the program counter
/// (a memory read like any other), advances the program counter, decodes
/// the word and executes it.
pub open spec fn step_spec(m: MachineView, key: u16) -> (MachineView, Result<Action, Fault>) {
    match m.mode {
        Mode::Halted => (m, Ok(Action::Halt)),
        Mode::Printing { next } => {
            let mem = polled(m.mem, next, key);
            let c = mem[next as int];
            if c == 0 {
                (MachineView { mem, mode: Mode::Running, ..m }, Ok(Action::Continue))
            } else {
                (
                    MachineView { mem, mode: Mode::Printing { next: wrap(next + 1) }, ..m },
                    Ok(Action::Output((c & 0xff) as u8)),
                )
            }
        },
        Mode::Running => {
            let pc = m.regs.pc;
            let mem = polled(m.mem, pc, key);
            let w = mem[pc as int];
            let fetched = MachineView { regs: m.regs.with_pc(wrap(pc + 1)), mem, ..m };
            match decode_spec(w) {
                None => (fetched, Err(Fault::Decode(w))),
                Some(op) => exec_spec(fetched, op, key),
            }
        },
    }
}

/// Whether executing `op`, with `regs` already past the instruction, reads
/// the keyboard status register from `mem`.
pub open spec fn op_polls(regs: RegistersView, mem: Seq<u16>, op: Op) -> bool {
    match op {
        Op::Load { offset, .. } => wrap(regs.pc + offset) == KB_STATUS,
        Op::LoadReg { base, offset, .. } => wrap(regs.r[base as int] + offset) == KB_STATUS,
        Op::LoadInd { offset, .. } => {
            let a = wrap(regs.pc + offset);
            a == KB_STATUS || mem[a as int] == KB_STATUS
        },
        Op::StoreInd { offset, .. } => wrap(regs.pc + offset) == KB_STATUS,
        Op::Trap { vector } => vector == TRAP_GETC,
        _ => false,
    }
}

/// Whether the next step of `m` reads a character: it reads the keyboard
/// status register, or it is the character-input trap.
pub open spec fn awaits_key(m: MachineView) -> bool {
    match m.mode {
        Mode::Halted => false,
        Mode::Printing { next } => next == KB_STATUS,
        Mode::Running => {
            let pc = m.regs.pc;
            pc == KB_STATUS || match decode_spec(m.mem[pc as int]) {
                Some(op) => op_polls(m.regs.with_pc(wrap(pc + 1)), m.mem, op),
                None => false,
            }
        },
    }
}

/// The character a step is given: `key`'s, or zero when there is none.
pub open spec fn key_value(key: Option<u16>) -> u16 {
    match key {
        Some(k) => k,
        None => 0,
    }
}

/// PC-relative addresses count from the instruction after the one fetched:
/// a `Load` at address `a` with offset `k` reads the word at `a + 1 + k`,
/// modulo the size of the address space. (The fetch itself reads `a`, so
/// `a` is not the keyboard status register, whose reads return the ready
/// flag rather than an instruction.)
pub proof fn lemma_load_is_pc_relative(m: MachineView, key: u16, dst: u16, k: i16)
    requires
        m.valid(),
        m.mode == Mode::Running,
        m.regs.pc != KB_STATUS,
        decode_spec(m.mem[m.regs.pc as int]) == Some(Op::Load { dst, offset: k }),
    ensures
        ({
            let a = m.regs.pc;
            let target = wrap(a + 1 + k);
            let (after, r) = step_spec(m, key);
            &&& r == Ok::<Action, Fault>(Action::Continue)
            &&& after.regs.pc == wrap(a + 1)
            &&& after.mem == polled(polled(m.mem, a, key), target, key)
            &&& after.regs.r[dst as int] == after.mem[target as int]
        }),
{
    let a = m.regs.pc;
    lemma_wrap_twice(a + 1, k as int);
    lemma_decoded_registers_in_range(m.mem[a as int]);
    let fetched_mem = polled(m.mem, a, key);
    assert(fetched_mem[a as int] == m.mem[a as int]);
}

/// Wrapping a sum once or at each addition gives the same address.
proof fn lemma_wrap_twice(x: int, k: int)
    ensures
        wrap(wrap(x) + k) == wrap(x + k),
{
    lemma_add_mod_noop(x, k, 0x10000);
    lemma_small_mod((x % 0x10000) as nat, 0x10000);
    lemma_small_mod((k % 0x10000) as nat, 0x10000);
}

/// Halting is final: a halted machine's step fetches nothing, changes
/// nothing and reports the halt again.
pub proof fn lemma_halted_stays_halted(m: MachineView, key: u16)
    requires
        m.mode == Mode::Halted,
    ensures
        step_spec(m, key) == (m, Ok::<Action, Fault>(Action::Halt)),
        !awaits_key(m),
{
}

/// A step that reads no character does the same whatever character it is
/// given.
pub proof fn lemma_key_unused(m: MachineView, k1: u16, k2: u16)
    requires
        m.valid(),
        !awaits_key(m),
    ensures
        step_spec(m, k1) == step_spec(m, k2),
{
    if m.mode == Mode::Running {
        let pc = m.regs.pc;
        let mem = polled(m.mem, pc, k1);
        assert(mem == polled(m.mem, pc, k2));
        let fetched = MachineView { regs: m.regs.with_pc(wrap(pc + 1)), mem, ..m };
        if let Some(op) = decode_spec(mem[pc as int]) {
            assert(!op_polls(fetched.regs, m.mem, op));
            match op {
                Op::LoadInd { offset, .. } => {
                    let a = wrap(fetched.regs.pc + offset);
                    assert(polled(mem, a, k1)[a as int] == m.mem[a as int]);
                },
                _ => {},
            }
        }
    }
}

/// A register file and a memory, run one step at a time.
pub struct Machine {
    pub regs: Registers,
    pub mem: Memory,
    pub mode: Mode,
}

impl View for Machine {
    type V = MachineView;

    open spec fn view(&self) -> MachineView {
        MachineView { regs: self.regs@, mem: self.mem@, mode: self.mode }
    }
}

/// `base + offset`, wrapped to the address space.
fn offset_from(base: u16, offset: i16) -> (a: u16)
    ensures
        a == wrap(base + offset),
{
    base.wrapping_add_signed(offset)
}

/// `x + y`, wrapped to a word.
fn add_words(x: u16, y: u16) -> (s: u16)
    ensures
        s == wrap(x + y),
{
    x.wrapping_add(y)
}

impl Machine {
    /// The model of every machine is valid.
    pub proof fn lemma_valid(self)
        ensures
            self@.valid(),
    {
        self.regs.lemma_size();
        self.mem.lemma_size();
    }

    /// Executes `op`, the program counter already pointing past it. `key`
    /// is the character delivered if `op` reads the keyboard.
    pub fn execute(&mut self, op: Op, key: u16) -> (r: Result<Action, Fault>)
        requires
            op.regs_in_range(),
        ensures
            (final(self)@, r) == exec_spec(old(self)@, op, key),
    {
        let pc = self.regs.pc();
        match op {
            Op::Nop => {},
            Op::Not { dst, src } => {
                let v = !self.regs.get(src);
                self.regs.set(dst, v);
            },
            Op::AddReg { dst, src1, src2 } => {
                let v = add_words(self.regs.get(src1), self.regs.get(src2));
                self.regs.set(dst, v);
            },
            Op::AddImm { dst, src, imm } => {
                let v = offset_from(self.regs.get(src), imm);
                self.regs.set(dst, v);
            },
            Op::AndReg { dst, src1, src2 } => {
                let v = self.regs.get(src1) & self.regs.get(src2);
                self.regs.set(dst, v);
            },
            Op::AndImm { dst, src, imm } => {
                let v = self.regs.get(src) & (imm as u16);
                self.regs.set(dst, v);
            },
            Op::Load { dst, offset } => {
                let v = self.mem.load(offset_from(pc, offset), key);
                self.regs.set(dst, v);
            },
            Op::LoadInd { dst, offset } => {
                let addr = self.mem.load(offset_from(pc, offset), key);
                let v = self.mem.load(addr, key);
                self.regs.set(dst, v);
            },
            Op::LoadReg { dst, base, offset } => {
                let addr = offset_from(self.regs.get(base), offset);
                let v = self.mem.load(addr, key);
                self.regs.set(dst, v);
            },
            Op::LoadEffAddr { dst, offset } => {
                self.regs.set(dst, offset_from(pc, offset));
            },
            Op::Store { src, offset } => {
                let v = self.regs.get(src);
                self.mem.store(offset_from(pc, offset), v);
            },
            Op::StoreInd { src, offset } => {
                let addr = self.mem.load(offset_from(pc, offset), key);
                let v = self.regs.get(src);
                self.mem.store(addr, v);
            },
            Op::StoreReg { src, base, offset } => {
                let addr = offset_from(self.regs.get(base), offset);
                let v = self.regs.get(src);
                self.mem.store(addr, v);
            },
            Op::Call { offset } => {
                self.regs.set(7, pc);
                self.regs.set_pc(offset_from(pc, offset));
            },
            Op::CallReg { src } => {
                let target = self.regs.get(src);
                self.regs.set_pc(target);
            },
            Op::Branch { n, z, p, offset } => {
                if (n && self.regs.n()) || (z && self.regs.z()) || (p && self.regs.p()) {
                    self.regs.set_pc(offset_from(pc, offset));
                }
            },
            Op::Jump { base } => {
                let target = self.regs.get(base);
                self.regs.set_pc(target);
            },
            Op::Trap { vector } => {
                if vector == TRAP_GETC {
                    self.regs.set(0, key);
                } else if vector == TRAP_PUTC {
                    return Ok(Action::Output(self.regs.get(0) as u8));
                } else if vector == TRAP_PUTS {
                    self.mode = Mode::Printing { next: self.regs.get(0) };
                } else if vector == TRAP_HALT {
                    self.mode = Mode::Halted;
                    return Ok(Action::Halt);
                } else {
                    return Err(Fault::UnknownTrap(vector));
                }
            },
        }
        Ok(Action::Continue)
    }

    /// A running machine with `code` loaded from `base` on (wrapping past
    /// the top of memory), every other word zero, every register zero, no
    /// condition flag set and the program counter at `base`.
    pub fn new(base: u16, code: &[u16]) -> (m: Machine)
        ensures
            m@.regs.r == Seq::new(NUM_REGS as nat, |_i: int| 0u16),
            m@.regs.pc == base,
            !m@.regs.n && !m@.regs.z && !m@.regs.p,
            m@.mem == copied(Seq::new(MEMORY_WORDS as nat, |_a: int| 0u16), base, code@),
            m@.mode == Mode::Running,
    {
        let mut regs = Registers::new();
        let mut mem = Memory::new();
        mem.copy(base, code);
        regs.set_pc(base);
        Machine { regs, mem, mode: Mode::Running }
    }

    /// Whether the next step reads a character (see `awaits_key`). Nothing
    /// is read or changed.
    pub fn needs_input(&self) -> (b: bool)
        ensures
            b == awaits_key(self@),
    {
        match self.mode {
            Mode::Halted => false,
            Mode::Printing { next } => next == KB_STATUS,
            Mode::Running => {
                let pc = self.regs.pc();
                if pc == KB_STATUS {
                    return true;
                }
                let next_pc = add_words(pc, 1);
                match decode(self.mem.peek(pc)) {
                    None => false,
                    Some(op) => match op {
                        Op::Load { offset, .. } => offset_from(next_pc, offset) == KB_STATUS,
                        Op::LoadReg { base, offset, .. } => offset_from(self.regs.get(base), offset)
                            == KB_STATUS,
                        Op::LoadInd { offset, .. } => {
                            let a = offset_from(next_pc, offset);
                            a == KB_STATUS || self.mem.peek(a) == KB_STATUS
                        },
                        Op::StoreInd { offset, .. } => offset_from(next_pc, offset) == KB_STATUS,
                        Op::Trap { vector } => vector == TRAP_GETC,
                        _ => false,
                    },
                }
            },
        }
    }

    /// Runs one step. When the step would read a character and `key` is
    /// `None`, nothing changes and the result asks for input; otherwise the
    /// step runs with `key`'s character (see `step_spec`).
    pub fn step(&mut self, key: Option<u16>) -> (r: Result<Action, Fault>)
        ensures
            awaits_key(old(self)@) && key is None ==> r == Ok::<Action, Fault>(Action::NeedInput)
                && final(self)@ == old(self)@,
            !(awaits_key(old(self)@) && key is None) ==> (final(self)@, r) == step_spec(
                old(self)@,
                key_value(key),
            ),
    {
        if key.is_none() && self.needs_input() {
            return Ok(Action::NeedInput);
        }
        let k = match key {
            Some(k) => k,
            None => 0,
        };
        match self.mode {
            Mode::Halted => Ok(Action::Halt),
            Mode::Printing { next } => {
                let c = self.mem.load(next, k);
                if c == 0 {
                    self.mode = Mode::Running;
                    Ok(Action::Continue)
                } else {
                    self.mode = Mode::Printing { next: add_words(next, 1) };
                    Ok(Action::Output((c & 0xff) as u8))
                }
            },
            Mode::Running => {
                let pc = self.regs.pc();
                let instr = self.mem.load(pc, k);
                self.regs.set_pc(add_words(pc, 1));
                match decode(instr) {
                    None => Err(Fault::Decode(instr)),
                    Some(op) => self.execute(op, k),
                }
            },
        }
    }
}

} // verus!

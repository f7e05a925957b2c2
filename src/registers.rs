use vstd::prelude::*;

verus! {

/// Number of general-purpose registers.
pub const NUM_REGS: u16 = 8;

/// The signed (two's-complement) value of a word.
pub open spec fn signed(v: u16) -> int {
    if v < 0x8000 {
        v as int
    } else {
        v as int - 0x10000
    }
}

/// Mathematical model of a register file.
pub ghost struct RegistersView {
    pub r: Seq<u16>,
    pub pc: u16,
    pub n: bool,
    pub z: bool,
    pub p: bool,
}

impl RegistersView {
    /// Exactly one condition flag is set, and it matches the sign of `v`.
    pub open spec fn flags_match(self, v: u16) -> bool {
        &&& self.n == (signed(v) < 0)
        &&& self.z == (signed(v) == 0)
        &&& self.p == (signed(v) > 0)
    }

    /// The register file after register `i` is written with `v`: the
    /// condition flags follow the sign of `v`, the program counter stays.
    pub open spec fn with_reg(self, i: u16, v: u16) -> RegistersView {
        RegistersView {
            r: self.r.update(i as int, v),
            pc: self.pc,
            n: signed(v) < 0,
            z: signed(v) == 0,
            p: signed(v) > 0,
        }
    }

    /// The register file with the program counter set to `pc`.
    pub open spec fn with_pc(self, pc: u16) -> RegistersView {
        RegistersView { pc, ..self }
    }
}

/// After any register write exactly one condition flag is set: negative,
/// zero or positive, as the value written is read in two's complement.
pub proof fn lemma_one_flag(regs: RegistersView, i: u16, v: u16)
    ensures
        ({
            let after = regs.with_reg(i, v);
            &&& after.flags_match(v)
            &&& (after.n && !after.z && !after.p) || (!after.n && after.z && !after.p) || (!after.n
                && !after.z && after.p)
        }),
{
}

/// Eight general-purpose registers, the program counter and the N/Z/P
/// condition flags.
pub struct Registers {
    r: [u16; 8],
    pc: u16,
    n: bool,
    z: bool,
    p: bool,
}

impl View for Registers {
    type V = RegistersView;

    closed spec fn view(&self) -> RegistersView {
        RegistersView { r: self.r@, pc: self.pc, n: self.n, z: self.z, p: self.p }
    }
}

impl Registers {
    /// A register file holds exactly eight registers.
    pub proof fn lemma_size(self)
        ensures
            self@.r.len() == NUM_REGS,
    {
    }

    /// All registers zero, the program counter zero, no flag set.
    pub fn new() -> (regs: Registers)
        ensures
            regs@.r == Seq::new(NUM_REGS as nat, |_i: int| 0u16),
            regs@.pc == 0,
            !regs@.n && !regs@.z && !regs@.p,
    {
        let regs = Registers { r: [0u16; 8], pc: 0, n: false, z: false, p: false };
        assert(regs.r@ =~= Seq::new(NUM_REGS as nat, |_i: int| 0u16));
        regs
    }

    /// The word held by register `index`.
    pub fn get(&self, index: u16) -> (v: u16)
        requires
            index < NUM_REGS,
        ensures
            v == self@.r[index as int],
    {
        self.r[index as usize]
    }

    /// Writes `value` into register `index` and sets exactly one condition
    /// flag from its sign.
    pub fn set(&mut self, index: u16, value: u16)
        requires
            index < NUM_REGS,
        ensures
            final(self)@ == old(self)@.with_reg(index, value),
            final(self)@.flags_match(value),
    {
        self.r[index as usize] = value;
        if value >= 0x8000 {
            self.n = true;
            self.z = false;
            self.p = false;
        } else if value == 0 {
            self.n = false;
            self.z = true;
            self.p = false;
        } else {
            self.n = false;
            self.z = false;
            self.p = true;
        }
    }

    /// The program counter.
    pub fn pc(&self) -> (pc: u16)
        ensures
            pc == self@.pc,
    {
        self.pc
    }

    /// Sets the program counter; registers and flags stay.
    pub fn set_pc(&mut self, pc: u16)
        ensures
            final(self)@ == old(self)@.with_pc(pc),
    {
        self.pc = pc;
    }

    /// The negative flag.
    pub fn n(&self) -> (b: bool)
        ensures
            b == self@.n,
    {
        self.n
    }

    /// The zero flag.
    pub fn z(&self) -> (b: bool)
        ensures
            b == self@.z,
    {
        self.z
    }

    /// The positive flag.
    pub fn p(&self) -> (b: bool)
        ensures
            b == self@.p,
    {
        self.p
    }
}

} // verus!

use vstd::prelude::*;

verus! {

/// Bits `hi` down to `lo` of `w` (`lo <= hi <= 15`), read as an unsigned
/// magnitude.
pub open spec fn bits(w: u16, hi: u16, lo: u16) -> u16 {
    (w >> lo) & (0xffffu16 >> ((15 - (hi - lo)) as u16))
}

/// Bits `hi` down to `lo` of `w` (`lo <= hi <= 15`), sign-extended from the
/// field's width: when the field's top bit is set, every higher bit is set
/// before the word is read as two's complement.
pub open spec fn sbits(w: u16, hi: u16, lo: u16) -> i16 {
    let u = bits(w, hi, lo);
    if u & (1u16 << ((hi - lo) as u16)) == 0 {
        u as i16
    } else {
        (u | !(0xffffu16 >> ((15 - (hi - lo)) as u16))) as i16
    }
}

/// A decoded instruction. Register operands are indices 0 to 7; offsets and
/// immediates are already sign-extended.
#[derive(Debug, Clone, Copy, PartialEq, Eq, Structural)]
pub enum Op {
    Nop,
    Not { dst: u16, src: u16 },
    AddReg { dst: u16, src1: u16, src2: u16 },
    AddImm { dst: u16, src: u16, imm: i16 },
    AndReg { dst: u16, src1: u16, src2: u16 },
    AndImm { dst: u16, src: u16, imm: i16 },
    Load { dst: u16, offset: i16 },
    LoadInd { dst: u16, offset: i16 },
    LoadReg { dst: u16, base: u16, offset: i16 },
    LoadEffAddr { dst: u16, offset: i16 },
    Store { src: u16, offset: i16 },
    StoreInd { src: u16, offset: i16 },
    StoreReg { src: u16, base: u16, offset: i16 },
    Call { offset: i16 },
    CallReg { src: u16 },
    Branch { n: bool, z: bool, p: bool, offset: i16 },
    Jump { base: u16 },
    Trap { vector: u8 },
}

impl Op {
    /// Every register operand names one of the eight registers.
    pub open spec fn regs_in_range(self) -> bool {
        match self {
            Op::Nop => true,
            Op::Not { dst, src } => dst < 8 && src < 8,
            Op::AddReg { dst, src1, src2 } => dst < 8 && src1 < 8 && src2 < 8,
            Op::AddImm { dst, src, .. } => dst < 8 && src < 8,
            Op::AndReg { dst, src1, src2 } => dst < 8 && src1 < 8 && src2 < 8,
            Op::AndImm { dst, src, .. } => dst < 8 && src < 8,
            Op::Load { dst, .. } => dst < 8,
            Op::LoadInd { dst, .. } => dst < 8,
            Op::LoadReg { dst, base, .. } => dst < 8 && base < 8,
            Op::LoadEffAddr { dst, .. } => dst < 8,
            Op::Store { src, .. } => src < 8,
            Op::StoreInd { src, .. } => src < 8,
            Op::StoreReg { src, base, .. } => src < 8 && base < 8,
            Op::Call { .. } => true,
            Op::CallReg { src } => src < 8,
            Op::Branch { .. } => true,
            Op::Jump { base } => base < 8,
            Op::Trap { .. } => true,
        }
    }
}

/// The instruction encoded by `w`: the top four bits select the opcode and
/// the rest are that opcode's fields. Opcodes `1000` and `1101` are reserved
/// and decode to nothing.
pub open spec fn decode_spec(w: u16) -> Option<Op> {
    let opcode = bits(w, 15, 12);
    let r_hi = bits(w, 11, 9);
    let r_mid = bits(w, 8, 6);
    let r_lo = bits(w, 2, 0);
    let off9 = sbits(w, 8, 0);
    let off6 = sbits(w, 5, 0);
    let imm5 = sbits(w, 4, 0);
    let flag5 = bits(w, 5, 5) != 0;
    if opcode == 0 {
        Some(Op::Branch {
            n: bits(w, 11, 11) != 0,
            z: bits(w, 10, 10) != 0,
            p: bits(w, 9, 9) != 0,
            offset: off9,
        })
    } else if opcode == 1 {
        if flag5 {
            Some(Op::AddImm { dst: r_hi, src: r_mid, imm: imm5 })
        } else {
            Some(Op::AddReg { dst: r_hi, src1: r_mid, src2: r_lo })
        }
    } else if opcode == 2 {
        Some(Op::Load { dst: r_hi, offset: off9 })
    } else if opcode == 3 {
        Some(Op::Store { src: r_hi, offset: off9 })
    } else if opcode == 4 {
        if bits(w, 11, 11) != 0 {
            Some(Op::Call { offset: sbits(w, 10, 0) })
        } else {
            Some(Op::CallReg { src: r_mid })
        }
    } else if opcode == 5 {
        if flag5 {
            Some(Op::AndImm { dst: r_hi, src: r_mid, imm: imm5 })
        } else {
            Some(Op::AndReg { dst: r_hi, src1: r_mid, src2: r_lo })
        }
    } else if opcode == 6 {
        Some(Op::LoadReg { dst: r_hi, base: r_mid, offset: off6 })
    } else if opcode == 7 {
        Some(Op::StoreReg { src: r_hi, base: r_mid, offset: off6 })
    } else if opcode == 9 {
        Some(Op::Not { dst: r_hi, src: r_mid })
    } else if opcode == 10 {
        Some(Op::LoadInd { dst: r_hi, offset: off9 })
    } else if opcode == 11 {
        Some(Op::StoreInd { src: r_hi, offset: off9 })
    } else if opcode == 12 {
        Some(Op::Jump { base: r_mid })
    } else if opcode == 14 {
        Some(Op::LoadEffAddr { dst: r_hi, offset: off9 })
    } else if opcode == 15 {
        Some(Op::Trap { vector: bits(w, 7, 0) as u8 })
    } else {
        None
    }
}

/// Whether bit `bit` of `instr` is set.
pub fn select_bool(instr: u16, bit: i16) -> (r: bool)
    requires
        0 <= bit <= 15,
    ensures
        r == (bits(instr, bit as u16, bit as u16) != 0),
{
    select_u16(instr, bit, bit) != 0
}

/// Bits `start` down to `end` of `instr`, as an unsigned magnitude.
pub fn select_u16(instr: u16, start: i16, end: i16) -> (r: u16)
    requires
        0 <= end <= start <= 15,
    ensures
        r == bits(instr, start as u16, end as u16),
{
    let width = (start - end) as u16;
    let lo = end as u16;
    let keep: u16 = 15 - width;
    let mask: u16 = (0xffffu16 >> keep) << lo;
    let r = (instr & mask) >> lo;
    assert(r == (instr >> lo) & (0xffffu16 >> keep)) by (bit_vector)
        requires
            r == (instr & mask) >> lo,
            mask == (0xffffu16 >> keep) << lo,
            keep + width == 15,
            width + lo <= 15,
    ;
    r
}

/// Bits `start` down to `end` of `instr`, sign-extended from the field's
/// width.
pub fn select_i16(instr: u16, start: i16, end: i16) -> (r: i16)
    requires
        0 <= end <= start <= 15,
    ensures
        r == sbits(instr, start as u16, end as u16),
{
    let width = (start - end) as u16;
    let keep: u16 = 15 - width;
    let result = select_u16(instr, start, end);
    if result & (1u16 << width) == 0 {
        return result as i16;
    }
    // the field is negative: set every bit above it
    (result | !(0xffffu16 >> keep)) as i16
}


/// Register fields are three bits wide, so every register operand of a
/// decoded instruction names one of the eight registers.
pub proof fn lemma_decoded_registers_in_range(w: u16)
    ensures
        decode_spec(w) matches Some(op) ==> op.regs_in_range(),
{
    assert(bits(w, 11, 9) < 8) by (bit_vector);
    assert(bits(w, 8, 6) < 8) by (bit_vector);
    assert(bits(w, 2, 0) < 8) by (bit_vector);
}

/// Opcodes `1000` and `1101` are reserved: a word whose top four bits are
/// either of them never decodes.
pub proof fn lemma_reserved_opcodes(w: u16)
    requires
        (w >> 12u16) == 0b1000 || (w >> 12u16) == 0b1101,
    ensures
        decode_spec(w).is_none(),
{
    assert(bits(w, 15, 12) == w >> 12u16) by (bit_vector);
}

/// Decodes one instruction word; `None` for a reserved opcode.
pub fn decode(instr: u16) -> (r: Option<Op>)
    ensures
        r == decode_spec(instr),
        r matches Some(op) ==> op.regs_in_range(),
{
    proof {
        lemma_decoded_registers_in_range(instr);
    }
    match select_u16(instr, 15, 12) {
        0b0000 => Some(
            Op::Branch {
                n: select_bool(instr, 11),
                z: select_bool(instr, 10),
                p: select_bool(instr, 9),
                offset: select_i16(instr, 8, 0),
            },
        ),
        0b0001 => if select_bool(instr, 5) {
            Some(
                Op::AddImm {
                    dst: select_u16(instr, 11, 9),
                    src: select_u16(instr, 8, 6),
                    imm: select_i16(instr, 4, 0),
                },
            )
        } else {
            Some(
                Op::AddReg {
                    dst: select_u16(instr, 11, 9),
                    src1: select_u16(instr, 8, 6),
                    src2: select_u16(instr, 2, 0),
                },
            )
        },
        0b0010 => Some(Op::Load { dst: select_u16(instr, 11, 9), offset: select_i16(instr, 8, 0) }),
        0b0011 => Some(Op::Store { src: select_u16(instr, 11, 9), offset: select_i16(instr, 8, 0) }),
        0b0100 => if select_bool(instr, 11) {
            Some(Op::Call { offset: select_i16(instr, 10, 0) })
        } else {
            Some(Op::CallReg { src: select_u16(instr, 8, 6) })
        },
        0b0101 => if select_bool(instr, 5) {
            Some(
                Op::AndImm {
                    dst: select_u16(instr, 11, 9),
                    src: select_u16(instr, 8, 6),
                    imm: select_i16(instr, 4, 0),
                },
            )
        } else {
            Some(
                Op::AndReg {
                    dst: select_u16(instr, 11, 9),
                    src1: select_u16(instr, 8, 6),
                    src2: select_u16(instr, 2, 0),
                },
            )
        },
        0b0110 => Some(
            Op::LoadReg {
                dst: select_u16(instr, 11, 9),
                base: select_u16(instr, 8, 6),
                offset: select_i16(instr, 5, 0),
            },
        ),
        0b0111 => Some(
            Op::StoreReg {
                src: select_u16(instr, 11, 9),
                base: select_u16(instr, 8, 6),
                offset: select_i16(instr, 5, 0),
            },
        ),
        0b1001 => Some(Op::Not { dst: select_u16(instr, 11, 9), src: select_u16(instr, 8, 6) }),
        0b1010 => Some(Op::LoadInd { dst: select_u16(instr, 11, 9), offset: select_i16(instr, 8, 0) }),
        0b1011 => Some(
            Op::StoreInd { src: select_u16(instr, 11, 9), offset: select_i16(instr, 8, 0) },
        ),
        0b1100 => Some(Op::Jump { base: select_u16(instr, 8, 6) }),
        0b1110 => Some(
            Op::LoadEffAddr { dst: select_u16(instr, 11, 9), offset: select_i16(instr, 8, 0) },
        ),
        0b1111 => Some(Op::Trap { vector: select_u16(instr, 7, 0) as u8 }),
        _ => None,
    }
}

} // verus!

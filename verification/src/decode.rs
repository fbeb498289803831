//! Decoding of the 16-bit instruction register into an operation.
//!
//! The mapping `op_for` assigns every one of the 65,536 possible IR values
//! either a documented operation or `Op::Illegal`. The dispatch table built
//! by `ops::instruction_set` materialises exactly this mapping.

use vstd::prelude::*;

verus! {

/// Operation width: 8, 16 or 32 bits.
#[derive(Clone, Copy, PartialEq, Eq, Structural, Debug)]
pub enum OpSize {
    Byte,
    Word,
    Long,
}

/// Addressing mode of the effective-address operand encoded in IR bits 5:0.
#[derive(Clone, Copy, PartialEq, Eq, Structural, Debug)]
pub enum EaMode {
    /// Dy register direct.
    DataDirect,
    /// Ay register direct.
    AddrDirect,
    /// (Ay) address register indirect.
    AddrIndirect,
    /// (Ay)+ indirect with post-increment.
    PostInc,
    /// -(Ay) indirect with pre-decrement.
    PreDec,
    /// (d16, Ay) indirect with 16-bit displacement.
    Displacement,
    /// (d8, Ay, Xn) indirect with index register and 8-bit displacement.
    Index,
    /// (xxx).W absolute short address.
    AbsShort,
    /// (xxx).L absolute long address.
    AbsLong,
    /// (d16, PC) program-counter relative with displacement.
    PcDisplacement,
    /// (d8, PC, Xn) program-counter relative with index.
    PcIndex,
    /// #imm inline immediate.
    Immediate,
}

/// One entry of the dispatch table: the operation an IR value selects.
#[derive(Clone, Copy, PartialEq, Eq, Structural, Debug)]
pub enum Op {
    /// Unassigned encoding; executing it signals an illegal instruction.
    Illegal,
    /// Scaffolding handler: load a constant into D0.
    SetD0,
    /// Scaffolding handler: load a constant into D1.
    SetD1,
    /// Scaffolding handler: load a constant into Dx.
    SetDx,
    /// ABCD Dy,Dx.
    AbcdRr,
    /// ABCD -(Ay),-(Ax).
    AbcdMm,
    /// ADD <ea>,Dx.
    AddEr(OpSize, EaMode),
    /// ADD Dx,<ea>.
    AddRe(OpSize, EaMode),
    /// ADDA <ea>,Ax (Word or Long).
    Adda(OpSize, EaMode),
    /// ADDI #imm,<ea>.
    Addi(OpSize, EaMode),
    /// ADDQ #q,<ea> with a data or memory destination.
    Addq(OpSize, EaMode),
    /// ADDQ #q,Ay (Word or Long): full 32-bit write, flags untouched.
    AddqA(OpSize),
    /// ADDX Dy,Dx.
    AddxRr(OpSize),
    /// ADDX -(Ay),-(Ax).
    AddxMm(OpSize),
    /// AND <ea>,Dx.
    AndEr(OpSize, EaMode),
    /// AND Dx,<ea>.
    AndRe(OpSize, EaMode),
    /// ANDI #imm,<ea>.
    Andi(OpSize, EaMode),
    /// ANDI #imm,CCR.
    AndiToCcr,
    /// ASR #q,Dy.
    AsrS(OpSize),
    /// ASR Dx,Dy.
    AsrR(OpSize),
    /// ASL #q,Dy.
    AslS(OpSize),
    /// ASL Dx,Dy.
    AslR(OpSize),
}

/// The addressing mode selected by IR bits 5:3 (mode) and 2:0 (register),
/// or `None` for the unassigned mode-7 encodings.
pub open spec fn ea_mode_spec(ir: u16) -> Option<EaMode> {
    let m = (ir >> 3) & 7;
    let r = ir & 7;
    if m == 0 {
        Some(EaMode::DataDirect)
    } else if m == 1 {
        Some(EaMode::AddrDirect)
    } else if m == 2 {
        Some(EaMode::AddrIndirect)
    } else if m == 3 {
        Some(EaMode::PostInc)
    } else if m == 4 {
        Some(EaMode::PreDec)
    } else if m == 5 {
        Some(EaMode::Displacement)
    } else if m == 6 {
        Some(EaMode::Index)
    } else if r == 0 {
        Some(EaMode::AbsShort)
    } else if r == 1 {
        Some(EaMode::AbsLong)
    } else if r == 2 {
        Some(EaMode::PcDisplacement)
    } else if r == 3 {
        Some(EaMode::PcIndex)
    } else if r == 4 {
        Some(EaMode::Immediate)
    } else {
        None
    }
}

pub fn ea_mode(ir: u16) -> (res: Option<EaMode>)
    ensures
        res == ea_mode_spec(ir),
{
    let m = (ir >> 3) & 7;
    let r = ir & 7;
    if m == 0 {
        Some(EaMode::DataDirect)
    } else if m == 1 {
        Some(EaMode::AddrDirect)
    } else if m == 2 {
        Some(EaMode::AddrIndirect)
    } else if m == 3 {
        Some(EaMode::PostInc)
    } else if m == 4 {
        Some(EaMode::PreDec)
    } else if m == 5 {
        Some(EaMode::Displacement)
    } else if m == 6 {
        Some(EaMode::Index)
    } else if r == 0 {
        Some(EaMode::AbsShort)
    } else if r == 1 {
        Some(EaMode::AbsLong)
    } else if r == 2 {
        Some(EaMode::PcDisplacement)
    } else if r == 3 {
        Some(EaMode::PcIndex)
    } else if r == 4 {
        Some(EaMode::Immediate)
    } else {
        None
    }
}

/// Modes a read-modify-write (memory-alterable) destination may use.
pub open spec fn mem_alterable_spec(m: EaMode) -> bool {
    m == EaMode::AddrIndirect || m == EaMode::PostInc || m == EaMode::PreDec
        || m == EaMode::Displacement || m == EaMode::Index || m == EaMode::AbsShort
        || m == EaMode::AbsLong
}

pub fn mem_alterable(m: EaMode) -> (res: bool)
    ensures
        res == mem_alterable_spec(m),
{
    match m {
        EaMode::AddrIndirect | EaMode::PostInc | EaMode::PreDec | EaMode::Displacement
            | EaMode::Index | EaMode::AbsShort | EaMode::AbsLong => true,
        _ => false,
    }
}

/// Modes a data-alterable destination may use: a data register or memory.
pub open spec fn data_alterable_spec(m: EaMode) -> bool {
    m == EaMode::DataDirect || mem_alterable_spec(m)
}

pub fn data_alterable(m: EaMode) -> (res: bool)
    ensures
        res == data_alterable_spec(m),
{
    m == EaMode::DataDirect || mem_alterable(m)
}

/// Width selected by a 2-bit size field (3 never reaches this map).
pub open spec fn size_from_spec(sz: u16) -> OpSize {
    if sz == 0 {
        OpSize::Byte
    } else if sz == 1 {
        OpSize::Word
    } else {
        OpSize::Long
    }
}

pub fn size_from(sz: u16) -> (res: OpSize)
    ensures
        res == size_from_spec(sz),
{
    if sz == 0 {
        OpSize::Byte
    } else if sz == 1 {
        OpSize::Word
    } else {
        OpSize::Long
    }
}

/// Line 0: the ANDI and ADDI immediate families, and ANDI to CCR.
pub open spec fn op_for_line_0_spec(ir: u16) -> Op {
    let sel = (ir >> 9) & 7;
    let sz = (ir >> 6) & 3;
    if ir == 0x023c {
        Op::AndiToCcr
    } else if sel == 1 && sz != 3 {
        match ea_mode_spec(ir) {
            Some(m) => if data_alterable_spec(m) {
                Op::Andi(size_from_spec(sz), m)
            } else {
                Op::Illegal
            },
            None => Op::Illegal,
        }
    } else if sel == 3 && sz != 3 {
        match ea_mode_spec(ir) {
            Some(m) => if data_alterable_spec(m) {
                Op::Addi(size_from_spec(sz), m)
            } else {
                Op::Illegal
            },
            None => Op::Illegal,
        }
    } else {
        Op::Illegal
    }
}

/// Line 5, bit 8 clear: the ADDQ family.
pub open spec fn op_for_line_5_spec(ir: u16) -> Op {
    let sz = (ir >> 6) & 3;
    if (ir >> 8) & 1 != 0 || sz == 3 {
        Op::Illegal
    } else {
        match ea_mode_spec(ir) {
            Some(m) => if m == EaMode::AddrDirect {
                if sz == 0 {
                    Op::Illegal
                } else {
                    Op::AddqA(size_from_spec(sz))
                }
            } else if data_alterable_spec(m) {
                Op::Addq(size_from_spec(sz), m)
            } else {
                Op::Illegal
            },
            None => Op::Illegal,
        }
    }
}

/// Line C: AND and ABCD.
pub open spec fn op_for_line_c_spec(ir: u16) -> Op {
    let opmode = (ir >> 6) & 7;
    if opmode <= 2 {
        match ea_mode_spec(ir) {
            Some(m) => if m == EaMode::AddrDirect {
                Op::Illegal
            } else {
                Op::AndEr(size_from_spec(opmode), m)
            },
            None => Op::Illegal,
        }
    } else if opmode == 4 || opmode == 5 || opmode == 6 {
        let m3 = (ir >> 3) & 7;
        if m3 == 0 {
            if opmode == 4 {
                Op::AbcdRr
            } else {
                Op::Illegal
            }
        } else if m3 == 1 {
            if opmode == 4 {
                Op::AbcdMm
            } else {
                Op::Illegal
            }
        } else {
            match ea_mode_spec(ir) {
                Some(m) => if mem_alterable_spec(m) {
                    Op::AndRe(size_from_spec((opmode - 4) as u16), m)
                } else {
                    Op::Illegal
                },
                None => Op::Illegal,
            }
        }
    } else {
        Op::Illegal
    }
}

/// Line D: ADD, ADDA and ADDX.
pub open spec fn op_for_line_d_spec(ir: u16) -> Op {
    let opmode = (ir >> 6) & 7;
    if opmode <= 2 {
        match ea_mode_spec(ir) {
            Some(m) => if opmode == 0 && m == EaMode::AddrDirect {
                Op::Illegal
            } else {
                Op::AddEr(size_from_spec(opmode), m)
            },
            None => Op::Illegal,
        }
    } else if opmode == 3 {
        match ea_mode_spec(ir) {
            Some(m) => Op::Adda(OpSize::Word, m),
            None => Op::Illegal,
        }
    } else if opmode == 7 {
        match ea_mode_spec(ir) {
            Some(m) => Op::Adda(OpSize::Long, m),
            None => Op::Illegal,
        }
    } else {
        let m3 = (ir >> 3) & 7;
        if m3 == 0 {
            Op::AddxRr(size_from_spec((opmode - 4) as u16))
        } else if m3 == 1 {
            Op::AddxMm(size_from_spec((opmode - 4) as u16))
        } else {
            match ea_mode_spec(ir) {
                Some(m) => if mem_alterable_spec(m) {
                    Op::AddRe(size_from_spec((opmode - 4) as u16), m)
                } else {
                    Op::Illegal
                },
                None => Op::Illegal,
            }
        }
    }
}

/// Line E: the arithmetic shifts on data registers.
pub open spec fn op_for_line_e_spec(ir: u16) -> Op {
    let sz = (ir >> 6) & 3;
    if sz == 3 || (ir >> 3) & 3 != 0 {
        Op::Illegal
    } else {
        let size = size_from_spec(sz);
        let left = (ir >> 8) & 1 == 1;
        let by_reg = (ir >> 5) & 1 == 1;
        if left {
            if by_reg {
                Op::AslR(size)
            } else {
                Op::AslS(size)
            }
        } else {
            if by_reg {
                Op::AsrR(size)
            } else {
                Op::AsrS(size)
            }
        }
    }
}

/// The operation each IR value dispatches to.
pub open spec fn op_for(ir: u16) -> Op {
    let line = ir >> 12;
    if line == 0x0 {
        op_for_line_0_spec(ir)
    } else if line == 0x5 {
        op_for_line_5_spec(ir)
    } else if line == 0xc {
        op_for_line_c_spec(ir)
    } else if line == 0xd {
        op_for_line_d_spec(ir)
    } else if line == 0xe {
        op_for_line_e_spec(ir)
    } else {
        Op::Illegal
    }
}

fn decode_line_0(ir: u16) -> (op: Op)
    ensures
        op == op_for_line_0_spec(ir),
{
    let sel = (ir >> 9) & 7;
    let sz = (ir >> 6) & 3;
    if ir == 0x023c {
        Op::AndiToCcr
    } else if sel == 1 && sz != 3 {
        match ea_mode(ir) {
            Some(m) => if data_alterable(m) {
                Op::Andi(size_from(sz), m)
            } else {
                Op::Illegal
            },
            None => Op::Illegal,
        }
    } else if sel == 3 && sz != 3 {
        match ea_mode(ir) {
            Some(m) => if data_alterable(m) {
                Op::Addi(size_from(sz), m)
            } else {
                Op::Illegal
            },
            None => Op::Illegal,
        }
    } else {
        Op::Illegal
    }
}

fn decode_line_5(ir: u16) -> (op: Op)
    ensures
        op == op_for_line_5_spec(ir),
{
    let sz = (ir >> 6) & 3;
    if (ir >> 8) & 1 != 0 || sz == 3 {
        Op::Illegal
    } else {
        match ea_mode(ir) {
            Some(m) => if m == EaMode::AddrDirect {
                if sz == 0 {
                    Op::Illegal
                } else {
                    Op::AddqA(size_from(sz))
                }
            } else if data_alterable(m) {
                Op::Addq(size_from(sz), m)
            } else {
                Op::Illegal
            },
            None => Op::Illegal,
        }
    }
}

fn decode_line_c(ir: u16) -> (op: Op)
    ensures
        op == op_for_line_c_spec(ir),
{
    let opmode = (ir >> 6) & 7;
    if opmode <= 2 {
        match ea_mode(ir) {
            Some(m) => if m == EaMode::AddrDirect {
                Op::Illegal
            } else {
                Op::AndEr(size_from(opmode), m)
            },
            None => Op::Illegal,
        }
    } else if opmode == 4 || opmode == 5 || opmode == 6 {
        let m3 = (ir >> 3) & 7;
        if m3 == 0 {
            if opmode == 4 {
                Op::AbcdRr
            } else {
                Op::Illegal
            }
        } else if m3 == 1 {
            if opmode == 4 {
                Op::AbcdMm
            } else {
                Op::Illegal
            }
        } else {
            match ea_mode(ir) {
                Some(m) => if mem_alterable(m) {
                    Op::AndRe(size_from(opmode - 4), m)
                } else {
                    Op::Illegal
                },
                None => Op::Illegal,
            }
        }
    } else {
        Op::Illegal
    }
}

fn decode_line_d(ir: u16) -> (op: Op)
    ensures
        op == op_for_line_d_spec(ir),
{
    let opmode = (ir >> 6) & 7;
    if opmode <= 2 {
        match ea_mode(ir) {
            Some(m) => if opmode == 0 && m == EaMode::AddrDirect {
                Op::Illegal
            } else {
                Op::AddEr(size_from(opmode), m)
            },
            None => Op::Illegal,
        }
    } else if opmode == 3 {
        match ea_mode(ir) {
            Some(m) => Op::Adda(OpSize::Word, m),
            None => Op::Illegal,
        }
    } else if opmode == 7 {
        match ea_mode(ir) {
            Some(m) => Op::Adda(OpSize::Long, m),
            None => Op::Illegal,
        }
    } else {
        let m3 = (ir >> 3) & 7;
        if m3 == 0 {
            Op::AddxRr(size_from(opmode - 4))
        } else if m3 == 1 {
            Op::AddxMm(size_from(opmode - 4))
        } else {
            match ea_mode(ir) {
                Some(m) => if mem_alterable(m) {
                    Op::AddRe(size_from(opmode - 4), m)
                } else {
                    Op::Illegal
                },
                None => Op::Illegal,
            }
        }
    }
}

fn decode_line_e(ir: u16) -> (op: Op)
    ensures
        op == op_for_line_e_spec(ir),
{
    let sz = (ir >> 6) & 3;
    if sz == 3 || (ir >> 3) & 3 != 0 {
        Op::Illegal
    } else {
        let size = size_from(sz);
        let left = (ir >> 8) & 1 == 1;
        let by_reg = (ir >> 5) & 1 == 1;
        if left {
            if by_reg {
                Op::AslR(size)
            } else {
                Op::AslS(size)
            }
        } else {
            if by_reg {
                Op::AsrR(size)
            } else {
                Op::AsrS(size)
            }
        }
    }
}

/// Decode one IR value into the operation it dispatches to.
pub fn decode(ir: u16) -> (op: Op)
    ensures
        op == op_for(ir),
{
    let line = ir >> 12;
    if line == 0x0 {
        decode_line_0(ir)
    } else if line == 0x5 {
        decode_line_5(ir)
    } else if line == 0xc {
        decode_line_c(ir)
    } else if line == 0xd {
        decode_line_d(ir)
    } else if line == 0xe {
        decode_line_e(ir)
    } else {
        Op::Illegal
    }
}

} // verus!

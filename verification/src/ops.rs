//! Instruction handlers and the dispatch machinery.
//!
//! Each operation's effect on the architectural state is given by a spec
//! function over `CoreView`; the executable handlers are proved to
//! realise exactly those transitions. `instruction_set` materialises the
//! `op_for` decoding as the 65,536-entry dispatch table, and
//! `execute_one` / `execute` drive the fetch-dispatch-execute loop.

use vstd::prelude::*;
use crate::bits::{ir_ay, ir_ay_spec, ir_dx, ir_dx_spec, ir_dy, ir_dy_spec, sign_extend_16,
    sign_extend_16_spec};
use crate::common::{
    abcd_8_common, abcd_8_spec, add_16_common, add_16_spec, add_32_common, add_32_spec,
    add_8_common, add_8_spec, addx_16_common, addx_16_spec, addx_32_common, addx_32_spec,
    addx_8_common, addx_8_spec, and_16_common, and_16_spec, and_32_common, and_32_spec,
    and_8_common, and_8_spec, asl_16_common, asl_16_spec, asl_32_common, asl_32_spec,
    asl_8_common, asl_8_spec, asr_16_common, asr_16_spec, asr_32_common, asr_32_spec,
    asr_8_common, asr_8_spec,
};
use crate::cpu::{
    ccr_spec, read_imm_word_spec, set_ccr_spec, write_byte_spec, write_long_spec, write_word_spec,
    Core, CoreView, Cycles, Exception, InstructionSet, MEM_SIZE,
};
use crate::decode::{decode, op_for, EaMode, Op, OpSize};
use crate::fake::{set_d0, set_d0_spec, set_d1, set_d1_spec, set_dx, set_dx_spec};
use crate::operator::{
    ax_pd, ax_pd_spec, ax_spec, dst_ea, dst_ea_spec, dx, dx_spec, dy_spec, quick, quick_spec,
    src_value, src_value_spec, with_ax_spec, with_ay_spec,
};

verus! {

/// The binary operation a handler family applies.
#[derive(Clone, Copy, PartialEq, Eq, Structural, Debug)]
pub enum AluOp {
    Add,
    And,
}

/// Merge a width-sized result into a destination register value: byte
/// and word results replace only the low lanes, long results the whole
/// register.
pub open spec fn merge_spec(size: OpSize, dst: u32, res: u32) -> u32 {
    match size {
        OpSize::Byte => (dst & 0xffffff00) | res,
        OpSize::Word => (dst & 0xffff0000) | res,
        OpSize::Long => res,
    }
}

fn merge(size: OpSize, dst: u32, res: u32) -> (r: u32)
    ensures
        r == merge_spec(size, dst, res),
{
    match size {
        OpSize::Byte => (dst & 0xffffff00) | res,
        OpSize::Word => (dst & 0xffff0000) | res,
        OpSize::Long => res,
    }
}

/// A sized write through the bus.
pub open spec fn write_sized_spec(s: CoreView, addr: u32, size: OpSize, v: u32) -> (CoreView,
    Result<(), Exception>) {
    match size {
        OpSize::Byte => write_byte_spec(s, addr, v),
        OpSize::Word => write_word_spec(s, addr, v),
        OpSize::Long => write_long_spec(s, addr, v),
    }
}

fn write_sized(core: &mut Core, addr: u32, size: OpSize, v: u32) -> (r: Result<(), Exception>)
    ensures
        ({
            let (s2, r2) = write_sized_spec(old(core)@, addr, size, v);
            final(core)@ == s2 && r == r2
        }),
{
    match size {
        OpSize::Byte => core.write_data_byte(addr, v),
        OpSize::Word => core.write_data_word(addr, v),
        OpSize::Long => core.write_data_long(addr, v),
    }
}

/// Flags and width-sized result of one ALU operation.
pub open spec fn alu_common_spec(s: CoreView, alu: AluOp, size: OpSize, dst: u32, src: u32) -> (
    CoreView,
    u32,
) {
    match alu {
        AluOp::Add => match size {
            OpSize::Byte => add_8_spec(s, dst, src),
            OpSize::Word => add_16_spec(s, dst, src),
            OpSize::Long => add_32_spec(s, dst, src),
        },
        AluOp::And => match size {
            OpSize::Byte => and_8_spec(s, dst, src),
            OpSize::Word => and_16_spec(s, dst, src),
            OpSize::Long => and_32_spec(s, dst, src),
        },
    }
}

fn alu_common(core: &mut Core, alu: AluOp, size: OpSize, dst: u32, src: u32) -> (res: u32)
    ensures
        ({
            let (s2, r2) = alu_common_spec(old(core)@, alu, size, dst, src);
            final(core)@ == s2 && res == r2
        }),
{
    match alu {
        AluOp::Add => match size {
            OpSize::Byte => add_8_common(core, dst, src),
            OpSize::Word => add_16_common(core, dst, src),
            OpSize::Long => add_32_common(core, dst, src),
        },
        AluOp::And => match size {
            OpSize::Byte => and_8_common(core, dst, src),
            OpSize::Word => and_16_common(core, dst, src),
            OpSize::Long => and_32_common(core, dst, src),
        },
    }
}

/// Flags and result of an add-with-extend at the given width.
pub open spec fn addx_common_spec(s: CoreView, size: OpSize, dst: u32, src: u32) -> (CoreView, u32) {
    match size {
        OpSize::Byte => addx_8_spec(s, dst, src),
        OpSize::Word => addx_16_spec(s, dst, src),
        OpSize::Long => addx_32_spec(s, dst, src),
    }
}

fn addx_common(core: &mut Core, size: OpSize, dst: u32, src: u32) -> (res: u32)
    ensures
        ({
            let (s2, r2) = addx_common_spec(old(core)@, size, dst, src);
            final(core)@ == s2 && res == r2
        }),
{
    match size {
        OpSize::Byte => addx_8_common(core, dst, src),
        OpSize::Word => addx_16_common(core, dst, src),
        OpSize::Long => addx_32_common(core, dst, src),
    }
}

/// Flags and result of an arithmetic shift right at the given width.
pub open spec fn asr_common_spec(s: CoreView, size: OpSize, dst: u32, shift: u32) -> (CoreView, u32) {
    match size {
        OpSize::Byte => asr_8_spec(s, dst, shift),
        OpSize::Word => asr_16_spec(s, dst, shift),
        OpSize::Long => asr_32_spec(s, dst, shift),
    }
}

fn asr_common(core: &mut Core, size: OpSize, dst: u32, shift: u32) -> (res: u32)
    requires
        shift < 64,
    ensures
        ({
            let (s2, r2) = asr_common_spec(old(core)@, size, dst, shift);
            final(core)@ == s2 && res == r2
        }),
{
    match size {
        OpSize::Byte => asr_8_common(core, dst, shift),
        OpSize::Word => asr_16_common(core, dst, shift),
        OpSize::Long => asr_32_common(core, dst, shift),
    }
}

/// Flags and result of an arithmetic shift left at the given width.
pub open spec fn asl_common_spec(s: CoreView, size: OpSize, dst: u32, shift: u32) -> (CoreView, u32) {
    match size {
        OpSize::Byte => asl_8_spec(s, dst, shift),
        OpSize::Word => asl_16_spec(s, dst, shift),
        OpSize::Long => asl_32_spec(s, dst, shift),
    }
}

fn asl_common(core: &mut Core, size: OpSize, dst: u32, shift: u32) -> (res: u32)
    requires
        shift < 64,
    ensures
        ({
            let (s2, r2) = asl_common_spec(old(core)@, size, dst, shift);
            final(core)@ == s2 && res == r2
        }),
{
    match size {
        OpSize::Byte => asl_8_common(core, dst, shift),
        OpSize::Word => asl_16_common(core, dst, shift),
        OpSize::Long => asl_32_common(core, dst, shift),
    }
}

/// Cycle count of the register-destination ALU forms (ADD/AND <ea>,Dx).
pub open spec fn cycles_alu_er_spec(size: OpSize, mode: EaMode) -> i32 {
    match size {
        OpSize::Long => match mode {
            EaMode::DataDirect => 6,
            EaMode::AddrDirect => 6,
            EaMode::AddrIndirect => 14,
            EaMode::PostInc => 14,
            EaMode::PreDec => 16,
            EaMode::Displacement => 18,
            EaMode::Index => 20,
            EaMode::AbsShort => 18,
            EaMode::AbsLong => 22,
            EaMode::PcDisplacement => 18,
            EaMode::PcIndex => 20,
            EaMode::Immediate => 16,
        },
        _ => match mode {
            EaMode::DataDirect => 4,
            EaMode::AddrDirect => 4,
            EaMode::AddrIndirect => 8,
            EaMode::PostInc => 8,
            EaMode::PreDec => 10,
            EaMode::Displacement => 12,
            EaMode::Index => 14,
            EaMode::AbsShort => 12,
            EaMode::AbsLong => 16,
            EaMode::PcDisplacement => 12,
            EaMode::PcIndex => 14,
            EaMode::Immediate => 10,
        },
    }
}

fn cycles_alu_er(size: OpSize, mode: EaMode) -> (c: i32)
    ensures
        c == cycles_alu_er_spec(size, mode),
{
    match size {
        OpSize::Long => match mode {
            EaMode::DataDirect => 6,
            EaMode::AddrDirect => 6,
            EaMode::AddrIndirect => 14,
            EaMode::PostInc => 14,
            EaMode::PreDec => 16,
            EaMode::Displacement => 18,
            EaMode::Index => 20,
            EaMode::AbsShort => 18,
            EaMode::AbsLong => 22,
            EaMode::PcDisplacement => 18,
            EaMode::PcIndex => 20,
            EaMode::Immediate => 16,
        },
        _ => match mode {
            EaMode::DataDirect => 4,
            EaMode::AddrDirect => 4,
            EaMode::AddrIndirect => 8,
            EaMode::PostInc => 8,
            EaMode::PreDec => 10,
            EaMode::Displacement => 12,
            EaMode::Index => 14,
            EaMode::AbsShort => 12,
            EaMode::AbsLong => 16,
            EaMode::PcDisplacement => 12,
            EaMode::PcIndex => 14,
            EaMode::Immediate => 10,
        },
    }
}

/// Cycle count of the memory-destination ALU forms (ADD/AND Dx,<ea>).
/// Modes the decoder never pairs with this family carry a nominal
/// positive count.
pub open spec fn cycles_alu_re_spec(size: OpSize, mode: EaMode) -> i32 {
    match size {
        OpSize::Long => match mode {
            EaMode::AddrIndirect => 20,
            EaMode::PostInc => 20,
            EaMode::PreDec => 22,
            EaMode::Displacement => 24,
            EaMode::Index => 26,
            EaMode::AbsShort => 24,
            EaMode::AbsLong => 28,
            _ => 4,
        },
        _ => match mode {
            EaMode::AddrIndirect => 12,
            EaMode::PostInc => 12,
            EaMode::PreDec => 14,
            EaMode::Displacement => 16,
            EaMode::Index => 18,
            EaMode::AbsShort => 16,
            EaMode::AbsLong => 20,
            _ => 4,
        },
    }
}

fn cycles_alu_re(size: OpSize, mode: EaMode) -> (c: i32)
    ensures
        c == cycles_alu_re_spec(size, mode),
{
    match size {
        OpSize::Long => match mode {
            EaMode::AddrIndirect => 20,
            EaMode::PostInc => 20,
            EaMode::PreDec => 22,
            EaMode::Displacement => 24,
            EaMode::Index => 26,
            EaMode::AbsShort => 24,
            EaMode::AbsLong => 28,
            _ => 4,
        },
        _ => match mode {
            EaMode::AddrIndirect => 12,
            EaMode::PostInc => 12,
            EaMode::PreDec => 14,
            EaMode::Displacement => 16,
            EaMode::Index => 18,
            EaMode::AbsShort => 16,
            EaMode::AbsLong => 20,
            _ => 4,
        },
    }
}

/// Cycle count of ADDA.
pub open spec fn cycles_adda_spec(size: OpSize, mode: EaMode) -> i32 {
    match size {
        OpSize::Long => cycles_alu_er_spec(OpSize::Long, mode),
        _ => ((cycles_alu_er_spec(OpSize::Word, mode) + 4) as i32),
    }
}

fn cycles_adda(size: OpSize, mode: EaMode) -> (c: i32)
    ensures
        c == cycles_adda_spec(size, mode),
{
    match size {
        OpSize::Long => cycles_alu_er(OpSize::Long, mode),
        _ => cycles_alu_er(OpSize::Word, mode) + 4,
    }
}

/// Cycle count of ADDI. Modes the decoder never pairs with it carry a
/// nominal positive count.
pub open spec fn cycles_addi_spec(size: OpSize, mode: EaMode) -> i32 {
    match size {
        OpSize::Long => match mode {
            EaMode::DataDirect => 16,
            EaMode::AddrIndirect => 28,
            EaMode::PostInc => 28,
            EaMode::PreDec => 30,
            EaMode::Displacement => 32,
            EaMode::Index => 34,
            EaMode::AbsShort => 32,
            EaMode::AbsLong => 36,
            _ => 4,
        },
        _ => match mode {
            EaMode::DataDirect => 8,
            EaMode::AddrIndirect => 16,
            EaMode::PostInc => 16,
            EaMode::PreDec => 18,
            EaMode::Displacement => 20,
            EaMode::Index => 22,
            EaMode::AbsShort => 20,
            EaMode::AbsLong => 24,
            _ => 4,
        },
    }
}

fn cycles_addi(size: OpSize, mode: EaMode) -> (c: i32)
    ensures
        c == cycles_addi_spec(size, mode),
{
    match size {
        OpSize::Long => match mode {
            EaMode::DataDirect => 16,
            EaMode::AddrIndirect => 28,
            EaMode::PostInc => 28,
            EaMode::PreDec => 30,
            EaMode::Displacement => 32,
            EaMode::Index => 34,
            EaMode::AbsShort => 32,
            EaMode::AbsLong => 36,
            _ => 4,
        },
        _ => match mode {
            EaMode::DataDirect => 8,
            EaMode::AddrIndirect => 16,
            EaMode::PostInc => 16,
            EaMode::PreDec => 18,
            EaMode::Displacement => 20,
            EaMode::Index => 22,
            EaMode::AbsShort => 20,
            EaMode::AbsLong => 24,
            _ => 4,
        },
    }
}

/// Cycle count of ANDI: as ADDI except the data-register long form.
pub open spec fn cycles_andi_spec(size: OpSize, mode: EaMode) -> i32 {
    if size == OpSize::Long && mode == EaMode::DataDirect {
        14
    } else {
        cycles_addi_spec(size, mode)
    }
}

fn cycles_andi(size: OpSize, mode: EaMode) -> (c: i32)
    ensures
        c == cycles_andi_spec(size, mode),
{
    if size == OpSize::Long && mode == EaMode::DataDirect {
        14
    } else {
        cycles_addi(size, mode)
    }
}

/// Cycle count of ADDQ with a data or memory destination. Modes the
/// decoder never pairs with it carry a nominal positive count.
pub open spec fn cycles_addq_spec(size: OpSize, mode: EaMode) -> i32 {
    match size {
        OpSize::Long => match mode {
            EaMode::DataDirect => 8,
            EaMode::AddrIndirect => 20,
            EaMode::PostInc => 20,
            EaMode::PreDec => 22,
            EaMode::Displacement => 24,
            EaMode::Index => 26,
            EaMode::AbsShort => 24,
            EaMode::AbsLong => 28,
            _ => 4,
        },
        _ => match mode {
            EaMode::DataDirect => 4,
            EaMode::AddrIndirect => 12,
            EaMode::PostInc => 12,
            EaMode::PreDec => 14,
            EaMode::Displacement => 16,
            EaMode::Index => 18,
            EaMode::AbsShort => 16,
            EaMode::AbsLong => 20,
            _ => 4,
        },
    }
}

fn cycles_addq(size: OpSize, mode: EaMode) -> (c: i32)
    ensures
        c == cycles_addq_spec(size, mode),
{
    match size {
        OpSize::Long => match mode {
            EaMode::DataDirect => 8,
            EaMode::AddrIndirect => 20,
            EaMode::PostInc => 20,
            EaMode::PreDec => 22,
            EaMode::Displacement => 24,
            EaMode::Index => 26,
            EaMode::AbsShort => 24,
            EaMode::AbsLong => 28,
            _ => 4,
        },
        _ => match mode {
            EaMode::DataDirect => 4,
            EaMode::AddrIndirect => 12,
            EaMode::PostInc => 12,
            EaMode::PreDec => 14,
            EaMode::Displacement => 16,
            EaMode::Index => 18,
            EaMode::AbsShort => 16,
            EaMode::AbsLong => 20,
            _ => 4,
        },
    }
}

/// Base cycle count of a register shift; each shifted position adds 2.
pub open spec fn cycles_shift_spec(size: OpSize) -> i32 {
    match size {
        OpSize::Long => 8,
        _ => 6,
    }
}

fn cycles_shift(size: OpSize) -> (c: i32)
    ensures
        c == cycles_shift_spec(size),
{
    match size {
        OpSize::Long => 8,
        _ => 6,
    }
}

/// An unassigned opcode: the state is untouched and the offending IR is
/// reported together with the address it was fetched from.
pub open spec fn illegal_spec(s: CoreView) -> (CoreView, Result<Cycles, Exception>) {
    (s, Err(Exception::IllegalInstruction(s.ir, s.pc.wrapping_sub(2))))
}

/// ADD/AND <ea>,Dx.
pub open spec fn alu_er_spec(s: CoreView, alu: AluOp, size: OpSize, mode: EaMode) -> (CoreView,
    Result<Cycles, Exception>) {
    let (s1, r) = src_value_spec(s, mode, size);
    match r {
        Err(e) => (s1, Err(e)),
        Ok(src) => {
            let i = ir_dx_spec(s1.ir) as int;
            let dst = s1.dar[i];
            let (s2, res) = alu_common_spec(s1, alu, size, dst, src);
            (
                CoreView { dar: s2.dar.update(i, merge_spec(size, dst, res)), ..s2 },
                Ok(Cycles(cycles_alu_er_spec(size, mode))),
            )
        },
    }
}

/// ADD/AND Dx,<ea>.
pub open spec fn alu_re_spec(s: CoreView, alu: AluOp, size: OpSize, mode: EaMode) -> (CoreView,
    Result<Cycles, Exception>) {
    let src = dx_spec(s);
    let (s1, r) = dst_ea_spec(s, mode, size);
    match r {
        Err(e) => (s1, Err(e)),
        Ok((dst, ea)) => {
            let (s2, res) = alu_common_spec(s1, alu, size, dst, src);
            let (s3, r3) = write_sized_spec(s2, ea, size, merge_spec(size, dst, res));
            match r3 {
                Err(e) => (s3, Err(e)),
                Ok(u) => (s3, Ok(Cycles(cycles_alu_re_spec(size, mode)))),
            }
        },
    }
}

/// ADDI/ANDI #imm,<ea>: the immediate is fetched first, then the
/// destination is resolved, operated on and written back.
pub open spec fn alu_i_spec(s: CoreView, alu: AluOp, size: OpSize, mode: EaMode) -> (CoreView,
    Result<Cycles, Exception>) {
    let cycles = match alu {
        AluOp::Add => cycles_addi_spec(size, mode),
        AluOp::And => cycles_andi_spec(size, mode),
    };
    let (s1, r) = src_value_spec(s, EaMode::Immediate, size);
    match r {
        Err(e) => (s1, Err(e)),
        Ok(src) => {
            if mode == EaMode::DataDirect {
                let i = ir_dy_spec(s1.ir) as int;
                let dst = s1.dar[i];
                let (s2, res) = alu_common_spec(s1, alu, size, dst, src);
                (
                    CoreView { dar: s2.dar.update(i, merge_spec(size, dst, res)), ..s2 },
                    Ok(Cycles(cycles)),
                )
            } else {
                let (s2, r2) = dst_ea_spec(s1, mode, size);
                match r2 {
                    Err(e) => (s2, Err(e)),
                    Ok((dst, ea)) => {
                        let (s3, res) = alu_common_spec(s2, alu, size, dst, src);
                        let (s4, r4) = write_sized_spec(s3, ea, size, merge_spec(size, dst, res));
                        match r4 {
                            Err(e) => (s4, Err(e)),
                            Ok(u) => (s4, Ok(Cycles(cycles))),
                        }
                    },
                }
            }
        },
    }
}

/// ADDQ #q,<ea> with a data or memory destination.
pub open spec fn addq_spec(s: CoreView, size: OpSize, mode: EaMode) -> (CoreView, Result<
    Cycles,
    Exception,
>) {
    let src = quick_spec(s.ir);
    if mode == EaMode::DataDirect {
        let i = ir_dy_spec(s.ir) as int;
        let dst = s.dar[i];
        let (s2, res) = alu_common_spec(s, AluOp::Add, size, dst, src);
        (
            CoreView { dar: s2.dar.update(i, merge_spec(size, dst, res)), ..s2 },
            Ok(Cycles(cycles_addq_spec(size, mode))),
        )
    } else {
        let (s1, r) = dst_ea_spec(s, mode, size);
        match r {
            Err(e) => (s1, Err(e)),
            Ok((dst, ea)) => {
                let (s2, res) = alu_common_spec(s1, AluOp::Add, size, dst, src);
                let (s3, r3) = write_sized_spec(s2, ea, size, merge_spec(size, dst, res));
                match r3 {
                    Err(e) => (s3, Err(e)),
                    Ok(u) => (s3, Ok(Cycles(cycles_addq_spec(size, mode)))),
                }
            },
        }
    }
}

/// ADDQ #q,Ay: the whole address register is written whatever the
/// operation size, and no flag slot is touched.
pub open spec fn addq_a_spec(s: CoreView, size: OpSize) -> (CoreView, Result<Cycles, Exception>) {
    let src = quick_spec(s.ir);
    let dst = s.dar[ir_ay_spec(s.ir) as int];
    let cycles: i32 = if size == OpSize::Long {
        8
    } else {
        4
    };
    (with_ay_spec(s, dst.wrapping_add(src)), Ok(Cycles(cycles)))
}

/// ADDA <ea>,Ax: the destination register is captured before the source
/// operand is resolved, so that pre/post-modification of the same
/// register through the source mode reads the original value.
pub open spec fn adda_spec(s: CoreView, size: OpSize, mode: EaMode) -> (CoreView, Result<
    Cycles,
    Exception,
>) {
    let dst = ax_spec(s);
    let (s1, r) = src_value_spec(s, mode, size);
    match r {
        Err(e) => (s1, Err(e)),
        Ok(src) => {
            let v = if size == OpSize::Long {
                dst.wrapping_add(src)
            } else {
                dst.wrapping_add(sign_extend_16_spec(src))
            };
            (with_ax_spec(s1, v), Ok(Cycles(cycles_adda_spec(size, mode))))
        },
    }
}

/// ADDX Dy,Dx.
pub open spec fn addx_rr_spec(s: CoreView, size: OpSize) -> (CoreView, Result<Cycles, Exception>) {
    let i = ir_dx_spec(s.ir) as int;
    let dst = s.dar[i];
    let src = dy_spec(s);
    let (s1, res) = addx_common_spec(s, size, dst, src);
    let cycles: i32 = if size == OpSize::Long {
        8
    } else {
        4
    };
    (CoreView { dar: s1.dar.update(i, merge_spec(size, dst, res)), ..s1 }, Ok(Cycles(cycles)))
}

/// ADDX -(Ay),-(Ax).
pub open spec fn addx_mm_spec(s: CoreView, size: OpSize) -> (CoreView, Result<Cycles, Exception>) {
    let cycles: i32 = if size == OpSize::Long {
        30
    } else {
        18
    };
    let (s1, r) = src_value_spec(s, EaMode::PreDec, size);
    match r {
        Err(e) => (s1, Err(e)),
        Ok(src) => {
            let (s2, r2) = ax_pd_spec(s1, size);
            match r2 {
                Err(e) => (s2, Err(e)),
                Ok((dst, ea)) => {
                    let (s3, res) = addx_common_spec(s2, size, dst, src);
                    let (s4, r4) = write_sized_spec(s3, ea, size, merge_spec(size, dst, res));
                    match r4 {
                        Err(e) => (s4, Err(e)),
                        Ok(u) => (s4, Ok(Cycles(cycles))),
                    }
                },
            }
        },
    }
}

/// ABCD Dy,Dx.
pub open spec fn abcd_rr_spec(s: CoreView) -> (CoreView, Result<Cycles, Exception>) {
    let i = ir_dx_spec(s.ir) as int;
    let dst = s.dar[i];
    let src = dy_spec(s);
    let (s1, res) = abcd_8_spec(s, dst, src);
    (CoreView { dar: s1.dar.update(i, (dst & 0xffffff00) | res), ..s1 }, Ok(Cycles(6)))
}

/// ABCD -(Ay),-(Ax).
pub open spec fn abcd_mm_spec(s: CoreView) -> (CoreView, Result<Cycles, Exception>) {
    let (s1, r) = src_value_spec(s, EaMode::PreDec, OpSize::Byte);
    match r {
        Err(e) => (s1, Err(e)),
        Ok(src) => {
            let (s2, r2) = ax_pd_spec(s1, OpSize::Byte);
            match r2 {
                Err(e) => (s2, Err(e)),
                Ok((dst, ea)) => {
                    let (s3, res) = abcd_8_spec(s2, dst, src);
                    let (s4, r4) = write_byte_spec(s3, ea, (dst & 0xffffff00) | res);
                    match r4 {
                        Err(e) => (s4, Err(e)),
                        Ok(u) => (s4, Ok(Cycles(18))),
                    }
                },
            }
        },
    }
}

/// ANDI #imm,CCR: the synthesized CCR is ANDed with the immediate's low
/// byte and unpacked back into the flag slots.
pub open spec fn andi_toc_spec(s: CoreView) -> (CoreView, Result<Cycles, Exception>) {
    let dst = ccr_spec(s);
    let (s1, r) = read_imm_word_spec(s);
    match r {
        Err(e) => (s1, Err(e)),
        Ok(w) => (set_ccr_spec(s1, dst & (w & 0xff)), Ok(Cycles(20))),
    }
}

/// ASR/ASL on a data register; the count comes from the quick field or
/// from Dx, modulo 64, and each shifted position costs two cycles.
pub open spec fn shift_spec(s: CoreView, left: bool, size: OpSize, count: u32) -> (CoreView, Result<
    Cycles,
    Exception,
>) {
    let shift = count & 0x3f;
    let i = ir_dy_spec(s.ir) as int;
    let dst = s.dar[i];
    let (s1, res) = if left {
        asl_common_spec(s, size, dst, shift)
    } else {
        asr_common_spec(s, size, dst, shift)
    };
    (
        CoreView { dar: s1.dar.update(i, merge_spec(size, dst, res)), ..s1 },
        Ok(Cycles(((cycles_shift_spec(size) + 2 * shift) as i32))),
    )
}

/// The transition one dispatched operation makes.
pub open spec fn execute_op_spec(s: CoreView, op: Op) -> (CoreView, Result<Cycles, Exception>) {
    match op {
        Op::Illegal => illegal_spec(s),
        Op::SetD0 => set_d0_spec(s),
        Op::SetD1 => set_d1_spec(s),
        Op::SetDx => set_dx_spec(s),
        Op::AbcdRr => abcd_rr_spec(s),
        Op::AbcdMm => abcd_mm_spec(s),
        Op::AddEr(size, mode) => alu_er_spec(s, AluOp::Add, size, mode),
        Op::AddRe(size, mode) => alu_re_spec(s, AluOp::Add, size, mode),
        Op::Adda(size, mode) => adda_spec(s, size, mode),
        Op::Addi(size, mode) => alu_i_spec(s, AluOp::Add, size, mode),
        Op::Addq(size, mode) => addq_spec(s, size, mode),
        Op::AddqA(size) => addq_a_spec(s, size),
        Op::AddxRr(size) => addx_rr_spec(s, size),
        Op::AddxMm(size) => addx_mm_spec(s, size),
        Op::AndEr(size, mode) => alu_er_spec(s, AluOp::And, size, mode),
        Op::AndRe(size, mode) => alu_re_spec(s, AluOp::And, size, mode),
        Op::Andi(size, mode) => alu_i_spec(s, AluOp::And, size, mode),
        Op::AndiToCcr => andi_toc_spec(s),
        Op::AsrS(size) => shift_spec(s, false, size, quick_spec(s.ir)),
        Op::AsrR(size) => shift_spec(s, false, size, dx_spec(s)),
        Op::AslS(size) => shift_spec(s, true, size, quick_spec(s.ir)),
        Op::AslR(size) => shift_spec(s, true, size, dx_spec(s)),
    }
}

/// Signal an illegal instruction: no state is changed and the offending
/// IR is reported with the address it was fetched from.
pub fn illegal(core: &mut Core) -> (r: Result<Cycles, Exception>)
    ensures
        final(core)@ == old(core)@,
        (final(core)@, r) == illegal_spec(old(core)@),
{
    Err(Exception::IllegalInstruction(core.ir, core.pc.wrapping_sub(2)))
}

/// ADD/AND <ea>,Dx.
pub fn alu_er(core: &mut Core, alu: AluOp, size: OpSize, mode: EaMode) -> (r: Result<
    Cycles,
    Exception,
>)
    requires
        old(core)@.wf(),
    ensures
        (final(core)@, r) == alu_er_spec(old(core)@, alu, size, mode),
        final(core)@.wf(),
{
    match src_value(core, mode, size) {
        Err(e) => Err(e),
        Ok(src) => {
            let i: usize = ir_dx(core.ir);
            let dst: u32 = core.dar[i];
            let res: u32 = alu_common(core, alu, size, dst, src);
            core.dar[i] = merge(size, dst, res);
            Ok(Cycles(cycles_alu_er(size, mode)))
        },
    }
}

/// ADD/AND Dx,<ea>.
pub fn alu_re(core: &mut Core, alu: AluOp, size: OpSize, mode: EaMode) -> (r: Result<
    Cycles,
    Exception,
>)
    requires
        old(core)@.wf(),
    ensures
        (final(core)@, r) == alu_re_spec(old(core)@, alu, size, mode),
        final(core)@.wf(),
{
    let src: u32 = dx(core);
    match dst_ea(core, mode, size) {
        Err(e) => Err(e),
        Ok((dst, ea)) => {
            let res: u32 = alu_common(core, alu, size, dst, src);
            match write_sized(core, ea, size, merge(size, dst, res)) {
                Err(e) => Err(e),
                Ok(u) => Ok(Cycles(cycles_alu_re(size, mode))),
            }
        },
    }
}

/// ADDI/ANDI #imm,<ea>.
pub fn alu_i(core: &mut Core, alu: AluOp, size: OpSize, mode: EaMode) -> (r: Result<
    Cycles,
    Exception,
>)
    requires
        old(core)@.wf(),
    ensures
        (final(core)@, r) == alu_i_spec(old(core)@, alu, size, mode),
        final(core)@.wf(),
{
    let cycles: i32 = match alu {
        AluOp::Add => cycles_addi(size, mode),
        AluOp::And => cycles_andi(size, mode),
    };
    match src_value(core, EaMode::Immediate, size) {
        Err(e) => Err(e),
        Ok(src) => {
            if mode == EaMode::DataDirect {
                let i: usize = ir_dy(core.ir);
                let dst: u32 = core.dar[i];
                let res: u32 = alu_common(core, alu, size, dst, src);
                core.dar[i] = merge(size, dst, res);
                Ok(Cycles(cycles))
            } else {
                match dst_ea(core, mode, size) {
                    Err(e) => Err(e),
                    Ok((dst, ea)) => {
                        let res: u32 = alu_common(core, alu, size, dst, src);
                        match write_sized(core, ea, size, merge(size, dst, res)) {
                            Err(e) => Err(e),
                            Ok(u) => Ok(Cycles(cycles)),
                        }
                    },
                }
            }
        },
    }
}

/// ADDQ #q,<ea> with a data or memory destination.
pub fn addq(core: &mut Core, size: OpSize, mode: EaMode) -> (r: Result<Cycles, Exception>)
    requires
        old(core)@.wf(),
    ensures
        (final(core)@, r) == addq_spec(old(core)@, size, mode),
        final(core)@.wf(),
{
    let src: u32 = quick(core);
    if mode == EaMode::DataDirect {
        let i: usize = ir_dy(core.ir);
        let dst: u32 = core.dar[i];
        let res: u32 = alu_common(core, AluOp::Add, size, dst, src);
        core.dar[i] = merge(size, dst, res);
        Ok(Cycles(cycles_addq(size, mode)))
    } else {
        match dst_ea(core, mode, size) {
            Err(e) => Err(e),
            Ok((dst, ea)) => {
                let res: u32 = alu_common(core, AluOp::Add, size, dst, src);
                match write_sized(core, ea, size, merge(size, dst, res)) {
                    Err(e) => Err(e),
                    Ok(u) => Ok(Cycles(cycles_addq(size, mode))),
                }
            },
        }
    }
}

/// ADDQ.W #q,Ay: the whole register takes the sum and no flag changes.
pub fn addq_16_a(core: &mut Core) -> (r: Result<Cycles, Exception>)
    requires
        old(core)@.wf(),
    ensures
        (final(core)@, r) == addq_a_spec(old(core)@, OpSize::Word),
        final(core)@.wf(),
{
    let src: u32 = quick(core);
    let i: usize = ir_ay(core.ir);
    let dst: u32 = core.dar[i];
    core.dar[i] = dst.wrapping_add(src);
    Ok(Cycles(4))
}

/// ADDQ.L #q,Ay: the whole register takes the sum and no flag changes.
pub fn addq_32_a(core: &mut Core) -> (r: Result<Cycles, Exception>)
    requires
        old(core)@.wf(),
    ensures
        (final(core)@, r) == addq_a_spec(old(core)@, OpSize::Long),
        final(core)@.wf(),
{
    let src: u32 = quick(core);
    let i: usize = ir_ay(core.ir);
    let dst: u32 = core.dar[i];
    core.dar[i] = dst.wrapping_add(src);
    Ok(Cycles(8))
}

/// ADDA <ea>,Ax: Ax is loaded before the source operand is resolved, so
/// that a pre/post-modifying source through the same register still adds
/// the original value.
pub fn adda(core: &mut Core, size: OpSize, mode: EaMode) -> (r: Result<Cycles, Exception>)
    requires
        old(core)@.wf(),
    ensures
        (final(core)@, r) == adda_spec(old(core)@, size, mode),
        final(core)@.wf(),
{
    let i: usize = crate::bits::ir_ax(core.ir);
    let dst: u32 = core.dar[i];
    match src_value(core, mode, size) {
        Err(e) => Err(e),
        Ok(src) => {
            let v: u32 = match size {
                OpSize::Long => dst.wrapping_add(src),
                _ => dst.wrapping_add(sign_extend_16(src)),
            };
            core.dar[i] = v;
            Ok(Cycles(cycles_adda(size, mode)))
        },
    }
}

/// ADDX Dy,Dx.
pub fn addx_rr(core: &mut Core, size: OpSize) -> (r: Result<Cycles, Exception>)
    requires
        old(core)@.wf(),
    ensures
        (final(core)@, r) == addx_rr_spec(old(core)@, size),
        final(core)@.wf(),
{
    let i: usize = ir_dx(core.ir);
    let dst: u32 = core.dar[i];
    let src: u32 = crate::operator::dy(core);
    let res: u32 = addx_common(core, size, dst, src);
    core.dar[i] = merge(size, dst, res);
    let cycles: i32 = match size {
        OpSize::Long => 8,
        _ => 4,
    };
    Ok(Cycles(cycles))
}

/// ADDX -(Ay),-(Ax).
pub fn addx_mm(core: &mut Core, size: OpSize) -> (r: Result<Cycles, Exception>)
    requires
        old(core)@.wf(),
    ensures
        (final(core)@, r) == addx_mm_spec(old(core)@, size),
        final(core)@.wf(),
{
    let cycles: i32 = match size {
        OpSize::Long => 30,
        _ => 18,
    };
    match src_value(core, EaMode::PreDec, size) {
        Err(e) => Err(e),
        Ok(src) => {
            match ax_pd(core, size) {
                Err(e) => Err(e),
                Ok((dst, ea)) => {
                    let res: u32 = addx_common(core, size, dst, src);
                    match write_sized(core, ea, size, merge(size, dst, res)) {
                        Err(e) => Err(e),
                        Ok(u) => Ok(Cycles(cycles)),
                    }
                },
            }
        },
    }
}

/// ABCD Dy,Dx.
pub fn abcd_8_rr(core: &mut Core) -> (r: Result<Cycles, Exception>)
    requires
        old(core)@.wf(),
    ensures
        (final(core)@, r) == abcd_rr_spec(old(core)@),
        final(core)@.wf(),
{
    let i: usize = ir_dx(core.ir);
    let dst: u32 = core.dar[i];
    let src: u32 = crate::operator::dy(core);
    let res: u32 = abcd_8_common(core, dst, src);
    core.dar[i] = (dst & 0xffffff00) | res;
    Ok(Cycles(6))
}

/// ABCD -(Ay),-(Ax).
pub fn abcd_8_mm(core: &mut Core) -> (r: Result<Cycles, Exception>)
    requires
        old(core)@.wf(),
    ensures
        (final(core)@, r) == abcd_mm_spec(old(core)@),
        final(core)@.wf(),
{
    match src_value(core, EaMode::PreDec, OpSize::Byte) {
        Err(e) => Err(e),
        Ok(src) => {
            match ax_pd(core, OpSize::Byte) {
                Err(e) => Err(e),
                Ok((dst, ea)) => {
                    let res: u32 = abcd_8_common(core, dst, src);
                    match core.write_data_byte(ea, (dst & 0xffffff00) | res) {
                        Err(e) => Err(e),
                        Ok(u) => Ok(Cycles(18)),
                    }
                },
            }
        },
    }
}

/// ANDI #imm,CCR.
pub fn andi_16_toc(core: &mut Core) -> (r: Result<Cycles, Exception>)
    requires
        old(core)@.wf(),
    ensures
        (final(core)@, r) == andi_toc_spec(old(core)@),
        final(core)@.wf(),
{
    let dst: u32 = core.condition_code_register();
    match core.read_imm_word() {
        Err(e) => Err(e),
        Ok(w) => {
            core.ccr_to_flags(dst & (w & 0xff));
            Ok(Cycles(20))
        },
    }
}

/// ASR/ASL of a data register by a resolved count.
pub fn shift_dy(core: &mut Core, left: bool, size: OpSize, count: u32) -> (r: Result<
    Cycles,
    Exception,
>)
    requires
        old(core)@.wf(),
    ensures
        (final(core)@, r) == shift_spec(old(core)@, left, size, count),
        final(core)@.wf(),
{
    proof {
        crate::bits::lemma_bit_field_bounds();
    }
    let shift: u32 = count & 0x3f;
    let i: usize = ir_dy(core.ir);
    let dst: u32 = core.dar[i];
    let res: u32 = if left {
        asl_common(core, size, dst, shift)
    } else {
        asr_common(core, size, dst, shift)
    };
    core.dar[i] = merge(size, dst, res);
    Ok(Cycles(cycles_shift(size) + 2 * (shift as i32)))
}

/// Execute one dispatched operation against the core.
#[verifier::rlimit(60)]
pub fn execute_op(core: &mut Core, op: Op) -> (r: Result<Cycles, Exception>)
    requires
        old(core)@.wf(),
    ensures
        (final(core)@, r) == execute_op_spec(old(core)@, op),
        final(core)@.wf(),
{
    match op {
        Op::Illegal => illegal(core),
        Op::SetD0 => set_d0(core),
        Op::SetD1 => set_d1(core),
        Op::SetDx => set_dx(core),
        Op::AbcdRr => abcd_8_rr(core),
        Op::AbcdMm => abcd_8_mm(core),
        Op::AddEr(size, mode) => alu_er(core, AluOp::Add, size, mode),
        Op::AddRe(size, mode) => alu_re(core, AluOp::Add, size, mode),
        Op::Adda(size, mode) => adda(core, size, mode),
        Op::Addi(size, mode) => alu_i(core, AluOp::Add, size, mode),
        Op::Addq(size, mode) => addq(core, size, mode),
        Op::AddqA(size) => match size {
            OpSize::Long => addq_32_a(core),
            _ => addq_16_a(core),
        },
        Op::AddxRr(size) => addx_rr(core, size),
        Op::AddxMm(size) => addx_mm(core, size),
        Op::AndEr(size, mode) => alu_er(core, AluOp::And, size, mode),
        Op::AndRe(size, mode) => alu_re(core, AluOp::And, size, mode),
        Op::Andi(size, mode) => alu_i(core, AluOp::And, size, mode),
        Op::AndiToCcr => andi_16_toc(core),
        Op::AsrS(size) => {
            let q: u32 = quick(core);
            shift_dy(core, false, size, q)
        },
        Op::AsrR(size) => {
            let c: u32 = dx(core);
            shift_dy(core, false, size, c)
        },
        Op::AslS(size) => {
            let q: u32 = quick(core);
            shift_dy(core, true, size, q)
        },
        Op::AslR(size) => {
            let c: u32 = dx(core);
            shift_dy(core, true, size, c)
        },
    }
}

/// Build the dispatch table: 65,536 entries, one per IR value, realising
/// exactly the `op_for` mapping; unassigned slots hold `Op::Illegal`.
pub fn instruction_set() -> (t: InstructionSet)
    ensures
        t@.len() == 0x10000,
        forall|i: int| 0 <= i < 0x10000 ==> t@[i] == op_for(i as u16),
{
    let mut t: Vec<Op> = Vec::new();
    let mut i: usize = 0;
    while i < 0x10000
        invariant
            i <= 0x10000,
            t@.len() == i,
            forall|j: int| 0 <= j < i ==> t@[j] == op_for(j as u16),
        decreases 0x10000 - i,
    {
        t.push(decode(i as u16));
        i = i + 1;
    }
    t
}

/// Fetch the word at PC into IR (advancing PC past it) and execute the
/// operation the dispatch table assigns it.
pub open spec fn execute_one_spec(s: CoreView) -> (CoreView, Result<Cycles, Exception>) {
    let (s1, r) = read_imm_word_spec(s);
    match r {
        Err(e) => (s1, Err(e)),
        Ok(w) => {
            let s2 = CoreView { ir: ((w & 0xffff) as u16), ..s1 };
            execute_op_spec(s2, op_for(s2.ir))
        },
    }
}

/// Cycles still owed by `execute` when `total` of the requested `n`
/// have accumulated.
pub open spec fn remaining_spec(n: int, total: int) -> int {
    if n - total > 0 {
        n - total
    } else {
        0
    }
}

/// Repeated execution until at least `budget` cycles have accumulated
/// or an exception surfaces; the total is exact, not clipped.
pub open spec fn run_spec(s: CoreView, budget: int) -> (CoreView, Result<int, Exception>)
    decreases budget,
{
    if budget <= 0 {
        (s, Ok(0int))
    } else {
        let (s1, r) = execute_one_spec(s);
        match r {
            Err(e) => (s1, Err(e)),
            Ok(c) => if c.0 <= 0 {
                (s1, Ok(c.0 as int))
            } else {
                let next = if budget - c.0 > 0 {
                    budget - c.0
                } else {
                    0int
                };
                let (s2, r2) = run_spec(s1, next);
                match r2 {
                    Err(e) => (s2, Err(e)),
                    Ok(t) => (s2, Ok(c.0 + t)),
                }
            },
        }
    }
}

proof fn lemma_cycles_er(s: CoreView, alu: AluOp, size: OpSize, mode: EaMode)
    ensures
        alu_er_spec(s, alu, size, mode).1 matches Ok(c) ==> 1 <= c.0 <= 200,
{
    assert(4 <= cycles_alu_er_spec(size, mode) <= 22);
}

proof fn lemma_cycles_re(s: CoreView, alu: AluOp, size: OpSize, mode: EaMode)
    ensures
        alu_re_spec(s, alu, size, mode).1 matches Ok(c) ==> 1 <= c.0 <= 200,
{
    assert(4 <= cycles_alu_re_spec(size, mode) <= 28);
}

proof fn lemma_cycles_adda(s: CoreView, size: OpSize, mode: EaMode)
    ensures
        adda_spec(s, size, mode).1 matches Ok(c) ==> 1 <= c.0 <= 200,
{
    assert(4 <= cycles_adda_spec(size, mode) <= 26);
}

proof fn lemma_cycles_i(s: CoreView, alu: AluOp, size: OpSize, mode: EaMode)
    ensures
        alu_i_spec(s, alu, size, mode).1 matches Ok(c) ==> 1 <= c.0 <= 200,
{
    assert(4 <= cycles_addi_spec(size, mode) <= 36);
    assert(4 <= cycles_andi_spec(size, mode) <= 36);
}

proof fn lemma_cycles_addq(s: CoreView, size: OpSize, mode: EaMode)
    ensures
        addq_spec(s, size, mode).1 matches Ok(c) ==> 1 <= c.0 <= 200,
{
    assert(4 <= cycles_addq_spec(size, mode) <= 28);
}

proof fn lemma_cycles_shift(s: CoreView, left: bool, size: OpSize, count: u32)
    ensures
        shift_spec(s, left, size, count).1 matches Ok(c) ==> 1 <= c.0 <= 200,
{
    crate::bits::lemma_bit_field_bounds();
    assert(count & 0x3f <= 0x3f);
    assert(6 <= cycles_shift_spec(size) <= 8);
}

/// Every operation that completes reports between 1 and 200 cycles:
/// the fixed counts lie between 2 and 36, and a shift adds at most
/// twice a count below 64 to its base.
#[verifier::rlimit(100)]
pub proof fn lemma_op_cycles(s: CoreView, op: Op)
    ensures
        execute_op_spec(s, op).1 matches Ok(c) ==> 1 <= c.0 <= 200,
{
    match op {
        Op::AddEr(size, mode) => {
            lemma_cycles_er(s, AluOp::Add, size, mode);
        },
        Op::AndEr(size, mode) => {
            lemma_cycles_er(s, AluOp::And, size, mode);
        },
        Op::AddRe(size, mode) => {
            lemma_cycles_re(s, AluOp::Add, size, mode);
        },
        Op::AndRe(size, mode) => {
            lemma_cycles_re(s, AluOp::And, size, mode);
        },
        Op::Adda(size, mode) => {
            lemma_cycles_adda(s, size, mode);
        },
        Op::Addi(size, mode) => {
            lemma_cycles_i(s, AluOp::Add, size, mode);
        },
        Op::Andi(size, mode) => {
            lemma_cycles_i(s, AluOp::And, size, mode);
        },
        Op::Addq(size, mode) => {
            lemma_cycles_addq(s, size, mode);
        },
        Op::AsrS(size) => {
            lemma_cycles_shift(s, false, size, quick_spec(s.ir));
        },
        Op::AsrR(size) => {
            lemma_cycles_shift(s, false, size, dx_spec(s));
        },
        Op::AslS(size) => {
            lemma_cycles_shift(s, true, size, quick_spec(s.ir));
        },
        Op::AslR(size) => {
            lemma_cycles_shift(s, true, size, dx_spec(s));
        },
        _ => {},
    }
}

/// One fetched and executed instruction reports between 1 and 200
/// cycles when it completes.
pub proof fn lemma_step_cycles(s: CoreView)
    ensures
        execute_one_spec(s).1 matches Ok(c) ==> 1 <= c.0 <= 200,
{
    let (s1, r) = read_imm_word_spec(s);
    match r {
        Err(e) => {},
        Ok(w) => {
            let s2 = CoreView { ir: ((w & 0xffff) as u16), ..s1 };
            lemma_op_cycles(s2, op_for(s2.ir));
        },
    }
}

impl Core {
    /// A fresh core: PC 0, registers zeroed but for A7 = `initial_sp`,
    /// flag slots zeroed (so N, V, C, X clear and Z set), zeroed memory,
    /// and the dispatch table built once.
    pub fn new(initial_sp: u32) -> (core: Core)
        ensures
            core@.wf(),
            core@.pc == 0,
            core@.ir == 0,
            core@.dar.len() == 16,
            core@.dar[15] == initial_sp,
            forall|i: int| 0 <= i < 15 ==> core@.dar[i] == 0,
            core@.mem.len() == MEM_SIZE,
            forall|i: int| 0 <= i < MEM_SIZE ==> core@.mem[i] == 0,
            core@.n_flag == 0 && core@.v_flag == 0 && core@.c_flag == 0 && core@.x_flag == 0
                && core@.not_z_flag == 0,
    {
        let mut dar: Vec<u32> = Vec::new();
        let mut i: usize = 0;
        while i < 15
            invariant
                i <= 15,
                dar@.len() == i,
                forall|j: int| 0 <= j < i ==> dar@[j] == 0,
            decreases 15 - i,
        {
            dar.push(0);
            i = i + 1;
        }
        dar.push(initial_sp);
        let mut mem: Vec<u8> = Vec::new();
        let mut k: usize = 0;
        while k < MEM_SIZE
            invariant
                k <= MEM_SIZE,
                mem@.len() == k,
                forall|j: int| 0 <= j < k ==> mem@[j] == 0,
            decreases MEM_SIZE - k,
        {
            mem.push(0);
            k = k + 1;
        }
        Core {
            dar,
            pc: 0,
            ir: 0,
            mem,
            ops: instruction_set(),
            n_flag: 0,
            v_flag: 0,
            c_flag: 0,
            x_flag: 0,
            not_z_flag: 0,
        }
    }

    /// Fetch, decode through the dispatch table and execute one
    /// instruction.
    pub fn execute_one(&mut self) -> (r: Result<Cycles, Exception>)
        requires
            old(self)@.wf(),
        ensures
            (final(self)@, r) == execute_one_spec(old(self)@),
            final(self)@.wf(),
    {
        proof {
            crate::bits::lemma_bit_field_bounds();
        }
        match self.read_imm_word() {
            Err(e) => Err(e),
            Ok(w) => {
                self.ir = (w & 0xffff) as u16;
                let idx: usize = self.ir as usize;
                let op: Op = self.ops[idx];
                execute_op(self, op)
            },
        }
    }

    /// Run instructions until at least `n_cycles` cycles have
    /// accumulated or an exception surfaces; on success the exact
    /// total is returned.
    pub fn execute(&mut self, n_cycles: i32) -> (r: Result<Cycles, Exception>)
        requires
            old(self)@.wf(),
            n_cycles <= 0x7fffff00,
        ensures
            ({
                let (s2, r2) = run_spec(old(self)@, n_cycles as int);
                final(self)@ == s2 && (match (r, r2) {
                    (Ok(c), Ok(t)) => c.0 == t,
                    (Err(e), Err(e2)) => e == e2,
                    _ => false,
                })
            }),
            final(self)@.wf(),
    {
        let mut total: i32 = 0;
        while total < n_cycles
            invariant
                self@.wf(),
                n_cycles <= 0x7fffff00,
                0 <= total <= 0x7fffff00 + 199,
                ({
                    let (sf, rf) = run_spec(old(self)@, n_cycles as int);
                    let (s2, r2) = run_spec(self@, n_cycles - total);
                    sf == s2 && (match (rf, r2) {
                        (Ok(t1), Ok(t2)) => t1 == total + t2,
                        (Err(e1), Err(e2)) => e1 == e2,
                        _ => false,
                    })
                }),
            decreases remaining_spec(n_cycles as int, total as int),
        {
            let ghost spre = self@;
            let ghost tpre = total as int;
            match self.execute_one() {
                Err(e) => {
                    return Err(e);
                },
                Ok(c) => {
                    proof {
                        lemma_step_cycles(spre);
                        assert(execute_one_spec(spre).1 == Ok::<Cycles, Exception>(c));
                        assert(1 <= c.0 <= 200);
                    }
                    total = total + c.0;
                    proof {
                        let m = n_cycles - tpre;
                        assert(run_spec(spre, m) == ({
                            let next = if m - c.0 > 0 {
                                m - c.0
                            } else {
                                0int
                            };
                            let (sr, rr) = run_spec(self@, next);
                            match rr {
                                Err(e) => (sr, Err::<int, Exception>(e)),
                                Ok(t) => (sr, Ok::<int, Exception>(c.0 + t)),
                            }
                        }));
                        if m - c.0 <= 0 {
                            assert(run_spec(self@, m - c.0) == (
                                self@,
                                Ok::<int, Exception>(0),
                            ));
                            assert(run_spec(self@, 0int) == (self@, Ok::<int, Exception>(0)));
                        }
                    }
                },
            }
        }
        Ok(Cycles(total))
    }
}

} // verus!

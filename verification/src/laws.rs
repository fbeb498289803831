//! Crate-wide laws: proofs of the invariants that hold across the
//! instruction set, stated over the spec-level transitions the
//! handlers are verified against.

use vstd::prelude::*;
use crate::bits::{ir_ax_spec, ir_ay_spec, ir_dx_spec, ir_dy_spec, lemma_bit_field_bounds};
use crate::cpu::{ccr_spec, set_ccr_spec, CoreView, Cycles, Exception};
use crate::decode::{op_for, EaMode, Op, OpSize};
use crate::operator::{ea_of_spec, src_value_spec};
use crate::ops::{abcd_rr_spec, addq_spec, addx_common_spec, addx_rr_spec, alu_common_spec,
    alu_er_spec, alu_i_spec, asl_common_spec, asr_common_spec, execute_op_spec, shift_spec, AluOp};

verus! {

/// Bit-slice identities of the IR register fields: Dx is bits 11:9,
/// Dy is bits 2:0, and the address-register indices sit 8 above them.
pub proof fn lemma_ir_bit_slices(ir: u16)
    ensures
        ir_dx_spec(ir) == ((ir >> 9) & 7) as usize,
        ir_dy_spec(ir) == (ir & 7) as usize,
        ir_ax_spec(ir) == 8 + ir_dx_spec(ir),
        ir_ay_spec(ir) == 8 + ir_dy_spec(ir),
{
}

/// Unpacking a CCR byte and packing it again yields the byte's low
/// five flag bits.
pub proof fn lemma_ccr_unpack_pack(s: CoreView, ccr: u32)
    ensures
        ccr_spec(set_ccr_spec(s, ccr)) == ccr & 0x1f,
{
    assert((((ccr & 0x10) << 4) & 0x100) >> 4 | ((((ccr & 0x08) << 4) & 0x80) >> 4) | (if ccr
        & 0x04 == 0 {
        0u32
    } else {
        4u32
    }) | ((((ccr & 0x02) << 6) & 0x80) >> 6) | ((((ccr & 0x01) << 8) & 0x100) >> 8) == ccr & 0x1f)
        by (bit_vector);
}

/// The packed CCR always fits in its five flag bits.
pub proof fn lemma_ccr_in_range(s: CoreView)
    ensures
        ccr_spec(s) <= 0x1f,
{
    let n = s.n_flag;
    let v = s.v_flag;
    let c = s.c_flag;
    let x = s.x_flag;
    let nz = s.not_z_flag;
    assert(((x & 0x100) >> 4) | ((n & 0x80) >> 4) | (if nz == 0 {
        4u32
    } else {
        0u32
    }) | ((v & 0x80) >> 6) | ((c & 0x100) >> 8) <= 0x1f) by (bit_vector);
}

/// Synchronising the flag slots with their own packed CCR is
/// idempotent: doing it twice equals doing it once.
pub proof fn lemma_ccr_round_trip(s: CoreView)
    ensures
        ({
            let t = set_ccr_spec(s, ccr_spec(s));
            set_ccr_spec(t, ccr_spec(t)) == t
        }),
{
    let p = ccr_spec(s);
    let t = set_ccr_spec(s, p);
    lemma_ccr_in_range(s);
    lemma_ccr_unpack_pack(s, p);
    assert(p & 0x1f == p) by (bit_vector)
        requires
            p <= 0x1f,
    ;
}

/// The dispatch table of a well-formed core covers every IR value with
/// the decoded operation, and an unassigned encoding executes to an
/// illegal-instruction signal that leaves the state untouched.
pub proof fn lemma_dispatch_covers(s: CoreView, ir: u16)
    requires
        s.wf(),
    ensures
        s.ops[ir as int] == op_for(ir),
        op_for(ir) == Op::Illegal ==> execute_op_spec(s, op_for(ir)) == (
            s,
            Err::<Cycles, Exception>(Exception::IllegalInstruction(s.ir, s.pc.wrapping_sub(2))),
        ),
{
}

/// Fetching an unassigned opcode reports exactly that opcode together
/// with the address it was fetched from, and changes nothing beyond
/// the fetch itself: PC has moved past the word and IR holds it.
pub proof fn lemma_unassigned_fetch(s: CoreView)
    ensures
        ({
            let (s1, r) = crate::cpu::read_imm_word_spec(s);
            match r {
                Ok(w) => op_for((w & 0xffff) as u16) == Op::Illegal
                    ==> crate::ops::execute_one_spec(s) == (
                    CoreView { ir: ((w & 0xffff) as u16), ..s1 },
                    Err::<Cycles, Exception>(
                        Exception::IllegalInstruction(((w & 0xffff) as u16), s.pc),
                    ),
                ),
                Err(e) => true,
            }
        }),
{
    let (s1, r) = crate::cpu::read_imm_word_spec(s);
    match r {
        Ok(w) => {
            let pc = s.pc;
            assert(pc.wrapping_add(2).wrapping_sub(2) == pc) by (bit_vector);
        },
        Err(e) => {},
    }
}

/// Resolving an effective address touches at most the Ay register, the
/// PC, and nothing else: IR, flags and the other registers survive.
pub proof fn lemma_ea_of_frame(s: CoreView, mode: EaMode, size: OpSize)
    requires
        s.dar.len() == 16,
    ensures
        ({
            let (s1, r) = ea_of_spec(s, mode, size);
            s1.ir == s.ir && s1.mem == s.mem && s1.ops == s.ops && s1.n_flag == s.n_flag
                && s1.v_flag == s.v_flag && s1.c_flag == s.c_flag && s1.x_flag == s.x_flag
                && s1.not_z_flag == s.not_z_flag && s1.dar.len() == s.dar.len() && (forall|i: int|
                0 <= i < s.dar.len() && i != ir_ay_spec(s.ir) ==> s1.dar[i] == s.dar[i])
        }),
{
    lemma_bit_field_bounds();
    match mode {
        EaMode::DataDirect => {},
        EaMode::AddrDirect => {},
        EaMode::AddrIndirect => {},
        EaMode::PostInc => {},
        EaMode::PreDec => {},
        EaMode::Displacement => {},
        EaMode::Index => {},
        EaMode::AbsShort => {},
        EaMode::AbsLong => {},
        EaMode::PcDisplacement => {},
        EaMode::PcIndex => {},
        EaMode::Immediate => {},
    }
}

/// Resolving a source operand has the same frame as resolving its
/// effective address.
pub proof fn lemma_src_value_frame(s: CoreView, mode: EaMode, size: OpSize)
    requires
        s.dar.len() == 16,
    ensures
        ({
            let (s1, r) = src_value_spec(s, mode, size);
            s1.ir == s.ir && s1.mem == s.mem && s1.ops == s.ops && s1.n_flag == s.n_flag
                && s1.v_flag == s.v_flag && s1.c_flag == s.c_flag && s1.x_flag == s.x_flag
                && s1.not_z_flag == s.not_z_flag && s1.dar.len() == s.dar.len() && (forall|i: int|
                0 <= i < s.dar.len() && i != ir_ay_spec(s.ir) ==> s1.dar[i] == s.dar[i])
        }),
{
    lemma_ea_of_frame(s, mode, size);
}

/// Writes to an address register never touch the flag slots: ADDA and
/// the address forms of ADDQ leave all five byte-identical, whether
/// they complete or fail on the bus.
pub proof fn lemma_addr_reg_writes_preserve_flags(s: CoreView, op: Op)
    requires
        s.dar.len() == 16,
        op matches Op::Adda(_, _) || op matches Op::AddqA(_),
    ensures
        ({
            let (s2, r) = execute_op_spec(s, op);
            s2.n_flag == s.n_flag && s2.v_flag == s.v_flag && s2.c_flag == s.c_flag && s2.x_flag
                == s.x_flag && s2.not_z_flag == s.not_z_flag
        }),
{
    match op {
        Op::Adda(size, mode) => {
            lemma_src_value_frame(s, mode, size);
        },
        _ => {},
    }
}

/// Bit facts behind the preserved-upper-bits law: merging a masked
/// result into the low lanes leaves the upper lanes alone, and the
/// width-sized results stay within their width.
proof fn lemma_merge_mask_facts()
    by (bit_vector)
    ensures
        forall|d: u32, r: u32|
            r <= 0xff ==> #[trigger] (((d & 0xffffff00) | r) & 0xffffff00) == d & 0xffffff00,
        forall|d: u32, r: u32|
            r <= 0xffff ==> #[trigger] (((d & 0xffff0000) | r) & 0xffff0000) == d & 0xffff0000,
        forall|x: u32, y: u32| x <= 0xff && y <= 0xff ==> #[trigger] (x | y) <= 0xff,
        forall|x: u32, y: u32| x <= 0xffff && y <= 0xffff ==> #[trigger] (x | y) <= 0xffff,
        forall|x: u32, c: u32| #[trigger] (x >> c) <= x,
{
}

/// Operations this law ranges over: every byte or word write whose
/// destination is a data register.
pub open spec fn writes_data_reg_low(op: Op) -> bool {
    match op {
        Op::AddEr(size, mode) => size != OpSize::Long,
        Op::AndEr(size, mode) => size != OpSize::Long,
        Op::AddxRr(size) => size != OpSize::Long,
        Op::AbcdRr => true,
        Op::Addi(size, mode) => size != OpSize::Long && mode == EaMode::DataDirect,
        Op::Andi(size, mode) => size != OpSize::Long && mode == EaMode::DataDirect,
        Op::Addq(size, mode) => size != OpSize::Long && mode == EaMode::DataDirect,
        Op::AsrS(size) => size != OpSize::Long,
        Op::AsrR(size) => size != OpSize::Long,
        Op::AslS(size) => size != OpSize::Long,
        Op::AslR(size) => size != OpSize::Long,
        _ => false,
    }
}

/// The data register such an operation writes.
pub open spec fn data_dest_spec(s: CoreView, op: Op) -> int {
    match op {
        Op::AddEr(size, mode) => ir_dx_spec(s.ir) as int,
        Op::AndEr(size, mode) => ir_dx_spec(s.ir) as int,
        Op::AddxRr(size) => ir_dx_spec(s.ir) as int,
        Op::AbcdRr => ir_dx_spec(s.ir) as int,
        _ => ir_dy_spec(s.ir) as int,
    }
}

/// The register bits such an operation must not disturb.
pub open spec fn upper_mask_spec(op: Op) -> u32 {
    match op {
        Op::AddEr(size, _) => lane_mask_spec(size),
        Op::AndEr(size, _) => lane_mask_spec(size),
        Op::AddxRr(size) => lane_mask_spec(size),
        Op::Addi(size, _) => lane_mask_spec(size),
        Op::Andi(size, _) => lane_mask_spec(size),
        Op::Addq(size, _) => lane_mask_spec(size),
        Op::AsrS(size) => lane_mask_spec(size),
        Op::AsrR(size) => lane_mask_spec(size),
        Op::AslS(size) => lane_mask_spec(size),
        Op::AslR(size) => lane_mask_spec(size),
        _ => 0xffffff00u32,
    }
}

/// Register lanes above the written width, by operation size.
pub open spec fn lane_mask_spec(size: OpSize) -> u32 {
    match size {
        OpSize::Byte => 0xffffff00u32,
        _ => 0xffff0000u32,
    }
}

/// The width-sized ALU results stay within their width.
proof fn lemma_alu_res_width(s: CoreView, alu: AluOp, size: OpSize, dst: u32, src: u32)
    requires
        size != OpSize::Long,
    ensures
        size == OpSize::Byte ==> alu_common_spec(s, alu, size, dst, src).1 <= 0xff,
        size == OpSize::Word ==> alu_common_spec(s, alu, size, dst, src).1 <= 0xffff,
{
    lemma_bit_field_bounds();
}

/// The width-sized add-with-extend results stay within their width.
proof fn lemma_addx_res_width(s: CoreView, size: OpSize, dst: u32, src: u32)
    requires
        size != OpSize::Long,
    ensures
        size == OpSize::Byte ==> addx_common_spec(s, size, dst, src).1 <= 0xff,
        size == OpSize::Word ==> addx_common_spec(s, size, dst, src).1 <= 0xffff,
{
    lemma_bit_field_bounds();
}

/// The width-sized shift results stay within their width.
proof fn lemma_shift_res_width(s: CoreView, left: bool, size: OpSize, dst: u32, shift: u32)
    requires
        size != OpSize::Long,
    ensures
        size == OpSize::Byte && left ==> asl_common_spec(s, size, dst, shift).1 <= 0xff,
        size == OpSize::Word && left ==> asl_common_spec(s, size, dst, shift).1 <= 0xffff,
        size == OpSize::Byte && !left ==> asr_common_spec(s, size, dst, shift).1 <= 0xff,
        size == OpSize::Word && !left ==> asr_common_spec(s, size, dst, shift).1 <= 0xffff,
{
    lemma_bit_field_bounds();
    lemma_merge_mask_facts();
}

proof fn lemma_upper_er(s: CoreView, alu: AluOp, size: OpSize, mode: EaMode)
    requires
        s.wf(),
        size != OpSize::Long,
    ensures
        ({
            let (s2, r) = alu_er_spec(s, alu, size, mode);
            r matches Ok(c) ==> s2.dar.len() == 16 && (s2.dar[ir_dx_spec(s.ir) as int]
                & lane_mask_spec(size)) == (s.dar[ir_dx_spec(s.ir) as int] & lane_mask_spec(size))
        }),
{
    lemma_bit_field_bounds();
    lemma_merge_mask_facts();
    lemma_src_value_frame(s, mode, size);
    let (s1, r) = src_value_spec(s, mode, size);
    match r {
        Ok(src) => {
            lemma_alu_res_width(s1, alu, size, s1.dar[ir_dx_spec(s1.ir) as int], src);
        },
        Err(e) => {},
    }
}

proof fn lemma_upper_i(s: CoreView, alu: AluOp, size: OpSize)
    requires
        s.wf(),
        size != OpSize::Long,
    ensures
        ({
            let (s2, r) = alu_i_spec(s, alu, size, EaMode::DataDirect);
            r matches Ok(c) ==> s2.dar.len() == 16 && (s2.dar[ir_dy_spec(s.ir) as int]
                & lane_mask_spec(size)) == (s.dar[ir_dy_spec(s.ir) as int] & lane_mask_spec(size))
        }),
{
    lemma_bit_field_bounds();
    lemma_merge_mask_facts();
    lemma_src_value_frame(s, EaMode::Immediate, size);
    let (s1, r) = src_value_spec(s, EaMode::Immediate, size);
    match r {
        Ok(src) => {
            lemma_alu_res_width(s1, alu, size, s1.dar[ir_dy_spec(s1.ir) as int], src);
        },
        Err(e) => {},
    }
}

proof fn lemma_upper_addq_d(s: CoreView, size: OpSize)
    requires
        s.wf(),
        size != OpSize::Long,
    ensures
        ({
            let (s2, r) = addq_spec(s, size, EaMode::DataDirect);
            r matches Ok(c) ==> s2.dar.len() == 16 && (s2.dar[ir_dy_spec(s.ir) as int]
                & lane_mask_spec(size)) == (s.dar[ir_dy_spec(s.ir) as int] & lane_mask_spec(size))
        }),
{
    lemma_bit_field_bounds();
    lemma_merge_mask_facts();
    lemma_alu_res_width(
        s,
        AluOp::Add,
        size,
        s.dar[ir_dy_spec(s.ir) as int],
        crate::operator::quick_spec(s.ir),
    );
}

proof fn lemma_upper_addx_rr(s: CoreView, size: OpSize)
    requires
        s.wf(),
        size != OpSize::Long,
    ensures
        ({
            let (s2, r) = addx_rr_spec(s, size);
            r matches Ok(c) ==> s2.dar.len() == 16 && (s2.dar[ir_dx_spec(s.ir) as int]
                & lane_mask_spec(size)) == (s.dar[ir_dx_spec(s.ir) as int] & lane_mask_spec(size))
        }),
{
    lemma_bit_field_bounds();
    lemma_merge_mask_facts();
    lemma_addx_res_width(
        s,
        size,
        s.dar[ir_dx_spec(s.ir) as int],
        crate::operator::dy_spec(s),
    );
}

proof fn lemma_upper_abcd_rr(s: CoreView)
    requires
        s.wf(),
    ensures
        ({
            let (s2, r) = abcd_rr_spec(s);
            r matches Ok(c) ==> s2.dar.len() == 16 && (s2.dar[ir_dx_spec(s.ir) as int]
                & 0xffffff00) == (s.dar[ir_dx_spec(s.ir) as int] & 0xffffff00)
        }),
{
    lemma_bit_field_bounds();
    lemma_merge_mask_facts();
}

proof fn lemma_upper_shift(s: CoreView, left: bool, size: OpSize, count: u32)
    requires
        s.wf(),
        size != OpSize::Long,
    ensures
        ({
            let (s2, r) = shift_spec(s, left, size, count);
            r matches Ok(c) ==> s2.dar.len() == 16 && (s2.dar[ir_dy_spec(s.ir) as int]
                & lane_mask_spec(size)) == (s.dar[ir_dy_spec(s.ir) as int] & lane_mask_spec(size))
        }),
{
    lemma_bit_field_bounds();
    lemma_merge_mask_facts();
    lemma_shift_res_width(s, left, size, s.dar[ir_dy_spec(s.ir) as int], count & 0x3f);
}

/// A byte or word write to a data register preserves the unused upper
/// bits of the destination register.
#[verifier::rlimit(100)]
pub proof fn lemma_data_reg_writes_preserve_upper(s: CoreView, op: Op)
    requires
        s.wf(),
        writes_data_reg_low(op),
    ensures
        ({
            let (s2, r) = execute_op_spec(s, op);
            r matches Ok(c) ==> s2.dar.len() == 16 && (s2.dar[data_dest_spec(s, op)] & upper_mask_spec(
                op,
            )) == (s.dar[data_dest_spec(s, op)] & upper_mask_spec(op))
        }),
{
    match op {
        Op::AddEr(size, mode) => {
            lemma_upper_er(s, AluOp::Add, size, mode);
        },
        Op::AndEr(size, mode) => {
            lemma_upper_er(s, AluOp::And, size, mode);
        },
        Op::Addi(size, mode) => {
            lemma_upper_i(s, AluOp::Add, size);
        },
        Op::Andi(size, mode) => {
            lemma_upper_i(s, AluOp::And, size);
        },
        Op::Addq(size, mode) => {
            lemma_upper_addq_d(s, size);
        },
        Op::AddxRr(size) => {
            lemma_upper_addx_rr(s, size);
        },
        Op::AbcdRr => {
            lemma_upper_abcd_rr(s);
        },
        Op::AsrS(size) => {
            lemma_upper_shift(s, false, size, crate::operator::quick_spec(s.ir));
        },
        Op::AsrR(size) => {
            lemma_upper_shift(s, false, size, crate::operator::dx_spec(s));
        },
        Op::AslS(size) => {
            lemma_upper_shift(s, true, size, crate::operator::quick_spec(s.ir));
        },
        Op::AslR(size) => {
            lemma_upper_shift(s, true, size, crate::operator::dx_spec(s));
        },
        _ => {},
    }
}

} // verus!

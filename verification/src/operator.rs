//! Effective-address operators: resolve the operand a decoded addressing
//! mode denotes, applying the mode's side effects (address-register
//! pre-decrement and post-increment, extension-word fetches that advance
//! the PC) and reading through the bus where the operand lives in memory.

use vstd::prelude::*;
use crate::bits::{
    ir_ax, ir_ax_spec, ir_ay, ir_ay_spec, ir_dx, ir_dx_spec, ir_dy, ir_dy_spec,
    lemma_bit_field_bounds, sign_extend_16, sign_extend_16_spec, sign_extend_8, sign_extend_8_spec,
};
use crate::cpu::{
    read_byte_spec, read_imm_long_spec, read_imm_word_spec, read_long_spec, read_word_spec, Core,
    CoreView, Exception,
};
use crate::decode::{EaMode, OpSize};

verus! {

/// Value of the Dy register the IR selects.
pub open spec fn dy_spec(s: CoreView) -> u32 {
    s.dar[ir_dy_spec(s.ir) as int]
}

/// Value of the Dx register the IR selects.
pub open spec fn dx_spec(s: CoreView) -> u32 {
    s.dar[ir_dx_spec(s.ir) as int]
}

/// Value of the Ay register the IR selects.
pub open spec fn ay_spec(s: CoreView) -> u32 {
    s.dar[ir_ay_spec(s.ir) as int]
}

/// Value of the Ax register the IR selects.
pub open spec fn ax_spec(s: CoreView) -> u32 {
    s.dar[ir_ax_spec(s.ir) as int]
}

/// The state with the Ay register replaced.
pub open spec fn with_ay_spec(s: CoreView, v: u32) -> CoreView {
    CoreView { dar: s.dar.update(ir_ay_spec(s.ir) as int, v), ..s }
}

/// The state with the Ax register replaced.
pub open spec fn with_ax_spec(s: CoreView, v: u32) -> CoreView {
    CoreView { dar: s.dar.update(ir_ax_spec(s.ir) as int, v), ..s }
}

/// The 3-bit quick immediate in IR bits 11:9; the encoding maps 0 to 8.
pub open spec fn quick_spec(ir: u16) -> u32 {
    if (ir >> 9) & 7 == 0 {
        8u32
    } else {
        (((ir >> 9) & 7) as u32)
    }
}

/// Bytes an address register moves by for pre-decrement/post-increment:
/// the operand size, except that byte accesses through A7 move by 2 to
/// keep the stack pointer even.
pub open spec fn step_spec(size: OpSize, reg: usize) -> u32 {
    match size {
        OpSize::Byte => if reg == 15 {
            2u32
        } else {
            1u32
        },
        OpSize::Word => 2u32,
        OpSize::Long => 4u32,
    }
}

/// A sized read through the bus.
pub open spec fn read_sized_spec(s: CoreView, addr: u32, size: OpSize) -> Result<u32, Exception> {
    match size {
        OpSize::Byte => read_byte_spec(s, addr),
        OpSize::Word => read_word_spec(s, addr),
        OpSize::Long => read_long_spec(s, addr),
    }
}

/// Effective address of an indexed mode: base plus index register
/// (sign-extended to 32 bits unless the brief extension word marks it
/// long) plus the sign-extended 8-bit displacement.
pub open spec fn index_ea_spec(s: CoreView, base: u32, ext: u32) -> u32 {
    let xval = s.dar[((ext >> 12) & 0xf) as int];
    let xn = if ext & 0x800 == 0 {
        sign_extend_16_spec(xval)
    } else {
        xval
    };
    base.wrapping_add(xn).wrapping_add(sign_extend_8_spec(ext))
}

/// State and effective address computed for a memory addressing mode,
/// with the mode's side effects applied. Register-direct and immediate
/// modes have no effective address; the map is idle on them.
pub open spec fn ea_of_spec(s: CoreView, mode: EaMode, size: OpSize) -> (CoreView, Result<
    u32,
    Exception,
>) {
    match mode {
        EaMode::AddrIndirect => (s, Ok(ay_spec(s))),
        EaMode::PostInc => {
            let a = ay_spec(s);
            (with_ay_spec(s, a.wrapping_add(step_spec(size, ir_ay_spec(s.ir)))), Ok(a))
        },
        EaMode::PreDec => {
            let a = ay_spec(s).wrapping_sub(step_spec(size, ir_ay_spec(s.ir)));
            (with_ay_spec(s, a), Ok(a))
        },
        EaMode::Displacement => {
            let (s1, r) = read_imm_word_spec(s);
            match r {
                Err(e) => (s1, Err(e)),
                Ok(d) => (s1, Ok(ay_spec(s1).wrapping_add(sign_extend_16_spec(d)))),
            }
        },
        EaMode::Index => {
            let (s1, r) = read_imm_word_spec(s);
            match r {
                Err(e) => (s1, Err(e)),
                Ok(ext) => (s1, Ok(index_ea_spec(s1, ay_spec(s1), ext))),
            }
        },
        EaMode::AbsShort => {
            let (s1, r) = read_imm_word_spec(s);
            match r {
                Err(e) => (s1, Err(e)),
                Ok(w) => (s1, Ok(sign_extend_16_spec(w))),
            }
        },
        EaMode::AbsLong => {
            let (s1, r) = read_imm_long_spec(s);
            match r {
                Err(e) => (s1, Err(e)),
                Ok(a) => (s1, Ok(a)),
            }
        },
        EaMode::PcDisplacement => {
            let base = s.pc;
            let (s1, r) = read_imm_word_spec(s);
            match r {
                Err(e) => (s1, Err(e)),
                Ok(d) => (s1, Ok(base.wrapping_add(sign_extend_16_spec(d)))),
            }
        },
        EaMode::PcIndex => {
            let base = s.pc;
            let (s1, r) = read_imm_word_spec(s);
            match r {
                Err(e) => (s1, Err(e)),
                Ok(ext) => (s1, Ok(index_ea_spec(s1, base, ext))),
            }
        },
        _ => (s, Ok(0u32)),
    }
}

/// State and value of a resolved source operand.
pub open spec fn src_value_spec(s: CoreView, mode: EaMode, size: OpSize) -> (CoreView, Result<
    u32,
    Exception,
>) {
    match mode {
        EaMode::DataDirect => (s, Ok(dy_spec(s))),
        EaMode::AddrDirect => (s, Ok(ay_spec(s))),
        EaMode::Immediate => {
            match size {
                OpSize::Byte => {
                    let (s1, r) = read_imm_word_spec(s);
                    match r {
                        Err(e) => (s1, Err(e)),
                        Ok(w) => (s1, Ok(w & 0xff)),
                    }
                },
                OpSize::Word => read_imm_word_spec(s),
                OpSize::Long => read_imm_long_spec(s),
            }
        },
        _ => {
            let (s1, r) = ea_of_spec(s, mode, size);
            match r {
                Err(e) => (s1, Err(e)),
                Ok(a) => (s1, read_sized_spec(s1, a, size)),
            }
        },
    }
}

/// State, prior value and effective address of a read-modify-write
/// memory destination.
pub open spec fn dst_ea_spec(s: CoreView, mode: EaMode, size: OpSize) -> (CoreView, Result<
    (u32, u32),
    Exception,
>) {
    let (s1, r) = ea_of_spec(s, mode, size);
    match r {
        Err(e) => (s1, Err(e)),
        Ok(a) => match read_sized_spec(s1, a, size) {
            Err(e) => (s1, Err(e)),
            Ok(v) => (s1, Ok((v, a))),
        },
    }
}

/// State, prior value and effective address of the -(Ax) destination
/// used by the memory forms of ABCD and ADDX.
pub open spec fn ax_pd_spec(s: CoreView, size: OpSize) -> (CoreView, Result<
    (u32, u32),
    Exception,
>) {
    let a = ax_spec(s).wrapping_sub(step_spec(size, ir_ax_spec(s.ir)));
    let s1 = with_ax_spec(s, a);
    match read_sized_spec(s1, a, size) {
        Err(e) => (s1, Err(e)),
        Ok(v) => (s1, Ok((v, a))),
    }
}

/// Dy register operand.
pub fn dy(core: &Core) -> (r: u32)
    requires
        core@.wf(),
    ensures
        r == dy_spec(core@),
{
    let i: usize = ir_dy(core.ir);
    core.dar[i]
}

/// Dx register operand.
pub fn dx(core: &Core) -> (r: u32)
    requires
        core@.wf(),
    ensures
        r == dx_spec(core@),
{
    let i: usize = ir_dx(core.ir);
    core.dar[i]
}

/// Ay register operand.
pub fn ay(core: &Core) -> (r: u32)
    requires
        core@.wf(),
    ensures
        r == ay_spec(core@),
{
    let i: usize = ir_ay(core.ir);
    core.dar[i]
}

/// Ax register operand.
pub fn ax(core: &Core) -> (r: u32)
    requires
        core@.wf(),
    ensures
        r == ax_spec(core@),
{
    let i: usize = ir_ax(core.ir);
    core.dar[i]
}

/// Quick immediate operand from IR bits 11:9 (0 means 8).
pub fn quick(core: &Core) -> (r: u32)
    ensures
        r == quick_spec(core.ir),
{
    let q: u16 = (core.ir >> 9) & 7;
    if q == 0 {
        8
    } else {
        q as u32
    }
}

fn step_size(size: OpSize, reg: usize) -> (r: u32)
    ensures
        r == step_spec(size, reg),
{
    match size {
        OpSize::Byte => if reg == 15 {
            2
        } else {
            1
        },
        OpSize::Word => 2,
        OpSize::Long => 4,
    }
}

fn read_sized(core: &Core, addr: u32, size: OpSize) -> (r: Result<u32, Exception>)
    ensures
        r == read_sized_spec(core@, addr, size),
{
    match size {
        OpSize::Byte => core.read_data_byte(addr),
        OpSize::Word => core.read_data_word(addr),
        OpSize::Long => core.read_data_long(addr),
    }
}

fn index_ea(core: &Core, base: u32, ext: u32) -> (r: u32)
    requires
        core@.wf(),
    ensures
        r == index_ea_spec(core@, base, ext),
{
    proof {
        lemma_bit_field_bounds();
    }
    let xi: usize = ((ext >> 12) & 0xf) as usize;
    let xval: u32 = core.dar[xi];
    let xn: u32 = if ext & 0x800 == 0 {
        sign_extend_16(xval)
    } else {
        xval
    };
    base.wrapping_add(xn).wrapping_add(sign_extend_8(ext))
}

/// Resolve the effective address of a memory addressing mode, applying
/// its side effects.
fn ea_of(core: &mut Core, mode: EaMode, size: OpSize) -> (r: Result<u32, Exception>)
    requires
        old(core)@.wf(),
    ensures
        ({
            let (s2, r2) = ea_of_spec(old(core)@, mode, size);
            final(core)@ == s2 && r == r2
        }),
        final(core)@.wf(),
{
    match mode {
        EaMode::AddrIndirect => Ok(ay(core)),
        EaMode::PostInc => {
            let i: usize = ir_ay(core.ir);
            let a: u32 = core.dar[i];
            let st: u32 = step_size(size, i);
            core.dar[i] = a.wrapping_add(st);
            Ok(a)
        },
        EaMode::PreDec => {
            let i: usize = ir_ay(core.ir);
            let st: u32 = step_size(size, i);
            let a: u32 = core.dar[i].wrapping_sub(st);
            core.dar[i] = a;
            Ok(a)
        },
        EaMode::Displacement => {
            match core.read_imm_word() {
                Err(e) => Err(e),
                Ok(d) => Ok(ay(core).wrapping_add(sign_extend_16(d))),
            }
        },
        EaMode::Index => {
            match core.read_imm_word() {
                Err(e) => Err(e),
                Ok(ext) => {
                    let base: u32 = ay(core);
                    Ok(index_ea(core, base, ext))
                },
            }
        },
        EaMode::AbsShort => {
            match core.read_imm_word() {
                Err(e) => Err(e),
                Ok(w) => Ok(sign_extend_16(w)),
            }
        },
        EaMode::AbsLong => {
            match core.read_imm_long() {
                Err(e) => Err(e),
                Ok(a) => Ok(a),
            }
        },
        EaMode::PcDisplacement => {
            let base: u32 = core.pc;
            match core.read_imm_word() {
                Err(e) => Err(e),
                Ok(d) => Ok(base.wrapping_add(sign_extend_16(d))),
            }
        },
        EaMode::PcIndex => {
            let base: u32 = core.pc;
            match core.read_imm_word() {
                Err(e) => Err(e),
                Ok(ext) => Ok(index_ea(core, base, ext)),
            }
        },
        _ => Ok(0u32),
    }
}

/// Resolve a source operand: its value, with the mode's side effects.
pub fn src_value(core: &mut Core, mode: EaMode, size: OpSize) -> (r: Result<u32, Exception>)
    requires
        old(core)@.wf(),
    ensures
        ({
            let (s2, r2) = src_value_spec(old(core)@, mode, size);
            final(core)@ == s2 && r == r2
        }),
        final(core)@.wf(),
{
    match mode {
        EaMode::DataDirect => Ok(dy(core)),
        EaMode::AddrDirect => Ok(ay(core)),
        EaMode::Immediate => {
            match size {
                OpSize::Byte => {
                    match core.read_imm_word() {
                        Err(e) => Err(e),
                        Ok(w) => Ok(w & 0xff),
                    }
                },
                OpSize::Word => core.read_imm_word(),
                OpSize::Long => core.read_imm_long(),
            }
        },
        _ => {
            match ea_of(core, mode, size) {
                Err(e) => Err(e),
                Ok(a) => read_sized(core, a, size),
            }
        },
    }
}

/// Resolve a read-modify-write memory destination: its prior value and
/// its effective address, with the mode's side effects.
pub fn dst_ea(core: &mut Core, mode: EaMode, size: OpSize) -> (r: Result<(u32, u32), Exception>)
    requires
        old(core)@.wf(),
    ensures
        ({
            let (s2, r2) = dst_ea_spec(old(core)@, mode, size);
            final(core)@ == s2 && r == r2
        }),
        final(core)@.wf(),
{
    match ea_of(core, mode, size) {
        Err(e) => Err(e),
        Ok(a) => match read_sized(core, a, size) {
            Err(e) => Err(e),
            Ok(v) => Ok((v, a)),
        },
    }
}

/// Resolve the -(Ax) destination of the memory forms of ABCD and ADDX.
pub fn ax_pd(core: &mut Core, size: OpSize) -> (r: Result<(u32, u32), Exception>)
    requires
        old(core)@.wf(),
    ensures
        ({
            let (s2, r2) = ax_pd_spec(old(core)@, size);
            final(core)@ == s2 && r == r2
        }),
        final(core)@.wf(),
{
    let i: usize = ir_ax(core.ir);
    let st: u32 = step_size(size, i);
    let a: u32 = core.dar[i].wrapping_sub(st);
    core.dar[i] = a;
    match read_sized(core, a, size) {
        Err(e) => Err(e),
        Ok(v) => Ok((v, a)),
    }
}

} // verus!

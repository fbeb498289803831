//! Scaffolding instruction set: a handful of stub handlers that load
//! fixed constants into data registers, and a dispatch table wiring a
//! few IR values to them. Useful for exercising the dispatch machinery
//! apart from the real instruction semantics.

use vstd::prelude::*;
use crate::bits::{ir_dx, ir_dx_spec};
use crate::cpu::{Core, CoreView, Cycles, Exception, InstructionSet};
use crate::decode::Op;

verus! {

/// Table slot that `set_d0` occupies.
pub const FAKE_SET_D0_IR: u16 = 0xa;

/// Table slot that `set_d1` occupies.
pub const FAKE_SET_D1_IR: u16 = 0xb;

/// Base of the eight slots that `set_dx` occupies (one per X field).
pub const FAKE_SET_DX_BASE: u16 = 0x4000;

pub open spec fn set_d0_spec(s: CoreView) -> (CoreView, Result<Cycles, Exception>) {
    (CoreView { dar: s.dar.update(0, 0xabcd), ..s }, Ok(Cycles(2)))
}

pub open spec fn set_d1_spec(s: CoreView) -> (CoreView, Result<Cycles, Exception>) {
    (CoreView { dar: s.dar.update(1, 0xbcde), ..s }, Ok(Cycles(2)))
}

pub open spec fn set_dx_spec(s: CoreView) -> (CoreView, Result<Cycles, Exception>) {
    (CoreView { dar: s.dar.update(ir_dx_spec(s.ir) as int, 0xcdef), ..s }, Ok(Cycles(2)))
}

/// The operation each IR value dispatches to in the scaffolding table.
pub open spec fn fake_op_for(ir: u16) -> Op {
    if ir == FAKE_SET_D0_IR {
        Op::SetD0
    } else if ir == FAKE_SET_D1_IR {
        Op::SetD1
    } else if ir & 0xf1ff == FAKE_SET_DX_BASE {
        Op::SetDx
    } else {
        Op::Illegal
    }
}

/// Load a fixed constant into D0.
pub fn set_d0(core: &mut Core) -> (r: Result<Cycles, Exception>)
    requires
        old(core)@.wf(),
    ensures
        ({
            let (s2, r2) = set_d0_spec(old(core)@);
            final(core)@ == s2 && r == r2
        }),
        final(core)@.wf(),
{
    core.dar[0] = 0xabcd;
    Ok(Cycles(2))
}

/// Load a fixed constant into D1.
pub fn set_d1(core: &mut Core) -> (r: Result<Cycles, Exception>)
    requires
        old(core)@.wf(),
    ensures
        ({
            let (s2, r2) = set_d1_spec(old(core)@);
            final(core)@ == s2 && r == r2
        }),
        final(core)@.wf(),
{
    core.dar[1] = 0xbcde;
    Ok(Cycles(2))
}

/// Load a fixed constant into the Dx register the IR selects.
pub fn set_dx(core: &mut Core) -> (r: Result<Cycles, Exception>)
    requires
        old(core)@.wf(),
    ensures
        ({
            let (s2, r2) = set_dx_spec(old(core)@);
            final(core)@ == s2 && r == r2
        }),
        final(core)@.wf(),
{
    let i: usize = ir_dx(core.ir);
    core.dar[i] = 0xcdef;
    Ok(Cycles(2))
}

fn fake_entry(ir: u16) -> (op: Op)
    ensures
        op == fake_op_for(ir),
{
    if ir == FAKE_SET_D0_IR {
        Op::SetD0
    } else if ir == FAKE_SET_D1_IR {
        Op::SetD1
    } else if ir & 0xf1ff == FAKE_SET_DX_BASE {
        Op::SetDx
    } else {
        Op::Illegal
    }
}

/// Build the scaffolding dispatch table: every IR value gets a slot,
/// unassigned ones hold the illegal operation.
pub fn instruction_set() -> (t: InstructionSet)
    ensures
        t@.len() == 0x10000,
        forall|i: int| 0 <= i < 0x10000 ==> t@[i] == fake_op_for(i as u16),
{
    let mut t: Vec<Op> = Vec::new();
    let mut i: usize = 0;
    while i < 0x10000
        invariant
            i <= 0x10000,
            t@.len() == i,
            forall|j: int| 0 <= j < i ==> t@[j] == fake_op_for(j as u16),
        decreases 0x10000 - i,
    {
        t.push(fake_entry(i as u16));
        i = i + 1;
    }
    t
}

} // verus!

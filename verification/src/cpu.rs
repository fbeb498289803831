//! Architectural state of the execution core: the sixteen data/address
//! registers, program counter, instruction register, the five lazy flag
//! slots, the memory bus and the dispatch table.
//!
//! Every mutating operation is specified against `CoreView`, a mathematical
//! snapshot of the state, through spec functions that mirror the transition.

use vstd::prelude::*;
use crate::decode::{op_for, Op};

verus! {

/// The exceptions the core surfaces: an unassigned opcode, reported with
/// the offending IR and the address it was fetched from, or a failed
/// bus access, reported with the 24-bit address.
#[derive(Clone, Copy, PartialEq, Eq, Structural, Debug)]
pub enum Exception {
    IllegalInstruction(u16, u32),
    BusError(u32),
}

/// Cycle count returned by a successfully executed instruction.
#[derive(Clone, Copy, PartialEq, Eq, Structural, Debug)]
pub struct Cycles(pub i32);

/// The dispatch table: one operation per possible IR value.
pub type InstructionSet = Vec<Op>;

/// Bytes of memory a fresh core is given.
pub const MEM_SIZE: usize = 0x10000;

/// Mathematical snapshot of the core's state.
pub struct CoreView {
    pub dar: Seq<u32>,
    pub pc: u32,
    pub ir: u16,
    pub mem: Seq<u8>,
    pub ops: Seq<Op>,
    pub n_flag: u32,
    pub v_flag: u32,
    pub c_flag: u32,
    pub x_flag: u32,
    pub not_z_flag: u32,
}

impl CoreView {
    /// Well-formed state: sixteen registers and a dispatch table that
    /// covers every IR value with the operation `op_for` assigns it.
    pub open spec fn wf(self) -> bool {
        &&& self.dar.len() == 16
        &&& self.ops.len() == 0x10000
        &&& forall|i: int| 0 <= i < 0x10000 ==> self.ops[i] == op_for(i as u16)
    }
}

/// The execution core: registers 0-7 are D0-D7, 8-15 are A0-A7.
pub struct Core {
    pub dar: Vec<u32>,
    pub pc: u32,
    pub ir: u16,
    pub mem: Vec<u8>,
    pub ops: Vec<Op>,
    pub n_flag: u32,
    pub v_flag: u32,
    pub c_flag: u32,
    pub x_flag: u32,
    pub not_z_flag: u32,
}

impl View for Core {
    type V = CoreView;

    open spec fn view(&self) -> CoreView {
        CoreView {
            dar: self.dar@,
            pc: self.pc,
            ir: self.ir,
            mem: self.mem@,
            ops: self.ops@,
            n_flag: self.n_flag,
            v_flag: self.v_flag,
            c_flag: self.c_flag,
            x_flag: self.x_flag,
            not_z_flag: self.not_z_flag,
        }
    }
}

/// The 24-bit address the bus sees.
pub open spec fn bus_address(addr: u32) -> u32 {
    addr & 0xffffff
}

/// Value of a byte read: the byte at the 24-bit address, or a bus error
/// when the address lies outside the installed memory.
pub open spec fn read_byte_spec(s: CoreView, addr: u32) -> Result<u32, Exception> {
    if bus_address(addr) < s.mem.len() {
        Ok(s.mem[bus_address(addr) as int] as u32)
    } else {
        Err(Exception::BusError(bus_address(addr)))
    }
}

/// Big-endian word read: high byte first.
pub open spec fn read_word_spec(s: CoreView, addr: u32) -> Result<u32, Exception> {
    match read_byte_spec(s, addr) {
        Err(e) => Err(e),
        Ok(hi) => match read_byte_spec(s, addr.wrapping_add(1)) {
            Err(e) => Err(e),
            Ok(lo) => Ok((hi << 8) | lo),
        },
    }
}

/// Big-endian long read: high word first.
pub open spec fn read_long_spec(s: CoreView, addr: u32) -> Result<u32, Exception> {
    match read_word_spec(s, addr) {
        Err(e) => Err(e),
        Ok(hi) => match read_word_spec(s, addr.wrapping_add(2)) {
            Err(e) => Err(e),
            Ok(lo) => Ok((hi << 16) | lo),
        },
    }
}

/// State and outcome of a byte write; a mutation made before a failing
/// step stays in place.
pub open spec fn write_byte_spec(s: CoreView, addr: u32, v: u32) -> (CoreView, Result<
    (),
    Exception,
>) {
    if bus_address(addr) < s.mem.len() {
        (CoreView { mem: s.mem.update(bus_address(addr) as int, (v & 0xff) as u8), ..s }, Ok(()))
    } else {
        (s, Err(Exception::BusError(bus_address(addr))))
    }
}

/// Big-endian word write: high byte first.
pub open spec fn write_word_spec(s: CoreView, addr: u32, v: u32) -> (CoreView, Result<
    (),
    Exception,
>) {
    let (s1, r1) = write_byte_spec(s, addr, v >> 8);
    match r1 {
        Err(e) => (s1, Err(e)),
        Ok(u) => write_byte_spec(s1, addr.wrapping_add(1), v),
    }
}

/// Big-endian long write: high word first.
pub open spec fn write_long_spec(s: CoreView, addr: u32, v: u32) -> (CoreView, Result<
    (),
    Exception,
>) {
    let (s1, r1) = write_word_spec(s, addr, v >> 16);
    match r1 {
        Err(e) => (s1, Err(e)),
        Ok(u) => write_word_spec(s1, addr.wrapping_add(2), v),
    }
}

/// Fetch of one extension word at PC; PC advances past it on success.
pub open spec fn read_imm_word_spec(s: CoreView) -> (CoreView, Result<u32, Exception>) {
    match read_word_spec(s, s.pc) {
        Err(e) => (s, Err(e)),
        Ok(w) => (CoreView { pc: s.pc.wrapping_add(2), ..s }, Ok(w)),
    }
}

/// Fetch of two extension words forming a 32-bit immediate.
pub open spec fn read_imm_long_spec(s: CoreView) -> (CoreView, Result<u32, Exception>) {
    let (s1, r1) = read_imm_word_spec(s);
    match r1 {
        Err(e) => (s1, Err(e)),
        Ok(hi) => {
            let (s2, r2) = read_imm_word_spec(s1);
            match r2 {
                Err(e) => (s2, Err(e)),
                Ok(lo) => (s2, Ok((hi << 16) | lo)),
            }
        },
    }
}

/// The CCR byte synthesized from the lazy flag slots:
/// bit 0 = C, 1 = V, 2 = Z, 3 = N, 4 = X.
pub open spec fn ccr_spec(s: CoreView) -> u32 {
    ((s.x_flag & 0x100) >> 4) | ((s.n_flag & 0x80) >> 4) | (if s.not_z_flag == 0 {
        4u32
    } else {
        0u32
    }) | ((s.v_flag & 0x80) >> 6) | ((s.c_flag & 0x100) >> 8)
}

/// The flag slots unpacked from a CCR byte.
pub open spec fn set_ccr_spec(s: CoreView, ccr: u32) -> CoreView {
    CoreView {
        x_flag: (ccr & 0x10) << 4,
        n_flag: (ccr & 0x08) << 4,
        not_z_flag: if ccr & 0x04 == 0 {
            1u32
        } else {
            0u32
        },
        v_flag: (ccr & 0x02) << 6,
        c_flag: (ccr & 0x01) << 8,
        ..s
    }
}

impl Core {
    /// The X flag as a 0/1 carry-in value.
    pub fn x_flag_as_1(&self) -> (r: u32)
        ensures
            r == (self.x_flag >> 8) & 1,
            r <= 1,
    {
        proof {
            crate::bits::lemma_bit_field_bounds();
        }
        (self.x_flag >> 8) & 1
    }

    /// Pack the five lazy flag slots into the user-visible CCR byte.
    pub fn condition_code_register(&self) -> (ccr: u32)
        ensures
            ccr == ccr_spec(self@),
    {
        ((self.x_flag & 0x100) >> 4) | ((self.n_flag & 0x80) >> 4) | (if self.not_z_flag == 0 {
            4u32
        } else {
            0u32
        }) | ((self.v_flag & 0x80) >> 6) | ((self.c_flag & 0x100) >> 8)
    }

    /// Unpack a CCR byte into the five lazy flag slots.
    pub fn ccr_to_flags(&mut self, ccr: u32)
        ensures
            final(self)@ == set_ccr_spec(old(self)@, ccr),
    {
        self.x_flag = (ccr & 0x10) << 4;
        self.n_flag = (ccr & 0x08) << 4;
        self.not_z_flag = if ccr & 0x04 == 0 {
            1u32
        } else {
            0u32
        };
        self.v_flag = (ccr & 0x02) << 6;
        self.c_flag = (ccr & 0x01) << 8;
    }

    /// Read one byte over the bus.
    pub fn read_data_byte(&self, addr: u32) -> (r: Result<u32, Exception>)
        ensures
            r == read_byte_spec(self@, addr),
    {
        proof {
            crate::bits::lemma_bit_field_bounds();
        }
        let a: usize = (addr & 0xffffff) as usize;
        if a < self.mem.len() {
            Ok(self.mem[a] as u32)
        } else {
            Err(Exception::BusError(addr & 0xffffff))
        }
    }

    /// Read one big-endian word over the bus.
    pub fn read_data_word(&self, addr: u32) -> (r: Result<u32, Exception>)
        ensures
            r == read_word_spec(self@, addr),
    {
        match self.read_data_byte(addr) {
            Err(e) => Err(e),
            Ok(hi) => match self.read_data_byte(addr.wrapping_add(1)) {
                Err(e) => Err(e),
                Ok(lo) => Ok((hi << 8) | lo),
            },
        }
    }

    /// Read one big-endian long word over the bus.
    pub fn read_data_long(&self, addr: u32) -> (r: Result<u32, Exception>)
        ensures
            r == read_long_spec(self@, addr),
    {
        match self.read_data_word(addr) {
            Err(e) => Err(e),
            Ok(hi) => match self.read_data_word(addr.wrapping_add(2)) {
                Err(e) => Err(e),
                Ok(lo) => Ok((hi << 16) | lo),
            },
        }
    }

    /// Write the low byte of `v` over the bus.
    pub fn write_data_byte(&mut self, addr: u32, v: u32) -> (r: Result<(), Exception>)
        ensures
            ({
                let (s2, r2) = write_byte_spec(old(self)@, addr, v);
                final(self)@ == s2 && r == r2
            }),
    {
        proof {
            crate::bits::lemma_bit_field_bounds();
        }
        let a: usize = (addr & 0xffffff) as usize;
        if a < self.mem.len() {
            self.mem[a] = (v & 0xff) as u8;
            Ok(())
        } else {
            Err(Exception::BusError(addr & 0xffffff))
        }
    }

    /// Write the low word of `v` over the bus, high byte first.
    pub fn write_data_word(&mut self, addr: u32, v: u32) -> (r: Result<(), Exception>)
        ensures
            ({
                let (s2, r2) = write_word_spec(old(self)@, addr, v);
                final(self)@ == s2 && r == r2
            }),
    {
        match self.write_data_byte(addr, v >> 8) {
            Err(e) => Err(e),
            Ok(u) => self.write_data_byte(addr.wrapping_add(1), v),
        }
    }

    /// Write all of `v` over the bus, high word first.
    pub fn write_data_long(&mut self, addr: u32, v: u32) -> (r: Result<(), Exception>)
        ensures
            ({
                let (s2, r2) = write_long_spec(old(self)@, addr, v);
                final(self)@ == s2 && r == r2
            }),
    {
        match self.write_data_word(addr, v >> 16) {
            Err(e) => Err(e),
            Ok(u) => self.write_data_word(addr.wrapping_add(2), v),
        }
    }

    /// Fetch the extension word at PC and advance PC past it.
    pub fn read_imm_word(&mut self) -> (r: Result<u32, Exception>)
        ensures
            ({
                let (s2, r2) = read_imm_word_spec(old(self)@);
                final(self)@ == s2 && r == r2
            }),
    {
        match self.read_data_word(self.pc) {
            Err(e) => Err(e),
            Ok(w) => {
                self.pc = self.pc.wrapping_add(2);
                Ok(w)
            },
        }
    }

    /// Fetch two extension words forming a 32-bit immediate.
    pub fn read_imm_long(&mut self) -> (r: Result<u32, Exception>)
        ensures
            ({
                let (s2, r2) = read_imm_long_spec(old(self)@);
                final(self)@ == s2 && r == r2
            }),
    {
        match self.read_imm_word() {
            Err(e) => Err(e),
            Ok(hi) => match self.read_imm_word() {
                Err(e) => Err(e),
                Ok(lo) => Ok((hi << 16) | lo),
            },
        }
    }
}

} // verus!

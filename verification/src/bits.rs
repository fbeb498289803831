//! Bit-level helpers: IR register-field slicing, width masks, nibbles,
//! and sign extension, together with the bit-vector facts the rest of
//! the crate leans on.

use vstd::prelude::*;

verus! {

/// Index of the Dx data register selected by IR bits 11:9.
pub open spec fn ir_dx_spec(ir: u16) -> usize {
    (((ir >> 9) & 7) as usize)
}

/// Index of the Dy data register selected by IR bits 2:0.
pub open spec fn ir_dy_spec(ir: u16) -> usize {
    ((ir & 7) as usize)
}

/// Index of the Ax address register: 8 plus IR bits 11:9.
pub open spec fn ir_ax_spec(ir: u16) -> usize {
    (8 + ((ir >> 9) & 7)) as usize
}

/// Index of the Ay address register: 8 plus IR bits 2:0.
pub open spec fn ir_ay_spec(ir: u16) -> usize {
    (8 + (ir & 7)) as usize
}

/// Bit-field bounds used throughout: masking bounds a value by the mask,
/// and the IR register fields stay below 8.
pub proof fn lemma_bit_field_bounds()
    by (bit_vector)
    ensures
        forall|x: u32, m: u32| #[trigger] (x & m) <= m,
        forall|x: u64, m: u64| #[trigger] (x & m) <= m,
        forall|x: u16, m: u16| #[trigger] (x & m) <= m,
        forall|x: u16| #[trigger] (x >> 9) <= 0x7f,
        forall|x: u16| #[trigger] (x >> 12) <= 0xf,
        forall|x: u16| #[trigger] (x >> 6) <= 0x3ff,
        forall|x: u32| #[trigger] (x >> 8) <= 0xffffff,
        forall|x: u32| #[trigger] (x >> 24) <= 0xff,
        forall|x: u64| #[trigger] (x >> 8) <= 0xffffffffffffff,
        forall|x: u64| #[trigger] (x >> 24) <= 0xffffffffff,
{
}

pub fn ir_dx(ir: u16) -> (r: usize)
    ensures
        r == ir_dx_spec(ir),
        r < 8,
{
    proof { lemma_bit_field_bounds(); }
    ((ir >> 9) & 7) as usize
}

pub fn ir_dy(ir: u16) -> (r: usize)
    ensures
        r == ir_dy_spec(ir),
        r < 8,
{
    proof { lemma_bit_field_bounds(); }
    (ir & 7) as usize
}

pub fn ir_ax(ir: u16) -> (r: usize)
    ensures
        r == ir_ax_spec(ir),
        8 <= r < 16,
{
    proof { lemma_bit_field_bounds(); }
    8 + ((ir >> 9) & 7) as usize
}

pub fn ir_ay(ir: u16) -> (r: usize)
    ensures
        r == ir_ay_spec(ir),
        8 <= r < 16,
{
    proof { lemma_bit_field_bounds(); }
    8 + (ir & 7) as usize
}

/// Low 8 bits of a value.
pub fn mask_out_above_8(v: u32) -> (r: u32)
    ensures
        r == v & 0xff,
{
    v & 0xff
}

/// Everything but the low 8 bits.
pub fn mask_out_below_8(v: u32) -> (r: u32)
    ensures
        r == v & 0xffffff00,
{
    v & 0xffffff00
}

/// Low 16 bits of a value.
pub fn mask_out_above_16(v: u32) -> (r: u32)
    ensures
        r == v & 0xffff,
{
    v & 0xffff
}

/// Everything but the low 16 bits.
pub fn mask_out_below_16(v: u32) -> (r: u32)
    ensures
        r == v & 0xffff0000,
{
    v & 0xffff0000
}

/// Low nibble of a byte lane.
pub fn low_nibble(v: u32) -> (r: u32)
    ensures
        r == v & 0x0f,
{
    v & 0x0f
}

/// High nibble of a byte lane.
pub fn high_nibble(v: u32) -> (r: u32)
    ensures
        r == v & 0xf0,
{
    v & 0xf0
}

/// Sign-extend the low 8 bits of a value to 32 bits.
pub open spec fn sign_extend_8_spec(v: u32) -> u32 {
    if v & 0x80 == 0 {
        v & 0xff
    } else {
        (v & 0xff) | 0xffffff00
    }
}

pub fn sign_extend_8(v: u32) -> (r: u32)
    ensures
        r == sign_extend_8_spec(v),
{
    if v & 0x80 == 0 {
        v & 0xff
    } else {
        (v & 0xff) | 0xffffff00
    }
}

/// Sign-extend the low 16 bits of a value to 32 bits.
pub open spec fn sign_extend_16_spec(v: u32) -> u32 {
    if v & 0x8000 == 0 {
        v & 0xffff
    } else {
        (v & 0xffff) | 0xffff0000
    }
}

pub fn sign_extend_16(v: u32) -> (r: u32)
    ensures
        r == sign_extend_16_spec(v),
{
    if v & 0x8000 == 0 {
        v & 0xffff
    } else {
        (v & 0xffff) | 0xffff0000
    }
}

} // verus!

//! Arithmetic, logic, BCD and shift semantics shared by the handlers.
//!
//! Flags follow the lazy convention: slots hold numeric values rather
//! than booleans. `n_flag` and `v_flag` carry their flag in bit 7,
//! `c_flag` and `x_flag` in bit 8, and `not_z_flag` is nonzero exactly
//! when Z is clear. Results of the wider operations are shifted into
//! those positions as they are stored.

use vstd::prelude::*;
use crate::bits::lemma_bit_field_bounds;
use crate::cpu::{Core, CoreView};

verus! {

/// The low 32 bits of a 64-bit intermediate.
pub open spec fn lo32_spec(x: u64) -> u32 {
    ((x & 0xffffffff) as u32)
}

fn lo32(x: u64) -> (r: u32)
    ensures
        r == lo32_spec(x),
{
    proof {
        lemma_bit_field_bounds();
    }
    (x & 0xffffffff) as u32
}

/// Byte add: flags and result of `dst + src` in the low 8 bits.
pub open spec fn add_8_spec(s: CoreView, dst: u32, src: u32) -> (CoreView, u32) {
    let d = dst & 0xff;
    let c = src & 0xff;
    let sum = ((d + c) as u32);
    let res = sum & 0xff;
    (
        CoreView {
            n_flag: sum,
            v_flag: (c ^ sum) & (d ^ sum),
            c_flag: sum,
            x_flag: sum,
            not_z_flag: res,
            ..s
        },
        res,
    )
}

/// Word add: flag slots take the sum shifted down to the byte lanes.
pub open spec fn add_16_spec(s: CoreView, dst: u32, src: u32) -> (CoreView, u32) {
    let d = dst & 0xffff;
    let c = src & 0xffff;
    let sum = ((d + c) as u32);
    let res = sum & 0xffff;
    (
        CoreView {
            n_flag: sum >> 8,
            v_flag: ((c ^ sum) & (d ^ sum)) >> 8,
            c_flag: sum >> 8,
            x_flag: sum >> 8,
            not_z_flag: res,
            ..s
        },
        res,
    )
}

/// Long add: the 33-bit sum is formed in 64 bits to keep the carry.
pub open spec fn add_32_spec(s: CoreView, dst: u32, src: u32) -> (CoreView, u32) {
    let d = (dst as u64);
    let c = (src as u64);
    let sum = ((d + c) as u64);
    let hi = lo32_spec(sum >> 24);
    let res = lo32_spec(sum);
    (
        CoreView {
            n_flag: hi,
            v_flag: lo32_spec(((c ^ sum) & (d ^ sum)) >> 24),
            c_flag: hi,
            x_flag: hi,
            not_z_flag: res,
            ..s
        },
        res,
    )
}

/// Byte add with extend: X is folded in as carry-in and Z is sticky,
/// cleared by a nonzero result but never set.
pub open spec fn addx_8_spec(s: CoreView, dst: u32, src: u32) -> (CoreView, u32) {
    let d = dst & 0xff;
    let c = src & 0xff;
    let sum = ((d + c + ((s.x_flag >> 8) & 1)) as u32);
    let res = sum & 0xff;
    (
        CoreView {
            n_flag: sum,
            v_flag: (c ^ sum) & (d ^ sum),
            c_flag: sum,
            x_flag: sum,
            not_z_flag: s.not_z_flag | res,
            ..s
        },
        res,
    )
}

/// Word add with extend.
pub open spec fn addx_16_spec(s: CoreView, dst: u32, src: u32) -> (CoreView, u32) {
    let d = dst & 0xffff;
    let c = src & 0xffff;
    let sum = ((d + c + ((s.x_flag >> 8) & 1)) as u32);
    let res = sum & 0xffff;
    (
        CoreView {
            n_flag: sum >> 8,
            v_flag: ((c ^ sum) & (d ^ sum)) >> 8,
            c_flag: sum >> 8,
            x_flag: sum >> 8,
            not_z_flag: s.not_z_flag | res,
            ..s
        },
        res,
    )
}

/// Long add with extend.
pub open spec fn addx_32_spec(s: CoreView, dst: u32, src: u32) -> (CoreView, u32) {
    let d = (dst as u64);
    let c = (src as u64);
    let sum = ((d + c + ((s.x_flag >> 8) & 1)) as u64);
    let hi = lo32_spec(sum >> 24);
    let res = lo32_spec(sum);
    (
        CoreView {
            n_flag: hi,
            v_flag: lo32_spec(((c ^ sum) & (d ^ sum)) >> 24),
            c_flag: hi,
            x_flag: hi,
            not_z_flag: s.not_z_flag | res,
            ..s
        },
        res,
    )
}

/// Byte AND: V and C clear, X untouched.
pub open spec fn and_8_spec(s: CoreView, dst: u32, src: u32) -> (CoreView, u32) {
    let res = (dst & src) & 0xff;
    (CoreView { n_flag: res, v_flag: 0, c_flag: 0, not_z_flag: res, ..s }, res)
}

/// Word AND.
pub open spec fn and_16_spec(s: CoreView, dst: u32, src: u32) -> (CoreView, u32) {
    let res = (dst & src) & 0xffff;
    (CoreView { n_flag: res >> 8, v_flag: 0, c_flag: 0, not_z_flag: res, ..s }, res)
}

/// Long AND.
pub open spec fn and_32_spec(s: CoreView, dst: u32, src: u32) -> (CoreView, u32) {
    let res = dst & src;
    (CoreView { n_flag: res >> 24, v_flag: 0, c_flag: 0, not_z_flag: res, ..s }, res)
}

/// BCD add with extend on one packed byte: digit-wise decimal adjust,
/// carry out of the hundred's place, V seeded from the complement of
/// the low-digit sum and narrowed by the adjusted result, sticky Z.
pub open spec fn abcd_8_spec(s: CoreView, dst: u32, src: u32) -> (CoreView, u32) {
    let lo = (((src & 0x0f) + (dst & 0x0f) + ((s.x_flag >> 8) & 1)) as u32);
    let v0 = !lo;
    let lo2 = if lo > 9 {
        ((lo + 6) as u32)
    } else {
        lo
    };
    let r1 = ((lo2 + (src & 0xf0) + (dst & 0xf0)) as u32);
    let c = if r1 > 0x99 {
        0x100u32
    } else {
        0u32
    };
    let r2 = if c > 0 {
        r1.wrapping_sub(0xa0)
    } else {
        r1
    };
    let res = r2 & 0xff;
    (
        CoreView {
            n_flag: r2,
            v_flag: v0 & r2,
            c_flag: c,
            x_flag: c,
            not_z_flag: s.not_z_flag | res,
            ..s
        },
        res,
    )
}

/// Byte arithmetic shift right: sign-preserving; C and X take the last
/// bit shifted out (X untouched when the count is zero); V clears.
pub open spec fn asr_8_spec(s: CoreView, dst: u32, shift: u32) -> (CoreView, u32) {
    let src = dst & 0xff;
    if shift == 0 {
        (CoreView { n_flag: src, v_flag: 0, c_flag: 0, not_z_flag: src, ..s }, src)
    } else if shift < 8 {
        let res = if src & 0x80 != 0 {
            (src >> shift) | ((0xff00u32 >> shift) & 0xff)
        } else {
            src >> shift
        };
        let c = ((src >> (((shift - 1) as u32))) & 1) << 8;
        (CoreView { n_flag: res, v_flag: 0, c_flag: c, x_flag: c, not_z_flag: res, ..s }, res)
    } else if src & 0x80 != 0 {
        (
            CoreView { n_flag: 0x80, v_flag: 0, c_flag: 0x100, x_flag: 0x100, not_z_flag: 0xff, ..s },
            0xff,
        )
    } else {
        (CoreView { n_flag: 0, v_flag: 0, c_flag: 0, x_flag: 0, not_z_flag: 0, ..s }, 0)
    }
}

/// Word arithmetic shift right.
pub open spec fn asr_16_spec(s: CoreView, dst: u32, shift: u32) -> (CoreView, u32) {
    let src = dst & 0xffff;
    if shift == 0 {
        (CoreView { n_flag: src >> 8, v_flag: 0, c_flag: 0, not_z_flag: src, ..s }, src)
    } else if shift < 16 {
        let res = if src & 0x8000 != 0 {
            (src >> shift) | ((0xffff0000u32 >> shift) & 0xffff)
        } else {
            src >> shift
        };
        let c = ((src >> (((shift - 1) as u32))) & 1) << 8;
        (CoreView { n_flag: res >> 8, v_flag: 0, c_flag: c, x_flag: c, not_z_flag: res, ..s }, res)
    } else if src & 0x8000 != 0 {
        (
            CoreView {
                n_flag: 0xff,
                v_flag: 0,
                c_flag: 0x100,
                x_flag: 0x100,
                not_z_flag: 0xffff,
                ..s
            },
            0xffff,
        )
    } else {
        (CoreView { n_flag: 0, v_flag: 0, c_flag: 0, x_flag: 0, not_z_flag: 0, ..s }, 0)
    }
}

/// Long arithmetic shift right.
pub open spec fn asr_32_spec(s: CoreView, dst: u32, shift: u32) -> (CoreView, u32) {
    let src = dst;
    if shift == 0 {
        (CoreView { n_flag: src >> 24, v_flag: 0, c_flag: 0, not_z_flag: src, ..s }, src)
    } else if shift < 32 {
        let res = if src & 0x80000000 != 0 {
            (src >> shift) | !(0xffffffffu32 >> shift)
        } else {
            src >> shift
        };
        let c = ((src >> (((shift - 1) as u32))) & 1) << 8;
        (CoreView { n_flag: res >> 24, v_flag: 0, c_flag: c, x_flag: c, not_z_flag: res, ..s }, res)
    } else if src & 0x80000000 != 0 {
        (
            CoreView {
                n_flag: 0xff,
                v_flag: 0,
                c_flag: 0x100,
                x_flag: 0x100,
                not_z_flag: 0xffffffff,
                ..s
            },
            0xffffffff,
        )
    } else {
        (CoreView { n_flag: 0, v_flag: 0, c_flag: 0, x_flag: 0, not_z_flag: 0, ..s }, 0)
    }
}

/// Byte arithmetic shift left: zero fill; C and X take the last bit
/// shifted out; V is set when the sign changed at any point during the
/// shift, that is when the top `shift + 1` bits of the source are not
/// all equal.
pub open spec fn asl_8_spec(s: CoreView, dst: u32, shift: u32) -> (CoreView, u32) {
    let src = dst & 0xff;
    if shift == 0 {
        (CoreView { n_flag: src, v_flag: 0, c_flag: 0, not_z_flag: src, ..s }, src)
    } else if shift < 8 {
        let res = (src << shift) & 0xff;
        let c = ((src >> (((8 - shift) as u32))) & 1) << 8;
        let mask = (0xff00u32 >> ((shift + 1) as u32)) & 0xff;
        let top = src & mask;
        let v = if top == 0 || top == mask {
            0u32
        } else {
            0x80u32
        };
        (CoreView { n_flag: res, v_flag: v, c_flag: c, x_flag: c, not_z_flag: res, ..s }, res)
    } else {
        let c = if shift == 8 {
            (src & 1) << 8
        } else {
            0u32
        };
        let v = if src == 0 {
            0u32
        } else {
            0x80u32
        };
        (CoreView { n_flag: 0, v_flag: v, c_flag: c, x_flag: c, not_z_flag: 0, ..s }, 0)
    }
}

/// Word arithmetic shift left.
pub open spec fn asl_16_spec(s: CoreView, dst: u32, shift: u32) -> (CoreView, u32) {
    let src = dst & 0xffff;
    if shift == 0 {
        (CoreView { n_flag: src >> 8, v_flag: 0, c_flag: 0, not_z_flag: src, ..s }, src)
    } else if shift < 16 {
        let res = (src << shift) & 0xffff;
        let c = ((src >> (((16 - shift) as u32))) & 1) << 8;
        let mask = (0xffff0000u32 >> ((shift + 1) as u32)) & 0xffff;
        let top = src & mask;
        let v = if top == 0 || top == mask {
            0u32
        } else {
            0x80u32
        };
        (
            CoreView { n_flag: res >> 8, v_flag: v, c_flag: c, x_flag: c, not_z_flag: res, ..s },
            res,
        )
    } else {
        let c = if shift == 16 {
            (src & 1) << 8
        } else {
            0u32
        };
        let v = if src == 0 {
            0u32
        } else {
            0x80u32
        };
        (CoreView { n_flag: 0, v_flag: v, c_flag: c, x_flag: c, not_z_flag: 0, ..s }, 0)
    }
}

/// Long arithmetic shift left.
pub open spec fn asl_32_spec(s: CoreView, dst: u32, shift: u32) -> (CoreView, u32) {
    let src = dst;
    if shift == 0 {
        (CoreView { n_flag: src >> 24, v_flag: 0, c_flag: 0, not_z_flag: src, ..s }, src)
    } else if shift < 32 {
        let res = src << shift;
        let c = ((src >> (((32 - shift) as u32))) & 1) << 8;
        let mask = !((0xffffffffu32 >> shift) >> 1);
        let top = src & mask;
        let v = if top == 0 || top == mask {
            0u32
        } else {
            0x80u32
        };
        (
            CoreView { n_flag: res >> 24, v_flag: v, c_flag: c, x_flag: c, not_z_flag: res, ..s },
            res,
        )
    } else {
        let c = if shift == 32 {
            (src & 1) << 8
        } else {
            0u32
        };
        let v = if src == 0 {
            0u32
        } else {
            0x80u32
        };
        (CoreView { n_flag: 0, v_flag: v, c_flag: c, x_flag: c, not_z_flag: 0, ..s }, 0)
    }
}

/// Byte add: result in the low 8 bits, flags per `add_8_spec`.
pub fn add_8_common(core: &mut Core, dst: u32, src: u32) -> (res: u32)
    ensures
        ({
            let (s2, r2) = add_8_spec(old(core)@, dst, src);
            final(core)@ == s2 && res == r2
        }),
{
    proof {
        lemma_bit_field_bounds();
    }
    let d: u32 = dst & 0xff;
    let c: u32 = src & 0xff;
    let sum: u32 = d + c;
    core.n_flag = sum;
    core.v_flag = (c ^ sum) & (d ^ sum);
    core.c_flag = sum;
    core.x_flag = sum;
    let res: u32 = sum & 0xff;
    core.not_z_flag = res;
    res
}

/// Word add: result in the low 16 bits, flags per `add_16_spec`.
pub fn add_16_common(core: &mut Core, dst: u32, src: u32) -> (res: u32)
    ensures
        ({
            let (s2, r2) = add_16_spec(old(core)@, dst, src);
            final(core)@ == s2 && res == r2
        }),
{
    proof {
        lemma_bit_field_bounds();
    }
    let d: u32 = dst & 0xffff;
    let c: u32 = src & 0xffff;
    let sum: u32 = d + c;
    core.n_flag = sum >> 8;
    core.v_flag = ((c ^ sum) & (d ^ sum)) >> 8;
    core.c_flag = sum >> 8;
    core.x_flag = sum >> 8;
    let res: u32 = sum & 0xffff;
    core.not_z_flag = res;
    res
}

/// Long add: full 32-bit result, flags per `add_32_spec`.
pub fn add_32_common(core: &mut Core, dst: u32, src: u32) -> (res: u32)
    ensures
        ({
            let (s2, r2) = add_32_spec(old(core)@, dst, src);
            final(core)@ == s2 && res == r2
        }),
{
    let d: u64 = dst as u64;
    let c: u64 = src as u64;
    let sum: u64 = d + c;
    let hi: u32 = lo32(sum >> 24);
    core.n_flag = hi;
    core.v_flag = lo32(((c ^ sum) & (d ^ sum)) >> 24);
    core.c_flag = hi;
    core.x_flag = hi;
    let res: u32 = lo32(sum);
    core.not_z_flag = res;
    res
}

/// Byte add with extend, flags per `addx_8_spec`.
pub fn addx_8_common(core: &mut Core, dst: u32, src: u32) -> (res: u32)
    ensures
        ({
            let (s2, r2) = addx_8_spec(old(core)@, dst, src);
            final(core)@ == s2 && res == r2
        }),
{
    proof {
        lemma_bit_field_bounds();
    }
    let d: u32 = dst & 0xff;
    let c: u32 = src & 0xff;
    let sum: u32 = d + c + core.x_flag_as_1();
    core.n_flag = sum;
    core.v_flag = (c ^ sum) & (d ^ sum);
    core.c_flag = sum;
    core.x_flag = sum;
    let res: u32 = sum & 0xff;
    core.not_z_flag = core.not_z_flag | res;
    res
}

/// Word add with extend, flags per `addx_16_spec`.
pub fn addx_16_common(core: &mut Core, dst: u32, src: u32) -> (res: u32)
    ensures
        ({
            let (s2, r2) = addx_16_spec(old(core)@, dst, src);
            final(core)@ == s2 && res == r2
        }),
{
    proof {
        lemma_bit_field_bounds();
    }
    let d: u32 = dst & 0xffff;
    let c: u32 = src & 0xffff;
    let sum: u32 = d + c + core.x_flag_as_1();
    core.n_flag = sum >> 8;
    core.v_flag = ((c ^ sum) & (d ^ sum)) >> 8;
    core.c_flag = sum >> 8;
    core.x_flag = sum >> 8;
    let res: u32 = sum & 0xffff;
    core.not_z_flag = core.not_z_flag | res;
    res
}

/// Long add with extend, flags per `addx_32_spec`.
pub fn addx_32_common(core: &mut Core, dst: u32, src: u32) -> (res: u32)
    ensures
        ({
            let (s2, r2) = addx_32_spec(old(core)@, dst, src);
            final(core)@ == s2 && res == r2
        }),
{
    let d: u64 = dst as u64;
    let c: u64 = src as u64;
    let sum: u64 = d + c + core.x_flag_as_1() as u64;
    let hi: u32 = lo32(sum >> 24);
    core.n_flag = hi;
    core.v_flag = lo32(((c ^ sum) & (d ^ sum)) >> 24);
    core.c_flag = hi;
    core.x_flag = hi;
    let res: u32 = lo32(sum);
    core.not_z_flag = core.not_z_flag | res;
    res
}

/// Byte AND, flags per `and_8_spec`.
pub fn and_8_common(core: &mut Core, dst: u32, src: u32) -> (res: u32)
    ensures
        ({
            let (s2, r2) = and_8_spec(old(core)@, dst, src);
            final(core)@ == s2 && res == r2
        }),
{
    let res: u32 = (dst & src) & 0xff;
    core.n_flag = res;
    core.v_flag = 0;
    core.c_flag = 0;
    core.not_z_flag = res;
    res
}

/// Word AND, flags per `and_16_spec`.
pub fn and_16_common(core: &mut Core, dst: u32, src: u32) -> (res: u32)
    ensures
        ({
            let (s2, r2) = and_16_spec(old(core)@, dst, src);
            final(core)@ == s2 && res == r2
        }),
{
    let res: u32 = (dst & src) & 0xffff;
    core.n_flag = res >> 8;
    core.v_flag = 0;
    core.c_flag = 0;
    core.not_z_flag = res;
    res
}

/// Long AND, flags per `and_32_spec`.
pub fn and_32_common(core: &mut Core, dst: u32, src: u32) -> (res: u32)
    ensures
        ({
            let (s2, r2) = and_32_spec(old(core)@, dst, src);
            final(core)@ == s2 && res == r2
        }),
{
    let res: u32 = dst & src;
    core.n_flag = res >> 24;
    core.v_flag = 0;
    core.c_flag = 0;
    core.not_z_flag = res;
    res
}

/// BCD add with extend on one packed byte, flags per `abcd_8_spec`.
pub fn abcd_8_common(core: &mut Core, dst: u32, src: u32) -> (res: u32)
    ensures
        ({
            let (s2, r2) = abcd_8_spec(old(core)@, dst, src);
            final(core)@ == s2 && res == r2
        }),
{
    proof {
        lemma_bit_field_bounds();
    }
    let mut res: u32 = (src & 0x0f) + (dst & 0x0f) + core.x_flag_as_1();
    core.v_flag = !res;
    if res > 9 {
        res = res + 6;
    }
    res = res + (src & 0xf0) + (dst & 0xf0);
    core.c_flag = if res > 0x99 {
        0x100
    } else {
        0
    };
    core.x_flag = core.c_flag;
    if core.c_flag > 0 {
        res = res.wrapping_sub(0xa0);
    }
    core.v_flag = core.v_flag & res;
    core.n_flag = res;
    res = res & 0xff;
    core.not_z_flag = core.not_z_flag | res;
    res
}

/// Byte arithmetic shift right, flags per `asr_8_spec`.
pub fn asr_8_common(core: &mut Core, dst: u32, shift: u32) -> (res: u32)
    requires
        shift < 64,
    ensures
        ({
            let (s2, r2) = asr_8_spec(old(core)@, dst, shift);
            final(core)@ == s2 && res == r2
        }),
{
    let src: u32 = dst & 0xff;
    if shift == 0 {
        core.n_flag = src;
        core.v_flag = 0;
        core.c_flag = 0;
        core.not_z_flag = src;
        src
    } else if shift < 8 {
        let res: u32 = if src & 0x80 != 0 {
            (src >> shift) | ((0xff00u32 >> shift) & 0xff)
        } else {
            src >> shift
        };
        let c: u32 = ((src >> (shift - 1)) & 1) << 8;
        core.n_flag = res;
        core.v_flag = 0;
        core.c_flag = c;
        core.x_flag = c;
        core.not_z_flag = res;
        res
    } else if src & 0x80 != 0 {
        core.n_flag = 0x80;
        core.v_flag = 0;
        core.c_flag = 0x100;
        core.x_flag = 0x100;
        core.not_z_flag = 0xff;
        0xff
    } else {
        core.n_flag = 0;
        core.v_flag = 0;
        core.c_flag = 0;
        core.x_flag = 0;
        core.not_z_flag = 0;
        0
    }
}

/// Word arithmetic shift right, flags per `asr_16_spec`.
pub fn asr_16_common(core: &mut Core, dst: u32, shift: u32) -> (res: u32)
    requires
        shift < 64,
    ensures
        ({
            let (s2, r2) = asr_16_spec(old(core)@, dst, shift);
            final(core)@ == s2 && res == r2
        }),
{
    let src: u32 = dst & 0xffff;
    if shift == 0 {
        core.n_flag = src >> 8;
        core.v_flag = 0;
        core.c_flag = 0;
        core.not_z_flag = src;
        src
    } else if shift < 16 {
        let res: u32 = if src & 0x8000 != 0 {
            (src >> shift) | ((0xffff0000u32 >> shift) & 0xffff)
        } else {
            src >> shift
        };
        let c: u32 = ((src >> (shift - 1)) & 1) << 8;
        core.n_flag = res >> 8;
        core.v_flag = 0;
        core.c_flag = c;
        core.x_flag = c;
        core.not_z_flag = res;
        res
    } else if src & 0x8000 != 0 {
        core.n_flag = 0xff;
        core.v_flag = 0;
        core.c_flag = 0x100;
        core.x_flag = 0x100;
        core.not_z_flag = 0xffff;
        0xffff
    } else {
        core.n_flag = 0;
        core.v_flag = 0;
        core.c_flag = 0;
        core.x_flag = 0;
        core.not_z_flag = 0;
        0
    }
}

/// Long arithmetic shift right, flags per `asr_32_spec`.
pub fn asr_32_common(core: &mut Core, dst: u32, shift: u32) -> (res: u32)
    requires
        shift < 64,
    ensures
        ({
            let (s2, r2) = asr_32_spec(old(core)@, dst, shift);
            final(core)@ == s2 && res == r2
        }),
{
    let src: u32 = dst;
    if shift == 0 {
        core.n_flag = src >> 24;
        core.v_flag = 0;
        core.c_flag = 0;
        core.not_z_flag = src;
        src
    } else if shift < 32 {
        let res: u32 = if src & 0x80000000 != 0 {
            (src >> shift) | !(0xffffffffu32 >> shift)
        } else {
            src >> shift
        };
        let c: u32 = ((src >> (shift - 1)) & 1) << 8;
        core.n_flag = res >> 24;
        core.v_flag = 0;
        core.c_flag = c;
        core.x_flag = c;
        core.not_z_flag = res;
        res
    } else if src & 0x80000000 != 0 {
        core.n_flag = 0xff;
        core.v_flag = 0;
        core.c_flag = 0x100;
        core.x_flag = 0x100;
        core.not_z_flag = 0xffffffff;
        0xffffffff
    } else {
        core.n_flag = 0;
        core.v_flag = 0;
        core.c_flag = 0;
        core.x_flag = 0;
        core.not_z_flag = 0;
        0
    }
}

/// Byte arithmetic shift left, flags per `asl_8_spec`.
pub fn asl_8_common(core: &mut Core, dst: u32, shift: u32) -> (res: u32)
    requires
        shift < 64,
    ensures
        ({
            let (s2, r2) = asl_8_spec(old(core)@, dst, shift);
            final(core)@ == s2 && res == r2
        }),
{
    let src: u32 = dst & 0xff;
    if shift == 0 {
        core.n_flag = src;
        core.v_flag = 0;
        core.c_flag = 0;
        core.not_z_flag = src;
        src
    } else if shift < 8 {
        let res: u32 = (src << shift) & 0xff;
        let c: u32 = ((src >> (8 - shift)) & 1) << 8;
        let mask: u32 = (0xff00 >> (shift + 1)) & 0xff;
        let top: u32 = src & mask;
        let v: u32 = if top == 0 || top == mask {
            0
        } else {
            0x80
        };
        core.n_flag = res;
        core.v_flag = v;
        core.c_flag = c;
        core.x_flag = c;
        core.not_z_flag = res;
        res
    } else {
        let c: u32 = if shift == 8 {
            (src & 1) << 8
        } else {
            0
        };
        let v: u32 = if src == 0 {
            0
        } else {
            0x80
        };
        core.n_flag = 0;
        core.v_flag = v;
        core.c_flag = c;
        core.x_flag = c;
        core.not_z_flag = 0;
        0
    }
}

/// Word arithmetic shift left, flags per `asl_16_spec`.
pub fn asl_16_common(core: &mut Core, dst: u32, shift: u32) -> (res: u32)
    requires
        shift < 64,
    ensures
        ({
            let (s2, r2) = asl_16_spec(old(core)@, dst, shift);
            final(core)@ == s2 && res == r2
        }),
{
    let src: u32 = dst & 0xffff;
    if shift == 0 {
        core.n_flag = src >> 8;
        core.v_flag = 0;
        core.c_flag = 0;
        core.not_z_flag = src;
        src
    } else if shift < 16 {
        let res: u32 = (src << shift) & 0xffff;
        let c: u32 = ((src >> (16 - shift)) & 1) << 8;
        let mask: u32 = (0xffff0000 >> (shift + 1)) & 0xffff;
        let top: u32 = src & mask;
        let v: u32 = if top == 0 || top == mask {
            0
        } else {
            0x80
        };
        core.n_flag = res >> 8;
        core.v_flag = v;
        core.c_flag = c;
        core.x_flag = c;
        core.not_z_flag = res;
        res
    } else {
        let c: u32 = if shift == 16 {
            (src & 1) << 8
        } else {
            0
        };
        let v: u32 = if src == 0 {
            0
        } else {
            0x80
        };
        core.n_flag = 0;
        core.v_flag = v;
        core.c_flag = c;
        core.x_flag = c;
        core.not_z_flag = 0;
        0
    }
}

/// Long arithmetic shift left, flags per `asl_32_spec`.
pub fn asl_32_common(core: &mut Core, dst: u32, shift: u32) -> (res: u32)
    requires
        shift < 64,
    ensures
        ({
            let (s2, r2) = asl_32_spec(old(core)@, dst, shift);
            final(core)@ == s2 && res == r2
        }),
{
    let src: u32 = dst;
    if shift == 0 {
        core.n_flag = src >> 24;
        core.v_flag = 0;
        core.c_flag = 0;
        core.not_z_flag = src;
        src
    } else if shift < 32 {
        let res: u32 = src << shift;
        let c: u32 = ((src >> (32 - shift)) & 1) << 8;
        let mask: u32 = !((0xffffffff >> shift) >> 1);
        let top: u32 = src & mask;
        let v: u32 = if top == 0 || top == mask {
            0
        } else {
            0x80
        };
        core.n_flag = res >> 24;
        core.v_flag = v;
        core.c_flag = c;
        core.x_flag = c;
        core.not_z_flag = res;
        res
    } else {
        let c: u32 = if shift == 32 {
            (src & 1) << 8
        } else {
            0
        };
        let v: u32 = if src == 0 {
            0
        } else {
            0x80
        };
        core.n_flag = 0;
        core.v_flag = v;
        core.c_flag = c;
        core.x_flag = c;
        core.not_z_flag = 0;
        0
    }
}

} // verus!

use m68k_core::cpu::{Core, Cycles};

fn core_with_program(bytes: &[u8]) -> Core {
    let mut core = Core::new(0x8000);
    for (i, b) in bytes.iter().enumerate() {
        core.mem[i] = *b;
    }
    core
}

#[test]
fn displacement_source() {
    // ADD.B (0x10,A0),D0
    let mut core = core_with_program(&[0xd0, 0x28, 0x00, 0x10]);
    core.dar[8] = 0x200;
    core.mem[0x210] = 7;
    core.dar[0] = 1;
    assert_eq!(Ok(Cycles(12)), core.execute_one());
    assert_eq!(8, core.dar[0]);
    assert_eq!(4, core.pc);
    assert_eq!(0x200, core.dar[8]);
}

#[test]
fn negative_displacement_source() {
    // ADD.B (-2,A0),D0
    let mut core = core_with_program(&[0xd0, 0x28, 0xff, 0xfe]);
    core.dar[8] = 0x202;
    core.mem[0x200] = 3;
    core.dar[0] = 1;
    assert_eq!(Ok(Cycles(12)), core.execute_one());
    assert_eq!(4, core.dar[0]);
}

#[test]
fn index_source_long_index_register() {
    // ADD.B (4,A0,D1.L),D0: brief extension 0x1804.
    let mut core = core_with_program(&[0xd0, 0x30, 0x18, 0x04]);
    core.dar[8] = 0x100;
    core.dar[1] = 0x10;
    core.mem[0x114] = 3;
    core.dar[0] = 2;
    assert_eq!(Ok(Cycles(14)), core.execute_one());
    assert_eq!(5, core.dar[0]);
    assert_eq!(4, core.pc);
}

#[test]
fn index_source_word_index_sign_extends() {
    // ADD.B (0,A0,D1.W),D0 where D1's low word is -2.
    let mut core = core_with_program(&[0xd0, 0x30, 0x10, 0x00]);
    core.dar[8] = 0x100;
    core.dar[1] = 0xaaaa_fffe;
    core.mem[0xfe] = 6;
    core.dar[0] = 1;
    assert_eq!(Ok(Cycles(14)), core.execute_one());
    assert_eq!(7, core.dar[0]);
}

#[test]
fn absolute_short_source() {
    // ADD.B (0x0120).W,D0
    let mut core = core_with_program(&[0xd0, 0x38, 0x01, 0x20]);
    core.mem[0x120] = 4;
    core.dar[0] = 1;
    assert_eq!(Ok(Cycles(12)), core.execute_one());
    assert_eq!(5, core.dar[0]);
    assert_eq!(4, core.pc);
}

#[test]
fn absolute_long_source() {
    // ADD.B (0x000130).L,D0
    let mut core = core_with_program(&[0xd0, 0x39, 0x00, 0x00, 0x01, 0x30]);
    core.mem[0x130] = 9;
    core.dar[0] = 1;
    assert_eq!(Ok(Cycles(16)), core.execute_one());
    assert_eq!(10, core.dar[0]);
    assert_eq!(6, core.pc);
}

#[test]
fn pc_displacement_source() {
    // ADD.B (0x20,PC),D0: the base is the extension word's address.
    let mut core = core_with_program(&[0xd0, 0x3a, 0x00, 0x20]);
    core.mem[0x22] = 9;
    core.dar[0] = 1;
    assert_eq!(Ok(Cycles(12)), core.execute_one());
    assert_eq!(10, core.dar[0]);
}

#[test]
fn pc_index_source() {
    // ADD.B (6,PC,D1.L),D0: effective address 2 + D1 + 6.
    let mut core = core_with_program(&[0xd0, 0x3b, 0x18, 0x06]);
    core.dar[1] = 0x40;
    core.mem[0x48] = 5;
    core.dar[0] = 1;
    assert_eq!(Ok(Cycles(14)), core.execute_one());
    assert_eq!(6, core.dar[0]);
}

#[test]
fn add_word_address_register_source() {
    // ADD.W A0,D0 uses the low word of the full register.
    let mut core = core_with_program(&[0xd0, 0x48]);
    core.dar[8] = 0x0001_2345;
    core.dar[0] = 1;
    assert_eq!(Ok(Cycles(4)), core.execute_one());
    assert_eq!(0x2346, core.dar[0]);
}

#[test]
fn add_long_wraps_and_sets_carry() {
    // ADD.L D1,D0: 0xffffffff + 1 wraps to zero with C, X and Z.
    let mut core = core_with_program(&[0xd0, 0x81]);
    core.dar[0] = 0xffff_ffff;
    core.dar[1] = 1;
    assert_eq!(Ok(Cycles(6)), core.execute_one());
    assert_eq!(0, core.dar[0]);
    assert_eq!(0x15, core.condition_code_register());
}

#[test]
fn abcd_memory_form_decrements_both() {
    // ABCD -(A1),-(A0): BCD 19 + 26 = 45, written back through A0.
    let mut core = core_with_program(&[0xc1, 0x09]);
    core.dar[8] = 0x301;
    core.dar[9] = 0x201;
    core.mem[0x300] = 0x26;
    core.mem[0x200] = 0x19;
    assert_eq!(Ok(Cycles(18)), core.execute_one());
    assert_eq!(0x45, core.mem[0x300]);
    assert_eq!(0x300, core.dar[8]);
    assert_eq!(0x200, core.dar[9]);
}

#[test]
fn addx_memory_form_word() {
    // ADDX.W -(A1),-(A0) with X=1: 0x0001 + 0x00ff + 1 = 0x0101.
    let mut core = core_with_program(&[0xd1, 0x49]);
    core.dar[8] = 0x302;
    core.dar[9] = 0x202;
    core.mem[0x300] = 0x00;
    core.mem[0x301] = 0x01;
    core.mem[0x200] = 0x00;
    core.mem[0x201] = 0xff;
    core.x_flag = 0x100;
    core.not_z_flag = 0;
    assert_eq!(Ok(Cycles(18)), core.execute_one());
    assert_eq!(0x01, core.mem[0x300]);
    assert_eq!(0x01, core.mem[0x301]);
    assert_eq!(0x300, core.dar[8]);
    assert_eq!(0x200, core.dar[9]);
    // Nonzero result clears the sticky Z.
    assert_eq!(0, core.condition_code_register() & 0x04);
}

#[test]
fn addi_byte_memory_destination() {
    // ADDI.B #5,(A0)
    let mut core = core_with_program(&[0x06, 0x10, 0x00, 0x05]);
    core.dar[8] = 0x400;
    core.mem[0x400] = 0x10;
    assert_eq!(Ok(Cycles(16)), core.execute_one());
    assert_eq!(0x15, core.mem[0x400]);
    assert_eq!(4, core.pc);
}

#[test]
fn andi_word_data_register() {
    // ANDI.W #0x0f0f,D1
    let mut core = core_with_program(&[0x02, 0x41, 0x0f, 0x0f]);
    core.dar[1] = 0xabcd_1234;
    assert_eq!(Ok(Cycles(8)), core.execute_one());
    assert_eq!(0xabcd_0204, core.dar[1]);
    assert_eq!(4, core.pc);
}

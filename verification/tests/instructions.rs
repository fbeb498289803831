use m68k_core::cpu::{Core, Cycles, Exception};

fn core_with_program(bytes: &[u8]) -> Core {
    let mut core = Core::new(0x8000);
    for (i, b) in bytes.iter().enumerate() {
        core.mem[i] = *b;
    }
    core
}

#[test]
fn add_byte_data_to_data() {
    // ADD.B D1,D0
    let mut core = core_with_program(&[0xd0, 0x01]);
    core.dar[0] = 0x10;
    core.dar[1] = 0x2f;
    let r = core.execute_one();
    assert_eq!(Ok(Cycles(4)), r);
    assert_eq!(0x3f, core.dar[0]);
    assert_eq!(0x2f, core.dar[1]);
    assert_eq!(2, core.pc);
    // N, Z, V, C and X all clear.
    assert_eq!(0, core.condition_code_register());
}

#[test]
fn add_byte_keeps_upper_register_bits() {
    // ADD.B D1,D0 with junk in the upper lanes of both registers.
    let mut core = core_with_program(&[0xd0, 0x01]);
    core.dar[0] = 0xaabb_cc10;
    core.dar[1] = 0x1122_332f;
    assert_eq!(Ok(Cycles(4)), core.execute_one());
    assert_eq!(0xaabb_cc3f, core.dar[0]);
}

#[test]
fn add_byte_carry_and_extend() {
    // ADD.B D1,D0 overflowing the byte: 0xf0 + 0x20.
    let mut core = core_with_program(&[0xd0, 0x01]);
    core.dar[0] = 0xf0;
    core.dar[1] = 0x20;
    assert_eq!(Ok(Cycles(4)), core.execute_one());
    assert_eq!(0x10, core.dar[0]);
    // C and X set, N, Z, V clear.
    assert_eq!(0b1_0001, core.condition_code_register());
}

#[test]
fn add_byte_immediate_source() {
    // ADD.B #7,D0
    let mut core = core_with_program(&[0xd0, 0x3c, 0x00, 0x07]);
    core.dar[0] = 0x20;
    assert_eq!(Ok(Cycles(10)), core.execute_one());
    assert_eq!(0x27, core.dar[0]);
    assert_eq!(4, core.pc);
}

#[test]
fn add_byte_postincrement_source() {
    // ADD.B (A0)+,D0
    let mut core = core_with_program(&[0xd0, 0x18]);
    core.dar[8] = 0x100;
    core.mem[0x100] = 5;
    core.dar[0] = 1;
    assert_eq!(Ok(Cycles(8)), core.execute_one());
    assert_eq!(6, core.dar[0]);
    assert_eq!(0x101, core.dar[8]);
}

#[test]
fn add_byte_predecrement_through_a7_steps_by_two() {
    // ADD.B -(A7),D0: the stack pointer moves by 2 for byte accesses.
    let mut core = core_with_program(&[0xd0, 0x27]);
    core.dar[15] = 0x102;
    core.mem[0x100] = 9;
    core.dar[0] = 1;
    assert_eq!(Ok(Cycles(10)), core.execute_one());
    assert_eq!(10, core.dar[0]);
    assert_eq!(0x100, core.dar[15]);
}

#[test]
fn add_word_memory_destination() {
    // ADD.W D0,(A0)
    let mut core = core_with_program(&[0xd1, 0x50]);
    core.dar[0] = 0x0101;
    core.dar[8] = 0x200;
    core.mem[0x200] = 0x11;
    core.mem[0x201] = 0x22;
    assert_eq!(Ok(Cycles(12)), core.execute_one());
    assert_eq!(0x12, core.mem[0x200]);
    assert_eq!(0x23, core.mem[0x201]);
}

#[test]
fn abcd_with_extend_set() {
    // ABCD D1,D0 with X=1: BCD 25 + 48 + 1 = 74.
    let mut core = core_with_program(&[0xc1, 0x01]);
    core.dar[0] = 0x25;
    core.dar[1] = 0x48;
    core.x_flag = 0x100;
    let r = core.execute_one();
    assert_eq!(Ok(Cycles(6)), r);
    assert_eq!(0x74, core.dar[0]);
    // C, X, V clear and Z clear.
    assert_eq!(0, core.condition_code_register());
}

#[test]
fn abcd_carries_past_ninety_nine() {
    // ABCD D1,D0: BCD 55 + 73 = 128, carry out.
    let mut core = core_with_program(&[0xc1, 0x01]);
    core.dar[0] = 0x55;
    core.dar[1] = 0x73;
    assert_eq!(Ok(Cycles(6)), core.execute_one());
    assert_eq!(0x28, core.dar[0]);
    let ccr = core.condition_code_register();
    assert_eq!(0x01, ccr & 0x01); // C set
    assert_eq!(0x10, ccr & 0x10); // X set
}

#[test]
fn addq_long_to_address_register() {
    // ADDQ.L #8,A0; the quick field 0 encodes 8.
    let mut core = core_with_program(&[0x50, 0x88]);
    core.dar[8] = 0x0000_0010;
    core.n_flag = 0x80;
    core.v_flag = 0x80;
    core.c_flag = 0x100;
    core.x_flag = 0x100;
    core.not_z_flag = 0x5;
    let r = core.execute_one();
    assert_eq!(Ok(Cycles(8)), r);
    assert_eq!(0x0000_0018, core.dar[8]);
    // Flag slots byte-identical to what they were.
    assert_eq!(0x80, core.n_flag);
    assert_eq!(0x80, core.v_flag);
    assert_eq!(0x100, core.c_flag);
    assert_eq!(0x100, core.x_flag);
    assert_eq!(0x5, core.not_z_flag);
}

#[test]
fn addq_word_to_address_register_writes_all_bits() {
    // ADDQ.W #1,A0 still carries into the upper word.
    let mut core = core_with_program(&[0x52, 0x48]);
    core.dar[8] = 0x0000_ffff;
    assert_eq!(Ok(Cycles(4)), core.execute_one());
    assert_eq!(0x0001_0000, core.dar[8]);
}

#[test]
fn adda_prefetches_destination_before_predecrement() {
    // ADDA.W -(A0),A0: the original A0 is the addend even though the
    // source mode decrements the same register first.
    let mut core = core_with_program(&[0xd0, 0xe0]);
    core.dar[8] = 0x102;
    core.mem[0x100] = 0x00;
    core.mem[0x101] = 0x10;
    assert_eq!(Ok(Cycles(14)), core.execute_one());
    assert_eq!(0x112, core.dar[8]);
    // Address-register arithmetic leaves the CCR alone.
    assert_eq!(0x04, core.condition_code_register());
}

#[test]
fn adda_word_sign_extends() {
    // ADDA.W D1,A0 with a negative word source.
    let mut core = core_with_program(&[0xd0, 0xc1]);
    core.dar[8] = 0x1000;
    core.dar[1] = 0xffff; // -1 as a word
    assert_eq!(Ok(Cycles(8)), core.execute_one());
    assert_eq!(0x0fff, core.dar[8]);
}

#[test]
fn addx_zero_is_sticky() {
    // ADDX.B D1,D0 with a zero result leaves Z set...
    let mut core = core_with_program(&[0xd1, 0x01, 0xd1, 0x01]);
    core.dar[0] = 0;
    core.dar[1] = 0;
    core.not_z_flag = 0;
    assert_eq!(Ok(Cycles(4)), core.execute_one());
    assert_eq!(0, core.dar[0]);
    assert_eq!(0x04, core.condition_code_register() & 0x04);
    // ...but a nonzero result clears it for good.
    core.dar[1] = 2;
    assert_eq!(Ok(Cycles(4)), core.execute_one());
    assert_eq!(2, core.dar[0]);
    assert_eq!(0, core.condition_code_register() & 0x04);
}

#[test]
fn addx_folds_extend_in() {
    // ADDX.B D1,D0 with X=1: 1 + 2 + 1 = 4.
    let mut core = core_with_program(&[0xd1, 0x01]);
    core.dar[0] = 1;
    core.dar[1] = 2;
    core.x_flag = 0x100;
    assert_eq!(Ok(Cycles(4)), core.execute_one());
    assert_eq!(4, core.dar[0]);
}

#[test]
fn and_byte_clears_v_and_c_keeps_x() {
    // AND.B D1,D0
    let mut core = core_with_program(&[0xc0, 0x01]);
    core.dar[0] = 0xabcd;
    core.dar[1] = 0x0f;
    core.x_flag = 0x100;
    core.v_flag = 0x80;
    core.c_flag = 0x100;
    assert_eq!(Ok(Cycles(4)), core.execute_one());
    assert_eq!(0xab0d, core.dar[0]);
    // X survives; V and C are gone.
    assert_eq!(0x10, core.condition_code_register());
}

#[test]
fn andi_to_ccr_masks_the_flags() {
    // ANDI #0x15,CCR with all five flags set beforehand.
    let mut core = core_with_program(&[0x02, 0x3c, 0x00, 0x15]);
    core.n_flag = 0x80;
    core.v_flag = 0x80;
    core.c_flag = 0x100;
    core.x_flag = 0x100;
    core.not_z_flag = 0;
    assert_eq!(0x1f, core.condition_code_register());
    assert_eq!(Ok(Cycles(20)), core.execute_one());
    assert_eq!(0x15, core.condition_code_register());
    assert_eq!(4, core.pc);
}

#[test]
fn asl_byte_sets_v_on_sign_change() {
    // ASL.B #1,D1 where D1=0x40: sign flips into the top bit.
    let mut core = core_with_program(&[0xe3, 0x01]);
    core.dar[1] = 0x40;
    let r = core.execute_one();
    assert_eq!(Ok(Cycles(8)), r);
    assert_eq!(0x80, core.dar[1]);
    // N and V set; C, X and Z clear.
    assert_eq!(0x0a, core.condition_code_register());
}

#[test]
fn asr_byte_preserves_sign() {
    // ASR.B #2,D0 where D0=0x85.
    let mut core = core_with_program(&[0xe4, 0x00]);
    core.dar[0] = 0x85;
    assert_eq!(Ok(Cycles(10)), core.execute_one());
    assert_eq!(0xe1, core.dar[0]);
    // N set; the last bit shifted out was 0, so C and X clear.
    assert_eq!(0x08, core.condition_code_register());
}

#[test]
fn asr_by_register_count_zero_keeps_x() {
    // ASR.B D1,D0 with a zero count: C clears but X is untouched.
    let mut core = core_with_program(&[0xe2, 0x20]);
    core.dar[0] = 0x80;
    core.dar[1] = 0;
    core.x_flag = 0x100;
    core.c_flag = 0x100;
    assert_eq!(Ok(Cycles(6)), core.execute_one());
    assert_eq!(0x80, core.dar[0]);
    // X and N set; C clear.
    assert_eq!(0x18, core.condition_code_register());
}

#[test]
fn asr_count_saturates_to_sign_bits() {
    // ASR.B D1,D0 with a count past the width: all sign bits.
    let mut core = core_with_program(&[0xe2, 0x20]);
    core.dar[0] = 0x80;
    core.dar[1] = 9;
    assert_eq!(Ok(Cycles(6 + 18)), core.execute_one());
    assert_eq!(0xff, core.dar[0]);
    let ccr = core.condition_code_register();
    assert_eq!(0x01, ccr & 0x01); // C set: a sign bit was shifted out
    assert_eq!(0x10, ccr & 0x10); // X set
}

#[test]
fn illegal_instruction_reports_ir_and_address() {
    // IR 0x0000 is unassigned; the fetch address is reported and no
    // register or flag slot changes.
    let mut core = Core::new(0x300);
    let dar_before = core.dar.clone();
    let r = core.execute_one();
    assert_eq!(Err(Exception::IllegalInstruction(0x0000, 0)), r);
    assert_eq!(2, core.pc);
    assert_eq!(dar_before, core.dar);
    assert_eq!(0, core.n_flag);
    assert_eq!(0, core.v_flag);
    assert_eq!(0, core.c_flag);
    assert_eq!(0, core.x_flag);
    assert_eq!(0, core.not_z_flag);
}

#[test]
fn execute_accumulates_cycles() {
    // Two ADD.B D1,D0 in a row, 4 cycles each.
    let mut core = core_with_program(&[0xd0, 0x01, 0xd0, 0x01]);
    core.dar[0] = 1;
    core.dar[1] = 2;
    assert_eq!(Ok(Cycles(8)), core.execute(8));
    assert_eq!(5, core.dar[0]);
    assert_eq!(4, core.pc);
}

#[test]
fn execute_runs_past_the_target_cycle_count() {
    // A 4-cycle instruction satisfies a request for 3 cycles.
    let mut core = core_with_program(&[0xd0, 0x01]);
    core.dar[0] = 1;
    core.dar[1] = 2;
    assert_eq!(Ok(Cycles(4)), core.execute(3));
    assert_eq!(2, core.pc);
}

#[test]
fn execute_surfaces_exceptions() {
    let mut core = Core::new(0x300);
    assert_eq!(Err(Exception::IllegalInstruction(0, 0)), core.execute(100));
}

#[test]
fn execute_with_no_budget_does_nothing() {
    let mut core = core_with_program(&[0xd0, 0x01]);
    assert_eq!(Ok(Cycles(0)), core.execute(0));
    assert_eq!(0, core.pc);
}

use m68k_core::cpu::{Core, Cycles};
use m68k_core::decode::Op;
use m68k_core::{fake, operator, ops};

#[test]
fn dx_and_dy() {
    let mut core = Core::new(0x40);
    core.dar[0] = 0x00;
    core.dar[1] = 0x11;
    core.dar[2] = 0x22;
    core.dar[3] = 0x33;
    core.dar[4] = 0x44;
    core.dar[5] = 0x55;
    core.dar[6] = 0x66;
    core.dar[7] = 0x77;

    core.ir = 0b1111_1001_1111_1010; // X=4, Y=2
    assert_eq!(0x22, operator::dy(&core));
    assert_eq!(0x44, operator::dx(&core));

    core.ir = 0b1111_1011_1111_1110; // X=5, Y=6
    assert_eq!(0x66, operator::dy(&core));
    assert_eq!(0x55, operator::dx(&core));
}

#[test]
fn new_core_state() {
    let core = Core::new(0xdead_beef);
    assert_eq!(0, core.pc);
    assert_eq!(0, core.ir);
    assert_eq!(16, core.dar.len());
    assert_eq!(0xdead_beef, core.dar[15]);
    for i in 0..15 {
        assert_eq!(0, core.dar[i]);
    }
    // Zeroed flag slots read back as a CCR with only Z set.
    assert_eq!(0x04, core.condition_code_register());
}

#[test]
fn quick_maps_zero_to_eight() {
    let mut core = Core::new(0x100);
    core.ir = 0x5088; // quick field 0
    assert_eq!(8, operator::quick(&core));
    core.ir = 0x5088 | (3 << 9); // quick field 3
    assert_eq!(3, operator::quick(&core));
}

#[test]
fn ccr_round_trip_is_idempotent() {
    let mut core = Core::new(0x100);
    core.n_flag = 0x1234_5678; // bit 7 clear
    core.v_flag = 0x80; // V set
    core.c_flag = 0x1ff; // bit 8 set
    core.x_flag = 0x0ff; // bit 8 clear
    core.not_z_flag = 0;
    let ccr = core.condition_code_register();
    assert_eq!(0b0_0111, ccr); // Z, V, C
    core.ccr_to_flags(ccr);
    assert_eq!(ccr, core.condition_code_register());
    core.ccr_to_flags(core.condition_code_register());
    assert_eq!(ccr, core.condition_code_register());
}

#[test]
fn ccr_write_masks_to_five_bits() {
    let mut core = Core::new(0x100);
    core.ccr_to_flags(0xff);
    assert_eq!(0x1f, core.condition_code_register());
    core.ccr_to_flags(0xe0);
    assert_eq!(0x00, core.condition_code_register());
}

#[test]
fn fake_table_slots() {
    let table = fake::instruction_set();
    assert_eq!(0x10000, table.len());
    assert_eq!(Op::SetD0, table[0xa]);
    assert_eq!(Op::SetD1, table[0xb]);
    for x in 0..8u16 {
        assert_eq!(Op::SetDx, table[(0x4000 | (x << 9)) as usize]);
    }
    assert_eq!(Op::Illegal, table[0xc]);
}

#[test]
fn fake_handlers_load_constants() {
    let mut core = Core::new(0x100);
    assert_eq!(Ok(Cycles(2)), fake::set_d0(&mut core));
    assert_eq!(Ok(Cycles(2)), fake::set_d1(&mut core));
    core.ir = 2 << 9;
    assert_eq!(Ok(Cycles(2)), fake::set_dx(&mut core));
    assert_eq!(0xabcd, core.dar[0]);
    assert_eq!(0xbcde, core.dar[1]);
    assert_eq!(0xcdef, core.dar[2]);
}

#[test]
fn real_table_matches_decoder() {
    let table = ops::instruction_set();
    assert_eq!(0x10000, table.len());
    for probe in [0x0000u16, 0x023c, 0x5088, 0xc101, 0xd001, 0xd0e0, 0xe301, 0xffff] {
        assert_eq!(m68k_core::decode::decode(probe), table[probe as usize]);
    }
}

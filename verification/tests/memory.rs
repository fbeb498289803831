use m68k_core::cpu::{Core, Exception, MEM_SIZE};

#[test]
fn reads_are_big_endian() {
    let mut core = Core::new(0x100);
    core.mem[0x10] = 0x12;
    core.mem[0x11] = 0x34;
    core.mem[0x12] = 0x56;
    core.mem[0x13] = 0x78;
    assert_eq!(Ok(0x12), core.read_data_byte(0x10));
    assert_eq!(Ok(0x1234), core.read_data_word(0x10));
    assert_eq!(Ok(0x12345678), core.read_data_long(0x10));
}

#[test]
fn writes_are_big_endian_and_truncate() {
    let mut core = Core::new(0x100);
    assert_eq!(Ok(()), core.write_data_byte(0x20, 0xaabbccdd));
    assert_eq!(0xdd, core.mem[0x20]);
    assert_eq!(Ok(()), core.write_data_word(0x30, 0xaabbccdd));
    assert_eq!(0xcc, core.mem[0x30]);
    assert_eq!(0xdd, core.mem[0x31]);
    assert_eq!(Ok(()), core.write_data_long(0x40, 0xdeadbeef));
    assert_eq!(0xde, core.mem[0x40]);
    assert_eq!(0xad, core.mem[0x41]);
    assert_eq!(0xbe, core.mem[0x42]);
    assert_eq!(0xef, core.mem[0x43]);
}

#[test]
fn addresses_wrap_at_twenty_four_bits() {
    let mut core = Core::new(0x100);
    core.mem[0x10] = 0x99;
    // Bits above the 24-bit bus are ignored.
    assert_eq!(Ok(0x99), core.read_data_byte(0xff00_0010));
}

#[test]
fn out_of_range_access_is_a_bus_error() {
    let mut core = Core::new(0x100);
    let oob: u32 = MEM_SIZE as u32 + 0x10;
    assert_eq!(Err(Exception::BusError(oob)), core.read_data_byte(oob));
    assert_eq!(Err(Exception::BusError(oob)), core.write_data_byte(oob, 1));
}

#[test]
fn partial_word_write_keeps_the_committed_byte() {
    let mut core = Core::new(0x100);
    let last: u32 = MEM_SIZE as u32 - 1;
    let r = core.write_data_word(last, 0x1234);
    assert_eq!(Err(Exception::BusError(last + 1)), r);
    // The high byte went through before the failing step.
    assert_eq!(0x12, core.mem[last as usize]);
}

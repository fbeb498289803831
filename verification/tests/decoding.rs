use m68k_core::decode::{decode, EaMode, Op, OpSize};

#[test]
fn add_family_decodes() {
    assert_eq!(Op::AddEr(OpSize::Byte, EaMode::DataDirect), decode(0xd001));
    assert_eq!(Op::AddEr(OpSize::Word, EaMode::AddrDirect), decode(0xd048));
    assert_eq!(Op::AddEr(OpSize::Long, EaMode::Immediate), decode(0xd0bc));
    assert_eq!(Op::AddEr(OpSize::Byte, EaMode::PcIndex), decode(0xd03b));
    // Byte-sized address-register direct source is unassigned.
    assert_eq!(Op::Illegal, decode(0xd008));
    assert_eq!(Op::AddRe(OpSize::Byte, EaMode::AddrIndirect), decode(0xd110));
    assert_eq!(Op::AddRe(OpSize::Long, EaMode::AbsLong), decode(0xd1b9));
    assert_eq!(Op::AddxRr(OpSize::Byte), decode(0xd100));
    assert_eq!(Op::AddxMm(OpSize::Word), decode(0xd148));
    assert_eq!(Op::Adda(OpSize::Word, EaMode::DataDirect), decode(0xd0c0));
    assert_eq!(Op::Adda(OpSize::Long, EaMode::PostInc), decode(0xd1d8));
}

#[test]
fn immediate_families_decode() {
    assert_eq!(Op::Addi(OpSize::Byte, EaMode::DataDirect), decode(0x0600));
    assert_eq!(Op::Addi(OpSize::Long, EaMode::AbsShort), decode(0x06b8));
    // ADDI with an immediate destination is unassigned.
    assert_eq!(Op::Illegal, decode(0x063c));
    assert_eq!(Op::Andi(OpSize::Word, EaMode::AddrIndirect), decode(0x0250));
    assert_eq!(Op::AndiToCcr, decode(0x023c));
    // ANDI to SR is not part of this instruction set.
    assert_eq!(Op::Illegal, decode(0x027c));
}

#[test]
fn addq_decodes() {
    assert_eq!(Op::Addq(OpSize::Byte, EaMode::DataDirect), decode(0x5000));
    assert_eq!(Op::AddqA(OpSize::Word), decode(0x5048));
    assert_eq!(Op::AddqA(OpSize::Long), decode(0x5088));
    // Byte-sized ADDQ to an address register is unassigned, as is SUBQ.
    assert_eq!(Op::Illegal, decode(0x5008));
    assert_eq!(Op::Illegal, decode(0x5100));
}

#[test]
fn and_and_abcd_decode() {
    assert_eq!(Op::AndEr(OpSize::Byte, EaMode::DataDirect), decode(0xc000));
    assert_eq!(Op::Illegal, decode(0xc008));
    assert_eq!(Op::AbcdRr, decode(0xc100));
    assert_eq!(Op::AbcdMm, decode(0xc108));
    assert_eq!(Op::AndRe(OpSize::Byte, EaMode::PreDec), decode(0xc120));
    // The register-exchange slots in the word/long columns stay unassigned.
    assert_eq!(Op::Illegal, decode(0xc140));
    assert_eq!(Op::Illegal, decode(0xc148));
    // So do the multiply opmodes.
    assert_eq!(Op::Illegal, decode(0xc0c0));
    assert_eq!(Op::Illegal, decode(0xc1c0));
}

#[test]
fn shift_decodes() {
    assert_eq!(Op::AslS(OpSize::Byte), decode(0xe301));
    assert_eq!(Op::AslR(OpSize::Byte), decode(0xe321));
    assert_eq!(Op::AsrS(OpSize::Word), decode(0xe040));
    assert_eq!(Op::AsrR(OpSize::Long), decode(0xe0a0));
    // Memory shifts and the other shift kinds are unassigned here.
    assert_eq!(Op::Illegal, decode(0xe0c0));
    assert_eq!(Op::Illegal, decode(0xe308));
}

#[test]
fn unassigned_lines_decode_to_illegal() {
    assert_eq!(Op::Illegal, decode(0x0000));
    assert_eq!(Op::Illegal, decode(0x1234));
    assert_eq!(Op::Illegal, decode(0x7fff));
    assert_eq!(Op::Illegal, decode(0xffff));
}

use m68k_core::bits;

#[test]
fn low_nibble() {
    assert_eq!(0x0a, bits::low_nibble(0xba));
}

#[test]
fn high_nibble() {
    assert_eq!(0xb0, bits::high_nibble(0xba));
}

#[test]
fn mask_out_below_8() {
    assert_eq!(0x2bcdef00, bits::mask_out_below_8(0x2bcdef73));
}

#[test]
fn mask_out_above_8() {
    assert_eq!(0xf1, bits::mask_out_above_8(0x2bcdeff1));
}

#[test]
fn mask_words() {
    assert_eq!(0x0000ef73, bits::mask_out_above_16(0x2bcdef73));
    assert_eq!(0x2bcd0000, bits::mask_out_below_16(0x2bcdef73));
}

#[test]
fn sign_extension() {
    assert_eq!(0xffffff80, bits::sign_extend_8(0x80));
    assert_eq!(0x0000007f, bits::sign_extend_8(0xab7f));
    assert_eq!(0xffff8000, bits::sign_extend_16(0x8000));
    assert_eq!(0x00007fff, bits::sign_extend_16(0xab7fff));
}

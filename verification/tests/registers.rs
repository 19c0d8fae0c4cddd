use mos_arch::MosRegs;

#[test]
fn default_file_is_zeroed() {
    let f = MosRegs::default();
    assert_eq!(f.pc, 0);
    assert_eq!(f.a, 0);
    assert_eq!(f.x, 0);
    assert_eq!(f.y, 0);
    assert_eq!(f.s, 0);
    assert_eq!(f.flags, 0);
    assert_eq!(f.rc, vec![0u8; 32]);
}

#[test]
fn aux_byte_write_shows_in_pair_low_half() {
    let mut f = MosRegs::default();
    f.set_aux_byte(4, 0xAB);
    assert_eq!(f.aux_pair(2), 0x00AB);
    assert_eq!(f.aux_byte(5), 0);
}

#[test]
fn aux_byte_write_shows_in_pair_high_half() {
    let mut f = MosRegs::default();
    f.set_aux_byte(4, 0x11);
    f.set_aux_byte(5, 0xCD);
    assert_eq!(f.aux_pair(2), 0xCD11);
    assert_eq!(f.aux_byte(4), 0x11);
}

#[test]
fn aux_pair_write_shows_in_both_bytes() {
    let mut f = MosRegs::default();
    f.set_aux_pair(3, 0x1234);
    assert_eq!(f.aux_byte(6), 0x34);
    assert_eq!(f.aux_byte(7), 0x12);
    assert_eq!(f.aux_pair(3), 0x1234);
}

#[test]
fn aux_pair_alias_at_bank_edges() {
    let mut f = MosRegs::default();
    f.set_aux_byte(0, 0x01);
    f.set_aux_byte(31, 0x80);
    assert_eq!(f.aux_pair(0), 0x0001);
    assert_eq!(f.aux_pair(15), 0x8000);
}

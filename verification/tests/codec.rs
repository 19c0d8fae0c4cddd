use mos_arch::MosRegs;

fn file(pc: u16, a: u8, x: u8, y: u8, s: u8, flags: u8, rc: Vec<u8>) -> MosRegs {
    MosRegs { rc, pc, a, x, y, s, flags }
}

#[test]
fn encode_concrete_scenario() {
    let f = file(0x1234, 0x01, 0x02, 0x03, 0x04, 0b1000_0011, vec![0u8; 32]);
    let b = f.encode_full_registers();
    let mut expected = vec![0x34u8, 0x12, 0x01, 0x02, 0x03, 0x04, 1, 1, 0, 1];
    expected.extend(vec![0u8; 32]);
    assert_eq!(b, expected);
}

#[test]
fn encode_always_produces_42_bytes() {
    let f = file(0xFFFF, 0xFF, 0xFF, 0xFF, 0xFF, 0xFF, vec![0xFFu8; 32]);
    assert_eq!(f.encode_full_registers().len(), 42);
    assert_eq!(MosRegs::default().encode_full_registers().len(), 42);
}

#[test]
fn decode_then_encode_reproduces_wire_image() {
    let mut b = vec![0x78u8, 0x56, 0x11, 0x22, 0x33, 0x44, 1, 0, 1, 0];
    for i in 0..32u8 {
        b.push(100 + i);
    }
    let mut f = MosRegs::default();
    assert_eq!(f.decode_full_registers(&b), Ok(()));
    assert_eq!(f.encode_full_registers(), b);
}

#[test]
fn decode_ignores_trailing_bytes() {
    let mut b = vec![0xCDu8, 0xAB, 5, 6, 7, 8, 0, 1, 0, 1];
    for i in 0..32u8 {
        b.push(i);
    }
    b.extend(vec![0xEEu8; 7]);
    let mut f = MosRegs::default();
    assert_eq!(f.decode_full_registers(&b), Ok(()));
    let out = f.encode_full_registers();
    assert_eq!(out.len(), 42);
    assert_eq!(out[..], b[..42]);
    assert_eq!(f.pc, 0xABCD);
}

#[test]
fn encode_then_decode_reproduces_file() {
    let rc: Vec<u8> = (0..32u8).map(|i| i.wrapping_mul(7)).collect();
    let f = file(0xBEEF, 0xAA, 0xBB, 0xCC, 0xDD, 0b1100_0011, rc);
    let mut g = f.clone();
    let b = f.encode_full_registers();
    assert_eq!(g.decode_full_registers(&b), Ok(()));
    assert_eq!(g, f);
}

#[test]
fn decode_short_input_fails_without_mutation() {
    let f = file(0x1234, 1, 2, 3, 4, 0b0011_1100, (0..32u8).collect());
    let mut g = f.clone();
    assert_eq!(g.decode_full_registers(&[0u8; 41]), Err(()));
    assert_eq!(g, f);
    assert_eq!(g.decode_full_registers(&[]), Err(()));
    assert_eq!(g, f);
}

#[test]
fn decode_preserves_reserved_flag_bits() {
    let mut f = file(0, 0, 0, 0, 0, 0b0011_1100, vec![0u8; 32]);
    let mut b = vec![0u8, 0, 0, 0, 0, 0, 1, 1, 1, 1];
    b.extend(vec![0u8; 32]);
    assert_eq!(f.decode_full_registers(&b), Ok(()));
    assert_eq!(f.flags, 0b1111_1111);

    let mut g = file(0, 0, 0, 0, 0, 0b1111_1111, vec![0u8; 32]);
    let mut b2 = vec![0u8; 42];
    b2[6] = 0;
    b2[7] = 0;
    b2[8] = 0;
    b2[9] = 0;
    assert_eq!(g.decode_full_registers(&b2), Ok(()));
    assert_eq!(g.flags, 0b0011_1100);
}

#[test]
fn flag_sum_behaves_as_bitwise_or() {
    // The overflow and negative contributions are combined by addition on
    // the wire; for canonical flag bytes this equals the bitwise or of the
    // two isolated bits.
    let mut f = MosRegs::default();
    let mut b = vec![0u8, 0, 0, 0, 0, 0, 0, 0, 1, 1];
    b.extend(vec![0u8; 32]);
    assert_eq!(f.decode_full_registers(&b), Ok(()));
    assert_eq!(f.flags, 0b0100_0000 + 0b1000_0000);
    assert_eq!(f.flags, 0b0100_0000 | 0b1000_0000);
}

#[test]
fn pc_accessor_reads_program_counter() {
    let f = file(0x0FA0, 0, 0, 0, 0, 0, vec![0u8; 32]);
    assert_eq!(f.pc(), 0x0FA0);
}

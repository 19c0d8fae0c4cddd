//! Bidirectional conversion between a register snapshot and the flat byte
//! sequence used by the protocol's full-register transfer commands.
//!
//! Wire layout, 42 bytes in all: program counter little-endian (2), A, X, Y,
//! S (1 each), then the four defined flag bits as four separate single-byte
//! values in the order carry, zero, overflow, negative, then the 32 bytes of
//! the auxiliary bank in index order.

use crate::registers::AUX_LEN;
use crate::registers::MosRegs;
use crate::registers::RegsModel;
use vstd::prelude::*;

verus! {

/// Length in bytes of a full-register wire image.
pub const WIRE_LEN: usize = 42;

/// The ten fixed-position bytes that precede the auxiliary bank on the wire:
/// program counter little-endian, the four scalar registers, then each
/// defined flag bit isolated into a byte of its own.
pub open spec fn wire_header(m: RegsModel) -> Seq<u8> {
    seq![
        (m.pc % 256) as u8,
        (m.pc / 256) as u8,
        m.a,
        m.x,
        m.y,
        m.s,
        m.flags & 1,
        (m.flags >> 1) & 1,
        (m.flags >> 6) & 1,
        (m.flags >> 7) & 1,
    ]
}

/// The full 42-byte wire image of a register snapshot.
pub open spec fn wire_encoding(m: RegsModel) -> Seq<u8> {
    wire_header(m) + m.rc
}

/// The flag byte after a full-register write: the reserved bits 2-5 of the
/// old value are preserved, and the four wire bytes are combined exactly as
/// the protocol layer does, `carry | zero * 2 | (overflow * 64 + negative *
/// 128)`, each product and the sum taken modulo 256 as in 8-bit machine
/// arithmetic. For canonical wire images (flag bytes 0 or 1) no reduction
/// ever occurs and the sum equals the bitwise or of its operands.
pub open spec fn merged_flags(old_flags: u8, c: u8, z: u8, v: u8, n: u8) -> u8 {
    (old_flags & 0x3c) | c | (((z * 2) % 256) as u8) | (((v * 64 + n * 128) % 256) as u8)
}

/// The register model that a full-register write of image `b` produces on a
/// file whose model was `m`.
pub open spec fn decoded_model(m: RegsModel, b: Seq<u8>) -> RegsModel
    recommends
        b.len() >= WIRE_LEN,
{
    RegsModel {
        pc: (b[0] + b[1] * 256) as u16,
        a: b[2],
        x: b[3],
        y: b[4],
        s: b[5],
        flags: merged_flags(m.flags, b[6], b[7], b[8], b[9]),
        rc: b.subrange(10, 42),
    }
}

impl MosRegs {
    /// Serializes the full register file into its 42-byte wire image.
    /// Cannot fail and does not change the file.
    pub fn encode_full_registers(&self) -> (r: Vec<u8>)
        requires
            self@.wf(),
        ensures
            r@ == wire_encoding(self@),
            r@.len() == WIRE_LEN,
    {
        let mut out: Vec<u8> = Vec::new();
        out.push((self.pc % 256) as u8);
        out.push((self.pc / 256) as u8);
        out.push(self.a);
        out.push(self.x);
        out.push(self.y);
        out.push(self.s);
        out.push(self.flags & 1);
        out.push((self.flags >> 1) & 1);
        out.push((self.flags >> 6) & 1);
        out.push((self.flags >> 7) & 1);
        proof {
            assert(out@ =~= wire_header(self@));
        }
        let mut i: usize = 0;
        while i < AUX_LEN
            invariant
                i <= AUX_LEN,
                self@.wf(),
                out@ =~= wire_header(self@) + self@.rc.subrange(0, i as int),
            decreases AUX_LEN - i,
        {
            out.push(self.rc[i]);
            proof {
                assert(out@ =~= wire_header(self@) + self@.rc.subrange(0, i + 1));
            }
            i += 1;
        }
        proof {
            assert(self@.rc.subrange(0, AUX_LEN as int) =~= self@.rc);
            assert(out@ =~= wire_encoding(self@));
        }
        out
    }

    /// Deserializes a full-register wire image into this file. Succeeds if
    /// and only if at least 42 bytes are supplied; on a short input the file
    /// is left entirely unmodified. Bytes past the 42nd are ignored. The
    /// reserved flag bits of the prior value are preserved, never zeroed.
    pub fn decode_full_registers(&mut self, bytes: &[u8]) -> (r: Result<(), ()>)
        requires
            old(self)@.wf(),
        ensures
            r is Ok <==> bytes@.len() >= WIRE_LEN,
            r is Err ==> *final(self) == *old(self),
            r is Ok ==> final(self)@ == decoded_model(old(self)@, bytes@),
            final(self)@.wf(),
    {
        if bytes.len() < WIRE_LEN {
            return Err(());
        }
        let pc: u16 = bytes[0] as u16 + bytes[1] as u16 * 256;

        let zs: u16 = bytes[7] as u16 * 2;
        let zb: u8 = (zs % 256) as u8;
        let vn: u32 = bytes[8] as u32 * 64 + bytes[9] as u32 * 128;
        let vnb: u8 = (vn % 256) as u8;
        let new_flags: u8 = (self.flags & 0x3c) | bytes[6] | zb | vnb;

        let mut rc: Vec<u8> = Vec::new();
        let mut i: usize = 0;
        while i < AUX_LEN
            invariant
                i <= AUX_LEN,
                bytes@.len() >= WIRE_LEN,
                rc@ =~= bytes@.subrange(10, 10 + i as int),
            decreases AUX_LEN - i,
        {
            rc.push(bytes[10 + i]);
            proof {
                assert(rc@ =~= bytes@.subrange(10, 10 + (i + 1)));
            }
            i += 1;
        }

        self.pc = pc;
        self.a = bytes[2];
        self.x = bytes[3];
        self.y = bytes[4];
        self.s = bytes[5];
        self.flags = new_flags;
        self.rc = rc;
        proof {
            assert(self@ =~= decoded_model(old(self)@, bytes@));
        }
        Ok(())
    }
}

/// For canonical flag bytes (each 0 or 1) the merged flag byte carries each
/// wire byte at its own bit position, and the reserved bits 2-5 come from
/// the old value alone.
pub proof fn lemma_merged_flags_canonical(f: u8, c: u8, z: u8, v: u8, n: u8)
    requires
        c <= 1,
        z <= 1,
        v <= 1,
        n <= 1,
    ensures
        merged_flags(f, c, z, v, n) & 1 == c,
        (merged_flags(f, c, z, v, n) >> 1) & 1 == z,
        (merged_flags(f, c, z, v, n) >> 6) & 1 == v,
        (merged_flags(f, c, z, v, n) >> 7) & 1 == n,
        merged_flags(f, c, z, v, n) & 0x3c == f & 0x3c,
{
    let zb: u8 = (((z * 2) % 256) as u8);
    let vnb: u8 = (((v * 64 + n * 128) % 256) as u8);
    assert(zb == z * 2 && vnb == v * 64 + n * 128);
    let m: u8 = (f & 0x3c) | c | zb | vnb;
    assert(m & 1 == c && (m >> 1) & 1 == z && (m >> 6) & 1 == v && (m >> 7) & 1 == n && m & 0x3c
        == f & 0x3c) by (bit_vector)
        requires
            c <= 1 && z <= 1 && v <= 1 && n <= 1,
            zb == z * 2,
            vnb == v * 64 + n * 128,
            m == (f & 0x3c) | c | zb | vnb,
    ;
}

/// The wire combination adds the overflow and negative contributions where
/// the other flags are combined by bitwise or; because bit 6 and bit 7 never
/// overlap, for canonical flag bytes the sum equals the bitwise or.
pub proof fn lemma_flag_sum_is_or(v: u8, n: u8)
    requires
        v <= 1,
        n <= 1,
    ensures
        ((v * 64) as u8) | ((n * 128) as u8) == v * 64 + n * 128,
{
    assert(((v * 64) as u8) | ((n * 128) as u8) == v * 64 + n * 128) by (bit_vector)
        requires
            v <= 1 && n <= 1,
    ;
}

/// Re-merging a flag byte from its own four emitted flag bits reproduces it,
/// provided its reserved bits 2-5 are clear.
pub proof fn lemma_flags_round_trip(f: u8)
    requires
        f & 0x3c == 0,
    ensures
        merged_flags(f, f & 1, (f >> 1) & 1, (f >> 6) & 1, (f >> 7) & 1) == f,
{
    let c: u8 = f & 1;
    let z: u8 = (f >> 1) & 1;
    let v: u8 = (f >> 6) & 1;
    let n: u8 = (f >> 7) & 1;
    assert(c <= 1 && z <= 1 && v <= 1 && n <= 1) by (bit_vector)
        requires
            c == f & 1 && z == (f >> 1) & 1 && v == (f >> 6) & 1 && n == (f >> 7) & 1,
    ;
    let zb: u8 = (((z * 2) % 256) as u8);
    let vnb: u8 = (((v * 64 + n * 128) % 256) as u8);
    assert(zb == z * 2 && vnb == v * 64 + n * 128);
    assert((f & 0x3c) | c | zb | vnb == f) by (bit_vector)
        requires
            f & 0x3c == 0,
            c == f & 1 && z == (f >> 1) & 1 && v == (f >> 6) & 1 && n == (f >> 7) & 1,
            zb == z * 2,
            vnb == v * 64 + n * 128,
    ;
}

/// Decoding any wire image whose four flag bytes are canonical (0 or 1) and
/// re-encoding the resulting file reproduces the first 42 bytes of the
/// image exactly, whatever file the image was decoded into.
pub proof fn lemma_decode_then_encode(m: RegsModel, b: Seq<u8>)
    requires
        b.len() >= WIRE_LEN,
        b[6] <= 1,
        b[7] <= 1,
        b[8] <= 1,
        b[9] <= 1,
    ensures
        wire_encoding(decoded_model(m, b)) == b.subrange(0, WIRE_LEN as int),
{
    let d = decoded_model(m, b);
    assert(d.pc == b[0] + b[1] * 256);
    assert(d.pc % 256 == b[0] && d.pc / 256 == b[1]);
    lemma_merged_flags_canonical(m.flags, b[6], b[7], b[8], b[9]);
    assert(wire_encoding(d) =~= b.subrange(0, WIRE_LEN as int));
}

/// Encoding a file and decoding the image back into the same file
/// reproduces the file exactly, provided its reserved flag bits are clear.
pub proof fn lemma_encode_then_decode(m: RegsModel)
    requires
        m.wf(),
        m.flags & 0x3c == 0,
    ensures
        decoded_model(m, wire_encoding(m)) == m,
{
    let b = wire_encoding(m);
    assert(b[0] == m.pc % 256 && b[1] == m.pc / 256);
    assert(b[0] + b[1] * 256 == m.pc);
    lemma_flags_round_trip(m.flags);
    assert(b.subrange(10, 42) =~= m.rc);
    assert(decoded_model(m, b) =~= m);
}

} // verus!

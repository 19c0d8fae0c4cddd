//! The canonical in-memory register snapshot and its auxiliary-bank views.

use vstd::prelude::*;

verus! {

/// Number of bytes in the auxiliary (imaginary) register bank.
pub const AUX_LEN: usize = 32;

/// Number of 16-bit word registers aliasing the auxiliary bank.
pub const AUX_PAIRS: usize = 16;

/// Canonical in-memory register snapshot: program counter, four 8-bit
/// registers, a packed status-flag byte, and 32 bytes of auxiliary storage
/// addressable both as 32 byte registers and as 16 little-endian word
/// registers.
#[derive(Debug, Clone, PartialEq, Eq)]
pub struct MosRegs {
    /// Auxiliary register bank; well-formed values hold exactly 32 bytes.
    pub rc: Vec<u8>,
    /// 16-bit program counter.
    pub pc: u16,
    /// Accumulator.
    pub a: u8,
    /// Index register X.
    pub x: u8,
    /// Index register Y.
    pub y: u8,
    /// Stack pointer.
    pub s: u8,
    /// Packed status word; bits 0 (carry), 1 (zero), 6 (overflow) and
    /// 7 (negative) are defined, bits 2-5 are reserved and must be
    /// preserved, never interpreted.
    pub flags: u8,
}

/// Mathematical model of a register snapshot.
#[verifier::ext_equal]
pub struct RegsModel {
    pub rc: Seq<u8>,
    pub pc: u16,
    pub a: u8,
    pub x: u8,
    pub y: u8,
    pub s: u8,
    pub flags: u8,
}

impl View for MosRegs {
    type V = RegsModel;

    open spec fn view(&self) -> RegsModel {
        RegsModel {
            rc: self.rc@,
            pc: self.pc,
            a: self.a,
            x: self.x,
            y: self.y,
            s: self.s,
            flags: self.flags,
        }
    }
}

impl RegsModel {
    /// The auxiliary bank holds exactly 32 bytes.
    pub open spec fn wf(self) -> bool {
        self.rc.len() == AUX_LEN
    }
}

/// The model of a freshly created register file: everything zero.
pub open spec fn default_model() -> RegsModel {
    RegsModel {
        rc: Seq::new(AUX_LEN as nat, |i: int| 0u8),
        pc: 0,
        a: 0,
        x: 0,
        y: 0,
        s: 0,
        flags: 0,
    }
}

/// The 16-bit value of aux-pair register `k`: bytes `2k` (low) and `2k + 1`
/// (high) of the bank, combined little-endian.
pub open spec fn aux_pair_value(rc: Seq<u8>, k: int) -> u16
    recommends
        rc.len() == AUX_LEN,
        0 <= k < AUX_PAIRS,
{
    (rc[2 * k] + rc[2 * k + 1] * 256) as u16
}

impl Default for MosRegs {
    /// A zeroed register file with a well-formed auxiliary bank.
    fn default() -> (r: Self)
        ensures
            r@ == default_model(),
    {
        let mut rc: Vec<u8> = Vec::new();
        let mut i: usize = 0;
        while i < AUX_LEN
            invariant
                i <= AUX_LEN,
                rc@.len() == i,
                forall|j: int| 0 <= j < i ==> rc@[j] == 0u8,
            decreases AUX_LEN - i,
        {
            rc.push(0);
            i += 1;
        }
        let r = MosRegs { rc, pc: 0, a: 0, x: 0, y: 0, s: 0, flags: 0 };
        proof {
            assert(r@.rc =~= default_model().rc);
            assert(r@ =~= default_model());
        }
        r
    }
}

impl MosRegs {
    /// Current program counter.
    pub fn pc(&self) -> (r: u16)
        ensures
            r == self@.pc,
    {
        self.pc
    }

    /// Auxiliary register `i` through the 8-bit view.
    pub fn aux_byte(&self, i: usize) -> (r: u8)
        requires
            self@.wf(),
            i < AUX_LEN,
        ensures
            r == self@.rc[i as int],
    {
        self.rc[i]
    }

    /// Writes auxiliary register `i` through the 8-bit view; every other
    /// part of the file is unchanged.
    pub fn set_aux_byte(&mut self, i: usize, v: u8)
        requires
            old(self)@.wf(),
            i < AUX_LEN,
        ensures
            final(self)@ == (RegsModel { rc: old(self)@.rc.update(i as int, v), ..old(self)@ }),
            final(self)@.wf(),
    {
        self.rc[i] = v;
    }

    /// Aux-pair register `k` through the 16-bit view: bytes `2k` and
    /// `2k + 1` of the bank, combined little-endian.
    pub fn aux_pair(&self, k: usize) -> (r: u16)
        requires
            self@.wf(),
            k < AUX_PAIRS,
        ensures
            r == aux_pair_value(self@.rc, k as int),
    {
        let lo = self.rc[2 * k];
        let hi = self.rc[2 * k + 1];
        lo as u16 + hi as u16 * 256
    }

    /// Writes aux-pair register `k` through the 16-bit view: byte `2k`
    /// receives the low half, byte `2k + 1` the high half.
    pub fn set_aux_pair(&mut self, k: usize, v: u16)
        requires
            old(self)@.wf(),
            k < AUX_PAIRS,
        ensures
            final(self)@ == (RegsModel {
                rc: old(self)@.rc.update(2 * k as int, (v % 256) as u8).update(
                    2 * k as int + 1,
                    (v / 256) as u8,
                ),
                ..old(self)@
            }),
            final(self)@.wf(),
    {
        self.rc[2 * k] = (v % 256) as u8;
        self.rc[2 * k + 1] = (v / 256) as u8;
    }
}

/// The two views of the auxiliary bank alias the same storage: writing byte
/// `i` through the 8-bit view and reading pair `i / 2` through the 16-bit
/// view sees the written byte in the half selected by the parity of `i`,
/// with the other half unchanged.
pub proof fn lemma_aux_views_alias(rc: Seq<u8>, i: int, v: u8)
    requires
        rc.len() == AUX_LEN,
        0 <= i < AUX_LEN,
    ensures
        i % 2 == 0 ==> aux_pair_value(rc.update(i, v), i / 2) == v + rc[i + 1] * 256,
        i % 2 == 1 ==> aux_pair_value(rc.update(i, v), i / 2) == rc[i - 1] + v * 256,
{
    let k = i / 2;
    assert(2 * k == i || 2 * k + 1 == i);
}

} // verus!

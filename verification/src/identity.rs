//! The stable mapping from protocol register indices to logical registers
//! and their encoded byte widths.

use vstd::prelude::*;

verus! {

/// Highest protocol register index that maps to a logical register.
pub const MAX_REG_INDEX: usize = 56;

/// A logical register of the target: the program counter, one of the four
/// scalar CPU registers, one of the four defined flag bits, one of the 32
/// auxiliary byte registers, or one of the 16 auxiliary word registers
/// aliasing them pairwise.
#[derive(Debug, Clone, Copy, PartialEq, Eq, Structural)]
pub enum MosRegId {
    /// Auxiliary byte register `0..32` (8-bit view of the bank).
    RC(usize),
    /// Auxiliary word register `0..16` (16-bit view of byte pair `2k, 2k+1`).
    RS(usize),
    /// Program counter.
    PC,
    /// Accumulator.
    A,
    /// Index register X.
    X,
    /// Index register Y.
    Y,
    /// Stack pointer.
    S,
    /// Carry flag (bit 0 of the status word).
    C,
    /// Zero flag (bit 1 of the status word).
    Z,
    /// Negative flag (bit 7 of the status word).
    N,
    /// Overflow flag (bit 6 of the status word).
    V,
}

/// The register and encoded byte width that protocol index `id` denotes, or
/// `None` for an index outside the defined ranges: a defined absence, not an
/// error.
pub open spec fn resolved(id: usize) -> Option<(MosRegId, usize)> {
    if id == 0 {
        Some((MosRegId::PC, 2))
    } else if id == 1 {
        Some((MosRegId::A, 1))
    } else if id == 2 {
        Some((MosRegId::X, 1))
    } else if id == 3 {
        Some((MosRegId::Y, 1))
    } else if id == 4 {
        Some((MosRegId::S, 1))
    } else if id == 5 {
        Some((MosRegId::C, 1))
    } else if id == 6 {
        Some((MosRegId::Z, 1))
    } else if id == 7 {
        Some((MosRegId::V, 1))
    } else if id == 8 {
        Some((MosRegId::N, 1))
    } else if 9 <= id && id <= 40 {
        Some((MosRegId::RC((id - 9) as usize), 1))
    } else if 41 <= id && id <= 56 {
        Some((MosRegId::RS((id - 41) as usize), 2))
    } else {
        None
    }
}

impl MosRegId {
    /// Resolves a protocol register index to its logical register and its
    /// encoded byte width; indices above 56 are absent.
    pub fn from_raw_id(id: usize) -> (r: Option<(MosRegId, usize)>)
        ensures
            r == resolved(id),
            r is Some <==> id <= MAX_REG_INDEX,
    {
        if id == 0 {
            Some((MosRegId::PC, 2))
        } else if id == 1 {
            Some((MosRegId::A, 1))
        } else if id == 2 {
            Some((MosRegId::X, 1))
        } else if id == 3 {
            Some((MosRegId::Y, 1))
        } else if id == 4 {
            Some((MosRegId::S, 1))
        } else if id == 5 {
            Some((MosRegId::C, 1))
        } else if id == 6 {
            Some((MosRegId::Z, 1))
        } else if id == 7 {
            Some((MosRegId::V, 1))
        } else if id == 8 {
            Some((MosRegId::N, 1))
        } else if id <= 40 {
            Some((MosRegId::RC(id - 9), 1))
        } else if id <= 56 {
            Some((MosRegId::RS(id - 41), 2))
        } else {
            None
        }
    }
}

/// The index-to-register mapping is injective on its defined domain: no two
/// distinct indices resolve to the same logical register.
pub proof fn lemma_resolved_injective(i: usize, j: usize)
    requires
        i != j,
        resolved(i) is Some,
        resolved(j) is Some,
    ensures
        resolved(i).unwrap().0 != resolved(j).unwrap().0,
{
}

} // verus!

//! Register model, wire codec, register-index mapping and target description
//! for a remote-debugging stub of an 8-bit-accumulator CPU with a 32-byte
//! bank of imaginary registers.
//!
//! The surrounding debug-stub transport is out of scope: every operation here
//! is a pure, stateless transformation over a caller-owned register snapshot.

pub mod codec;
pub mod description;
pub mod identity;
pub mod registers;

pub use description::MOSArch;
pub use description::MosBreakpointKind;
pub use identity::MosRegId;
pub use registers::MosRegs;

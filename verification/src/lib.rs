pub mod error;
pub mod exec;
pub mod fetch;
pub mod imm;
pub mod mem64;
pub mod regfile;
pub mod size;

use vstd::prelude::*;

verus! {

/// The machine width: the number of bits in an integer register.
///
/// `X128` is a reserved width; the execution engine rejects it at
/// construction, and width-specific decode rules treat it as its own case.
#[derive(Clone, Copy, Eq, PartialEq, Structural, Debug)]
pub enum Xlen {
    X32,
    X64,
    X128,
}

impl Xlen {
    /// The register width in bits, as a mathematical number.
    pub open spec fn spec_bits(self) -> nat {
        match self {
            Xlen::X32 => 32,
            Xlen::X64 => 64,
            Xlen::X128 => 128,
        }
    }
}

} // verus!

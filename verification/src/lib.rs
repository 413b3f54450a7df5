//! Length-only x86 / x86-64 instruction decoder.
//!
//! Given a window of machine-code bytes and a processor operating mode, the
//! decoder computes how many bytes the single instruction at the start of the
//! window occupies, without producing a mnemonic or operands.  The grammar it
//! classifies covers legacy prefixes, the REX prefix (64-bit mode only), the
//! one-, two- and three-byte opcode escapes, the ModRM/SIB/displacement
//! addressing bytes, and the immediate-operand encodings keyed by opcode,
//! sub-opcode, operand-size state and address-size state.
//!
//! The decoder is best effort: it does not check that the opcode denotes a
//! defined instruction, and any computed length beyond the architectural
//! maximum of 15 bytes is replaced by a fallback length of 1.
//!
//! The mathematical model of the grammar lives in [`model`], the executable
//! decoder in [`decoder`], and the proved general properties in [`laws`].

pub mod decoder;
pub mod laws;
pub mod model;

pub use decoder::insn_len_x86;
pub use model::Bits;

use vstd::prelude::*;

verus! {

/// Architectural maximum length, in bytes, of one x86 instruction.
pub const MAX_INSN_LEN_X86: usize = 15;

/// Error type of the decoding entry points.
///
/// The decoder always clamps an oversized length instead of failing, so the
/// entry points never actually produce this value.
#[derive(Copy, Clone, Debug, Default, Eq, Hash, Ord, PartialEq, PartialOrd, Structural)]
pub struct Error {
    invalidinstlen: usize,
}

impl Error {
    /// The length recorded as invalid; always zero for a freshly made error.
    pub closed spec fn spec_invalid_len(self) -> usize {
        self.invalidinstlen
    }

    /// Makes the (information-free) decode error.
    pub fn new() -> (r: Self)
        ensures
            r.spec_invalid_len() == 0,
    {
        Self { invalidinstlen: 0 }
    }
}

/// Largest number of bytes one instruction can occupy.
pub fn max_insn_len() -> (r: usize)
    ensures
        r == MAX_INSN_LEN_X86,
{
    MAX_INSN_LEN_X86
}

/// Length of the instruction at the start of `insn`, decoded in 32-bit mode.
///
/// Always succeeds; the returned length lies in `1..=15`.
pub fn arch_insn_len(insn: &[u8]) -> (r: Result<i32, Error>)
    requires
        insn@.len() >= 15,
    ensures
        r matches Ok(len) && len == model::spec_insn_len(insn@, Bits::B32),
        r matches Ok(len) && 1 <= len <= 15,
{
    match decoder::insn_len_x86(insn, Bits::B32) {
        Some(len) => Ok(len),
        None => Err(Error::new()),
    }
}

/// Length of the instruction at the start of `insn`, decoded in 64-bit mode.
///
/// Always succeeds; the returned length lies in `1..=15`.
pub fn arch_insn_len_x86(insn: &[u8]) -> (r: Result<i32, Error>)
    requires
        insn@.len() >= 15,
    ensures
        r matches Ok(len) && len == model::spec_insn_len(insn@, Bits::B64),
        r matches Ok(len) && 1 <= len <= 15,
{
    match decoder::insn_len_x86(insn, Bits::B64) {
        Some(len) => Ok(len),
        None => Err(Error::new()),
    }
}

/// Demonstration helper: checks a three-letter word against its length.
pub fn qwb() {
    let w = "qwb";
    proof {
        reveal_strlit("qwb");
    }
    assert(w@.len() == 3);
}

} // verus!

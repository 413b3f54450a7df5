//! Mathematical model of the x86 instruction-length grammar.
//!
//! Every function here is a specification over the byte stream `s` (only its
//! first fifteen bytes ever matter) and the processor mode.  The decoding
//! phases are strictly sequential: legacy prefix, REX prefix, opcode escapes,
//! opcode, ModRM/SIB/displacement, immediates, and a final clamp.  Each phase
//! is a separate spec function so that the executable decoder and the proved
//! laws can speak about intermediate state (effective operand size, effective
//! address size, opcode position) and not only about the final length.

use vstd::prelude::*;

verus! {

/// Processor operating mode, and likewise an operand- or address-size class.
#[derive(Clone, Copy, Debug, PartialEq, Eq, Structural)]
pub enum Bits {
    B16,
    B32,
    B64,
}

/// The recognized legacy prefix bytes: lock, repeat, segment overrides, and
/// the operand-size (0x66) and address-size (0x67) overrides.
pub open spec fn is_legacy_prefix(b: u8) -> bool {
    ||| b == 0xf0
    ||| b == 0xf2
    ||| b == 0xf3
    ||| b == 0x2e
    ||| b == 0x36
    ||| b == 0x3e
    ||| b == 0x26
    ||| b == 0x64
    ||| b == 0x65
    ||| b == 0x66
    ||| b == 0x67
}

/// How many legacy prefix bytes the decode consumes: at most one, even though
/// the full grammar would allow a run of several.
pub open spec fn spec_prefix_count(s: Seq<u8>) -> int {
    if is_legacy_prefix(s[0]) {
        1
    } else {
        0
    }
}

/// Effective operand size once the legacy prefix has been examined: the
/// operand-size override reduces it to 16 bits, otherwise it is 32 bits.
pub open spec fn spec_operand_bits_after_prefix(s: Seq<u8>) -> Bits {
    if s[0] == 0x66 {
        Bits::B16
    } else {
        Bits::B32
    }
}

/// The address-size override toggles between 16-bit and 32-bit addressing
/// relative to the current size.
pub open spec fn spec_toggle_addr(a: Bits) -> Bits {
    if a == Bits::B32 {
        Bits::B16
    } else {
        Bits::B32
    }
}

/// Effective address size for the decode: the mode's natural width, toggled
/// by an address-size override prefix.
pub open spec fn spec_addr_bits(s: Seq<u8>, bits: Bits) -> Bits {
    if s[0] == 0x67 {
        spec_toggle_addr(bits)
    } else {
        bits
    }
}

/// Position of the byte examined by the REX scan.
pub open spec fn spec_rex_index(s: Seq<u8>) -> int {
    spec_prefix_count(s)
}

/// Whether a REX prefix is consumed: only in 64-bit mode, and only when the
/// byte after the legacy prefix has high nibble 0x4.
pub open spec fn spec_has_rex(s: Seq<u8>, bits: Bits) -> bool {
    bits == Bits::B64 && s[spec_rex_index(s)] & 0xf0 == 0x40
}

/// Effective operand size for the decode: a REX prefix with its W bit (0x08)
/// set raises it to 64 bits, otherwise the legacy-prefix phase decides.
pub open spec fn spec_operand_bits(s: Seq<u8>, bits: Bits) -> Bits {
    if spec_has_rex(s, bits) && s[spec_rex_index(s)] & 0x08 != 0 {
        Bits::B64
    } else {
        spec_operand_bits_after_prefix(s)
    }
}

/// Position of the byte examined by the opcode-escape scan.
pub open spec fn spec_escape_index(s: Seq<u8>, bits: Bits) -> int {
    spec_prefix_count(s) + if spec_has_rex(s, bits) {
        1int
    } else {
        0
    }
}

/// Whether the 0x0f escape byte introduces a two-byte opcode.
pub open spec fn spec_is_twobyte(s: Seq<u8>, bits: Bits) -> bool {
    s[spec_escape_index(s, bits)] == 0x0f
}

/// The WAIT byte 0x9b fused with the x87 opcode/ModRM patterns that use it:
/// 0xd9 with memory form and reg 110 or 111, 0xdb with ModRM 0xe2 or 0xe3,
/// 0xdd with reg 110 or 111, and 0xdf with ModRM 0xe0.  In these shapes the
/// 0x9b byte is consumed as a one-byte special case before the opcode.
pub open spec fn spec_wait_fused(s: Seq<u8>, bits: Bits) -> bool {
    let i = spec_escape_index(s, bits);
    s[i] == 0x9b && {
        ||| (s[i + 1] == 0xd9 && s[i + 2] & 0xc0 != 0xc0 && s[i + 2] & 0x30 == 0x30)
        ||| (s[i + 1] == 0xdb && (s[i + 2] == 0xe2 || s[i + 2] == 0xe3))
        ||| (s[i + 1] == 0xdd && s[i + 2] & 0x30 == 0x30)
        ||| (s[i + 1] == 0xdf && s[i + 2] == 0xe0)
    }
}

/// How many bytes the escape scan consumes (the 0x0f escape or a fused 0x9b).
pub open spec fn spec_escape_count(s: Seq<u8>, bits: Bits) -> int {
    if spec_is_twobyte(s, bits) || spec_wait_fused(s, bits) {
        1
    } else {
        0
    }
}

/// Position of the primary opcode byte.
pub open spec fn spec_opcode_index(s: Seq<u8>, bits: Bits) -> int {
    spec_escape_index(s, bits) + spec_escape_count(s, bits)
}

/// The primary opcode byte (for a two-byte opcode, the byte after 0x0f).
pub open spec fn spec_opcode(s: Seq<u8>, bits: Bits) -> u8 {
    s[spec_opcode_index(s, bits)]
}

/// One-byte opcodes that are followed by a ModRM byte:
/// 0x00-0x03, 0x08-0x0b, 0x10-0x13, 0x18-0x1b, 0x20-0x23, 0x28-0x2b,
/// 0x30-0x33, 0x38-0x3b, 0x62, 0x63, 0x69, 0x6b, 0x80-0x8f, 0xc0, 0xc1,
/// 0xc4-0xc7, 0xd0-0xd3, 0xd8-0xdf, 0xf6, 0xf7, 0xfe, 0xff.
pub open spec fn onebyte_has_modrm(op: u8) -> bool {
    ||| op & 0xf4 == 0x00
    ||| op & 0xf4 == 0x10
    ||| op & 0xf4 == 0x20
    ||| op & 0xf4 == 0x30
    ||| op == 0x62
    ||| op == 0x63
    ||| op == 0x69
    ||| op == 0x6b
    ||| op & 0xf0 == 0x80
    ||| op == 0xc0
    ||| op == 0xc1
    ||| op & 0xfc == 0xc4
    ||| op & 0xfc == 0xd0
    ||| op & 0xf8 == 0xd8
    ||| op == 0xf6
    ||| op == 0xf7
    ||| op == 0xfe
    ||| op == 0xff
}

/// Two-byte opcodes are followed by a ModRM byte except these:
/// 0x05-0x09, 0x0b, 0x0e, 0x30-0x37, 0x77, 0x80-0x8f, 0xa0-0xa2, 0xa8-0xaa,
/// 0xb9, 0xc8-0xcf.
pub open spec fn twobyte_has_modrm(op: u8) -> bool {
    !{
        ||| (0x05 <= op && op <= 0x09)
        ||| op == 0x0b
        ||| op == 0x0e
        ||| op & 0xf8 == 0x30
        ||| op == 0x77
        ||| op & 0xf0 == 0x80
        ||| (0xa0 <= op && op <= 0xa2)
        ||| (0xa8 <= op && op <= 0xaa)
        ||| op & 0xf8 == 0xc8
        ||| op == 0xb9
    }
}

/// Whether a ModRM byte follows the opcode.
pub open spec fn spec_has_modrm(s: Seq<u8>, bits: Bits) -> bool {
    if spec_is_twobyte(s, bits) {
        twobyte_has_modrm(spec_opcode(s, bits))
    } else {
        onebyte_has_modrm(spec_opcode(s, bits))
    }
}

/// Extra opcode material after a two-byte opcode: the three-byte escapes
/// 0x38 and 0x3a consume the actual third opcode byte, and the 3DNow! escape
/// 0x0f accounts for its trailing opcode byte.
pub open spec fn spec_extra_opcode_count(s: Seq<u8>, bits: Bits) -> int {
    if spec_is_twobyte(s, bits) && (spec_opcode(s, bits) == 0x38 || spec_opcode(s, bits) == 0x3a
        || spec_opcode(s, bits) == 0x0f) {
        1
    } else {
        0
    }
}

/// Position of the ModRM byte, when one is present.
pub open spec fn spec_modrm_index(s: Seq<u8>, bits: Bits) -> int {
    spec_opcode_index(s, bits) + 1 + spec_extra_opcode_count(s, bits)
}

/// The ModRM byte, or zero when the opcode has none.  The zero default only
/// matters to the immediate tables gated on the reg field (0xf6 and 0xf7),
/// and those opcodes always carry a ModRM byte.
pub open spec fn spec_modrm(s: Seq<u8>, bits: Bits) -> u8 {
    if spec_has_modrm(s, bits) {
        s[spec_modrm_index(s, bits)]
    } else {
        0
    }
}

/// Bytes occupied by an addressing form with ModRM byte `m`, following byte
/// `sib` (only read when the form calls for a SIB byte) and effective
/// address size `a`: the ModRM byte itself, the displacement selected by the
/// mod and rm fields, the SIB byte, and the extra displacement a SIB base of
/// 101 calls for under mod 00.
pub open spec fn addressing_len_of(m: u8, sib: u8, a: Bits) -> int {
    1 + (if a != Bits::B16 && m & 0xc7 == 5 {
        4int
    } else {
        0
    }) + (if a == Bits::B16 && m & 0xc7 == 6 {
        2int
    } else {
        0
    }) + (if m & 0xc0 == 0x40 {
        1int
    } else {
        0
    }) + (if m & 0xc0 == 0x80 {
        if a == Bits::B16 {
            2int
        } else {
            4
        }
    } else {
        0
    }) + (if a != Bits::B16 && m & 0xc0 != 0xc0 && m & 0x07 == 4 {
        1 + (if m & 0xc0 == 0 && sib & 0x07 == 5 {
            4int
        } else {
            0
        })
    } else {
        0
    })
}

/// Bytes occupied by the addressing form of the instruction: zero when the
/// opcode has no ModRM byte.
pub open spec fn spec_addressing_len(s: Seq<u8>, bits: Bits) -> int {
    if spec_has_modrm(s, bits) {
        addressing_len_of(
            s[spec_modrm_index(s, bits)],
            s[spec_modrm_index(s, bits) + 1],
            spec_addr_bits(s, bits),
        )
    } else {
        0
    }
}

/// One-byte opcodes with an 8-bit immediate:
/// 0x04, 0x0c, 0x14, 0x1c, 0x24, 0x2c, 0x34, 0x3c, 0x6a, 0x6b, 0x70-0x7f,
/// 0x80, 0x82, 0x83, 0xa8, 0xb0-0xb7, 0xc0, 0xc1, 0xc6, 0xcd, 0xd4, 0xd5,
/// 0xe0-0xe7, 0xeb, and 0xf6 when the ModRM reg field is 000 or 001.
pub open spec fn onebyte_imm8(op: u8, m: u8) -> bool {
    ||| (op & 7 == 4 && op & 0xf0 <= 0x30)
    ||| op == 0x6a
    ||| op == 0x6b
    ||| op & 0xf0 == 0x70
    ||| op == 0x80
    ||| op == 0x82
    ||| op == 0x83
    ||| op == 0xa8
    ||| op & 0xf8 == 0xb0
    ||| op == 0xc0
    ||| op == 0xc1
    ||| op == 0xc6
    ||| op == 0xcd
    ||| op == 0xd4
    ||| op == 0xd5
    ||| op & 0xf8 == 0xe0
    ||| op == 0xeb
    ||| (op == 0xf6 && m & 0x30 == 0)
}

/// One-byte opcodes with an immediate of 16 or 32 bits, by operand size:
/// 0x05, 0x0d, 0x15, 0x1d, 0x25, 0x2d, 0x35, 0x3d, 0x68, 0x69, 0x81, 0xa9,
/// 0xc7, 0xe8, 0xe9.
pub open spec fn onebyte_imm16_32(op: u8) -> bool {
    ||| (op & 7 == 5 && op & 0xf0 <= 0x30)
    ||| op == 0x68
    ||| op == 0x69
    ||| op == 0x81
    ||| op == 0xa9
    ||| op == 0xc7
    ||| op == 0xe8
    ||| op == 0xe9
}

/// Immediate bytes for a size class chosen by an effective size.
pub open spec fn spec_size_16_32_64(b: Bits) -> int {
    match b {
        Bits::B16 => 2,
        Bits::B32 => 4,
        Bits::B64 => 8,
    }
}

/// Immediate bytes of a one-byte opcode `op`, with ModRM byte `m`, effective
/// operand size `o` and effective address size `a`.  The tables are: imm8;
/// imm16 (0xc2, 0xca); imm16/32 by operand size; imm16/32/64 by operand size
/// (0xb8-0xbf, and 0xf7 with reg 000 or 001); moffs by address size
/// (0xa0-0xa3); the far-pointer pair imm16 + imm16/32 (0xea, 0x9a); and the
/// fixed three bytes of 0xc8.
pub open spec fn onebyte_imm_len(op: u8, m: u8, o: Bits, a: Bits) -> int {
    (if onebyte_imm8(op, m) {
        1int
    } else {
        0
    }) + (if op == 0xc2 || op == 0xca {
        2int
    } else {
        0
    }) + (if onebyte_imm16_32(op) {
        if o == Bits::B16 {
            2int
        } else {
            4
        }
    } else {
        0
    }) + (if op & 0xf8 == 0xb8 || (op == 0xf7 && m & 0x30 == 0) {
        spec_size_16_32_64(o)
    } else {
        0
    }) + (if op & 0xfc == 0xa0 {
        spec_size_16_32_64(a)
    } else {
        0
    }) + (if op == 0xea || op == 0x9a {
        2 + (if o == Bits::B16 {
            2int
        } else {
            4
        })
    } else {
        0
    }) + (if op == 0xc8 {
        3int
    } else {
        0
    })
}

/// Immediate bytes of a two-byte opcode `op` with effective operand size `o`:
/// imm8 for 0x70-0x73, 0xa4, 0xac, 0xba, 0xc2, 0xc4-0xc6; imm16/32 by operand
/// size for 0x80-0x8f; and the imm8 every three-byte opcode under the 0x3a
/// escape carries.
pub open spec fn twobyte_imm_len(op: u8, o: Bits) -> int {
    (if op & 0xfc == 0x70 || op == 0xa4 || op == 0xac || op == 0xba || op == 0xc2 || (0xc4 <= op
        && op <= 0xc6) {
        1int
    } else {
        0
    }) + (if op & 0xf0 == 0x80 {
        if o == Bits::B16 {
            2int
        } else {
            4
        }
    } else {
        0
    }) + (if op == 0x3a {
        1int
    } else {
        0
    })
}

/// Bytes occupied by the immediate operands.
pub open spec fn spec_imm_len(s: Seq<u8>, bits: Bits) -> int {
    if spec_is_twobyte(s, bits) {
        twobyte_imm_len(spec_opcode(s, bits), spec_operand_bits(s, bits))
    } else {
        onebyte_imm_len(
            spec_opcode(s, bits),
            spec_modrm(s, bits),
            spec_operand_bits(s, bits),
            spec_addr_bits(s, bits),
        )
    }
}

/// The length before the clamp: one byte per consumed prefix, escape and
/// opcode byte, plus the addressing form, plus the immediates.
pub open spec fn spec_raw_len(s: Seq<u8>, bits: Bits) -> int {
    spec_prefix_count(s) + (if spec_has_rex(s, bits) {
        1int
    } else {
        0
    }) + spec_escape_count(s, bits) + 1 + spec_extra_opcode_count(s, bits) + spec_addressing_len(
        s,
        bits,
    ) + spec_imm_len(s, bits)
}

/// The decoded instruction length: the raw length, except that a computation
/// past the architectural maximum of 15 bytes falls back to length 1.
pub open spec fn spec_insn_len(s: Seq<u8>, bits: Bits) -> int {
    if spec_raw_len(s, bits) > 15 {
        1
    } else {
        spec_raw_len(s, bits)
    }
}

} // verus!

//! The executable instruction-length decoder.

use crate::model::{
    addressing_len_of, onebyte_has_modrm, onebyte_imm_len, spec_addr_bits, spec_addressing_len,
    spec_escape_count, spec_escape_index, spec_extra_opcode_count, spec_has_modrm, spec_has_rex,
    spec_insn_len, spec_is_twobyte, spec_modrm, spec_modrm_index, spec_opcode, spec_opcode_index,
    spec_operand_bits, spec_operand_bits_after_prefix, spec_prefix_count, spec_raw_len,
    twobyte_has_modrm, twobyte_imm_len, Bits,
};
use vstd::prelude::*;

verus! {

/// Whether a one-byte opcode is followed by a ModRM byte.
#[verifier::rlimit(100)]
fn exec_onebyte_has_modrm(op: u8) -> (r: bool)
    ensures
        r == onebyte_has_modrm(op),
{
    op & 0xf4 == 0x00 || op & 0xf4 == 0x10 || op & 0xf4 == 0x20 || op & 0xf4 == 0x30 || op == 0x62
        || op == 0x63 || op == 0x69 || op == 0x6b || op & 0xf0 == 0x80 || op == 0xc0 || op == 0xc1
        || op & 0xfc == 0xc4 || op & 0xfc == 0xd0 || op & 0xf8 == 0xd8 || op == 0xf6 || op == 0xf7
        || op == 0xfe || op == 0xff
}

/// Whether a two-byte opcode is followed by a ModRM byte.
#[verifier::rlimit(100)]
fn exec_twobyte_has_modrm(op: u8) -> (r: bool)
    ensures
        r == twobyte_has_modrm(op),
{
    !((0x05 <= op && op <= 0x09) || op == 0x0b || op == 0x0e || op & 0xf8 == 0x30 || op == 0x77
        || op & 0xf0 == 0x80 || (0xa0 <= op && op <= 0xa2) || (0xa8 <= op && op <= 0xaa) || op
        & 0xf8 == 0xc8 || op == 0xb9)
}

/// Displacement and SIB bytes called for by ModRM byte `m`, the following
/// byte `sib`, and effective address size `a`; the count includes the ModRM
/// byte itself.
#[verifier::rlimit(100)]
fn exec_addressing_len(m: u8, sib: u8, a: Bits) -> (r: i32)
    ensures
        r == addressing_len_of(m, sib, a),
        1 <= r <= 17,
{
    let mut len: i32 = 1;
    // Mod = 00, R/M = 101: absolute disp32 (except 16-bit addressing).
    if a != Bits::B16 && m & 0xc7 == 5 {
        len = len + 4;
    }
    // Mod = 00, R/M = 110 under 16-bit addressing: disp16.
    if a == Bits::B16 && m & 0xc7 == 6 {
        len = len + 2;
    }
    // Mod = 01: disp8.
    if m & 0xc0 == 0x40 {
        len = len + 1;
    }
    // Mod = 10: disp16 or disp32 by address size.
    if m & 0xc0 == 0x80 {
        len = len + if a == Bits::B16 {
            2
        } else {
            4
        };
    }
    // A SIB byte follows memory forms with R/M = 100, and a SIB base of 101
    // under Mod = 00 brings one more disp32.
    if a != Bits::B16 && m & 0xc0 != 0xc0 && m & 0x07 == 4 {
        len = len + 1;
        if m & 0xc0 == 0 && sib & 0x07 == 5 {
            len = len + 4;
        }
    }
    len
}

/// Immediate bytes of a one-byte opcode.
#[verifier::rlimit(100)]
fn exec_onebyte_imm_len(op: u8, m: u8, o: Bits, a: Bits) -> (r: i32)
    ensures
        r == onebyte_imm_len(op, m, o, a),
        0 <= r <= 32,
{
    let mut len: i32 = 0;
    // imm8.
    if (op & 7 == 4 && op & 0xf0 <= 0x30) || op == 0x6a || op == 0x6b || op & 0xf0 == 0x70 || op
        == 0x80 || op == 0x82 || op == 0x83 || op == 0xa8 || op & 0xf8 == 0xb0 || op == 0xc0 || op
        == 0xc1 || op == 0xc6 || op == 0xcd || op == 0xd4 || op == 0xd5 || op & 0xf8 == 0xe0 || op
        == 0xeb || (op == 0xf6 && m & 0x30 == 0) {
        len = len + 1;
    }
    // imm16.
    if op == 0xc2 || op == 0xca {
        len = len + 2;
    }
    // imm16/32 by operand size.
    if (op & 7 == 5 && op & 0xf0 <= 0x30) || op == 0x68 || op == 0x69 || op == 0x81 || op == 0xa9
        || op == 0xc7 || op == 0xe8 || op == 0xe9 {
        len = len + if o == Bits::B16 {
            2
        } else {
            4
        };
    }
    // imm16/32/64 by operand size.
    if op & 0xf8 == 0xb8 || (op == 0xf7 && m & 0x30 == 0) {
        len = len + match o {
            Bits::B16 => 2,
            Bits::B32 => 4,
            Bits::B64 => 8,
        };
    }
    // moffs by address size.
    if op & 0xfc == 0xa0 {
        len = len + match a {
            Bits::B16 => 2,
            Bits::B32 => 4,
            Bits::B64 => 8,
        };
    }
    // Far pointer: imm16 + imm16/32.
    if op == 0xea || op == 0x9a {
        len = len + 2;
        len = len + if o == Bits::B16 {
            2
        } else {
            4
        };
    }
    // 0xc8: imm16 + imm8.
    if op == 0xc8 {
        len = len + 3;
    }
    len
}

/// Immediate bytes of a two-byte opcode.
#[verifier::rlimit(100)]
fn exec_twobyte_imm_len(op: u8, o: Bits) -> (r: i32)
    ensures
        r == twobyte_imm_len(op, o),
        0 <= r <= 6,
{
    let mut len: i32 = 0;
    // imm8.
    if op & 0xfc == 0x70 || op == 0xa4 || op == 0xac || op == 0xba || op == 0xc2 || (0xc4 <= op
        && op <= 0xc6) {
        len = len + 1;
    }
    // imm16/32 by operand size.
    if op & 0xf0 == 0x80 {
        len = len + if o == Bits::B16 {
            2
        } else {
            4
        };
    }
    // Every three-byte opcode under the 0x3a escape has an imm8.
    if op == 0x3a {
        len = len + 1;
    }
    len
}

/// Scans the prefix, REX and opcode phases: consumes at most one legacy
/// prefix byte, a REX byte (64-bit mode only), the 0x0f escape or a fused
/// WAIT byte, the primary opcode byte, and the extra byte of the three-byte
/// and 3DNow! escapes.  Returns, in order: the position of a following ModRM
/// byte, the bytes consumed so far, whether the opcode is two-byte, the
/// effective operand size, the effective address size, and the opcode.
#[verifier::rlimit(100)]
fn scan_opcode(insn: &[u8], bits: Bits) -> (h: (usize, i32, bool, Bits, Bits, u8))
    requires
        insn@.len() >= 15,
    ensures
        h.0 == spec_modrm_index(insn@, bits),
        h.0 <= 6,
        h.1 == spec_prefix_count(insn@) + (if spec_has_rex(insn@, bits) {
            1int
        } else {
            0
        }) + spec_escape_count(insn@, bits) + 1 + spec_extra_opcode_count(insn@, bits),
        1 <= h.1 <= 5,
        h.2 == spec_is_twobyte(insn@, bits),
        h.3 == spec_operand_bits(insn@, bits),
        h.4 == spec_addr_bits(insn@, bits),
        h.5 == spec_opcode(insn@, bits),
{
    let ghost s = insn@;
    let mut len: i32 = 0;
    let mut twobytes = false;
    let mut operand_bits = Bits::B32;
    let mut addr_bits = bits;
    let mut c: usize = 0;

    // Legacy prefix scan: consume at most one recognized prefix byte and
    // record the size overrides.
    let b0: u8 = insn[0];
    if b0 == 0xf0 || b0 == 0xf2 || b0 == 0xf3 || b0 == 0x2e || b0 == 0x36 || b0 == 0x3e
        || b0 == 0x26 || b0 == 0x64 || b0 == 0x65 || b0 == 0x66 || b0 == 0x67 {
        if b0 == 0x66 {
            operand_bits = Bits::B16;
        }
        if b0 == 0x67 {
            addr_bits = if addr_bits == Bits::B32 {
                Bits::B16
            } else {
                Bits::B32
            };
        }
        c = 1;
        len = 1;
    }
    assert(c == spec_prefix_count(s));
    assert(operand_bits == spec_operand_bits_after_prefix(s));
    assert(addr_bits == spec_addr_bits(s, bits));

    // REX scan: in 64-bit mode a byte with high nibble 0x4 is a REX prefix,
    // and its W bit (0x08) widens the operand size to 64 bits.
    if bits == Bits::B64 && insn[c] & 0xf0 == 0x40 {
        if insn[c] & 0x08 != 0 {
            operand_bits = Bits::B64;
        }
        c = c + 1;
        len = len + 1;
    }
    assert(c == spec_escape_index(s, bits));
    assert(operand_bits == spec_operand_bits(s, bits));

    // Opcode escape scan: 0x0f starts a two-byte opcode; the WAIT byte 0x9b
    // fused with its x87 opcode/ModRM patterns is consumed as a special case.
    if insn[c] == 0x0f {
        twobytes = true;
        c = c + 1;
        len = len + 1;
    } else if insn[c] == 0x9b && ((insn[c + 1] == 0xd9 && insn[c + 2] & 0xc0 != 0xc0 && insn[c + 2]
        & 0x30 == 0x30) || (insn[c + 1] == 0xdb && (insn[c + 2] == 0xe2 || insn[c + 2] == 0xe3))
        || (insn[c + 1] == 0xdd && insn[c + 2] & 0x30 == 0x30) || (insn[c + 1] == 0xdf && insn[c
        + 2] == 0xe0)) {
        c = c + 1;
        len = len + 1;
    }
    assert(twobytes == spec_is_twobyte(s, bits));
    assert(c == spec_opcode_index(s, bits));

    // The primary opcode byte always contributes one byte.
    let opcode: u8 = insn[c];
    c = c + 1;
    len = len + 1;
    assert(opcode == spec_opcode(s, bits));

    // Three-byte opcode escapes (0x38, 0x3a) and the 3DNow! escape (0x0f):
    // the actual third opcode byte follows and is consumed here.
    if twobytes {
        if opcode == 0x38 || opcode == 0x3a {
            c = c + 1;
            len = len + 1;
        }
        if opcode == 0x0f {
            c = c + 1;
            len = len + 1;
        }
    }
    assert(c == spec_modrm_index(s, bits));

    (c, len, twobytes, operand_bits, addr_bits, opcode)
}

/// Computes the length in bytes of the single instruction at the start of
/// `insn`, decoded under mode `bits`.
///
/// The caller must supply at least the architectural maximum of 15 readable
/// bytes; reading past the true instruction boundary into padding or
/// following instructions is expected, since only the count of consumed
/// bytes is wanted.  The result is always returned (never `None`) and always
/// lies in `1..=15`: a computed length past 15 falls back to 1.
#[verifier::rlimit(100)]
pub fn insn_len_x86(insn: &[u8], bits: Bits) -> (r: Option<i32>)
    requires
        insn@.len() >= 15,
    ensures
        r matches Some(len) && len == spec_insn_len(insn@, bits),
        r matches Some(len) && 1 <= len <= 15,
{
    let ghost s = insn@;
    let h = scan_opcode(insn, bits);
    let c: usize = h.0;
    let mut len: i32 = h.1;
    let twobytes = h.2;
    let operand_bits = h.3;
    let addr_bits = h.4;
    let opcode: u8 = h.5;
    let mut modrm: u8 = 0;

    // ModRM necessity by opcode class.
    let has_modrm = if !twobytes {
        exec_onebyte_has_modrm(opcode)
    } else {
        exec_twobyte_has_modrm(opcode)
    };
    assert(has_modrm == spec_has_modrm(s, bits));

    // ModRM, displacement and SIB sizing.
    if has_modrm {
        modrm = insn[c];
        len = len + exec_addressing_len(modrm, insn[c + 1], addr_bits);
    }
    assert(modrm == spec_modrm(s, bits));
    assert(len == spec_prefix_count(s) + (if spec_has_rex(s, bits) {
        1int
    } else {
        0
    }) + spec_escape_count(s, bits) + 1 + spec_extra_opcode_count(s, bits) + spec_addressing_len(
        s,
        bits,
    ));

    // Immediate operands.
    if !twobytes {
        len = len + exec_onebyte_imm_len(opcode, modrm, operand_bits, addr_bits);
    } else {
        len = len + exec_twobyte_imm_len(opcode, operand_bits);
    }
    assert(len == spec_raw_len(s, bits));

    // Clamp: a length past the architectural maximum falls back to 1.
    if len > 15 {
        len = 1;
    }
    Some(len)
}

} // verus!

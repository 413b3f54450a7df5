//! General properties of the decoder, proved once for all inputs.

use crate::model::{
    is_legacy_prefix, spec_addressing_len, spec_escape_index, spec_has_modrm, spec_has_rex,
    spec_imm_len, spec_insn_len, spec_is_twobyte, spec_modrm, spec_modrm_index, spec_opcode,
    spec_opcode_index, spec_operand_bits, spec_prefix_count, spec_raw_len, spec_wait_fused, Bits,
};
use vstd::prelude::*;

verus! {

/// Bounded length: for every stream and mode, the decoded length lies
/// between 1 and the architectural maximum of 15 bytes.
pub proof fn lemma_len_bounded(s: Seq<u8>, bits: Bits)
    ensures
        1 <= spec_insn_len(s, bits) <= 15,
{
    assert(spec_raw_len(s, bits) >= 1);
}

/// Clamp policy: a raw length within the architectural maximum is returned
/// as computed, and one past 15 bytes is replaced by the fallback length 1,
/// never surfaced as an error.
pub proof fn lemma_oversized_length_clamps(s: Seq<u8>, bits: Bits)
    ensures
        spec_raw_len(s, bits) <= 15 ==> spec_insn_len(s, bits) == spec_raw_len(s, bits),
        spec_raw_len(s, bits) > 15 ==> spec_insn_len(s, bits) == 1,
{
}

/// Determinism and locality: the decoded length is a function of the mode
/// and of the first 15 bytes of the stream alone, so two streams that agree
/// on their 15-byte windows decode to the same length, and repeated decodes
/// of one stream always return the same length.
#[verifier::rlimit(100)]
pub proof fn lemma_len_depends_on_window(s1: Seq<u8>, s2: Seq<u8>, bits: Bits)
    requires
        forall|i: int| 0 <= i < 15 ==> s1[i] == s2[i],
    ensures
        spec_insn_len(s1, bits) == spec_insn_len(s2, bits),
{
    assert(s1[0] == s2[0]);
    assert(spec_prefix_count(s1) == spec_prefix_count(s2));
    let p: int = spec_prefix_count(s1);
    assert(0 <= p <= 1);
    assert(s1[p] == s2[p]);
    assert(spec_has_rex(s1, bits) == spec_has_rex(s2, bits));
    assert(spec_operand_bits(s1, bits) == spec_operand_bits(s2, bits));
    let e: int = spec_escape_index(s1, bits);
    assert(spec_escape_index(s2, bits) == e);
    assert(0 <= e <= 2);
    assert(s1[e] == s2[e] && s1[e + 1] == s2[e + 1] && s1[e + 2] == s2[e + 2]);
    assert(spec_is_twobyte(s1, bits) == spec_is_twobyte(s2, bits));
    assert(spec_wait_fused(s1, bits) == spec_wait_fused(s2, bits));
    let oi: int = spec_opcode_index(s1, bits);
    assert(spec_opcode_index(s2, bits) == oi);
    assert(0 <= oi <= 3);
    assert(s1[oi] == s2[oi]);
    assert(spec_opcode(s1, bits) == spec_opcode(s2, bits));
    assert(spec_has_modrm(s1, bits) == spec_has_modrm(s2, bits));
    let mi: int = spec_modrm_index(s1, bits);
    assert(spec_modrm_index(s2, bits) == mi);
    assert(0 <= mi <= 5);
    assert(s1[mi] == s2[mi] && s1[mi + 1] == s2[mi + 1]);
    assert(spec_modrm(s1, bits) == spec_modrm(s2, bits));
    assert(spec_addressing_len(s1, bits) == spec_addressing_len(s2, bits));
    assert(spec_imm_len(s1, bits) == spec_imm_len(s2, bits));
    assert(spec_raw_len(s1, bits) == spec_raw_len(s2, bits));
}

/// The concatenation of the pieces from index `i` on.
pub open spec fn spec_cat_from(pieces: Seq<Seq<u8>>, i: int) -> Seq<u8>
    decreases pieces.len() - i,
{
    if 0 <= i < pieces.len() {
        pieces[i] + spec_cat_from(pieces, i + 1)
    } else {
        Seq::empty()
    }
}

/// Total bytes consumed by `n` decode steps, each advancing by the decoded
/// length of the remaining stream.
pub open spec fn spec_scan_len(s: Seq<u8>, bits: Bits, n: nat) -> int
    decreases n,
{
    if n == 0 {
        0
    } else {
        spec_insn_len(s, bits) + spec_scan_len(
            s.skip(spec_insn_len(s, bits)),
            bits,
            (n - 1) as nat,
        )
    }
}

/// Progress: every decode step advances by at least one and at most 15
/// bytes, so a scan of `n` steps consumes between `n` and `15 * n` bytes and
/// in particular never stalls.
pub proof fn lemma_scan_progress(s: Seq<u8>, bits: Bits, n: nat)
    ensures
        n <= spec_scan_len(s, bits, n) <= 15 * n,
    decreases n,
{
    if n > 0 {
        lemma_len_bounded(s, bits);
        lemma_scan_progress(s.skip(spec_insn_len(s, bits)), bits, (n - 1) as nat);
    }
}

/// Exact consumption: decoding a concatenation of instructions, each of
/// which decodes (ahead of the rest of the stream) to exactly its own
/// encoded size, by repeatedly advancing by the returned length, consumes
/// exactly the total encoded byte count, with no overlap and no gap.
pub proof fn lemma_scan_consumes_concatenation(pieces: Seq<Seq<u8>>, bits: Bits)
    requires
        forall|i: int|
            0 <= i < pieces.len() ==> #[trigger] spec_insn_len(spec_cat_from(pieces, i), bits)
                == pieces[i].len(),
    ensures
        spec_scan_len(spec_cat_from(pieces, 0), bits, pieces.len()) == spec_cat_from(
            pieces,
            0,
        ).len(),
{
    lemma_scan_from(pieces, bits, 0);
}

/// Induction step for [`lemma_scan_consumes_concatenation`], over the
/// pieces from index `i` on.
proof fn lemma_scan_from(pieces: Seq<Seq<u8>>, bits: Bits, i: int)
    requires
        0 <= i <= pieces.len(),
        forall|j: int|
            0 <= j < pieces.len() ==> #[trigger] spec_insn_len(spec_cat_from(pieces, j), bits)
                == pieces[j].len(),
    ensures
        spec_scan_len(spec_cat_from(pieces, i), bits, (pieces.len() - i) as nat) == spec_cat_from(
            pieces,
            i,
        ).len(),
    decreases pieces.len() - i,
{
    if i < pieces.len() {
        let s = spec_cat_from(pieces, i);
        let l: int = spec_insn_len(s, bits);
        assert(l == pieces[i].len());
        assert(s.skip(l) =~= spec_cat_from(pieces, i + 1));
        lemma_scan_from(pieces, bits, i + 1);
    }
}

/// Operand-size prefix effect: in 32-bit mode a stream that begins with the
/// 0x66 override reports a 16-bit operand size for that decode, so the
/// immediate of opcode 0xb8 shrinks to two bytes and the whole instruction
/// occupies 4 bytes.
pub proof fn lemma_operand_size_prefix_effect(s: Seq<u8>)
    requires
        s[0] == 0x66,
        s[1] == 0xb8,
    ensures
        spec_operand_bits(s, Bits::B32) == Bits::B16,
        spec_insn_len(s, Bits::B32) == 4,
{
    lemma_opcode_b8_masks();
}

/// REX.W effect: in 64-bit mode a REX byte with bit 0x08 set followed by
/// opcode 0xb8 widens the operand size to 64 bits, so the immediate is 8
/// bytes and the whole instruction occupies 10 bytes.
pub proof fn lemma_rex_w_effect(s: Seq<u8>)
    requires
        s[0] & 0xf0 == 0x40,
        s[0] & 0x08 != 0,
        s[1] == 0xb8,
    ensures
        spec_operand_bits(s, Bits::B64) == Bits::B64,
        spec_insn_len(s, Bits::B64) == 10,
{
    let b0: u8 = s[0];
    assert(!(b0 == 0xf0 || b0 == 0xf2 || b0 == 0xf3 || b0 == 0x2e || b0 == 0x36 || b0 == 0x3e
        || b0 == 0x26 || b0 == 0x64 || b0 == 0x65 || b0 == 0x66 || b0 == 0x67)) by (bit_vector)
        requires
            b0 & 0xf0 == 0x40,
    ;
    assert(!is_legacy_prefix(s[0]));
    lemma_opcode_b8_masks();
}

/// Mask arithmetic on the literal opcode 0xb8, shared by the prefix-effect
/// and REX.W-effect proofs: 0xb8 is in no ModRM table and in no immediate
/// table except the imm16/32/64 one.
proof fn lemma_opcode_b8_masks()
    ensures
        0xb8u8 & 0xf4 == 0xb0,
        0xb8u8 & 0xf0 == 0xb0,
        0xb8u8 & 0xfc == 0xb8,
        0xb8u8 & 0xf8 == 0xb8,
        0xb8u8 & 7 == 0,
{
    assert(0xb8u8 & 0xf4 == 0xb0 && 0xb8u8 & 0xf0 == 0xb0 && 0xb8u8 & 0xfc == 0xb8 && 0xb8u8
        & 0xf8 == 0xb8 && 0xb8u8 & 7 == 0) by (bit_vector);
}

} // verus!

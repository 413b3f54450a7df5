use insn_len::{arch_insn_len, arch_insn_len_x86, insn_len_x86, max_insn_len, qwb, Bits, Error};

/// Pads an instruction head with single-byte 0xcc instructions up to the
/// 15-byte lookahead window the decoder asks for.
fn padded(head: &[u8]) -> Vec<u8> {
    let mut v = head.to_vec();
    while v.len() < 15 {
        v.push(0xcc);
    }
    v
}

#[test]
fn it_works() {
    qwb();
    let results: [u8; 20] = [
        0x48, 0x83, 0xEC, 0x28, 0xE8, 0x0B, 0x00, 0x00, 0x00, 0x48, 0x83, 0xC4, 0x28, 0xE9, 0x7A,
        0xFE, 0xFF, 0xFF, 0xcc, 0xcc,
    ];
    let mut b: i32 = 0;
    while b < 20 {
        let len = arch_insn_len_x86(&results[b as usize..]);
        match len {
            Ok(len) => {
                b += len;
                if b > 20 {
                    break;
                }
            }
            Err(_) => {
                b = 0;
                break;
            }
        }
    }
    assert_eq!(20, b);
    assert_eq!(
        results,
        [
            0x48, 0x83, 0xEC, 0x28, 0xE8, 0x0B, 0x00, 0x00, 0x00, 0x48, 0x83, 0xC4, 0x28, 0xE9,
            0x7A, 0xFE, 0xFF, 0xFF, 0xcc, 0xcc
        ]
    );
}

#[test]
fn scenario_sub_rsp_imm8() {
    // REX.W + opcode 0x83 + ModRM 0xec (mod 11) + imm8.
    assert_eq!(arch_insn_len_x86(&padded(&[0x48, 0x83, 0xEC, 0x28])), Ok(4));
}

#[test]
fn scenario_call_rel32() {
    // Opcode 0xe8 + imm32.
    assert_eq!(arch_insn_len_x86(&padded(&[0xE8, 0x0B, 0x00, 0x00, 0x00])), Ok(5));
}

#[test]
fn scenario_add_rsp_imm8() {
    assert_eq!(arch_insn_len_x86(&padded(&[0x48, 0x83, 0xC4, 0x28])), Ok(4));
}

#[test]
fn scenario_jmp_rel32() {
    assert_eq!(arch_insn_len_x86(&padded(&[0xE9, 0x7A, 0xFE, 0xFF, 0xFF])), Ok(5));
}

#[test]
fn operand_size_prefix_shrinks_imm() {
    // 0x66 in 32-bit mode: opcode 0xb8 takes an imm16, total 4 bytes.
    assert_eq!(insn_len_x86(&padded(&[0x66, 0xB8, 0x34, 0x12]), Bits::B32), Some(4));
    assert_eq!(arch_insn_len(&padded(&[0x66, 0xB8, 0x34, 0x12])), Ok(4));
    // Without the prefix the same opcode takes an imm32, total 5 bytes.
    assert_eq!(arch_insn_len(&padded(&[0xB8, 0x78, 0x56, 0x34, 0x12])), Ok(5));
}

#[test]
fn rex_w_widens_imm_to_8_bytes() {
    // REX with bit 0x08 + opcode 0xb8: imm64, total 10 bytes, not 4 + 1.
    assert_eq!(insn_len_x86(&padded(&[0x48, 0xB8]), Bits::B64), Some(10));
    // A REX without the W bit leaves the imm at 4 bytes.
    assert_eq!(insn_len_x86(&padded(&[0x41, 0xB8]), Bits::B64), Some(6));
}

#[test]
fn oversized_length_clamps_to_1() {
    // 0x67 prefix + REX.W + 0xf7 /0 + disp32 + imm64 sums to 16, past the
    // architectural maximum of 15, so the decoder falls back to length 1.
    assert_eq!(insn_len_x86(&padded(&[0x67, 0x48, 0xF7, 0x05]), Bits::B64), Some(1));
    assert_eq!(arch_insn_len_x86(&padded(&[0x67, 0x48, 0xF7, 0x05])), Ok(1));
}

#[test]
fn repeated_calls_agree() {
    let stream = padded(&[0x48, 0x83, 0xEC, 0x28]);
    let first = insn_len_x86(&stream, Bits::B64);
    let second = insn_len_x86(&stream, Bits::B64);
    assert_eq!(first, second);
    assert_eq!(first, Some(4));
}

#[test]
fn every_opcode_yields_bounded_length() {
    // Bounded length on a sweep of all single leading bytes, in every mode.
    for mode in [Bits::B16, Bits::B32, Bits::B64] {
        for b in 0..=255u8 {
            let stream = padded(&[b]);
            let len = insn_len_x86(&stream, mode).unwrap();
            assert!(1 <= len && len <= 15);
        }
    }
}

#[test]
fn modrm_disp16_in_16_bit_mode() {
    // mod 00, rm 110 under 16-bit addressing: disp16.
    assert_eq!(insn_len_x86(&padded(&[0x8B, 0x06, 0x34, 0x12]), Bits::B16), Some(4));
}

#[test]
fn addr_prefix_toggles_16_and_32() {
    // 0x67 in 32-bit mode: 16-bit addressing, so 0x8b with mod 00 rm 110
    // takes a disp16.
    assert_eq!(insn_len_x86(&padded(&[0x67, 0x8B, 0x06, 0x34, 0x12]), Bits::B32), Some(5));
    // 0x67 in 64-bit mode: 32-bit addressing, mod 00 rm 101 takes a disp32.
    assert_eq!(insn_len_x86(&padded(&[0x67, 0x8B, 0x05]), Bits::B64), Some(7));
}

#[test]
fn modrm_disp32_absolute() {
    // mod 00, rm 101 outside 16-bit addressing: disp32.
    assert_eq!(insn_len_x86(&padded(&[0x8B, 0x05, 1, 2, 3, 4]), Bits::B32), Some(6));
}

#[test]
fn sib_with_disp32_base() {
    // mod 00, rm 100 brings a SIB byte; SIB base 101 brings a disp32.
    assert_eq!(insn_len_x86(&padded(&[0x8B, 0x04, 0x25, 1, 2, 3, 4]), Bits::B32), Some(7));
}

#[test]
fn sib_with_disp8() {
    // mod 01, rm 100: SIB byte plus disp8.
    assert_eq!(insn_len_x86(&padded(&[0x8B, 0x44, 0x24, 0x08]), Bits::B32), Some(4));
}

#[test]
fn two_byte_opcode_without_modrm() {
    // 0x0f 0x84: no ModRM, imm32 under 32-bit operands.
    assert_eq!(insn_len_x86(&padded(&[0x0F, 0x84, 1, 2, 3, 4]), Bits::B32), Some(6));
}

#[test]
fn two_byte_opcode_with_modrm() {
    // 0x0f 0xb6 (movzx): ModRM, register form.
    assert_eq!(insn_len_x86(&padded(&[0x0F, 0xB6, 0xC0]), Bits::B32), Some(3));
}

#[test]
fn three_byte_opcode_0x3a_has_imm8() {
    // 0x0f 0x3a escape: third opcode byte, ModRM, and the imm8 every 0x3a
    // opcode carries.
    assert_eq!(insn_len_x86(&padded(&[0x0F, 0x3A, 0x0F, 0xC1, 0x03]), Bits::B32), Some(5));
}

#[test]
fn prefix_applies_to_two_byte_opcode() {
    // 0x66 + 0x0f 0x84: the imm16/32 of a two-byte opcode shrinks to imm16.
    assert_eq!(insn_len_x86(&padded(&[0x66, 0x0F, 0x84, 1, 2]), Bits::B32), Some(5));
}

#[test]
fn three_dnow_escape_counts_suffix_opcode() {
    // 0x0f 0x0f: the 3DNow! form carries one extra opcode byte and a ModRM.
    assert_eq!(insn_len_x86(&padded(&[0x0F, 0x0F, 0xC0, 0xC8]), Bits::B32), Some(4));
}

#[test]
fn three_byte_opcode_0x38() {
    // 0x0f 0x38 escape: third opcode byte and ModRM, no immediate.
    assert_eq!(insn_len_x86(&padded(&[0x0F, 0x38, 0x00, 0xC1]), Bits::B32), Some(4));
}

#[test]
fn wait_byte_fused_with_x87() {
    // 0x9b 0xdb 0xe3 (finit): the WAIT byte is consumed as a special case.
    assert_eq!(insn_len_x86(&padded(&[0x9B, 0xDB, 0xE3]), Bits::B32), Some(3));
}

#[test]
fn wait_byte_alone_is_one_byte() {
    // 0x9b before a non-x87 byte is a plain one-byte instruction.
    assert_eq!(insn_len_x86(&padded(&[0x9B, 0x90]), Bits::B32), Some(1));
}

#[test]
fn moffs_sized_by_address_width() {
    assert_eq!(insn_len_x86(&padded(&[0xA1, 1, 2, 3, 4]), Bits::B32), Some(5));
    assert_eq!(insn_len_x86(&padded(&[0xA1, 1, 2]), Bits::B16), Some(3));
    assert_eq!(insn_len_x86(&padded(&[0xA1, 1, 2, 3, 4, 5, 6, 7, 8]), Bits::B64), Some(9));
}

#[test]
fn ret_imm16() {
    assert_eq!(insn_len_x86(&padded(&[0xC2, 0x08, 0x00]), Bits::B32), Some(3));
}

#[test]
fn enter_has_fixed_3_byte_imm() {
    assert_eq!(insn_len_x86(&padded(&[0xC8, 0x10, 0x00, 0x01]), Bits::B32), Some(4));
}

#[test]
fn far_call_pair_imm() {
    // 0x9a: imm16 selector + imm32 offset under 32-bit operands.
    assert_eq!(insn_len_x86(&padded(&[0x9A, 1, 2, 3, 4, 5, 6]), Bits::B32), Some(7));
    // Under 16-bit operands the offset shrinks to imm16.
    assert_eq!(insn_len_x86(&padded(&[0x66, 0x9A, 1, 2, 3, 4]), Bits::B32), Some(6));
}

#[test]
fn group3_imm_gated_on_reg_field() {
    // 0xf6 /0 (test): imm8 follows.
    assert_eq!(insn_len_x86(&padded(&[0xF6, 0x00, 0x12]), Bits::B32), Some(3));
    // 0xf6 /7: no immediate.
    assert_eq!(insn_len_x86(&padded(&[0xF6, 0x38]), Bits::B32), Some(2));
    // 0xf7 /0 (test): imm32 follows.
    assert_eq!(insn_len_x86(&padded(&[0xF7, 0x00, 1, 2, 3, 4]), Bits::B32), Some(6));
    // 0xf7 /7: no immediate.
    assert_eq!(insn_len_x86(&padded(&[0xF7, 0x38]), Bits::B32), Some(2));
}

#[test]
fn single_byte_instructions() {
    assert_eq!(insn_len_x86(&padded(&[0xCC]), Bits::B32), Some(1));
    assert_eq!(insn_len_x86(&padded(&[0x90]), Bits::B64), Some(1));
    assert_eq!(insn_len_x86(&padded(&[0xCD, 0x80]), Bits::B32), Some(2));
}

#[test]
fn rex_only_recognized_in_64_bit_mode() {
    // In 32-bit mode 0x48 is a one-byte instruction (dec eax).
    assert_eq!(insn_len_x86(&padded(&[0x48, 0xB8]), Bits::B32), Some(1));
}

#[test]
fn max_len_is_15() {
    assert_eq!(max_insn_len(), 15);
}

#[test]
fn error_is_zeroed() {
    assert_eq!(Error::new(), Error::default());
}

#[test]
fn qwb_runs() {
    qwb();
}

//! The opcode table: a read-only mapping from each documented 8-bit code to
//! its mnemonic, byte length, advisory base cycle count and addressing mode.
//! Cycle counts are metadata only; the execution core does not enforce
//! timing.

use vstd::prelude::*;

use crate::instructions::Instruction;

verus! {

/// Rule for computing the effective operand address from the bytes that
/// follow an opcode.
#[derive(Clone, Copy, PartialEq, Eq, Structural, Debug)]
pub enum AddressingMode {
    Immediate,
    ZeroPage,
    ZeroPageX,
    ZeroPageY,
    Absolute,
    AbsoluteX,
    AbsoluteY,
    Indirect,
    IndirectX,
    IndirectY,
    Relative,
    NoneAddressing,
}

/// One entry of the opcode table.
#[derive(Clone, Copy, PartialEq, Eq, Structural, Debug)]
pub struct OpCode {
    pub code: u8,
    pub instruction: Instruction,
    pub len: u8,
    pub cycles: u8,
    pub mode: AddressingMode,
}

/// The table entry for a code byte, or None for a code with no documented
/// entry (a fatal decode error when fetched).
pub open spec fn opcode_for(code: u8) -> Option<OpCode> {
    match code {
        0x00 => Some(
            OpCode {
                code: 0x00,
                instruction: Instruction::Brk,
                len: 1,
                cycles: 7,
                mode: AddressingMode::NoneAddressing,
            },
        ),
        0x01 => Some(
            OpCode {
                code: 0x01,
                instruction: Instruction::Ora,
                len: 2,
                cycles: 6,
                mode: AddressingMode::IndirectX,
            },
        ),
        0x05 => Some(
            OpCode {
                code: 0x05,
                instruction: Instruction::Ora,
                len: 2,
                cycles: 3,
                mode: AddressingMode::ZeroPage,
            },
        ),
        0x06 => Some(
            OpCode {
                code: 0x06,
                instruction: Instruction::Asl,
                len: 2,
                cycles: 5,
                mode: AddressingMode::ZeroPage,
            },
        ),
        0x08 => Some(
            OpCode {
                code: 0x08,
                instruction: Instruction::Php,
                len: 1,
                cycles: 3,
                mode: AddressingMode::NoneAddressing,
            },
        ),
        0x09 => Some(
            OpCode {
                code: 0x09,
                instruction: Instruction::Ora,
                len: 2,
                cycles: 2,
                mode: AddressingMode::Immediate,
            },
        ),
        0x0a => Some(
            OpCode {
                code: 0x0a,
                instruction: Instruction::Asl,
                len: 1,
                cycles: 2,
                mode: AddressingMode::NoneAddressing,
            },
        ),
        0x0d => Some(
            OpCode {
                code: 0x0d,
                instruction: Instruction::Ora,
                len: 3,
                cycles: 4,
                mode: AddressingMode::Absolute,
            },
        ),
        0x0e => Some(
            OpCode {
                code: 0x0e,
                instruction: Instruction::Asl,
                len: 3,
                cycles: 6,
                mode: AddressingMode::Absolute,
            },
        ),
        0x10 => Some(
            OpCode {
                code: 0x10,
                instruction: Instruction::Bpl,
                len: 2,
                cycles: 2,
                mode: AddressingMode::Relative,
            },
        ),
        0x11 => Some(
            OpCode {
                code: 0x11,
                instruction: Instruction::Ora,
                len: 2,
                cycles: 5,
                mode: AddressingMode::IndirectY,
            },
        ),
        0x15 => Some(
            OpCode {
                code: 0x15,
                instruction: Instruction::Ora,
                len: 2,
                cycles: 4,
                mode: AddressingMode::ZeroPageX,
            },
        ),
        0x16 => Some(
            OpCode {
                code: 0x16,
                instruction: Instruction::Asl,
                len: 2,
                cycles: 6,
                mode: AddressingMode::ZeroPageX,
            },
        ),
        0x18 => Some(
            OpCode {
                code: 0x18,
                instruction: Instruction::Clc,
                len: 1,
                cycles: 2,
                mode: AddressingMode::NoneAddressing,
            },
        ),
        0x19 => Some(
            OpCode {
                code: 0x19,
                instruction: Instruction::Ora,
                len: 3,
                cycles: 4,
                mode: AddressingMode::AbsoluteY,
            },
        ),
        0x1d => Some(
            OpCode {
                code: 0x1d,
                instruction: Instruction::Ora,
                len: 3,
                cycles: 4,
                mode: AddressingMode::AbsoluteX,
            },
        ),
        0x1e => Some(
            OpCode {
                code: 0x1e,
                instruction: Instruction::Asl,
                len: 3,
                cycles: 7,
                mode: AddressingMode::AbsoluteX,
            },
        ),
        0x20 => Some(
            OpCode {
                code: 0x20,
                instruction: Instruction::Jsr,
                len: 3,
                cycles: 6,
                mode: AddressingMode::Absolute,
            },
        ),
        0x21 => Some(
            OpCode {
                code: 0x21,
                instruction: Instruction::And,
                len: 2,
                cycles: 6,
                mode: AddressingMode::IndirectX,
            },
        ),
        0x24 => Some(
            OpCode {
                code: 0x24,
                instruction: Instruction::Bit,
                len: 2,
                cycles: 3,
                mode: AddressingMode::ZeroPage,
            },
        ),
        0x25 => Some(
            OpCode {
                code: 0x25,
                instruction: Instruction::And,
                len: 2,
                cycles: 3,
                mode: AddressingMode::ZeroPage,
            },
        ),
        0x26 => Some(
            OpCode {
                code: 0x26,
                instruction: Instruction::Rol,
                len: 2,
                cycles: 5,
                mode: AddressingMode::ZeroPage,
            },
        ),
        0x28 => Some(
            OpCode {
                code: 0x28,
                instruction: Instruction::Plp,
                len: 1,
                cycles: 4,
                mode: AddressingMode::NoneAddressing,
            },
        ),
        0x29 => Some(
            OpCode {
                code: 0x29,
                instruction: Instruction::And,
                len: 2,
                cycles: 2,
                mode: AddressingMode::Immediate,
            },
        ),
        0x2a => Some(
            OpCode {
                code: 0x2a,
                instruction: Instruction::Rol,
                len: 1,
                cycles: 2,
                mode: AddressingMode::NoneAddressing,
            },
        ),
        0x2c => Some(
            OpCode {
                code: 0x2c,
                instruction: Instruction::Bit,
                len: 3,
                cycles: 4,
                mode: AddressingMode::Absolute,
            },
        ),
        0x2d => Some(
            OpCode {
                code: 0x2d,
                instruction: Instruction::And,
                len: 3,
                cycles: 4,
                mode: AddressingMode::Absolute,
            },
        ),
        0x2e => Some(
            OpCode {
                code: 0x2e,
                instruction: Instruction::Rol,
                len: 3,
                cycles: 6,
                mode: AddressingMode::Absolute,
            },
        ),
        0x30 => Some(
            OpCode {
                code: 0x30,
                instruction: Instruction::Bmi,
                len: 2,
                cycles: 2,
                mode: AddressingMode::Relative,
            },
        ),
        0x31 => Some(
            OpCode {
                code: 0x31,
                instruction: Instruction::And,
                len: 2,
                cycles: 5,
                mode: AddressingMode::IndirectY,
            },
        ),
        0x35 => Some(
            OpCode {
                code: 0x35,
                instruction: Instruction::And,
                len: 2,
                cycles: 4,
                mode: AddressingMode::ZeroPageX,
            },
        ),
        0x36 => Some(
            OpCode {
                code: 0x36,
                instruction: Instruction::Rol,
                len: 2,
                cycles: 6,
                mode: AddressingMode::ZeroPageX,
            },
        ),
        0x38 => Some(
            OpCode {
                code: 0x38,
                instruction: Instruction::Sec,
                len: 1,
                cycles: 2,
                mode: AddressingMode::NoneAddressing,
            },
        ),
        0x39 => Some(
            OpCode {
                code: 0x39,
                instruction: Instruction::And,
                len: 3,
                cycles: 4,
                mode: AddressingMode::AbsoluteY,
            },
        ),
        0x3d => Some(
            OpCode {
                code: 0x3d,
                instruction: Instruction::And,
                len: 3,
                cycles: 4,
                mode: AddressingMode::AbsoluteX,
            },
        ),
        0x3e => Some(
            OpCode {
                code: 0x3e,
                instruction: Instruction::Rol,
                len: 3,
                cycles: 7,
                mode: AddressingMode::AbsoluteX,
            },
        ),
        0x40 => Some(
            OpCode {
                code: 0x40,
                instruction: Instruction::Rti,
                len: 1,
                cycles: 6,
                mode: AddressingMode::NoneAddressing,
            },
        ),
        0x41 => Some(
            OpCode {
                code: 0x41,
                instruction: Instruction::Eor,
                len: 2,
                cycles: 6,
                mode: AddressingMode::IndirectX,
            },
        ),
        0x45 => Some(
            OpCode {
                code: 0x45,
                instruction: Instruction::Eor,
                len: 2,
                cycles: 3,
                mode: AddressingMode::ZeroPage,
            },
        ),
        0x46 => Some(
            OpCode {
                code: 0x46,
                instruction: Instruction::Lsr,
                len: 2,
                cycles: 5,
                mode: AddressingMode::ZeroPage,
            },
        ),
        0x48 => Some(
            OpCode {
                code: 0x48,
                instruction: Instruction::Pha,
                len: 1,
                cycles: 3,
                mode: AddressingMode::NoneAddressing,
            },
        ),
        0x49 => Some(
            OpCode {
                code: 0x49,
                instruction: Instruction::Eor,
                len: 2,
                cycles: 2,
                mode: AddressingMode::Immediate,
            },
        ),
        0x4a => Some(
            OpCode {
                code: 0x4a,
                instruction: Instruction::Lsr,
                len: 1,
                cycles: 2,
                mode: AddressingMode::NoneAddressing,
            },
        ),
        0x4c => Some(
            OpCode {
                code: 0x4c,
                instruction: Instruction::Jmp,
                len: 3,
                cycles: 3,
                mode: AddressingMode::Absolute,
            },
        ),
        0x4d => Some(
            OpCode {
                code: 0x4d,
                instruction: Instruction::Eor,
                len: 3,
                cycles: 4,
                mode: AddressingMode::Absolute,
            },
        ),
        0x4e => Some(
            OpCode {
                code: 0x4e,
                instruction: Instruction::Lsr,
                len: 3,
                cycles: 6,
                mode: AddressingMode::Absolute,
            },
        ),
        0x50 => Some(
            OpCode {
                code: 0x50,
                instruction: Instruction::Bvc,
                len: 2,
                cycles: 2,
                mode: AddressingMode::Relative,
            },
        ),
        0x51 => Some(
            OpCode {
                code: 0x51,
                instruction: Instruction::Eor,
                len: 2,
                cycles: 5,
                mode: AddressingMode::IndirectY,
            },
        ),
        0x55 => Some(
            OpCode {
                code: 0x55,
                instruction: Instruction::Eor,
                len: 2,
                cycles: 4,
                mode: AddressingMode::ZeroPageX,
            },
        ),
        0x56 => Some(
            OpCode {
                code: 0x56,
                instruction: Instruction::Lsr,
                len: 2,
                cycles: 6,
                mode: AddressingMode::ZeroPageX,
            },
        ),
        0x58 => Some(
            OpCode {
                code: 0x58,
                instruction: Instruction::Cli,
                len: 1,
                cycles: 2,
                mode: AddressingMode::NoneAddressing,
            },
        ),
        0x59 => Some(
            OpCode {
                code: 0x59,
                instruction: Instruction::Eor,
                len: 3,
                cycles: 4,
                mode: AddressingMode::AbsoluteY,
            },
        ),
        0x5d => Some(
            OpCode {
                code: 0x5d,
                instruction: Instruction::Eor,
                len: 3,
                cycles: 4,
                mode: AddressingMode::AbsoluteX,
            },
        ),
        0x5e => Some(
            OpCode {
                code: 0x5e,
                instruction: Instruction::Lsr,
                len: 3,
                cycles: 7,
                mode: AddressingMode::AbsoluteX,
            },
        ),
        0x60 => Some(
            OpCode {
                code: 0x60,
                instruction: Instruction::Rts,
                len: 1,
                cycles: 6,
                mode: AddressingMode::NoneAddressing,
            },
        ),
        0x61 => Some(
            OpCode {
                code: 0x61,
                instruction: Instruction::Adc,
                len: 2,
                cycles: 6,
                mode: AddressingMode::IndirectX,
            },
        ),
        0x65 => Some(
            OpCode {
                code: 0x65,
                instruction: Instruction::Adc,
                len: 2,
                cycles: 3,
                mode: AddressingMode::ZeroPage,
            },
        ),
        0x66 => Some(
            OpCode {
                code: 0x66,
                instruction: Instruction::Ror,
                len: 2,
                cycles: 5,
                mode: AddressingMode::ZeroPage,
            },
        ),
        0x68 => Some(
            OpCode {
                code: 0x68,
                instruction: Instruction::Pla,
                len: 1,
                cycles: 4,
                mode: AddressingMode::NoneAddressing,
            },
        ),
        0x69 => Some(
            OpCode {
                code: 0x69,
                instruction: Instruction::Adc,
                len: 2,
                cycles: 2,
                mode: AddressingMode::Immediate,
            },
        ),
        0x6a => Some(
            OpCode {
                code: 0x6a,
                instruction: Instruction::Ror,
                len: 1,
                cycles: 2,
                mode: AddressingMode::NoneAddressing,
            },
        ),
        0x6c => Some(
            OpCode {
                code: 0x6c,
                instruction: Instruction::Jmp,
                len: 3,
                cycles: 5,
                mode: AddressingMode::Indirect,
            },
        ),
        0x6d => Some(
            OpCode {
                code: 0x6d,
                instruction: Instruction::Adc,
                len: 3,
                cycles: 4,
                mode: AddressingMode::Absolute,
            },
        ),
        0x6e => Some(
            OpCode {
                code: 0x6e,
                instruction: Instruction::Ror,
                len: 3,
                cycles: 6,
                mode: AddressingMode::Absolute,
            },
        ),
        0x70 => Some(
            OpCode {
                code: 0x70,
                instruction: Instruction::Bvs,
                len: 2,
                cycles: 2,
                mode: AddressingMode::Relative,
            },
        ),
        0x71 => Some(
            OpCode {
                code: 0x71,
                instruction: Instruction::Adc,
                len: 2,
                cycles: 5,
                mode: AddressingMode::IndirectY,
            },
        ),
        0x75 => Some(
            OpCode {
                code: 0x75,
                instruction: Instruction::Adc,
                len: 2,
                cycles: 4,
                mode: AddressingMode::ZeroPageX,
            },
        ),
        0x76 => Some(
            OpCode {
                code: 0x76,
                instruction: Instruction::Ror,
                len: 2,
                cycles: 6,
                mode: AddressingMode::ZeroPageX,
            },
        ),
        0x78 => Some(
            OpCode {
                code: 0x78,
                instruction: Instruction::Sei,
                len: 1,
                cycles: 2,
                mode: AddressingMode::NoneAddressing,
            },
        ),
        0x79 => Some(
            OpCode {
                code: 0x79,
                instruction: Instruction::Adc,
                len: 3,
                cycles: 4,
                mode: AddressingMode::AbsoluteY,
            },
        ),
        0x7d => Some(
            OpCode {
                code: 0x7d,
                instruction: Instruction::Adc,
                len: 3,
                cycles: 4,
                mode: AddressingMode::AbsoluteX,
            },
        ),
        0x7e => Some(
            OpCode {
                code: 0x7e,
                instruction: Instruction::Ror,
                len: 3,
                cycles: 7,
                mode: AddressingMode::AbsoluteX,
            },
        ),
        0x81 => Some(
            OpCode {
                code: 0x81,
                instruction: Instruction::Sta,
                len: 2,
                cycles: 6,
                mode: AddressingMode::IndirectX,
            },
        ),
        0x84 => Some(
            OpCode {
                code: 0x84,
                instruction: Instruction::Sty,
                len: 2,
                cycles: 3,
                mode: AddressingMode::ZeroPage,
            },
        ),
        0x85 => Some(
            OpCode {
                code: 0x85,
                instruction: Instruction::Sta,
                len: 2,
                cycles: 3,
                mode: AddressingMode::ZeroPage,
            },
        ),
        0x86 => Some(
            OpCode {
                code: 0x86,
                instruction: Instruction::Stx,
                len: 2,
                cycles: 3,
                mode: AddressingMode::ZeroPage,
            },
        ),
        0x88 => Some(
            OpCode {
                code: 0x88,
                instruction: Instruction::Dey,
                len: 1,
                cycles: 2,
                mode: AddressingMode::NoneAddressing,
            },
        ),
        0x8a => Some(
            OpCode {
                code: 0x8a,
                instruction: Instruction::Txa,
                len: 1,
                cycles: 2,
                mode: AddressingMode::NoneAddressing,
            },
        ),
        0x8c => Some(
            OpCode {
                code: 0x8c,
                instruction: Instruction::Sty,
                len: 3,
                cycles: 4,
                mode: AddressingMode::Absolute,
            },
        ),
        0x8d => Some(
            OpCode {
                code: 0x8d,
                instruction: Instruction::Sta,
                len: 3,
                cycles: 4,
                mode: AddressingMode::Absolute,
            },
        ),
        0x8e => Some(
            OpCode {
                code: 0x8e,
                instruction: Instruction::Stx,
                len: 3,
                cycles: 4,
                mode: AddressingMode::Absolute,
            },
        ),
        0x90 => Some(
            OpCode {
                code: 0x90,
                instruction: Instruction::Bcc,
                len: 2,
                cycles: 2,
                mode: AddressingMode::Relative,
            },
        ),
        0x91 => Some(
            OpCode {
                code: 0x91,
                instruction: Instruction::Sta,
                len: 2,
                cycles: 6,
                mode: AddressingMode::IndirectY,
            },
        ),
        0x94 => Some(
            OpCode {
                code: 0x94,
                instruction: Instruction::Sty,
                len: 2,
                cycles: 4,
                mode: AddressingMode::ZeroPageX,
            },
        ),
        0x95 => Some(
            OpCode {
                code: 0x95,
                instruction: Instruction::Sta,
                len: 2,
                cycles: 4,
                mode: AddressingMode::ZeroPageX,
            },
        ),
        0x96 => Some(
            OpCode {
                code: 0x96,
                instruction: Instruction::Stx,
                len: 2,
                cycles: 4,
                mode: AddressingMode::ZeroPageY,
            },
        ),
        0x98 => Some(
            OpCode {
                code: 0x98,
                instruction: Instruction::Tya,
                len: 1,
                cycles: 2,
                mode: AddressingMode::NoneAddressing,
            },
        ),
        0x99 => Some(
            OpCode {
                code: 0x99,
                instruction: Instruction::Sta,
                len: 3,
                cycles: 5,
                mode: AddressingMode::AbsoluteY,
            },
        ),
        0x9a => Some(
            OpCode {
                code: 0x9a,
                instruction: Instruction::Txs,
                len: 1,
                cycles: 2,
                mode: AddressingMode::NoneAddressing,
            },
        ),
        0x9d => Some(
            OpCode {
                code: 0x9d,
                instruction: Instruction::Sta,
                len: 3,
                cycles: 5,
                mode: AddressingMode::AbsoluteX,
            },
        ),
        0xa0 => Some(
            OpCode {
                code: 0xa0,
                instruction: Instruction::Ldy,
                len: 2,
                cycles: 2,
                mode: AddressingMode::Immediate,
            },
        ),
        0xa1 => Some(
            OpCode {
                code: 0xa1,
                instruction: Instruction::Lda,
                len: 2,
                cycles: 6,
                mode: AddressingMode::IndirectX,
            },
        ),
        0xa2 => Some(
            OpCode {
                code: 0xa2,
                instruction: Instruction::Ldx,
                len: 2,
                cycles: 2,
                mode: AddressingMode::Immediate,
            },
        ),
        0xa4 => Some(
            OpCode {
                code: 0xa4,
                instruction: Instruction::Ldy,
                len: 2,
                cycles: 3,
                mode: AddressingMode::ZeroPage,
            },
        ),
        0xa5 => Some(
            OpCode {
                code: 0xa5,
                instruction: Instruction::Lda,
                len: 2,
                cycles: 3,
                mode: AddressingMode::ZeroPage,
            },
        ),
        0xa6 => Some(
            OpCode {
                code: 0xa6,
                instruction: Instruction::Ldx,
                len: 2,
                cycles: 3,
                mode: AddressingMode::ZeroPage,
            },
        ),
        0xa8 => Some(
            OpCode {
                code: 0xa8,
                instruction: Instruction::Tay,
                len: 1,
                cycles: 2,
                mode: AddressingMode::NoneAddressing,
            },
        ),
        0xa9 => Some(
            OpCode {
                code: 0xa9,
                instruction: Instruction::Lda,
                len: 2,
                cycles: 2,
                mode: AddressingMode::Immediate,
            },
        ),
        0xaa => Some(
            OpCode {
                code: 0xaa,
                instruction: Instruction::Tax,
                len: 1,
                cycles: 2,
                mode: AddressingMode::NoneAddressing,
            },
        ),
        0xac => Some(
            OpCode {
                code: 0xac,
                instruction: Instruction::Ldy,
                len: 3,
                cycles: 4,
                mode: AddressingMode::Absolute,
            },
        ),
        0xad => Some(
            OpCode {
                code: 0xad,
                instruction: Instruction::Lda,
                len: 3,
                cycles: 4,
                mode: AddressingMode::Absolute,
            },
        ),
        0xae => Some(
            OpCode {
                code: 0xae,
                instruction: Instruction::Ldx,
                len: 3,
                cycles: 4,
                mode: AddressingMode::Absolute,
            },
        ),
        0xb0 => Some(
            OpCode {
                code: 0xb0,
                instruction: Instruction::Bcs,
                len: 2,
                cycles: 2,
                mode: AddressingMode::Relative,
            },
        ),
        0xb1 => Some(
            OpCode {
                code: 0xb1,
                instruction: Instruction::Lda,
                len: 2,
                cycles: 5,
                mode: AddressingMode::IndirectY,
            },
        ),
        0xb4 => Some(
            OpCode {
                code: 0xb4,
                instruction: Instruction::Ldy,
                len: 2,
                cycles: 4,
                mode: AddressingMode::ZeroPageX,
            },
        ),
        0xb5 => Some(
            OpCode {
                code: 0xb5,
                instruction: Instruction::Lda,
                len: 2,
                cycles: 4,
                mode: AddressingMode::ZeroPageX,
            },
        ),
        0xb6 => Some(
            OpCode {
                code: 0xb6,
                instruction: Instruction::Ldx,
                len: 2,
                cycles: 4,
                mode: AddressingMode::ZeroPageY,
            },
        ),
        0xb8 => Some(
            OpCode {
                code: 0xb8,
                instruction: Instruction::Clv,
                len: 1,
                cycles: 2,
                mode: AddressingMode::NoneAddressing,
            },
        ),
        0xb9 => Some(
            OpCode {
                code: 0xb9,
                instruction: Instruction::Lda,
                len: 3,
                cycles: 4,
                mode: AddressingMode::AbsoluteY,
            },
        ),
        0xba => Some(
            OpCode {
                code: 0xba,
                instruction: Instruction::Tsx,
                len: 1,
                cycles: 2,
                mode: AddressingMode::NoneAddressing,
            },
        ),
        0xbc => Some(
            OpCode {
                code: 0xbc,
                instruction: Instruction::Ldy,
                len: 3,
                cycles: 4,
                mode: AddressingMode::AbsoluteX,
            },
        ),
        0xbd => Some(
            OpCode {
                code: 0xbd,
                instruction: Instruction::Lda,
                len: 3,
                cycles: 4,
                mode: AddressingMode::AbsoluteX,
            },
        ),
        0xbe => Some(
            OpCode {
                code: 0xbe,
                instruction: Instruction::Ldx,
                len: 3,
                cycles: 4,
                mode: AddressingMode::AbsoluteY,
            },
        ),
        0xc0 => Some(
            OpCode {
                code: 0xc0,
                instruction: Instruction::Cpy,
                len: 2,
                cycles: 2,
                mode: AddressingMode::Immediate,
            },
        ),
        0xc1 => Some(
            OpCode {
                code: 0xc1,
                instruction: Instruction::Cmp,
                len: 2,
                cycles: 6,
                mode: AddressingMode::IndirectX,
            },
        ),
        0xc4 => Some(
            OpCode {
                code: 0xc4,
                instruction: Instruction::Cpy,
                len: 2,
                cycles: 3,
                mode: AddressingMode::ZeroPage,
            },
        ),
        0xc5 => Some(
            OpCode {
                code: 0xc5,
                instruction: Instruction::Cmp,
                len: 2,
                cycles: 3,
                mode: AddressingMode::ZeroPage,
            },
        ),
        0xc6 => Some(
            OpCode {
                code: 0xc6,
                instruction: Instruction::Dec,
                len: 2,
                cycles: 5,
                mode: AddressingMode::ZeroPage,
            },
        ),
        0xc8 => Some(
            OpCode {
                code: 0xc8,
                instruction: Instruction::Iny,
                len: 1,
                cycles: 2,
                mode: AddressingMode::NoneAddressing,
            },
        ),
        0xc9 => Some(
            OpCode {
                code: 0xc9,
                instruction: Instruction::Cmp,
                len: 2,
                cycles: 2,
                mode: AddressingMode::Immediate,
            },
        ),
        0xca => Some(
            OpCode {
                code: 0xca,
                instruction: Instruction::Dex,
                len: 1,
                cycles: 2,
                mode: AddressingMode::NoneAddressing,
            },
        ),
        0xcc => Some(
            OpCode {
                code: 0xcc,
                instruction: Instruction::Cpy,
                len: 3,
                cycles: 4,
                mode: AddressingMode::Absolute,
            },
        ),
        0xcd => Some(
            OpCode {
                code: 0xcd,
                instruction: Instruction::Cmp,
                len: 3,
                cycles: 4,
                mode: AddressingMode::Absolute,
            },
        ),
        0xce => Some(
            OpCode {
                code: 0xce,
                instruction: Instruction::Dec,
                len: 3,
                cycles: 6,
                mode: AddressingMode::Absolute,
            },
        ),
        0xd0 => Some(
            OpCode {
                code: 0xd0,
                instruction: Instruction::Bne,
                len: 2,
                cycles: 2,
                mode: AddressingMode::Relative,
            },
        ),
        0xd1 => Some(
            OpCode {
                code: 0xd1,
                instruction: Instruction::Cmp,
                len: 2,
                cycles: 5,
                mode: AddressingMode::IndirectY,
            },
        ),
        0xd5 => Some(
            OpCode {
                code: 0xd5,
                instruction: Instruction::Cmp,
                len: 2,
                cycles: 4,
                mode: AddressingMode::ZeroPageX,
            },
        ),
        0xd6 => Some(
            OpCode {
                code: 0xd6,
                instruction: Instruction::Dec,
                len: 2,
                cycles: 6,
                mode: AddressingMode::ZeroPageX,
            },
        ),
        0xd8 => Some(
            OpCode {
                code: 0xd8,
                instruction: Instruction::Cld,
                len: 1,
                cycles: 2,
                mode: AddressingMode::NoneAddressing,
            },
        ),
        0xd9 => Some(
            OpCode {
                code: 0xd9,
                instruction: Instruction::Cmp,
                len: 3,
                cycles: 4,
                mode: AddressingMode::AbsoluteY,
            },
        ),
        0xdd => Some(
            OpCode {
                code: 0xdd,
                instruction: Instruction::Cmp,
                len: 3,
                cycles: 4,
                mode: AddressingMode::AbsoluteX,
            },
        ),
        0xde => Some(
            OpCode {
                code: 0xde,
                instruction: Instruction::Dec,
                len: 3,
                cycles: 7,
                mode: AddressingMode::AbsoluteX,
            },
        ),
        0xe0 => Some(
            OpCode {
                code: 0xe0,
                instruction: Instruction::Cpx,
                len: 2,
                cycles: 2,
                mode: AddressingMode::Immediate,
            },
        ),
        0xe1 => Some(
            OpCode {
                code: 0xe1,
                instruction: Instruction::Sbc,
                len: 2,
                cycles: 6,
                mode: AddressingMode::IndirectX,
            },
        ),
        0xe4 => Some(
            OpCode {
                code: 0xe4,
                instruction: Instruction::Cpx,
                len: 2,
                cycles: 3,
                mode: AddressingMode::ZeroPage,
            },
        ),
        0xe5 => Some(
            OpCode {
                code: 0xe5,
                instruction: Instruction::Sbc,
                len: 2,
                cycles: 3,
                mode: AddressingMode::ZeroPage,
            },
        ),
        0xe6 => Some(
            OpCode {
                code: 0xe6,
                instruction: Instruction::Inc,
                len: 2,
                cycles: 5,
                mode: AddressingMode::ZeroPage,
            },
        ),
        0xe8 => Some(
            OpCode {
                code: 0xe8,
                instruction: Instruction::Inx,
                len: 1,
                cycles: 2,
                mode: AddressingMode::NoneAddressing,
            },
        ),
        0xe9 => Some(
            OpCode {
                code: 0xe9,
                instruction: Instruction::Sbc,
                len: 2,
                cycles: 2,
                mode: AddressingMode::Immediate,
            },
        ),
        0xea => Some(
            OpCode {
                code: 0xea,
                instruction: Instruction::Nop,
                len: 1,
                cycles: 2,
                mode: AddressingMode::NoneAddressing,
            },
        ),
        0xec => Some(
            OpCode {
                code: 0xec,
                instruction: Instruction::Cpx,
                len: 3,
                cycles: 4,
                mode: AddressingMode::Absolute,
            },
        ),
        0xed => Some(
            OpCode {
                code: 0xed,
                instruction: Instruction::Sbc,
                len: 3,
                cycles: 4,
                mode: AddressingMode::Absolute,
            },
        ),
        0xee => Some(
            OpCode {
                code: 0xee,
                instruction: Instruction::Inc,
                len: 3,
                cycles: 6,
                mode: AddressingMode::Absolute,
            },
        ),
        0xf0 => Some(
            OpCode {
                code: 0xf0,
                instruction: Instruction::Beq,
                len: 2,
                cycles: 2,
                mode: AddressingMode::Relative,
            },
        ),
        0xf1 => Some(
            OpCode {
                code: 0xf1,
                instruction: Instruction::Sbc,
                len: 2,
                cycles: 5,
                mode: AddressingMode::IndirectY,
            },
        ),
        0xf5 => Some(
            OpCode {
                code: 0xf5,
                instruction: Instruction::Sbc,
                len: 2,
                cycles: 4,
                mode: AddressingMode::ZeroPageX,
            },
        ),
        0xf6 => Some(
            OpCode {
                code: 0xf6,
                instruction: Instruction::Inc,
                len: 2,
                cycles: 6,
                mode: AddressingMode::ZeroPageX,
            },
        ),
        0xf8 => Some(
            OpCode {
                code: 0xf8,
                instruction: Instruction::Sed,
                len: 1,
                cycles: 2,
                mode: AddressingMode::NoneAddressing,
            },
        ),
        0xf9 => Some(
            OpCode {
                code: 0xf9,
                instruction: Instruction::Sbc,
                len: 3,
                cycles: 4,
                mode: AddressingMode::AbsoluteY,
            },
        ),
        0xfd => Some(
            OpCode {
                code: 0xfd,
                instruction: Instruction::Sbc,
                len: 3,
                cycles: 4,
                mode: AddressingMode::AbsoluteX,
            },
        ),
        0xfe => Some(
            OpCode {
                code: 0xfe,
                instruction: Instruction::Inc,
                len: 3,
                cycles: 7,
                mode: AddressingMode::AbsoluteX,
            },
        ),
        _ => None,
    }
}

impl OpCode {
    /// An opcode table entry holding exactly the given fields.
    fn new(code: u8, instruction: Instruction, len: u8, cycles: u8, mode: AddressingMode) -> (r:
        Self)
        ensures
            r == (OpCode { code, instruction, len, cycles, mode }),
    {
        OpCode { code, instruction, len, cycles, mode }
    }

    /// Look a code byte up in the opcode table.
    pub fn lookup(code: u8) -> (r: Option<OpCode>)
        ensures
            r == opcode_for(code),
    {
        match code {
            0x00 => Some(
                OpCode::new(0x00, Instruction::Brk, 1, 7, AddressingMode::NoneAddressing),
            ),
            0x01 => Some(
                OpCode::new(0x01, Instruction::Ora, 2, 6, AddressingMode::IndirectX),
            ),
            0x05 => Some(
                OpCode::new(0x05, Instruction::Ora, 2, 3, AddressingMode::ZeroPage),
            ),
            0x06 => Some(
                OpCode::new(0x06, Instruction::Asl, 2, 5, AddressingMode::ZeroPage),
            ),
            0x08 => Some(
                OpCode::new(0x08, Instruction::Php, 1, 3, AddressingMode::NoneAddressing),
            ),
            0x09 => Some(
                OpCode::new(0x09, Instruction::Ora, 2, 2, AddressingMode::Immediate),
            ),
            0x0a => Some(
                OpCode::new(0x0a, Instruction::Asl, 1, 2, AddressingMode::NoneAddressing),
            ),
            0x0d => Some(
                OpCode::new(0x0d, Instruction::Ora, 3, 4, AddressingMode::Absolute),
            ),
            0x0e => Some(
                OpCode::new(0x0e, Instruction::Asl, 3, 6, AddressingMode::Absolute),
            ),
            0x10 => Some(
                OpCode::new(0x10, Instruction::Bpl, 2, 2, AddressingMode::Relative),
            ),
            0x11 => Some(
                OpCode::new(0x11, Instruction::Ora, 2, 5, AddressingMode::IndirectY),
            ),
            0x15 => Some(
                OpCode::new(0x15, Instruction::Ora, 2, 4, AddressingMode::ZeroPageX),
            ),
            0x16 => Some(
                OpCode::new(0x16, Instruction::Asl, 2, 6, AddressingMode::ZeroPageX),
            ),
            0x18 => Some(
                OpCode::new(0x18, Instruction::Clc, 1, 2, AddressingMode::NoneAddressing),
            ),
            0x19 => Some(
                OpCode::new(0x19, Instruction::Ora, 3, 4, AddressingMode::AbsoluteY),
            ),
            0x1d => Some(
                OpCode::new(0x1d, Instruction::Ora, 3, 4, AddressingMode::AbsoluteX),
            ),
            0x1e => Some(
                OpCode::new(0x1e, Instruction::Asl, 3, 7, AddressingMode::AbsoluteX),
            ),
            0x20 => Some(
                OpCode::new(0x20, Instruction::Jsr, 3, 6, AddressingMode::Absolute),
            ),
            0x21 => Some(
                OpCode::new(0x21, Instruction::And, 2, 6, AddressingMode::IndirectX),
            ),
            0x24 => Some(
                OpCode::new(0x24, Instruction::Bit, 2, 3, AddressingMode::ZeroPage),
            ),
            0x25 => Some(
                OpCode::new(0x25, Instruction::And, 2, 3, AddressingMode::ZeroPage),
            ),
            0x26 => Some(
                OpCode::new(0x26, Instruction::Rol, 2, 5, AddressingMode::ZeroPage),
            ),
            0x28 => Some(
                OpCode::new(0x28, Instruction::Plp, 1, 4, AddressingMode::NoneAddressing),
            ),
            0x29 => Some(
                OpCode::new(0x29, Instruction::And, 2, 2, AddressingMode::Immediate),
            ),
            0x2a => Some(
                OpCode::new(0x2a, Instruction::Rol, 1, 2, AddressingMode::NoneAddressing),
            ),
            0x2c => Some(
                OpCode::new(0x2c, Instruction::Bit, 3, 4, AddressingMode::Absolute),
            ),
            0x2d => Some(
                OpCode::new(0x2d, Instruction::And, 3, 4, AddressingMode::Absolute),
            ),
            0x2e => Some(
                OpCode::new(0x2e, Instruction::Rol, 3, 6, AddressingMode::Absolute),
            ),
            0x30 => Some(
                OpCode::new(0x30, Instruction::Bmi, 2, 2, AddressingMode::Relative),
            ),
            0x31 => Some(
                OpCode::new(0x31, Instruction::And, 2, 5, AddressingMode::IndirectY),
            ),
            0x35 => Some(
                OpCode::new(0x35, Instruction::And, 2, 4, AddressingMode::ZeroPageX),
            ),
            0x36 => Some(
                OpCode::new(0x36, Instruction::Rol, 2, 6, AddressingMode::ZeroPageX),
            ),
            0x38 => Some(
                OpCode::new(0x38, Instruction::Sec, 1, 2, AddressingMode::NoneAddressing),
            ),
            0x39 => Some(
                OpCode::new(0x39, Instruction::And, 3, 4, AddressingMode::AbsoluteY),
            ),
            0x3d => Some(
                OpCode::new(0x3d, Instruction::And, 3, 4, AddressingMode::AbsoluteX),
            ),
            0x3e => Some(
                OpCode::new(0x3e, Instruction::Rol, 3, 7, AddressingMode::AbsoluteX),
            ),
            0x40 => Some(
                OpCode::new(0x40, Instruction::Rti, 1, 6, AddressingMode::NoneAddressing),
            ),
            0x41 => Some(
                OpCode::new(0x41, Instruction::Eor, 2, 6, AddressingMode::IndirectX),
            ),
            0x45 => Some(
                OpCode::new(0x45, Instruction::Eor, 2, 3, AddressingMode::ZeroPage),
            ),
            0x46 => Some(
                OpCode::new(0x46, Instruction::Lsr, 2, 5, AddressingMode::ZeroPage),
            ),
            0x48 => Some(
                OpCode::new(0x48, Instruction::Pha, 1, 3, AddressingMode::NoneAddressing),
            ),
            0x49 => Some(
                OpCode::new(0x49, Instruction::Eor, 2, 2, AddressingMode::Immediate),
            ),
            0x4a => Some(
                OpCode::new(0x4a, Instruction::Lsr, 1, 2, AddressingMode::NoneAddressing),
            ),
            0x4c => Some(
                OpCode::new(0x4c, Instruction::Jmp, 3, 3, AddressingMode::Absolute),
            ),
            0x4d => Some(
                OpCode::new(0x4d, Instruction::Eor, 3, 4, AddressingMode::Absolute),
            ),
            0x4e => Some(
                OpCode::new(0x4e, Instruction::Lsr, 3, 6, AddressingMode::Absolute),
            ),
            0x50 => Some(
                OpCode::new(0x50, Instruction::Bvc, 2, 2, AddressingMode::Relative),
            ),
            0x51 => Some(
                OpCode::new(0x51, Instruction::Eor, 2, 5, AddressingMode::IndirectY),
            ),
            0x55 => Some(
                OpCode::new(0x55, Instruction::Eor, 2, 4, AddressingMode::ZeroPageX),
            ),
            0x56 => Some(
                OpCode::new(0x56, Instruction::Lsr, 2, 6, AddressingMode::ZeroPageX),
            ),
            0x58 => Some(
                OpCode::new(0x58, Instruction::Cli, 1, 2, AddressingMode::NoneAddressing),
            ),
            0x59 => Some(
                OpCode::new(0x59, Instruction::Eor, 3, 4, AddressingMode::AbsoluteY),
            ),
            0x5d => Some(
                OpCode::new(0x5d, Instruction::Eor, 3, 4, AddressingMode::AbsoluteX),
            ),
            0x5e => Some(
                OpCode::new(0x5e, Instruction::Lsr, 3, 7, AddressingMode::AbsoluteX),
            ),
            0x60 => Some(
                OpCode::new(0x60, Instruction::Rts, 1, 6, AddressingMode::NoneAddressing),
            ),
            0x61 => Some(
                OpCode::new(0x61, Instruction::Adc, 2, 6, AddressingMode::IndirectX),
            ),
            0x65 => Some(
                OpCode::new(0x65, Instruction::Adc, 2, 3, AddressingMode::ZeroPage),
            ),
            0x66 => Some(
                OpCode::new(0x66, Instruction::Ror, 2, 5, AddressingMode::ZeroPage),
            ),
            0x68 => Some(
                OpCode::new(0x68, Instruction::Pla, 1, 4, AddressingMode::NoneAddressing),
            ),
            0x69 => Some(
                OpCode::new(0x69, Instruction::Adc, 2, 2, AddressingMode::Immediate),
            ),
            0x6a => Some(
                OpCode::new(0x6a, Instruction::Ror, 1, 2, AddressingMode::NoneAddressing),
            ),
            0x6c => Some(
                OpCode::new(0x6c, Instruction::Jmp, 3, 5, AddressingMode::Indirect),
            ),
            0x6d => Some(
                OpCode::new(0x6d, Instruction::Adc, 3, 4, AddressingMode::Absolute),
            ),
            0x6e => Some(
                OpCode::new(0x6e, Instruction::Ror, 3, 6, AddressingMode::Absolute),
            ),
            0x70 => Some(
                OpCode::new(0x70, Instruction::Bvs, 2, 2, AddressingMode::Relative),
            ),
            0x71 => Some(
                OpCode::new(0x71, Instruction::Adc, 2, 5, AddressingMode::IndirectY),
            ),
            0x75 => Some(
                OpCode::new(0x75, Instruction::Adc, 2, 4, AddressingMode::ZeroPageX),
            ),
            0x76 => Some(
                OpCode::new(0x76, Instruction::Ror, 2, 6, AddressingMode::ZeroPageX),
            ),
            0x78 => Some(
                OpCode::new(0x78, Instruction::Sei, 1, 2, AddressingMode::NoneAddressing),
            ),
            0x79 => Some(
                OpCode::new(0x79, Instruction::Adc, 3, 4, AddressingMode::AbsoluteY),
            ),
            0x7d => Some(
                OpCode::new(0x7d, Instruction::Adc, 3, 4, AddressingMode::AbsoluteX),
            ),
            0x7e => Some(
                OpCode::new(0x7e, Instruction::Ror, 3, 7, AddressingMode::AbsoluteX),
            ),
            0x81 => Some(
                OpCode::new(0x81, Instruction::Sta, 2, 6, AddressingMode::IndirectX),
            ),
            0x84 => Some(
                OpCode::new(0x84, Instruction::Sty, 2, 3, AddressingMode::ZeroPage),
            ),
            0x85 => Some(
                OpCode::new(0x85, Instruction::Sta, 2, 3, AddressingMode::ZeroPage),
            ),
            0x86 => Some(
                OpCode::new(0x86, Instruction::Stx, 2, 3, AddressingMode::ZeroPage),
            ),
            0x88 => Some(
                OpCode::new(0x88, Instruction::Dey, 1, 2, AddressingMode::NoneAddressing),
            ),
            0x8a => Some(
                OpCode::new(0x8a, Instruction::Txa, 1, 2, AddressingMode::NoneAddressing),
            ),
            0x8c => Some(
                OpCode::new(0x8c, Instruction::Sty, 3, 4, AddressingMode::Absolute),
            ),
            0x8d => Some(
                OpCode::new(0x8d, Instruction::Sta, 3, 4, AddressingMode::Absolute),
            ),
            0x8e => Some(
                OpCode::new(0x8e, Instruction::Stx, 3, 4, AddressingMode::Absolute),
            ),
            0x90 => Some(
                OpCode::new(0x90, Instruction::Bcc, 2, 2, AddressingMode::Relative),
            ),
            0x91 => Some(
                OpCode::new(0x91, Instruction::Sta, 2, 6, AddressingMode::IndirectY),
            ),
            0x94 => Some(
                OpCode::new(0x94, Instruction::Sty, 2, 4, AddressingMode::ZeroPageX),
            ),
            0x95 => Some(
                OpCode::new(0x95, Instruction::Sta, 2, 4, AddressingMode::ZeroPageX),
            ),
            0x96 => Some(
                OpCode::new(0x96, Instruction::Stx, 2, 4, AddressingMode::ZeroPageY),
            ),
            0x98 => Some(
                OpCode::new(0x98, Instruction::Tya, 1, 2, AddressingMode::NoneAddressing),
            ),
            0x99 => Some(
                OpCode::new(0x99, Instruction::Sta, 3, 5, AddressingMode::AbsoluteY),
            ),
            0x9a => Some(
                OpCode::new(0x9a, Instruction::Txs, 1, 2, AddressingMode::NoneAddressing),
            ),
            0x9d => Some(
                OpCode::new(0x9d, Instruction::Sta, 3, 5, AddressingMode::AbsoluteX),
            ),
            0xa0 => Some(
                OpCode::new(0xa0, Instruction::Ldy, 2, 2, AddressingMode::Immediate),
            ),
            0xa1 => Some(
                OpCode::new(0xa1, Instruction::Lda, 2, 6, AddressingMode::IndirectX),
            ),
            0xa2 => Some(
                OpCode::new(0xa2, Instruction::Ldx, 2, 2, AddressingMode::Immediate),
            ),
            0xa4 => Some(
                OpCode::new(0xa4, Instruction::Ldy, 2, 3, AddressingMode::ZeroPage),
            ),
            0xa5 => Some(
                OpCode::new(0xa5, Instruction::Lda, 2, 3, AddressingMode::ZeroPage),
            ),
            0xa6 => Some(
                OpCode::new(0xa6, Instruction::Ldx, 2, 3, AddressingMode::ZeroPage),
            ),
            0xa8 => Some(
                OpCode::new(0xa8, Instruction::Tay, 1, 2, AddressingMode::NoneAddressing),
            ),
            0xa9 => Some(
                OpCode::new(0xa9, Instruction::Lda, 2, 2, AddressingMode::Immediate),
            ),
            0xaa => Some(
                OpCode::new(0xaa, Instruction::Tax, 1, 2, AddressingMode::NoneAddressing),
            ),
            0xac => Some(
                OpCode::new(0xac, Instruction::Ldy, 3, 4, AddressingMode::Absolute),
            ),
            0xad => Some(
                OpCode::new(0xad, Instruction::Lda, 3, 4, AddressingMode::Absolute),
            ),
            0xae => Some(
                OpCode::new(0xae, Instruction::Ldx, 3, 4, AddressingMode::Absolute),
            ),
            0xb0 => Some(
                OpCode::new(0xb0, Instruction::Bcs, 2, 2, AddressingMode::Relative),
            ),
            0xb1 => Some(
                OpCode::new(0xb1, Instruction::Lda, 2, 5, AddressingMode::IndirectY),
            ),
            0xb4 => Some(
                OpCode::new(0xb4, Instruction::Ldy, 2, 4, AddressingMode::ZeroPageX),
            ),
            0xb5 => Some(
                OpCode::new(0xb5, Instruction::Lda, 2, 4, AddressingMode::ZeroPageX),
            ),
            0xb6 => Some(
                OpCode::new(0xb6, Instruction::Ldx, 2, 4, AddressingMode::ZeroPageY),
            ),
            0xb8 => Some(
                OpCode::new(0xb8, Instruction::Clv, 1, 2, AddressingMode::NoneAddressing),
            ),
            0xb9 => Some(
                OpCode::new(0xb9, Instruction::Lda, 3, 4, AddressingMode::AbsoluteY),
            ),
            0xba => Some(
                OpCode::new(0xba, Instruction::Tsx, 1, 2, AddressingMode::NoneAddressing),
            ),
            0xbc => Some(
                OpCode::new(0xbc, Instruction::Ldy, 3, 4, AddressingMode::AbsoluteX),
            ),
            0xbd => Some(
                OpCode::new(0xbd, Instruction::Lda, 3, 4, AddressingMode::AbsoluteX),
            ),
            0xbe => Some(
                OpCode::new(0xbe, Instruction::Ldx, 3, 4, AddressingMode::AbsoluteY),
            ),
            0xc0 => Some(
                OpCode::new(0xc0, Instruction::Cpy, 2, 2, AddressingMode::Immediate),
            ),
            0xc1 => Some(
                OpCode::new(0xc1, Instruction::Cmp, 2, 6, AddressingMode::IndirectX),
            ),
            0xc4 => Some(
                OpCode::new(0xc4, Instruction::Cpy, 2, 3, AddressingMode::ZeroPage),
            ),
            0xc5 => Some(
                OpCode::new(0xc5, Instruction::Cmp, 2, 3, AddressingMode::ZeroPage),
            ),
            0xc6 => Some(
                OpCode::new(0xc6, Instruction::Dec, 2, 5, AddressingMode::ZeroPage),
            ),
            0xc8 => Some(
                OpCode::new(0xc8, Instruction::Iny, 1, 2, AddressingMode::NoneAddressing),
            ),
            0xc9 => Some(
                OpCode::new(0xc9, Instruction::Cmp, 2, 2, AddressingMode::Immediate),
            ),
            0xca => Some(
                OpCode::new(0xca, Instruction::Dex, 1, 2, AddressingMode::NoneAddressing),
            ),
            0xcc => Some(
                OpCode::new(0xcc, Instruction::Cpy, 3, 4, AddressingMode::Absolute),
            ),
            0xcd => Some(
                OpCode::new(0xcd, Instruction::Cmp, 3, 4, AddressingMode::Absolute),
            ),
            0xce => Some(
                OpCode::new(0xce, Instruction::Dec, 3, 6, AddressingMode::Absolute),
            ),
            0xd0 => Some(
                OpCode::new(0xd0, Instruction::Bne, 2, 2, AddressingMode::Relative),
            ),
            0xd1 => Some(
                OpCode::new(0xd1, Instruction::Cmp, 2, 5, AddressingMode::IndirectY),
            ),
            0xd5 => Some(
                OpCode::new(0xd5, Instruction::Cmp, 2, 4, AddressingMode::ZeroPageX),
            ),
            0xd6 => Some(
                OpCode::new(0xd6, Instruction::Dec, 2, 6, AddressingMode::ZeroPageX),
            ),
            0xd8 => Some(
                OpCode::new(0xd8, Instruction::Cld, 1, 2, AddressingMode::NoneAddressing),
            ),
            0xd9 => Some(
                OpCode::new(0xd9, Instruction::Cmp, 3, 4, AddressingMode::AbsoluteY),
            ),
            0xdd => Some(
                OpCode::new(0xdd, Instruction::Cmp, 3, 4, AddressingMode::AbsoluteX),
            ),
            0xde => Some(
                OpCode::new(0xde, Instruction::Dec, 3, 7, AddressingMode::AbsoluteX),
            ),
            0xe0 => Some(
                OpCode::new(0xe0, Instruction::Cpx, 2, 2, AddressingMode::Immediate),
            ),
            0xe1 => Some(
                OpCode::new(0xe1, Instruction::Sbc, 2, 6, AddressingMode::IndirectX),
            ),
            0xe4 => Some(
                OpCode::new(0xe4, Instruction::Cpx, 2, 3, AddressingMode::ZeroPage),
            ),
            0xe5 => Some(
                OpCode::new(0xe5, Instruction::Sbc, 2, 3, AddressingMode::ZeroPage),
            ),
            0xe6 => Some(
                OpCode::new(0xe6, Instruction::Inc, 2, 5, AddressingMode::ZeroPage),
            ),
            0xe8 => Some(
                OpCode::new(0xe8, Instruction::Inx, 1, 2, AddressingMode::NoneAddressing),
            ),
            0xe9 => Some(
                OpCode::new(0xe9, Instruction::Sbc, 2, 2, AddressingMode::Immediate),
            ),
            0xea => Some(
                OpCode::new(0xea, Instruction::Nop, 1, 2, AddressingMode::NoneAddressing),
            ),
            0xec => Some(
                OpCode::new(0xec, Instruction::Cpx, 3, 4, AddressingMode::Absolute),
            ),
            0xed => Some(
                OpCode::new(0xed, Instruction::Sbc, 3, 4, AddressingMode::Absolute),
            ),
            0xee => Some(
                OpCode::new(0xee, Instruction::Inc, 3, 6, AddressingMode::Absolute),
            ),
            0xf0 => Some(
                OpCode::new(0xf0, Instruction::Beq, 2, 2, AddressingMode::Relative),
            ),
            0xf1 => Some(
                OpCode::new(0xf1, Instruction::Sbc, 2, 5, AddressingMode::IndirectY),
            ),
            0xf5 => Some(
                OpCode::new(0xf5, Instruction::Sbc, 2, 4, AddressingMode::ZeroPageX),
            ),
            0xf6 => Some(
                OpCode::new(0xf6, Instruction::Inc, 2, 6, AddressingMode::ZeroPageX),
            ),
            0xf8 => Some(
                OpCode::new(0xf8, Instruction::Sed, 1, 2, AddressingMode::NoneAddressing),
            ),
            0xf9 => Some(
                OpCode::new(0xf9, Instruction::Sbc, 3, 4, AddressingMode::AbsoluteY),
            ),
            0xfd => Some(
                OpCode::new(0xfd, Instruction::Sbc, 3, 4, AddressingMode::AbsoluteX),
            ),
            0xfe => Some(
                OpCode::new(0xfe, Instruction::Inc, 3, 7, AddressingMode::AbsoluteX),
            ),
            _ => None,
        }
    }
}

} // verus!

//! The specification-level machine: the complete observable processor state
//! and one pure transition function per mnemonic, together with addressing
//! mode resolution and the fetch-decode-execute step. Every executable
//! operation of the crate is specified as equality with one of these
//! functions.

use vstd::prelude::*;

use crate::instructions::Instruction;
use crate::memory::{
    load_image, word_at, word_write, zero_memory, INTERRUPT, RESET, STACK, STACK_PAGE,
};
use crate::mode::{rom_origin, Mode};
use crate::opcodes::{opcode_for, AddressingMode};
use crate::status::{default_status, get_flag, set_flag, update_nz, Flag};

verus! {

/// The complete observable state of the processor: registers, status byte,
/// stack pointer, program counter and the 64 KiB memory image.
pub ghost struct CpuState {
    pub accumulator: u8,
    pub index_x: u8,
    pub index_y: u8,
    pub program_counter: u16,
    pub stack_pointer: u8,
    pub status: u8,
    pub memory: Seq<u8>,
    pub mode: Mode,
}

impl CpuState {
    /// The memory image covers exactly the 64 KiB address space.
    pub open spec fn wf(self) -> bool {
        self.memory.len() == 0x10000
    }
}

/// A fatal condition that aborts a run: all modeled failures are
/// programming or data-integrity errors, so the run fails fast rather than
/// retrying.
#[derive(Clone, Copy, PartialEq, Eq, Structural, Debug)]
pub enum RunError {
    /// The fetched code byte has no opcode table entry.
    UnrecognizedOpcode(u8),
    /// An instruction requiring a resolved address was invoked without one:
    /// an internal table/dispatch inconsistency.
    MissingOperand,
    /// The run executed the (astronomically large) maximum number of
    /// instructions without reaching BRK.
    StepLimitExceeded,
}

/// 8-bit wrapping addition.
pub open spec fn add8(a: u8, b: u8) -> u8 {
    if a + b > 0xff {
        (a + b - 0x100) as u8
    } else {
        (a + b) as u8
    }
}

/// 8-bit wrapping subtraction.
pub open spec fn sub8(a: u8, b: u8) -> u8 {
    if a - b < 0 {
        (a - b + 0x100) as u8
    } else {
        (a - b) as u8
    }
}

/// 16-bit wrapping addition.
pub open spec fn add16(a: u16, b: u16) -> u16 {
    if a + b > 0xffff {
        (a + b - 0x10000) as u16
    } else {
        (a + b) as u16
    }
}

/// A stack pointer advanced by a signed byte offset, wrapping modulo 256.
pub open spec fn advanced_sp(sp: u8, offset: int) -> u8 {
    ((sp + offset) % 0x100) as u8
}

/// A one-byte relative displacement sign-extended to 16 bits.
pub open spec fn sign_extend(off: u8) -> u16 {
    if off < 0x80 {
        off as u16
    } else {
        (off + 0xFF00) as u16
    }
}

/// The byte at an address.
pub open spec fn read8(s: CpuState, addr: u16) -> u8 {
    s.memory[addr as int]
}

/// The little-endian 16-bit value at an address, the high byte coming from
/// the wrapping successor address.
pub open spec fn read16(s: CpuState, addr: u16) -> u16 {
    word_at(s.memory, addr as int, 2) as u16
}

/// The state with one byte stored at an address.
pub open spec fn write8(s: CpuState, addr: u16, v: u8) -> CpuState {
    CpuState { memory: word_write(s.memory, addr as int, v as int, 1), ..s }
}

/// Physical address of a stack pointer offset within the stack page.
pub open spec fn stack_addr(sp: u8) -> u16 {
    (STACK_PAGE + sp) as u16
}

/// The state after pushing a numeric value of the given byte width: the
/// value is written at the current physical stack address and the stack
/// pointer advances by the width, wrapping modulo 256.
pub open spec fn push_word(s: CpuState, w: int, width: int) -> CpuState {
    CpuState {
        memory: word_write(s.memory, stack_addr(s.stack_pointer) as int, w, width),
        stack_pointer: advanced_sp(s.stack_pointer, width),
        ..s
    }
}

/// The stack pointer after retreating by the given byte width, wrapping
/// modulo 256.
pub open spec fn pop_sp(sp: u8, width: int) -> u8 {
    advanced_sp(sp, -width)
}

/// The numeric value a pop of the given byte width returns: the word at the
/// retreated stack pointer's physical address.
pub open spec fn pop_val(s: CpuState, width: int) -> int {
    word_at(s.memory, stack_addr(pop_sp(s.stack_pointer, width)) as int, width)
}

/// The state after popping a value of the given byte width: only the stack
/// pointer retreats; memory is not cleared.
pub open spec fn pop_state(s: CpuState, width: int) -> CpuState {
    CpuState { stack_pointer: pop_sp(s.stack_pointer, width), ..s }
}


/// After a push of a one- or two-byte value, a pop of the same width
/// returns exactly the pushed value and the stack pointer is back at its
/// pre-push position.
proof fn lemma_push_pop_word(s: CpuState, w: int, width: int)
    requires
        s.wf(),
        width == 1 || width == 2,
        0 <= w < if width == 2 {
            0x10000int
        } else {
            0x100int
        },
    ensures
        pop_state(push_word(s, w, width), width).stack_pointer == s.stack_pointer,
        pop_val(push_word(s, w, width), width) == w,
{
    let sp = s.stack_pointer;
    let sp1 = advanced_sp(sp, width);
    assert((sp + width) % 0x100 == if sp + width < 0x100 {
        sp + width
    } else {
        sp + width - 0x100
    }) by {
        if sp + width < 0x100 {
            vstd::arithmetic::div_mod::lemma_small_mod((sp + width) as nat, 0x100);
        } else {
            vstd::arithmetic::div_mod::lemma_mod_multiples_vanish(1, sp + width - 0x100, 0x100);
            vstd::arithmetic::div_mod::lemma_small_mod((sp + width - 0x100) as nat, 0x100);
        }
    }
    assert((sp1 - width) % 0x100 == sp) by {
        if sp + width < 0x100 {
            vstd::arithmetic::div_mod::lemma_small_mod(sp as nat, 0x100);
        } else {
            vstd::arithmetic::div_mod::lemma_mod_multiples_vanish(1, sp1 - width, 0x100);
            vstd::arithmetic::div_mod::lemma_small_mod(sp as nat, 0x100);
        }
    }
    let a = stack_addr(sp) as int;
    let m1 = word_write(s.memory, a, w, width);
    if width == 2 {
        assert((a + 1) % 0x10000 == a + 1) by {
            vstd::arithmetic::div_mod::lemma_small_mod((a + 1) as nat, 0x10000);
        }
        assert(w % 0x100 + 0x100 * (w / 0x100) == w) by {
            vstd::arithmetic::div_mod::lemma_fundamental_div_mod(w, 0x100);
        }
        assert((w / 0x100) % 0x100 == w / 0x100) by {
            assert(0 <= w / 0x100 < 0x100) by (nonlinear_arith)
                requires 0 <= w < 0x10000;
            vstd::arithmetic::div_mod::lemma_small_mod((w / 0x100) as nat, 0x100);
        }
        assert(w % 0x100 < 0x100);
    } else {
        assert(w % 0x100 == w) by {
            vstd::arithmetic::div_mod::lemma_small_mod(w as nat, 0x100);
        }
    }
}

/// Pushing an 8-bit value onto the stack and then popping 8 bits returns
/// the same value and restores the stack pointer to its pre-push position.
pub proof fn lemma_stack_push_pop_u8(s: CpuState, value: u8)
    requires
        s.wf(),
    ensures
        pop_val(push_word(s, value as int, 1), 1) == value as int,
        pop_state(push_word(s, value as int, 1), 1).stack_pointer == s.stack_pointer,
{
    lemma_push_pop_word(s, value as int, 1);
}

/// Pushing a 16-bit value onto the stack and then popping 16 bits returns
/// the same value and restores the stack pointer to its pre-push position.
pub proof fn lemma_stack_push_pop_u16(s: CpuState, value: u16)
    requires
        s.wf(),
    ensures
        pop_val(push_word(s, value as int, 2), 2) == value as int,
        pop_state(push_word(s, value as int, 2), 2).stack_pointer == s.stack_pointer,
{
    lemma_push_pop_word(s, value as int, 2);
}


/// The concrete value of an advanced stack pointer for small offsets: the
/// sum shifted into the 0..256 range.
proof fn lemma_advanced_sp_value(sp: u8, k: int)
    requires
        -0x100 < k < 0x100,
    ensures
        advanced_sp(sp, k) as int == if sp + k < 0 {
            sp + k + 0x100
        } else if sp + k < 0x100 {
            sp + k
        } else {
            sp + k - 0x100
        },
{
    if sp + k < 0 {
        vstd::arithmetic::div_mod::lemma_mod_add_multiples_vanish(sp + k, 0x100);
        vstd::arithmetic::div_mod::lemma_small_mod((sp + k + 0x100) as nat, 0x100);
    } else if sp + k < 0x100 {
        vstd::arithmetic::div_mod::lemma_small_mod((sp + k) as nat, 0x100);
    } else {
        vstd::arithmetic::div_mod::lemma_mod_multiples_vanish(1, sp + k - 0x100, 0x100);
        vstd::arithmetic::div_mod::lemma_small_mod((sp + k - 0x100) as nat, 0x100);
    }
}

/// A 16-bit word read is untouched by a byte write at a third address.
proof fn lemma_word_at_update_disjoint(m: Seq<u8>, a: int, b: int, v: u8)
    requires
        m.len() == 0x10000,
        0 <= a < 0x10000,
        0 <= b < 0x10000,
        b != a,
        b != (a + 1) % 0x10000,
    ensures
        word_at(m.update(b, v), a, 2) == word_at(m, a, 2),
{
}

/// Executing RTI in the state a BRK leaves behind restores the program
/// counter, the status byte and the stack pointer to their values before
/// the BRK, and touches no register: the two are logical inverses up to the
/// three stack bytes the BRK wrote.
pub proof fn lemma_rti_inverts_brk(s: CpuState)
    requires
        s.wf(),
    ensures
        spec_rti(spec_brk(s)).program_counter == s.program_counter,
        spec_rti(spec_brk(s)).status == s.status,
        spec_rti(spec_brk(s)).stack_pointer == s.stack_pointer,
        spec_rti(spec_brk(s)).accumulator == s.accumulator,
        spec_rti(spec_brk(s)).index_x == s.index_x,
        spec_rti(spec_brk(s)).index_y == s.index_y,
        spec_rti(spec_brk(s)).mode == s.mode,
{
    let sp = s.stack_pointer;
    let s1 = push_word(s, s.program_counter as int, 2);
    let s2 = push_word(s1, s1.status as int, 1);
    lemma_push_pop_word(s, s.program_counter as int, 2);
    lemma_push_pop_word(s1, s1.status as int, 1);
    lemma_advanced_sp_value(sp, 2);
    let sp1 = s1.stack_pointer;
    let a = stack_addr(sp) as int;
    let a2 = stack_addr(sp1) as int;
    assert((a + 1) % 0x10000 == a + 1) by {
        vstd::arithmetic::div_mod::lemma_small_mod((a + 1) as nat, 0x10000);
    }
    assert(a2 != a);
    assert(a2 != a + 1);
    assert(word_at(s2.memory, a, 2) == word_at(s1.memory, a, 2)) by {
        assert(s1.status as int % 0x100 == s1.status) by {
            vstd::arithmetic::div_mod::lemma_small_mod(s1.status as nat, 0x100);
        }
        lemma_word_at_update_disjoint(s1.memory, a, a2, s1.status);
    }
}

/// The state with the accumulator set and the Zero/Negative flags updated
/// from the new value.
pub open spec fn with_acc(s: CpuState, v: u8) -> CpuState {
    CpuState { accumulator: v, status: update_nz(s.status, v), ..s }
}

/// The state with the X register set and the Zero/Negative flags updated
/// from the new value.
pub open spec fn with_x(s: CpuState, v: u8) -> CpuState {
    CpuState { index_x: v, status: update_nz(s.status, v), ..s }
}

/// The state with the Y register set and the Zero/Negative flags updated
/// from the new value.
pub open spec fn with_y(s: CpuState, v: u8) -> CpuState {
    CpuState { index_y: v, status: update_nz(s.status, v), ..s }
}

/// Where a shift or rotate operates: on the accumulator when no operand
/// address was resolved, else on the byte at the resolved address.
#[derive(Clone, Copy, PartialEq, Eq, Structural, Debug)]
pub enum ShiftTarget {
    Accumulator,
    MemoryAt(u16),
}

/// The shift target an optional resolved operand address denotes.
pub open spec fn target_of(addr: Option<u16>) -> ShiftTarget {
    match addr {
        Option::None => ShiftTarget::Accumulator,
        Option::Some(a) => ShiftTarget::MemoryAt(a),
    }
}

/// The value a shift target currently holds.
pub open spec fn target_value(s: CpuState, t: ShiftTarget) -> u8 {
    match t {
        ShiftTarget::Accumulator => s.accumulator,
        ShiftTarget::MemoryAt(a) => read8(s, a),
    }
}

/// The state with a shift target overwritten. Writing the accumulator this
/// way does not touch the flags.
pub open spec fn target_write(s: CpuState, t: ShiftTarget, v: u8) -> CpuState {
    match t {
        ShiftTarget::Accumulator => CpuState { accumulator: v, ..s },
        ShiftTarget::MemoryAt(a) => write8(s, a, v),
    }
}

/// The 16-bit intermediate sum of the accumulator, an operand and the
/// carry-in bit.
pub open spec fn adc_sum(s: CpuState, value: u8) -> u16 {
    (s.accumulator + value + (if get_flag(s.status, Flag::Carry) {
        1int
    } else {
        0int
    })) as u16
}

/// The state after adding a value and the carry-in into the accumulator:
/// Carry from the 16-bit sum, Overflow from a sign mismatch of operand,
/// result and old accumulator, Zero/Negative from the result.
pub open spec fn spec_add_to_accumulator(s: CpuState, value: u8) -> CpuState {
    let sum = adc_sum(s, value);
    let result = (sum % 0x100) as u8;
    let st1 = set_flag(s.status, Flag::Carry, sum > 0xff);
    let st2 = set_flag(
        st1,
        Flag::Overflow,
        (value ^ result) & (result ^ s.accumulator) & 0x80 != 0,
    );
    CpuState { accumulator: result, status: update_nz(st2, result), ..s }
}

/// ADC: add the byte at the address, with carry, into the accumulator.
pub open spec fn spec_adc(s: CpuState, addr: u16) -> CpuState {
    spec_add_to_accumulator(s, read8(s, addr))
}

/// SBC: ADC with the operand replaced by its bitwise complement (the two's
/// complement of operand + 1).
pub open spec fn spec_sbc(s: CpuState, addr: u16) -> CpuState {
    spec_add_to_accumulator(s, (0xff - read8(s, addr)) as u8)
}

/// AND: accumulator &= byte at the address; Zero/Negative from the result.
pub open spec fn spec_and(s: CpuState, addr: u16) -> CpuState {
    with_acc(s, s.accumulator & read8(s, addr))
}

/// EOR: accumulator ^= byte at the address; Zero/Negative from the result.
pub open spec fn spec_eor(s: CpuState, addr: u16) -> CpuState {
    with_acc(s, s.accumulator ^ read8(s, addr))
}

/// ORA: accumulator |= byte at the address; Zero/Negative from the result.
pub open spec fn spec_ora(s: CpuState, addr: u16) -> CpuState {
    with_acc(s, s.accumulator | read8(s, addr))
}

/// ASL: shift the target left one bit; Carry from bit 7 of the input,
/// Zero/Negative from the result.
pub open spec fn spec_asl(s: CpuState, t: ShiftTarget) -> CpuState {
    let value = target_value(s, t);
    let result = value << 1;
    let st = update_nz(set_flag(s.status, Flag::Carry, value >> 7 == 1), result);
    target_write(CpuState { status: st, ..s }, t, result)
}

/// LSR: shift the target right one bit; Carry from bit 0 of the input,
/// Zero/Negative from the result (Negative always clear).
pub open spec fn spec_lsr(s: CpuState, t: ShiftTarget) -> CpuState {
    let value = target_value(s, t);
    let result = value >> 1;
    let st = update_nz(set_flag(s.status, Flag::Carry, value & 1 == 1), result);
    target_write(CpuState { status: st, ..s }, t, result)
}

/// ROL: rotate the target left through the carry bit; Carry from bit 7 of
/// the input, Zero/Negative from the result.
pub open spec fn spec_rol(s: CpuState, t: ShiftTarget) -> CpuState {
    let value = target_value(s, t);
    let result = (value << 1) | (if get_flag(s.status, Flag::Carry) {
        1u8
    } else {
        0u8
    });
    let st = update_nz(set_flag(s.status, Flag::Carry, value >> 7 == 1), result);
    target_write(CpuState { status: st, ..s }, t, result)
}

/// ROR: rotate the target right through the carry bit; Carry from bit 0 of
/// the input, Zero/Negative from the result.
pub open spec fn spec_ror(s: CpuState, t: ShiftTarget) -> CpuState {
    let value = target_value(s, t);
    let result = (value >> 1) | (if get_flag(s.status, Flag::Carry) {
        0x80u8
    } else {
        0u8
    });
    let st = update_nz(set_flag(s.status, Flag::Carry, value & 1 == 1), result);
    target_write(CpuState { status: st, ..s }, t, result)
}

/// A branch: the program counter is set to the resolved target only if the
/// condition holds; otherwise it stays just past the instruction's bytes.
pub open spec fn spec_branch(s: CpuState, target: u16, condition: bool) -> CpuState {
    if condition {
        CpuState { program_counter: target, ..s }
    } else {
        s
    }
}

/// BIT: Zero from (accumulator & value) == 0, Overflow from bit 6 of the
/// value, Negative from bit 7 of the value; the accumulator is unchanged.
pub open spec fn spec_bit(s: CpuState, addr: u16) -> CpuState {
    let value = read8(s, addr);
    let st1 = set_flag(s.status, Flag::Zero, s.accumulator & value == 0);
    let st2 = set_flag(st1, Flag::Overflow, value & 0x40 != 0);
    let st3 = set_flag(st2, Flag::Negative, value & 0x80 != 0);
    CpuState { status: st3, ..s }
}

/// CMP/CPX/CPY: compare a register against the byte at the address; Carry
/// iff register >= value, Zero/Negative from the wrapping difference. The
/// register is unchanged.
pub open spec fn spec_compare(s: CpuState, register: u8, addr: u16) -> CpuState {
    let rhs = read8(s, addr);
    let result = sub8(register, rhs);
    let st1 = set_flag(s.status, Flag::Carry, register >= rhs);
    let st2 = set_flag(st1, Flag::Zero, result == 0);
    let st3 = set_flag(st2, Flag::Negative, result & 0x80 != 0);
    CpuState { status: st3, ..s }
}

/// DEC: wrapping decrement of the byte at the address; Zero/Negative from
/// the result.
pub open spec fn spec_dec(s: CpuState, addr: u16) -> CpuState {
    let result = sub8(read8(s, addr), 1);
    let s1 = write8(s, addr, result);
    CpuState { status: update_nz(s1.status, result), ..s1 }
}

/// INC: wrapping increment of the byte at the address; Zero/Negative from
/// the result.
pub open spec fn spec_inc(s: CpuState, addr: u16) -> CpuState {
    let result = add8(read8(s, addr), 1);
    let s1 = write8(s, addr, result);
    CpuState { status: update_nz(s1.status, result), ..s1 }
}

/// BRK: push the program counter then the status byte, load the program
/// counter from the interrupt vector, and set both Break flags.
pub open spec fn spec_brk(s: CpuState) -> CpuState {
    let s1 = push_word(s, s.program_counter as int, 2);
    let s2 = push_word(s1, s1.status as int, 1);
    CpuState {
        program_counter: read16(s2, INTERRUPT),
        status: set_flag(set_flag(s2.status, Flag::Break, true), Flag::Break2, true),
        ..s2
    }
}

/// JSR: push the program counter as it stands after the operand fetch (the
/// return address), then jump to the address.
pub open spec fn spec_jsr(s: CpuState, addr: u16) -> CpuState {
    let s1 = push_word(s, s.program_counter as int, 2);
    CpuState { program_counter: addr, ..s1 }
}

/// RTS: pop the program counter.
pub open spec fn spec_rts(s: CpuState) -> CpuState {
    let s1 = pop_state(s, 2);
    CpuState { program_counter: pop_val(s, 2) as u16, ..s1 }
}

/// RTI: pop the status byte, then pop the program counter — the logical
/// inverse of BRK.
pub open spec fn spec_rti(s: CpuState) -> CpuState {
    let s1 = CpuState { status: pop_val(s, 1) as u8, ..pop_state(s, 1) };
    CpuState { program_counter: pop_val(s1, 2) as u16, ..pop_state(s1, 2) }
}

/// PHA: push the accumulator.
pub open spec fn spec_pha(s: CpuState) -> CpuState {
    push_word(s, s.accumulator as int, 1)
}

/// PHP: push the status byte.
pub open spec fn spec_php(s: CpuState) -> CpuState {
    push_word(s, s.status as int, 1)
}

/// PLA: pop into the accumulator; Zero/Negative from the new value.
pub open spec fn spec_pla(s: CpuState) -> CpuState {
    with_acc(pop_state(s, 1), pop_val(s, 1) as u8)
}

/// PLP: pop into the status byte directly, replacing all 8 bits.
pub open spec fn spec_plp(s: CpuState) -> CpuState {
    CpuState { status: pop_val(s, 1) as u8, ..pop_state(s, 1) }
}

/// The state after executing one decoded instruction with its resolved
/// operand address, or None for the fatal table/dispatch inconsistency of
/// an instruction that needs an address and got none.
pub open spec fn instr_step(
    s: CpuState,
    instruction: Instruction,
    addr: Option<u16>,
) -> Option<CpuState> {
    match instruction {
        Instruction::Adc => match addr {
            Option::Some(a) => Option::Some(spec_adc(s, a)),
            Option::None => Option::None,
        },
        Instruction::And => match addr {
            Option::Some(a) => Option::Some(spec_and(s, a)),
            Option::None => Option::None,
        },
        Instruction::Asl => Option::Some(spec_asl(s, target_of(addr))),
        Instruction::Bcc => match addr {
            Option::Some(a) => Option::Some(
                spec_branch(s, a, !get_flag(s.status, Flag::Carry)),
            ),
            Option::None => Option::None,
        },
        Instruction::Bcs => match addr {
            Option::Some(a) => Option::Some(spec_branch(s, a, get_flag(s.status, Flag::Carry))),
            Option::None => Option::None,
        },
        Instruction::Beq => match addr {
            Option::Some(a) => Option::Some(spec_branch(s, a, get_flag(s.status, Flag::Zero))),
            Option::None => Option::None,
        },
        Instruction::Bit => match addr {
            Option::Some(a) => Option::Some(spec_bit(s, a)),
            Option::None => Option::None,
        },
        Instruction::Bmi => match addr {
            Option::Some(a) => Option::Some(
                spec_branch(s, a, get_flag(s.status, Flag::Negative)),
            ),
            Option::None => Option::None,
        },
        Instruction::Bne => match addr {
            Option::Some(a) => Option::Some(spec_branch(s, a, !get_flag(s.status, Flag::Zero))),
            Option::None => Option::None,
        },
        Instruction::Bpl => match addr {
            Option::Some(a) => Option::Some(
                spec_branch(s, a, !get_flag(s.status, Flag::Negative)),
            ),
            Option::None => Option::None,
        },
        Instruction::Brk => Option::Some(spec_brk(s)),
        Instruction::Bvc => match addr {
            Option::Some(a) => Option::Some(
                spec_branch(s, a, !get_flag(s.status, Flag::Overflow)),
            ),
            Option::None => Option::None,
        },
        Instruction::Bvs => match addr {
            Option::Some(a) => Option::Some(
                spec_branch(s, a, get_flag(s.status, Flag::Overflow)),
            ),
            Option::None => Option::None,
        },
        Instruction::Clc => Option::Some(
            CpuState { status: set_flag(s.status, Flag::Carry, false), ..s },
        ),
        Instruction::Cld => Option::Some(
            CpuState { status: set_flag(s.status, Flag::Decimal, false), ..s },
        ),
        Instruction::Cli => Option::Some(
            CpuState { status: set_flag(s.status, Flag::InterruptDisable, false), ..s },
        ),
        Instruction::Clv => Option::Some(
            CpuState { status: set_flag(s.status, Flag::Overflow, false), ..s },
        ),
        Instruction::Cmp => match addr {
            Option::Some(a) => Option::Some(spec_compare(s, s.accumulator, a)),
            Option::None => Option::None,
        },
        Instruction::Cpx => match addr {
            Option::Some(a) => Option::Some(spec_compare(s, s.index_x, a)),
            Option::None => Option::None,
        },
        Instruction::Cpy => match addr {
            Option::Some(a) => Option::Some(spec_compare(s, s.index_y, a)),
            Option::None => Option::None,
        },
        Instruction::Dec => match addr {
            Option::Some(a) => Option::Some(spec_dec(s, a)),
            Option::None => Option::None,
        },
        Instruction::Dex => Option::Some(with_x(s, sub8(s.index_x, 1))),
        Instruction::Dey => Option::Some(with_y(s, sub8(s.index_y, 1))),
        Instruction::Eor => match addr {
            Option::Some(a) => Option::Some(spec_eor(s, a)),
            Option::None => Option::None,
        },
        Instruction::Inc => match addr {
            Option::Some(a) => Option::Some(spec_inc(s, a)),
            Option::None => Option::None,
        },
        Instruction::Inx => Option::Some(with_x(s, add8(s.index_x, 1))),
        Instruction::Iny => Option::Some(with_y(s, add8(s.index_y, 1))),
        Instruction::Jmp => match addr {
            Option::Some(a) => Option::Some(CpuState { program_counter: a, ..s }),
            Option::None => Option::None,
        },
        Instruction::Jsr => match addr {
            Option::Some(a) => Option::Some(spec_jsr(s, a)),
            Option::None => Option::None,
        },
        Instruction::Lda => match addr {
            Option::Some(a) => Option::Some(with_acc(s, read8(s, a))),
            Option::None => Option::None,
        },
        Instruction::Ldx => match addr {
            Option::Some(a) => Option::Some(with_x(s, read8(s, a))),
            Option::None => Option::None,
        },
        Instruction::Ldy => match addr {
            Option::Some(a) => Option::Some(with_y(s, read8(s, a))),
            Option::None => Option::None,
        },
        Instruction::Lsr => Option::Some(spec_lsr(s, target_of(addr))),
        Instruction::Nop => Option::Some(s),
        Instruction::Ora => match addr {
            Option::Some(a) => Option::Some(spec_ora(s, a)),
            Option::None => Option::None,
        },
        Instruction::Pha => Option::Some(spec_pha(s)),
        Instruction::Php => Option::Some(spec_php(s)),
        Instruction::Pla => Option::Some(spec_pla(s)),
        Instruction::Plp => Option::Some(spec_plp(s)),
        Instruction::Rol => Option::Some(spec_rol(s, target_of(addr))),
        Instruction::Ror => Option::Some(spec_ror(s, target_of(addr))),
        Instruction::Rti => Option::Some(spec_rti(s)),
        Instruction::Rts => Option::Some(spec_rts(s)),
        Instruction::Sbc => match addr {
            Option::Some(a) => Option::Some(spec_sbc(s, a)),
            Option::None => Option::None,
        },
        Instruction::Sec => Option::Some(
            CpuState { status: set_flag(s.status, Flag::Carry, true), ..s },
        ),
        Instruction::Sed => Option::Some(
            CpuState { status: set_flag(s.status, Flag::Decimal, true), ..s },
        ),
        Instruction::Sei => Option::Some(
            CpuState { status: set_flag(s.status, Flag::InterruptDisable, true), ..s },
        ),
        Instruction::Sta => match addr {
            Option::Some(a) => Option::Some(write8(s, a, s.accumulator)),
            Option::None => Option::None,
        },
        Instruction::Stx => match addr {
            Option::Some(a) => Option::Some(write8(s, a, s.index_x)),
            Option::None => Option::None,
        },
        Instruction::Sty => match addr {
            Option::Some(a) => Option::Some(write8(s, a, s.index_y)),
            Option::None => Option::None,
        },
        Instruction::Tax => Option::Some(with_x(s, s.accumulator)),
        Instruction::Tay => Option::Some(with_y(s, s.accumulator)),
        Instruction::Tsx => Option::Some(with_x(s, s.stack_pointer)),
        Instruction::Txa => Option::Some(with_acc(s, s.index_x)),
        Instruction::Txs => Option::Some(CpuState { stack_pointer: s.index_x, ..s }),
        Instruction::Tya => Option::Some(with_acc(s, s.index_y)),
    }
}

/// The resolved effective operand address (None for an implicit operand)
/// and the program counter advanced past the operand bytes. Resolution
/// reads memory but never changes it.
pub open spec fn resolve(s: CpuState, mode: AddressingMode) -> (Option<u16>, u16) {
    let pc = s.program_counter;
    match mode {
        AddressingMode::Immediate => (Option::Some(pc), add16(pc, 1)),
        AddressingMode::ZeroPage => (Option::Some(read8(s, pc) as u16), add16(pc, 1)),
        AddressingMode::ZeroPageX => (
            Option::Some(add8(read8(s, pc), s.index_x) as u16),
            add16(pc, 1),
        ),
        AddressingMode::ZeroPageY => (
            Option::Some(add8(read8(s, pc), s.index_y) as u16),
            add16(pc, 1),
        ),
        AddressingMode::Absolute => (Option::Some(read16(s, pc)), add16(pc, 2)),
        AddressingMode::AbsoluteX => (
            Option::Some(add16(read16(s, pc), s.index_x as u16)),
            add16(pc, 2),
        ),
        AddressingMode::AbsoluteY => (
            Option::Some(add16(read16(s, pc), s.index_y as u16)),
            add16(pc, 2),
        ),
        AddressingMode::Indirect => (Option::Some(read16(s, read16(s, pc))), add16(pc, 2)),
        AddressingMode::IndirectX => (
            Option::Some(read16(s, add8(read8(s, pc), s.index_x) as u16)),
            add16(pc, 1),
        ),
        AddressingMode::IndirectY => (
            Option::Some(add16(read16(s, read8(s, pc) as u16), s.index_y as u16)),
            add16(pc, 1),
        ),
        AddressingMode::Relative => (
            Option::Some(add16(add16(pc, 1), sign_extend(read8(s, pc)))),
            add16(pc, 1),
        ),
        AddressingMode::NoneAddressing => (Option::None, pc),
    }
}

/// Where the machine stands after some number of steps: still running,
/// halted by BRK, or aborted by a fatal decode/dispatch error.
pub ghost enum Outcome {
    Run(CpuState),
    Halt(CpuState),
    Abort(RunError, CpuState),
}

/// One fetch-decode-execute step from a running state: fetch the code byte
/// at the program counter (advancing it), look it up, resolve the operand
/// address (advancing further), execute the instruction. BRK halts the
/// machine; an unknown code byte or a missing operand aborts it.
pub open spec fn step_spec(s: CpuState) -> Outcome {
    let code = read8(s, s.program_counter);
    let s1 = CpuState { program_counter: add16(s.program_counter, 1), ..s };
    match opcode_for(code) {
        Option::None => Outcome::Abort(RunError::UnrecognizedOpcode(code), s1),
        Option::Some(op) => {
            let (addr, pc2) = resolve(s1, op.mode);
            let s2 = CpuState { program_counter: pc2, ..s1 };
            match instr_step(s2, op.instruction, addr) {
                Option::None => Outcome::Abort(RunError::MissingOperand, s2),
                Option::Some(s3) => if op.instruction == Instruction::Brk {
                    Outcome::Halt(s3)
                } else {
                    Outcome::Run(s3)
                },
            }
        },
    }
}

/// Advance an outcome by one step; halted and aborted outcomes stay put.
pub open spec fn outcome_step(o: Outcome) -> Outcome {
    match o {
        Outcome::Run(s) => step_spec(s),
        _ => o,
    }
}

/// The outcome after n steps from a running state.
pub open spec fn steps(s: CpuState, n: nat) -> Outcome
    decreases n,
{
    if n == 0 {
        Outcome::Run(s)
    } else {
        outcome_step(steps(s, (n - 1) as nat))
    }
}

/// The state of a freshly constructed processor: zeroed registers and
/// memory, default status and stack pointer, console-variant mode.
pub open spec fn initial_state() -> CpuState {
    CpuState {
        accumulator: 0,
        index_x: 0,
        index_y: 0,
        program_counter: 0,
        stack_pointer: STACK as u8,
        status: default_status(),
        memory: zero_memory(),
        mode: Mode::Nes2A03,
    }
}

/// The state after a reset: registers, stack pointer and status back to
/// their defaults, the program counter loaded from the reset vector, and
/// memory preserved.
pub open spec fn reset_state(s: CpuState) -> CpuState {
    CpuState {
        accumulator: 0,
        index_x: 0,
        index_y: 0,
        program_counter: read16(s, RESET),
        stack_pointer: STACK as u8,
        status: default_status(),
        memory: s.memory,
        mode: s.mode,
    }
}

/// The state after loading a program: the program bytes copied in at the
/// mode's ROM origin and the reset vector set to that origin.
pub open spec fn load_state(s: CpuState, prog: Seq<u8>) -> CpuState {
    CpuState { memory: load_image(s.memory, prog, rom_origin(s.mode)), ..s }
}


} // verus!

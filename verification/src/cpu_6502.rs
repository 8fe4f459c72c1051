//! One transition function per instruction mnemonic. Each method's contract
//! states that the machine state after the call equals the corresponding
//! specification-level transition from [`crate::state`] applied to the state
//! before it.

use vstd::prelude::*;

use crate::cpu::{StackPointer, CPU};
use crate::memory::INTERRUPT;
use crate::state::{
    add8, spec_add_to_accumulator, spec_asl, spec_bit, spec_branch, spec_brk,
    spec_compare, spec_dec, spec_inc, spec_jsr, spec_lsr, spec_pha, spec_php, spec_pla, spec_plp,
    spec_rol, spec_ror, spec_rti, spec_rts, sub8, target_of, target_value, target_write,
    with_acc, with_x, with_y, write8, CpuState, ShiftTarget,
};
use crate::status::{get_flag, lemma_set_flag, set_flag, update_nz, Flag};

verus! {

impl CPU {
    /// Add the given value to the accumulator together with the carry bit:
    /// Carry from the 16-bit intermediate sum, Overflow from a sign mismatch
    /// of operand, result and old accumulator, Zero/Negative from the result.
    fn add_to_accumulator(&mut self, value: u8)
        ensures
            final(self)@ == spec_add_to_accumulator(old(self)@, value),
    {
        let carry: u16 = if self.status.contains(Flag::Carry) {
            1
        } else {
            0
        };
        let sum: u16 = self.accumulator as u16 + value as u16 + carry;
        self.status.set_carry(sum);
        let result = (sum % 0x100) as u8;
        self.status.set_overflow((value ^ result) & (result ^ self.accumulator) & 0x80 != 0);
        self.set_accumulator(result);
    }

    /// If the condition is met, set the program counter to the resolved
    /// branch target; otherwise leave it just past the instruction's bytes.
    fn branch(&mut self, target: u16, condition: bool)
        ensures
            final(self)@ == spec_branch(old(self)@, target, condition),
    {
        if condition {
            self.program_counter = target;
        }
    }

    /// Compare the given register value to the value at the given address:
    /// Carry iff register >= value, Zero/Negative from the wrapping
    /// difference. The register itself is unchanged.
    fn compare(&mut self, value: u8, addr: u16)
        requires
            old(self)@.wf(),
        ensures
            final(self)@.wf(),
            final(self)@ == spec_compare(old(self)@, value, addr),
    {
        let rhs: u8 = self.memory.read(addr);
        let result = value.wrapping_sub(rhs);
        self.status.set(Flag::Carry, value >= rhs);
        self.status.set_zero(result);
        self.status.set_negative(result);
    }

    /// Set the accumulator to the given value and update the negative and
    /// zero status bits.
    fn set_accumulator(&mut self, value: u8)
        ensures
            final(self)@ == with_acc(old(self)@, value),
    {
        self.accumulator = value;
        self.set_status_negative_zero(value)
    }

    /// Set the X register to the given value and update the negative and
    /// zero status bits.
    fn set_index_x(&mut self, value: u8)
        ensures
            final(self)@ == with_x(old(self)@, value),
    {
        self.index_x = value;
        self.set_status_negative_zero(value)
    }

    /// Set the Y register to the given value and update the negative and
    /// zero status bits.
    fn set_index_y(&mut self, value: u8)
        ensures
            final(self)@ == with_y(old(self)@, value),
    {
        self.index_y = value;
        self.set_status_negative_zero(value)
    }

    /// Set the negative and zero status bits accordingly for the given
    /// value.
    fn set_status_negative_zero(&mut self, value: u8)
        ensures
            final(self)@ == (CpuState { status: update_nz(old(self)@.status, value), ..old(self)@ }),
    {
        self.status.set_negative(value);
        self.status.set_zero(value);
    }

    /// The shift target an optional resolved operand address denotes: the
    /// accumulator when there is none, else the byte at the address.
    fn shift_target(addr: Option<u16>) -> (t: ShiftTarget)
        ensures
            t == target_of(addr),
    {
        match addr {
            Option::Some(a) => ShiftTarget::MemoryAt(a),
            Option::None => ShiftTarget::Accumulator,
        }
    }

    /// The value a shift target currently holds.
    fn target_read(&self, target: ShiftTarget) -> (r: u8)
        requires
            self@.wf(),
        ensures
            r == target_value(self@, target),
    {
        match target {
            ShiftTarget::Accumulator => self.accumulator,
            ShiftTarget::MemoryAt(addr) => self.memory.read(addr),
        }
    }

    /// Store a value back into a shift target. Writing the accumulator this
    /// way does not touch the flags.
    fn target_store(&mut self, target: ShiftTarget, value: u8)
        requires
            old(self)@.wf(),
        ensures
            final(self)@.wf(),
            final(self)@ == target_write(old(self)@, target, value),
    {
        match target {
            ShiftTarget::Accumulator => {
                self.accumulator = value;
            },
            ShiftTarget::MemoryAt(addr) => {
                self.memory.write(addr, value);
            },
        }
    }

    /// Add the accumulator, the value at the given address, and the carry
    /// bit, and store the result in the accumulator.
    pub fn adc(&mut self, addr: u16)
        requires
            old(self)@.wf(),
        ensures
            final(self)@.wf(),
            final(self)@ == crate::state::spec_adc(old(self)@, addr),
    {
        let value: u8 = self.memory.read(addr);
        self.add_to_accumulator(value);
    }

    /// Perform a bitwise and between the accumulator and the value at the
    /// given address, and store the result in the accumulator.
    pub fn and(&mut self, addr: u16)
        requires
            old(self)@.wf(),
        ensures
            final(self)@.wf(),
            final(self)@ == crate::state::spec_and(old(self)@, addr),
    {
        let value: u8 = self.memory.read(addr);
        self.set_accumulator(self.accumulator & value);
    }

    /// Shift the accumulator or the value at the given address left by one
    /// bit and store the result in the same location. Carry is set from
    /// bit 7 of the input, Zero/Negative from the result.
    pub fn asl(&mut self, addr: Option<u16>)
        requires
            old(self)@.wf(),
        ensures
            final(self)@.wf(),
            final(self)@ == spec_asl(old(self)@, target_of(addr)),
    {
        let target = Self::shift_target(addr);
        let value = self.target_read(target);
        let result = value << 1;
        self.status.set(Flag::Carry, value >> 7 == 1);
        self.set_status_negative_zero(result);
        self.target_store(target, result);
    }

    /// Branch to the given target if the carry bit is not set.
    pub fn bcc(&mut self, target: u16)
        ensures
            final(self)@ == spec_branch(
                old(self)@,
                target,
                !get_flag(old(self)@.status, Flag::Carry),
            ),
    {
        let condition = !self.status.contains(Flag::Carry);
        self.branch(target, condition);
    }

    /// Branch to the given target if the carry bit is set.
    pub fn bcs(&mut self, target: u16)
        ensures
            final(self)@ == spec_branch(
                old(self)@,
                target,
                get_flag(old(self)@.status, Flag::Carry),
            ),
    {
        let condition = self.status.contains(Flag::Carry);
        self.branch(target, condition);
    }

    /// Branch to the given target if the zero bit is set.
    pub fn beq(&mut self, target: u16)
        ensures
            final(self)@ == spec_branch(
                old(self)@,
                target,
                get_flag(old(self)@.status, Flag::Zero),
            ),
    {
        let condition = self.status.contains(Flag::Zero);
        self.branch(target, condition);
    }

    /// Perform a bit test on the value at the given address: Zero from
    /// (accumulator & value) == 0, Overflow from bit 6 of the value,
    /// Negative from bit 7 of the value. The accumulator is unchanged.
    pub fn bit(&mut self, addr: u16)
        requires
            old(self)@.wf(),
        ensures
            final(self)@.wf(),
            final(self)@ == spec_bit(old(self)@, addr),
    {
        let value: u8 = self.memory.read(addr);
        self.status.set_zero(self.accumulator & value);
        self.status.set_overflow(value & 0x40 != 0);
        self.status.set_negative(value);
    }

    /// Branch to the given target if the negative bit is set.
    pub fn bmi(&mut self, target: u16)
        ensures
            final(self)@ == spec_branch(
                old(self)@,
                target,
                get_flag(old(self)@.status, Flag::Negative),
            ),
    {
        let condition = self.status.contains(Flag::Negative);
        self.branch(target, condition);
    }

    /// Branch to the given target if the zero bit is not set.
    pub fn bne(&mut self, target: u16)
        ensures
            final(self)@ == spec_branch(
                old(self)@,
                target,
                !get_flag(old(self)@.status, Flag::Zero),
            ),
    {
        let condition = !self.status.contains(Flag::Zero);
        self.branch(target, condition);
    }

    /// Branch to the given target if the negative bit is not set.
    pub fn bpl(&mut self, target: u16)
        ensures
            final(self)@ == spec_branch(
                old(self)@,
                target,
                !get_flag(old(self)@.status, Flag::Negative),
            ),
    {
        let condition = !self.status.contains(Flag::Negative);
        self.branch(target, condition);
    }

    /// Force an interrupt: push the program counter then the status byte,
    /// set the program counter from the interrupt vector, and set both
    /// Break flags. This is the sole normal termination path of a run.
    pub fn brk(&mut self)
        requires
            old(self)@.wf(),
        ensures
            final(self)@.wf(),
            final(self)@ == spec_brk(old(self)@),
            get_flag(final(self)@.status, Flag::Break),
            get_flag(final(self)@.status, Flag::Break2),
    {
        let pc = self.program_counter;
        self.stack_push(pc);
        let bits = self.status.bits();
        self.stack_push(bits);
        self.program_counter = self.memory.read(INTERRUPT);
        self.status.set(Flag::Break, true);
        self.status.set(Flag::Break2, true);
        proof {
            lemma_set_flag(set_flag(old(self)@.status, Flag::Break, true), Flag::Break2, true);
            lemma_set_flag(old(self)@.status, Flag::Break, true);
        }
    }

    /// Branch to the given target if the overflow bit is not set.
    pub fn bvc(&mut self, target: u16)
        ensures
            final(self)@ == spec_branch(
                old(self)@,
                target,
                !get_flag(old(self)@.status, Flag::Overflow),
            ),
    {
        let condition = !self.status.contains(Flag::Overflow);
        self.branch(target, condition);
    }

    /// Branch to the given target if the overflow bit is set.
    pub fn bvs(&mut self, target: u16)
        ensures
            final(self)@ == spec_branch(
                old(self)@,
                target,
                get_flag(old(self)@.status, Flag::Overflow),
            ),
    {
        let condition = self.status.contains(Flag::Overflow);
        self.branch(target, condition);
    }

    /// Clear the carry bit.
    pub fn clc(&mut self)
        ensures
            final(self)@ == (CpuState {
                status: set_flag(old(self)@.status, Flag::Carry, false),
                ..old(self)@
            }),
    {
        self.status.set(Flag::Carry, false);
    }

    /// Clear the decimal bit.
    pub fn cld(&mut self)
        ensures
            final(self)@ == (CpuState {
                status: set_flag(old(self)@.status, Flag::Decimal, false),
                ..old(self)@
            }),
    {
        self.status.set(Flag::Decimal, false);
    }

    /// Clear the interrupt disable bit.
    pub fn cli(&mut self)
        ensures
            final(self)@ == (CpuState {
                status: set_flag(old(self)@.status, Flag::InterruptDisable, false),
                ..old(self)@
            }),
    {
        self.status.set(Flag::InterruptDisable, false);
    }

    /// Clear the overflow bit.
    pub fn clv(&mut self)
        ensures
            final(self)@ == (CpuState {
                status: set_flag(old(self)@.status, Flag::Overflow, false),
                ..old(self)@
            }),
    {
        self.status.set(Flag::Overflow, false);
    }

    /// Compare the value at the given address to the accumulator.
    pub fn cmp(&mut self, addr: u16)
        requires
            old(self)@.wf(),
        ensures
            final(self)@.wf(),
            final(self)@ == spec_compare(old(self)@, old(self)@.accumulator, addr),
    {
        let value = self.accumulator;
        self.compare(value, addr);
    }

    /// Compare the value at the given address to the X register.
    pub fn cpx(&mut self, addr: u16)
        requires
            old(self)@.wf(),
        ensures
            final(self)@.wf(),
            final(self)@ == spec_compare(old(self)@, old(self)@.index_x, addr),
    {
        let value = self.index_x;
        self.compare(value, addr);
    }

    /// Compare the value at the given address to the Y register.
    pub fn cpy(&mut self, addr: u16)
        requires
            old(self)@.wf(),
        ensures
            final(self)@.wf(),
            final(self)@ == spec_compare(old(self)@, old(self)@.index_y, addr),
    {
        let value = self.index_y;
        self.compare(value, addr);
    }

    /// Decrement the value at the given address, wrapping at zero;
    /// Zero/Negative from the result.
    pub fn dec(&mut self, addr: u16)
        requires
            old(self)@.wf(),
        ensures
            final(self)@.wf(),
            final(self)@ == spec_dec(old(self)@, addr),
    {
        let value: u8 = self.memory.read(addr);
        let result = value.wrapping_sub(1);
        self.memory.write(addr, result);
        self.set_status_negative_zero(result);
    }

    /// Decrement the value in the X register, wrapping at zero.
    pub fn dex(&mut self)
        ensures
            final(self)@ == with_x(old(self)@, sub8(old(self)@.index_x, 1)),
    {
        let value = self.index_x.wrapping_sub(1);
        self.set_index_x(value);
    }

    /// Decrement the value in the Y register, wrapping at zero.
    pub fn dey(&mut self)
        ensures
            final(self)@ == with_y(old(self)@, sub8(old(self)@.index_y, 1)),
    {
        let value = self.index_y.wrapping_sub(1);
        self.set_index_y(value);
    }

    /// Perform a bitwise exclusive or between the accumulator and the value
    /// at the given address, and store the result in the accumulator.
    pub fn eor(&mut self, addr: u16)
        requires
            old(self)@.wf(),
        ensures
            final(self)@.wf(),
            final(self)@ == crate::state::spec_eor(old(self)@, addr),
    {
        let value: u8 = self.memory.read(addr);
        self.set_accumulator(self.accumulator ^ value);
    }

    /// Increment the value at the given address by 1, wrapping to 0 if the
    /// result would overflow; Zero/Negative from the result.
    pub fn inc(&mut self, addr: u16)
        requires
            old(self)@.wf(),
        ensures
            final(self)@.wf(),
            final(self)@ == spec_inc(old(self)@, addr),
    {
        let value: u8 = self.memory.read(addr);
        let result = value.wrapping_add(1);
        self.memory.write(addr, result);
        self.set_status_negative_zero(result);
    }

    /// Increment the X register by 1, wrapping to 0 if the result would
    /// overflow.
    pub fn inx(&mut self)
        ensures
            final(self)@ == with_x(old(self)@, add8(old(self)@.index_x, 1)),
    {
        let value = self.index_x.wrapping_add(1);
        self.set_index_x(value);
    }

    /// Increment the Y register by 1, wrapping to 0 if the result would
    /// overflow.
    pub fn iny(&mut self)
        ensures
            final(self)@ == with_y(old(self)@, add8(old(self)@.index_y, 1)),
    {
        let value = self.index_y.wrapping_add(1);
        self.set_index_y(value);
    }

    /// Set the program counter to the specified address.
    pub fn jmp(&mut self, addr: u16)
        ensures
            final(self)@ == (CpuState { program_counter: addr, ..old(self)@ }),
    {
        self.program_counter = addr;
    }

    /// Push the program counter as it stands after the operand fetch (the
    /// return address), then set the program counter to the given address.
    pub fn jsr(&mut self, addr: u16)
        requires
            old(self)@.wf(),
        ensures
            final(self)@.wf(),
            final(self)@ == spec_jsr(old(self)@, addr),
    {
        let pc = self.program_counter;
        self.stack_push(pc);
        self.program_counter = addr;
    }

    /// Set the accumulator to the value at the given address.
    pub fn lda(&mut self, addr: u16)
        requires
            old(self)@.wf(),
        ensures
            final(self)@.wf(),
            final(self)@ == with_acc(old(self)@, crate::state::read8(old(self)@, addr)),
    {
        let value: u8 = self.memory.read(addr);
        self.set_accumulator(value);
    }

    /// Set the X register to the value at the given address.
    pub fn ldx(&mut self, addr: u16)
        requires
            old(self)@.wf(),
        ensures
            final(self)@.wf(),
            final(self)@ == with_x(old(self)@, crate::state::read8(old(self)@, addr)),
    {
        let value: u8 = self.memory.read(addr);
        self.set_index_x(value);
    }

    /// Set the Y register to the value at the given address.
    pub fn ldy(&mut self, addr: u16)
        requires
            old(self)@.wf(),
        ensures
            final(self)@.wf(),
            final(self)@ == with_y(old(self)@, crate::state::read8(old(self)@, addr)),
    {
        let value: u8 = self.memory.read(addr);
        self.set_index_y(value);
    }

    /// Shift the accumulator or the value at the given address right by one
    /// bit and store the result in the same location. Carry is set from
    /// bit 0 of the input, Zero/Negative from the result (Negative always
    /// ends up clear).
    pub fn lsr(&mut self, addr: Option<u16>)
        requires
            old(self)@.wf(),
        ensures
            final(self)@.wf(),
            final(self)@ == spec_lsr(old(self)@, target_of(addr)),
    {
        let target = Self::shift_target(addr);
        let value = self.target_read(target);
        let result = value >> 1;
        self.status.set(Flag::Carry, value & 1 == 1);
        self.set_status_negative_zero(result);
        self.target_store(target, result);
    }

    /// Performs no other operations.
    pub fn nop(&self) {
    }

    /// Perform a bitwise or between the accumulator and the value at the
    /// given address, and store the result in the accumulator.
    pub fn ora(&mut self, addr: u16)
        requires
            old(self)@.wf(),
        ensures
            final(self)@.wf(),
            final(self)@ == crate::state::spec_ora(old(self)@, addr),
    {
        let value: u8 = self.memory.read(addr);
        self.set_accumulator(self.accumulator | value);
    }

    /// Push the current accumulator value onto the stack.
    pub fn pha(&mut self)
        requires
            old(self)@.wf(),
        ensures
            final(self)@.wf(),
            final(self)@ == spec_pha(old(self)@),
    {
        let value = self.accumulator;
        self.stack_push(value);
    }

    /// Push the current processor status byte onto the stack.
    pub fn php(&mut self)
        requires
            old(self)@.wf(),
        ensures
            final(self)@.wf(),
            final(self)@ == spec_php(old(self)@),
    {
        let bits = self.status.bits();
        self.stack_push(bits);
    }

    /// Pull the accumulator value from the stack; Zero/Negative from the
    /// new value.
    pub fn pla(&mut self)
        requires
            old(self)@.wf(),
        ensures
            final(self)@.wf(),
            final(self)@ == spec_pla(old(self)@),
    {
        let value: u8 = self.stack_pop();
        self.set_accumulator(value);
    }

    /// Pull the processor status from the stack, replacing all 8 bits.
    pub fn plp(&mut self)
        requires
            old(self)@.wf(),
        ensures
            final(self)@.wf(),
            final(self)@ == spec_plp(old(self)@),
    {
        let bits: u8 = self.stack_pop();
        self.status = crate::status::Status::from_bits(bits);
    }

    /// Rotate the accumulator or the value at the given address one place to
    /// the left through the carry bit.
    pub fn rol(&mut self, addr: Option<u16>)
        requires
            old(self)@.wf(),
        ensures
            final(self)@.wf(),
            final(self)@ == spec_rol(old(self)@, target_of(addr)),
    {
        let target = Self::shift_target(addr);
        let carry_in: u8 = if self.status.contains(Flag::Carry) {
            1
        } else {
            0
        };
        let value = self.target_read(target);
        let result = (value << 1) | carry_in;
        self.status.set(Flag::Carry, value >> 7 == 1);
        self.set_status_negative_zero(result);
        self.target_store(target, result);
    }

    /// Rotate the accumulator or the value at the given address one place to
    /// the right through the carry bit.
    pub fn ror(&mut self, addr: Option<u16>)
        requires
            old(self)@.wf(),
        ensures
            final(self)@.wf(),
            final(self)@ == spec_ror(old(self)@, target_of(addr)),
    {
        let target = Self::shift_target(addr);
        let carry_in: u8 = if self.status.contains(Flag::Carry) {
            0x80
        } else {
            0
        };
        let value = self.target_read(target);
        let result = (value >> 1) | carry_in;
        self.status.set(Flag::Carry, value & 1 == 1);
        self.set_status_negative_zero(result);
        self.target_store(target, result);
    }

    /// Return from an interrupt: pull the processor status from the stack,
    /// then pull the program counter — the logical inverse of a forced
    /// interrupt.
    pub fn rti(&mut self)
        requires
            old(self)@.wf(),
        ensures
            final(self)@.wf(),
            final(self)@ == spec_rti(old(self)@),
    {
        let bits: u8 = self.stack_pop();
        self.status = crate::status::Status::from_bits(bits);
        let pc: u16 = self.stack_pop();
        self.program_counter = pc;
    }

    /// Return from a subroutine: pull the program counter from the stack.
    pub fn rts(&mut self)
        requires
            old(self)@.wf(),
        ensures
            final(self)@.wf(),
            final(self)@ == spec_rts(old(self)@),
    {
        let pc: u16 = self.stack_pop();
        self.program_counter = pc;
    }

    /// Subtract the value at the given address from the accumulator: add
    /// with carry of the operand's bitwise complement, reusing the ADC path
    /// exactly.
    pub fn sbc(&mut self, addr: u16)
        requires
            old(self)@.wf(),
        ensures
            final(self)@.wf(),
            final(self)@ == crate::state::spec_sbc(old(self)@, addr),
    {
        let value: u8 = self.memory.read(addr);
        self.add_to_accumulator(0xff - value);
    }

    /// Set the carry bit.
    pub fn sec(&mut self)
        ensures
            final(self)@ == (CpuState {
                status: set_flag(old(self)@.status, Flag::Carry, true),
                ..old(self)@
            }),
    {
        self.status.set(Flag::Carry, true);
    }

    /// Set the decimal bit.
    pub fn sed(&mut self)
        ensures
            final(self)@ == (CpuState {
                status: set_flag(old(self)@.status, Flag::Decimal, true),
                ..old(self)@
            }),
    {
        self.status.set(Flag::Decimal, true);
    }

    /// Set the interrupt disable bit.
    pub fn sei(&mut self)
        ensures
            final(self)@ == (CpuState {
                status: set_flag(old(self)@.status, Flag::InterruptDisable, true),
                ..old(self)@
            }),
    {
        self.status.set(Flag::InterruptDisable, true);
    }

    /// Store the accumulator at the given address. No flag effect.
    pub fn sta(&mut self, addr: u16)
        requires
            old(self)@.wf(),
        ensures
            final(self)@.wf(),
            final(self)@ == write8(old(self)@, addr, old(self)@.accumulator),
    {
        let value = self.accumulator;
        self.memory.write(addr, value);
    }

    /// Store the X register at the given address. No flag effect.
    pub fn stx(&mut self, addr: u16)
        requires
            old(self)@.wf(),
        ensures
            final(self)@.wf(),
            final(self)@ == write8(old(self)@, addr, old(self)@.index_x),
    {
        let value = self.index_x;
        self.memory.write(addr, value);
    }

    /// Store the Y register at the given address. No flag effect.
    pub fn sty(&mut self, addr: u16)
        requires
            old(self)@.wf(),
        ensures
            final(self)@.wf(),
            final(self)@ == write8(old(self)@, addr, old(self)@.index_y),
    {
        let value = self.index_y;
        self.memory.write(addr, value);
    }

    /// Store the accumulator in the X register; Zero/Negative from the
    /// value.
    pub fn tax(&mut self)
        ensures
            final(self)@ == with_x(old(self)@, old(self)@.accumulator),
    {
        let value = self.accumulator;
        self.set_index_x(value);
    }

    /// Store the accumulator in the Y register; Zero/Negative from the
    /// value.
    pub fn tay(&mut self)
        ensures
            final(self)@ == with_y(old(self)@, old(self)@.accumulator),
    {
        let value = self.accumulator;
        self.set_index_y(value);
    }

    /// Store the stack pointer in the X register; Zero/Negative from the
    /// value.
    pub fn tsx(&mut self)
        ensures
            final(self)@ == with_x(old(self)@, old(self)@.stack_pointer),
    {
        let value: u8 = self.stack_pointer.into();
        self.set_index_x(value);
    }

    /// Store the X register in the accumulator; Zero/Negative from the
    /// value.
    pub fn txa(&mut self)
        ensures
            final(self)@ == with_acc(old(self)@, old(self)@.index_x),
    {
        let value = self.index_x;
        self.set_accumulator(value);
    }

    /// Store the X register in the stack pointer. No flag effect.
    pub fn txs(&mut self)
        ensures
            final(self)@ == (CpuState { stack_pointer: old(self)@.index_x, ..old(self)@ }),
    {
        self.stack_pointer = StackPointer::new(self.index_x);
    }

    /// Store the Y register in the accumulator; Zero/Negative from the
    /// value.
    pub fn tya(&mut self)
        ensures
            final(self)@ == with_acc(old(self)@, old(self)@.index_y),
    {
        let value = self.index_y;
        self.set_accumulator(value);
    }
}

} // verus!

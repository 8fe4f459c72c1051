//! The processor: registers, stack discipline, addressing-mode resolution
//! and the fetch-decode-execute core. Every operation's contract states
//! equality with the corresponding specification-level transition function
//! from [`crate::state`].

use vstd::prelude::*;

use crate::memory::{word_at, Memory, MemoryValue, RESET, STACK, STACK_PAGE};
use crate::mode::{rom_origin, Mode};
use crate::instructions::Instruction;
use crate::opcodes::{AddressingMode, OpCode};
use crate::state::{
    add16, advanced_sp, initial_state, instr_step, load_state, outcome_step, pop_state, pop_val,
    push_word, resolve, reset_state, stack_addr, step_spec, steps, CpuState, Outcome, RunError,
};
use crate::status::Status;

verus! {

/// One-byte stack pointer: an offset into the fixed stack page.
#[derive(Clone, Copy, PartialEq, Eq, Structural, Debug)]
pub struct StackPointer(u8);

impl View for StackPointer {
    type V = u8;

    closed spec fn view(&self) -> u8 {
        self.0
    }
}

impl Default for StackPointer {
    /// Default the stack pointer to the first free offset in the stack page.
    fn default() -> (r: Self)
        ensures
            r@ == STACK as u8,
    {
        StackPointer(0xFD)
    }
}

impl From<StackPointer> for u8 {
    /// The raw one-byte offset.
    fn from(s: StackPointer) -> (r: u8) {
        s.0
    }
}

impl vstd::std_specs::convert::FromSpecImpl<StackPointer> for u8 {
    open spec fn obeys_from_spec() -> bool {
        true
    }

    open spec fn from_spec(s: StackPointer) -> u8 {
        s@
    }
}

impl From<StackPointer> for u16 {
    /// The physical stack address the pointer denotes: the stack page base
    /// plus the offset.
    fn from(s: StackPointer) -> (r: u16) {
        STACK_PAGE + s.0 as u16
    }
}

impl vstd::std_specs::convert::FromSpecImpl<StackPointer> for u16 {
    open spec fn obeys_from_spec() -> bool {
        true
    }

    open spec fn from_spec(s: StackPointer) -> u16 {
        stack_addr(s@)
    }
}

impl StackPointer {
    /// A stack pointer at the given offset.
    pub fn new(value: u8) -> (r: Self)
        ensures
            r@ == value,
    {
        StackPointer(value)
    }

    /// Advance the stack pointer by a signed offset, wrapping modulo 256.
    /// No overflow or underflow of the stack page is detected.
    pub fn advance(&mut self, offset: i16)
        ensures
            final(self)@ == advanced_sp(old(self)@, offset as int),
    {
        let sum: i32 = self.0 as i32 + offset as i32;
        let euclid: i32 = if sum < 0 {
            sum + 0x10000
        } else {
            sum
        };
        let wrapped: i32 = euclid % 0x100;
        proof {
            vstd::arithmetic::div_mod::lemma_mod_multiples_vanish(0x100, sum as int, 0x100);
        }
        self.0 = wrapped as u8;
    }
}

/// The processor: the mutable execution state (registers, status, stack
/// pointer, program counter) together with its exclusively owned memory.
#[derive(Debug)]
pub struct CPU {
    pub accumulator: u8,
    pub index_x: u8,
    pub index_y: u8,
    pub program_counter: u16,
    pub stack_pointer: StackPointer,
    pub status: Status,
    pub memory: Memory,
    pub mode: Mode,
}

impl View for CPU {
    type V = CpuState;

    open spec fn view(&self) -> CpuState {
        CpuState {
            accumulator: self.accumulator,
            index_x: self.index_x,
            index_y: self.index_y,
            program_counter: self.program_counter,
            stack_pointer: self.stack_pointer@,
            status: self.status@,
            memory: self.memory@,
            mode: self.mode,
        }
    }
}

impl CPU {
    /// A fresh processor: zeroed registers and memory, default status and
    /// stack pointer.
    pub fn new() -> (r: Self)
        ensures
            r@ == initial_state(),
            r@.wf(),
    {
        CPU {
            accumulator: 0,
            index_x: 0,
            index_y: 0,
            program_counter: 0,
            stack_pointer: StackPointer::default(),
            status: Status::default(),
            memory: Memory::default(),
            mode: Mode::default(),
        }
    }

    /// Load a program into memory at the mode's ROM origin and set the
    /// reset vector to that origin.
    pub fn load(&mut self, program: Vec<u8>)
        requires
            old(self)@.wf(),
            rom_origin(old(self)@.mode) + program@.len() <= 0x10000,
        ensures
            final(self)@.wf(),
            final(self)@ == load_state(old(self)@, program@),
    {
        let mode = self.mode;
        self.memory.load(program, mode);
    }

    /// Set the program counter to the value at the designated reset address
    /// in memory, and reset all flags and internal registers to their
    /// default values, while preserving the contents of memory.
    pub fn reset(&mut self)
        requires
            old(self)@.wf(),
        ensures
            final(self)@.wf(),
            final(self)@ == reset_state(old(self)@),
    {
        self.accumulator = 0;
        self.index_x = 0;
        self.index_y = 0;
        self.stack_pointer = StackPointer::default();
        self.status = Status::default();
        self.program_counter = self.memory.read(RESET);
    }

    /// Read the value at the address of the program counter, and advance the
    /// counter by the number of bytes in the returned value, wrapping at the
    /// end of the address space.
    fn read_program_counter<T: MemoryValue>(&mut self) -> (r: T)
        requires
            old(self)@.wf(),
        ensures
            final(self)@.wf(),
            r.spec_val() == word_at(
                old(self)@.memory,
                old(self)@.program_counter as int,
                T::spec_width(),
            ),
            final(self)@ == (CpuState {
                program_counter: add16(old(self)@.program_counter, T::spec_width() as u16),
                ..old(self)@
            }),
    {
        proof {
            T::width_facts();
        }
        let val: T = self.memory.read(self.program_counter);
        let w: u16 = T::width();
        self.program_counter = self.program_counter.wrapping_add(w);
        val
    }

    /// Push a value onto the stack at the current physical stack address and
    /// advance the stack pointer by the value's byte width. Pushing past the
    /// limit of the stack page silently wraps.
    pub fn stack_push<T: MemoryValue>(&mut self, value: T)
        requires
            old(self)@.wf(),
        ensures
            final(self)@.wf(),
            final(self)@ == push_word(old(self)@, value.spec_val(), T::spec_width()),
    {
        proof {
            T::width_facts();
        }
        let addr: u16 = self.stack_pointer.into();
        self.memory.write(addr, value);
        let w: u16 = T::width();
        self.stack_pointer.advance(w as i16);
    }

    /// Retreat the stack pointer by the value's byte width and read the
    /// value there. Popping an empty stack silently wraps; popped bytes are
    /// not cleared.
    pub fn stack_pop<T: MemoryValue>(&mut self) -> (r: T)
        requires
            old(self)@.wf(),
        ensures
            final(self)@.wf(),
            final(self)@ == pop_state(old(self)@, T::spec_width()),
            r.spec_val() == pop_val(old(self)@, T::spec_width()),
    {
        proof {
            T::width_facts();
        }
        let w: u16 = T::width();
        self.stack_pointer.advance(-(w as i16));
        let addr: u16 = self.stack_pointer.into();
        self.memory.read(addr)
    }
}

/// What one successful step of the execution core did.
#[derive(Clone, Copy, PartialEq, Eq, Structural, Debug)]
pub enum StepOutcome {
    /// The instruction completed and the machine keeps running.
    Continue,
    /// The instruction was BRK: the machine halts.
    Halted,
}

impl CPU {
    /// Retrieve an operand address based on the given addressing mode,
    /// consuming the operand bytes from the instruction stream (further
    /// advancing the program counter). Implicit operands yield no address.
    pub fn get_operand_address(&mut self, mode: AddressingMode) -> (r: Option<u16>)
        requires
            old(self)@.wf(),
        ensures
            final(self)@.wf(),
            r == resolve(old(self)@, mode).0,
            final(self)@ == (CpuState {
                program_counter: resolve(old(self)@, mode).1,
                ..old(self)@
            }),
    {
        match mode {
            // Return the program counter, and advance it manually, since the
            // instruction reads the operand byte directly.
            AddressingMode::Immediate => {
                let pc = Some(self.program_counter);
                self.program_counter = self.program_counter.wrapping_add(1);
                pc
            },
            AddressingMode::ZeroPage => {
                let base: u8 = self.read_program_counter();
                Some(base as u16)
            },
            AddressingMode::ZeroPageX => {
                let base: u8 = self.read_program_counter();
                Some(base.wrapping_add(self.index_x) as u16)
            },
            AddressingMode::ZeroPageY => {
                let base: u8 = self.read_program_counter();
                Some(base.wrapping_add(self.index_y) as u16)
            },
            AddressingMode::Absolute => {
                let base: u16 = self.read_program_counter();
                Some(base)
            },
            AddressingMode::AbsoluteX => {
                let base: u16 = self.read_program_counter();
                Some(base.wrapping_add(self.index_x as u16))
            },
            AddressingMode::AbsoluteY => {
                let base: u16 = self.read_program_counter();
                Some(base.wrapping_add(self.index_y as u16))
            },
            AddressingMode::Indirect => {
                let ptr: u16 = self.read_program_counter();
                let addr: u16 = self.memory.read(ptr);
                Some(addr)
            },
            AddressingMode::IndirectX => {
                let base: u8 = self.read_program_counter();
                let ptr = base.wrapping_add(self.index_x);
                let addr: u16 = self.memory.read(ptr as u16);
                Some(addr)
            },
            AddressingMode::IndirectY => {
                let ptr: u8 = self.read_program_counter();
                let base: u16 = self.memory.read(ptr as u16);
                Some(base.wrapping_add(self.index_y as u16))
            },
            AddressingMode::Relative => {
                let offset: u8 = self.read_program_counter();
                let displacement: u16 = if offset < 0x80 {
                    offset as u16
                } else {
                    offset as u16 + 0xFF00
                };
                Some(self.program_counter.wrapping_add(displacement))
            },
            AddressingMode::NoneAddressing => None,
        }
    }

    /// Dispatch a decoded instruction to its transition function. An
    /// instruction that requires a resolved address but got none is a fatal
    /// internal table/dispatch inconsistency.
    pub fn call(&mut self, instruction: Instruction, addr: Option<u16>) -> (r: Result<
        (),
        RunError,
    >)
        requires
            old(self)@.wf(),
        ensures
            final(self)@.wf(),
            (match instr_step(old(self)@, instruction, addr) {
                Option::Some(s) => r is Ok && final(self)@ == s,
                Option::None => r == Err::<(), RunError>(RunError::MissingOperand)
                    && final(self)@ == old(self)@,
            }),
    {
        match instruction {
            Instruction::Adc => match addr {
                Option::Some(a) => {
                    self.adc(a);
                    Ok(())
                },
                Option::None => Err(RunError::MissingOperand),
            },
            Instruction::And => match addr {
                Option::Some(a) => {
                    self.and(a);
                    Ok(())
                },
                Option::None => Err(RunError::MissingOperand),
            },
            Instruction::Asl => {
                self.asl(addr);
                Ok(())
            },
            Instruction::Bcc => match addr {
                Option::Some(a) => {
                    self.bcc(a);
                    Ok(())
                },
                Option::None => Err(RunError::MissingOperand),
            },
            Instruction::Bcs => match addr {
                Option::Some(a) => {
                    self.bcs(a);
                    Ok(())
                },
                Option::None => Err(RunError::MissingOperand),
            },
            Instruction::Beq => match addr {
                Option::Some(a) => {
                    self.beq(a);
                    Ok(())
                },
                Option::None => Err(RunError::MissingOperand),
            },
            Instruction::Bit => match addr {
                Option::Some(a) => {
                    self.bit(a);
                    Ok(())
                },
                Option::None => Err(RunError::MissingOperand),
            },
            Instruction::Bmi => match addr {
                Option::Some(a) => {
                    self.bmi(a);
                    Ok(())
                },
                Option::None => Err(RunError::MissingOperand),
            },
            Instruction::Bne => match addr {
                Option::Some(a) => {
                    self.bne(a);
                    Ok(())
                },
                Option::None => Err(RunError::MissingOperand),
            },
            Instruction::Bpl => match addr {
                Option::Some(a) => {
                    self.bpl(a);
                    Ok(())
                },
                Option::None => Err(RunError::MissingOperand),
            },
            Instruction::Brk => {
                self.brk();
                Ok(())
            },
            Instruction::Bvc => match addr {
                Option::Some(a) => {
                    self.bvc(a);
                    Ok(())
                },
                Option::None => Err(RunError::MissingOperand),
            },
            Instruction::Bvs => match addr {
                Option::Some(a) => {
                    self.bvs(a);
                    Ok(())
                },
                Option::None => Err(RunError::MissingOperand),
            },
            Instruction::Clc => {
                self.clc();
                Ok(())
            },
            Instruction::Cld => {
                self.cld();
                Ok(())
            },
            Instruction::Cli => {
                self.cli();
                Ok(())
            },
            Instruction::Clv => {
                self.clv();
                Ok(())
            },
            Instruction::Cmp => match addr {
                Option::Some(a) => {
                    self.cmp(a);
                    Ok(())
                },
                Option::None => Err(RunError::MissingOperand),
            },
            Instruction::Cpx => match addr {
                Option::Some(a) => {
                    self.cpx(a);
                    Ok(())
                },
                Option::None => Err(RunError::MissingOperand),
            },
            Instruction::Cpy => match addr {
                Option::Some(a) => {
                    self.cpy(a);
                    Ok(())
                },
                Option::None => Err(RunError::MissingOperand),
            },
            Instruction::Dec => match addr {
                Option::Some(a) => {
                    self.dec(a);
                    Ok(())
                },
                Option::None => Err(RunError::MissingOperand),
            },
            Instruction::Dex => {
                self.dex();
                Ok(())
            },
            Instruction::Dey => {
                self.dey();
                Ok(())
            },
            Instruction::Eor => match addr {
                Option::Some(a) => {
                    self.eor(a);
                    Ok(())
                },
                Option::None => Err(RunError::MissingOperand),
            },
            Instruction::Inc => match addr {
                Option::Some(a) => {
                    self.inc(a);
                    Ok(())
                },
                Option::None => Err(RunError::MissingOperand),
            },
            Instruction::Inx => {
                self.inx();
                Ok(())
            },
            Instruction::Iny => {
                self.iny();
                Ok(())
            },
            Instruction::Jmp => match addr {
                Option::Some(a) => {
                    self.jmp(a);
                    Ok(())
                },
                Option::None => Err(RunError::MissingOperand),
            },
            Instruction::Jsr => match addr {
                Option::Some(a) => {
                    self.jsr(a);
                    Ok(())
                },
                Option::None => Err(RunError::MissingOperand),
            },
            Instruction::Lda => match addr {
                Option::Some(a) => {
                    self.lda(a);
                    Ok(())
                },
                Option::None => Err(RunError::MissingOperand),
            },
            Instruction::Ldx => match addr {
                Option::Some(a) => {
                    self.ldx(a);
                    Ok(())
                },
                Option::None => Err(RunError::MissingOperand),
            },
            Instruction::Ldy => match addr {
                Option::Some(a) => {
                    self.ldy(a);
                    Ok(())
                },
                Option::None => Err(RunError::MissingOperand),
            },
            Instruction::Lsr => {
                self.lsr(addr);
                Ok(())
            },
            Instruction::Nop => {
                self.nop();
                Ok(())
            },
            Instruction::Ora => match addr {
                Option::Some(a) => {
                    self.ora(a);
                    Ok(())
                },
                Option::None => Err(RunError::MissingOperand),
            },
            Instruction::Pha => {
                self.pha();
                Ok(())
            },
            Instruction::Php => {
                self.php();
                Ok(())
            },
            Instruction::Pla => {
                self.pla();
                Ok(())
            },
            Instruction::Plp => {
                self.plp();
                Ok(())
            },
            Instruction::Rol => {
                self.rol(addr);
                Ok(())
            },
            Instruction::Ror => {
                self.ror(addr);
                Ok(())
            },
            Instruction::Rti => {
                self.rti();
                Ok(())
            },
            Instruction::Rts => {
                self.rts();
                Ok(())
            },
            Instruction::Sbc => match addr {
                Option::Some(a) => {
                    self.sbc(a);
                    Ok(())
                },
                Option::None => Err(RunError::MissingOperand),
            },
            Instruction::Sec => {
                self.sec();
                Ok(())
            },
            Instruction::Sed => {
                self.sed();
                Ok(())
            },
            Instruction::Sei => {
                self.sei();
                Ok(())
            },
            Instruction::Sta => match addr {
                Option::Some(a) => {
                    self.sta(a);
                    Ok(())
                },
                Option::None => Err(RunError::MissingOperand),
            },
            Instruction::Stx => match addr {
                Option::Some(a) => {
                    self.stx(a);
                    Ok(())
                },
                Option::None => Err(RunError::MissingOperand),
            },
            Instruction::Sty => match addr {
                Option::Some(a) => {
                    self.sty(a);
                    Ok(())
                },
                Option::None => Err(RunError::MissingOperand),
            },
            Instruction::Tax => {
                self.tax();
                Ok(())
            },
            Instruction::Tay => {
                self.tay();
                Ok(())
            },
            Instruction::Tsx => {
                self.tsx();
                Ok(())
            },
            Instruction::Txa => {
                self.txa();
                Ok(())
            },
            Instruction::Txs => {
                self.txs();
                Ok(())
            },
            Instruction::Tya => {
                self.tya();
                Ok(())
            },
        }
    }

    /// Read and execute one instruction: fetch the code byte at the program
    /// counter, look it up in the opcode table, resolve the operand address,
    /// and dispatch. A code byte without a table entry is a fatal decode
    /// error. BRK halts the machine.
    pub fn step(&mut self) -> (r: Result<StepOutcome, RunError>)
        requires
            old(self)@.wf(),
        ensures
            final(self)@.wf(),
            (match r {
                Result::Ok(StepOutcome::Continue) => step_spec(old(self)@) == Outcome::Run(
                    final(self)@,
                ),
                Result::Ok(StepOutcome::Halted) => step_spec(old(self)@) == Outcome::Halt(
                    final(self)@,
                ),
                Result::Err(e) => step_spec(old(self)@) == Outcome::Abort(e, final(self)@),
            }),
    {
        let code: u8 = self.read_program_counter();
        let op = match OpCode::lookup(code) {
            Option::Some(op) => op,
            Option::None => {
                return Err(RunError::UnrecognizedOpcode(code));
            },
        };
        let addr = self.get_operand_address(op.mode);
        match self.call(op.instruction, addr) {
            Result::Ok(()) => {
                if op.instruction == Instruction::Brk {
                    Ok(StepOutcome::Halted)
                } else {
                    Ok(StepOutcome::Continue)
                }
            },
            Result::Err(e) => Err(e),
        }
    }

    /// Read and execute each instruction in the program until a BRK halts
    /// the run, a fatal decode/dispatch error aborts it, or an
    /// astronomically large step budget runs out.
    pub fn run(&mut self) -> (r: Result<(), RunError>)
        requires
            old(self)@.wf(),
        ensures
            final(self)@.wf(),
            (match r {
                Result::Ok(()) => exists|n: nat| #[trigger] steps(old(self)@, n)
                    == Outcome::Halt(final(self)@),
                Result::Err(RunError::StepLimitExceeded) => steps(old(self)@, u64::MAX as nat)
                    == Outcome::Run(final(self)@),
                Result::Err(e) => exists|n: nat| #[trigger] steps(old(self)@, n)
                    == Outcome::Abort(e, final(self)@),
            }),
    {
        let ghost start: CpuState = self@;
        let mut budget: u64 = u64::MAX;
        let ghost mut taken: nat = 0;
        proof {
            assert(steps(start, 0) == Outcome::Run(self@));
        }
        while budget > 0
            invariant
                self@.wf(),
                start == old(self)@,
                taken == u64::MAX - budget,
                steps(start, taken) == Outcome::Run(self@),
            decreases budget,
        {
            let outcome = self.step();
            proof {
                assert(steps(start, taken + 1) == outcome_step(steps(start, taken)));
            }
            match outcome {
                Result::Ok(StepOutcome::Continue) => {
                },
                Result::Ok(StepOutcome::Halted) => {
                    return Ok(());
                },
                Result::Err(e) => {
                    return Err(e);
                },
            }
            budget = budget - 1;
            proof {
                taken = taken + 1;
            }
        }
        Err(RunError::StepLimitExceeded)
    }

    /// Load a program into memory, reset the CPU to its initial state, and
    /// run the program.
    pub fn load_and_run(&mut self, program: Vec<u8>) -> (r: Result<(), RunError>)
        requires
            old(self)@.wf(),
            rom_origin(old(self)@.mode) + program@.len() <= 0x10000,
        ensures
            final(self)@.wf(),
            (match r {
                Result::Ok(()) => exists|n: nat| #[trigger] steps(
                    reset_state(load_state(old(self)@, program@)),
                    n,
                ) == Outcome::Halt(final(self)@),
                Result::Err(RunError::StepLimitExceeded) => steps(
                    reset_state(load_state(old(self)@, program@)),
                    u64::MAX as nat,
                ) == Outcome::Run(final(self)@),
                Result::Err(e) => exists|n: nat| #[trigger] steps(
                    reset_state(load_state(old(self)@, program@)),
                    n,
                ) == Outcome::Abort(e, final(self)@),
            }),
    {
        self.load(program);
        self.reset();
        self.run()
    }
}




} // verus!

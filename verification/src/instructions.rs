//! The 56 instruction mnemonics of the processor.

use vstd::prelude::*;

verus! {

/// An instruction mnemonic.
#[derive(Clone, Copy, PartialEq, Eq, Structural, Debug)]
pub enum Instruction {
    /// ADd with Carry
    Adc,
    /// logical AND
    And,
    /// Arithmetic Shift Left
    Asl,
    /// Branch if Carry Clear
    Bcc,
    /// Branch if Carry Set
    Bcs,
    /// Branch if EQual
    Beq,
    /// BIT test
    Bit,
    /// Branch if MInus
    Bmi,
    /// Branch if Not Equal
    Bne,
    /// Branch if PLus
    Bpl,
    /// BReaK (force interrupt)
    Brk,
    /// Branch if oVerflow Clear
    Bvc,
    /// Branch if oVerflow Set
    Bvs,
    /// CLear Carry flag
    Clc,
    /// CLear Decimal flag
    Cld,
    /// CLear Interrupt disable flag
    Cli,
    /// CLear oVerflow flag
    Clv,
    /// CoMPare
    Cmp,
    /// ComPare X register
    Cpx,
    /// ComPare Y register
    Cpy,
    /// DECrement memory
    Dec,
    /// DEcrement X register
    Dex,
    /// DEcrement Y register
    Dey,
    /// Exclusive OR
    Eor,
    /// INCrement memory
    Inc,
    /// INcrement X register
    Inx,
    /// INcrement Y register
    Iny,
    /// JuMP
    Jmp,
    /// Jump to SubRoutine
    Jsr,
    /// LoaD Accumulator
    Lda,
    /// LoaD X register
    Ldx,
    /// LoaD Y register
    Ldy,
    /// Logical Shift Right
    Lsr,
    /// No OPeration
    Nop,
    /// logical inclusive OR on Accumulator
    Ora,
    /// PusH Accumulator
    Pha,
    /// PusH Processor status
    Php,
    /// PuLl Accumulator
    Pla,
    /// PuLl Processor status
    Plp,
    /// ROtate Left
    Rol,
    /// ROtate Right
    Ror,
    /// ReTurn from Interrupt
    Rti,
    /// ReTurn from Subroutine
    Rts,
    /// SuBtract with Carry
    Sbc,
    /// SEt Carry flag
    Sec,
    /// SEt Decimal flag
    Sed,
    /// SEt Interrupt disable flag
    Sei,
    /// STore Accumulator
    Sta,
    /// STore X register
    Stx,
    /// STore Y register
    Sty,
    /// Transfer Accumulator to X register
    Tax,
    /// Transfer Accumulator to Y register
    Tay,
    /// Transfer Stack pointer to X register
    Tsx,
    /// Transfer X to Accumulator
    Txa,
    /// Transfer X to Stack pointer
    Txs,
    /// Transfer Y to Accumulator
    Tya,
}

} // verus!

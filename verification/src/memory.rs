//! A flat 65536-byte addressable store with typed 8-bit and 16-bit
//! (little-endian) reads and writes. Addresses wrap within the 64 KiB space:
//! the high byte of a 16-bit access at address 0xFFFF lives at address
//! 0x0000. No other bounds failure is modeled.

use vstd::prelude::*;

use crate::mode::{rom_origin, Mode};

verus! {

/// Number of addressable bytes.
pub const MEMORY_SIZE: usize = 0x10000;

/// Default stack pointer offset into the stack page.
pub const STACK: u16 = 0x00FD;

/// Base address of the stack page: a stack pointer value is an offset from
/// this address.
pub const STACK_PAGE: u16 = 0x0100;

/// Address of the reset vector, which holds the address execution begins at
/// after a reset.
pub const RESET: u16 = 0xFFFC;

/// Address of the interrupt vector, which holds the address execution jumps
/// to on a forced interrupt.
pub const INTERRUPT: u16 = 0xFFFE;

/// The numeric value stored at an address: the single byte there for
/// width 1, or the little-endian pair at the address and its wrapping
/// successor for width 2.
pub open spec fn word_at(m: Seq<u8>, addr: int, width: int) -> int
    recommends
        m.len() == 0x10000,
        0 <= addr < 0x10000,
{
    if width == 2 {
        m[addr] + 0x100 * m[(addr + 1) % 0x10000]
    } else {
        m[addr] as int
    }
}

/// The memory image after storing a numeric value at an address: the low
/// byte at the address and, for width 2, the high byte at the wrapping
/// successor address.
pub open spec fn word_write(m: Seq<u8>, addr: int, w: int, width: int) -> Seq<u8>
    recommends
        m.len() == 0x10000,
        0 <= addr < 0x10000,
        0 <= w,
{
    if width == 2 {
        m.update(addr, (w % 0x100) as u8).update((addr + 1) % 0x10000, ((w / 0x100) % 0x100) as u8)
    } else {
        m.update(addr, (w % 0x100) as u8)
    }
}

/// The memory image after copying a program over the bytes starting at an
/// origin, leaving every byte outside that window unchanged.
pub open spec fn overlay(m: Seq<u8>, prog: Seq<u8>, origin: int) -> Seq<u8>
    recommends
        m.len() == 0x10000,
        0 <= origin,
        origin + prog.len() <= 0x10000,
{
    Seq::new(
        m.len(),
        |i: int|
            if origin <= i < origin + prog.len() {
                prog[i - origin]
            } else {
                m[i]
            },
    )
}

/// The memory image after loading a program: the program bytes copied in at
/// the origin and the reset vector set to the origin.
pub open spec fn load_image(m: Seq<u8>, prog: Seq<u8>, origin: int) -> Seq<u8>
    recommends
        m.len() == 0x10000,
        0 <= origin,
        origin + prog.len() <= 0x10000,
{
    word_write(overlay(m, prog, origin), RESET as int, origin, 2)
}

/// A 64 KiB memory image of all zero bytes.
pub open spec fn zero_memory() -> Seq<u8> {
    Seq::new(0x10000, |i: int| 0u8)
}

/// Trait to read and write values of different sizes into memory.
pub trait MemoryValue: Sized {
    /// The number of bytes a value of the type occupies in memory.
    spec fn spec_width() -> int;

    /// The value as a nonnegative integer.
    spec fn spec_val(self) -> int;

    /// The type is one or two bytes wide and its values fit that width.
    proof fn width_facts()
        ensures
            Self::spec_width() == 1 || Self::spec_width() == 2,
            forall|v: Self|
                0 <= #[trigger] v.spec_val() < if Self::spec_width() == 2 {
                    0x10000int
                } else {
                    0x100int
                },
    ;

    /// The number of bytes a value of the type occupies in memory.
    fn width() -> (r: u16)
        ensures
            r as int == Self::spec_width(),
    ;

    /// Read a value from the appropriate number of bytes in memory.
    fn read_from_memory(memory: &Memory, addr: usize) -> (r: Self)
        requires
            memory.wf(),
            addr < 0x10000,
        ensures
            r.spec_val() == word_at(memory@, addr as int, Self::spec_width()),
    ;

    /// Write a value to the appropriate number of bytes in memory.
    fn write_to_memory(memory: &mut Memory, addr: usize, val: Self)
        requires
            old(memory).wf(),
            addr < 0x10000,
        ensures
            final(memory).wf(),
            final(memory)@ == word_write(
                old(memory)@,
                addr as int,
                val.spec_val(),
                Self::spec_width(),
            ),
    ;
}

impl MemoryValue for u8 {
    open spec fn spec_width() -> int {
        1
    }

    open spec fn spec_val(self) -> int {
        self as int
    }

    proof fn width_facts() {
    }

    fn width() -> (r: u16) {
        1
    }

    /// Read a single byte from memory as a u8.
    fn read_from_memory(memory: &Memory, addr: usize) -> (r: Self) {
        memory.0[addr]
    }

    /// Write a u8 value to a single byte of memory.
    fn write_to_memory(memory: &mut Memory, addr: usize, val: Self) {
        memory.0.set(addr, val);
    }
}

impl MemoryValue for u16 {
    open spec fn spec_width() -> int {
        2
    }

    open spec fn spec_val(self) -> int {
        self as int
    }

    proof fn width_facts() {
    }

    fn width() -> (r: u16) {
        2
    }

    /// Read two bytes from memory as a little-endian u16, the high byte
    /// coming from the wrapping successor address.
    fn read_from_memory(memory: &Memory, addr: usize) -> (r: Self) {
        let lo = memory.0[addr] as u16;
        let hi = memory.0[(addr + 1) % 0x10000] as u16;
        hi * 0x100 + lo
    }

    /// Write a u16 value in little-endian form to two bytes of memory, the
    /// high byte going to the wrapping successor address.
    fn write_to_memory(memory: &mut Memory, addr: usize, val: Self) {
        memory.0.set(addr, (val % 0x100) as u8);
        memory.0.set((addr + 1) % 0x10000, (val / 0x100) as u8);
    }
}

/// A 64 KiB memory register.
#[derive(Debug, Clone)]
pub struct Memory(pub Vec<u8>);

impl View for Memory {
    type V = Seq<u8>;

    open spec fn view(&self) -> Seq<u8> {
        self.0@
    }
}

impl Memory {
    /// The memory holds exactly the full 64 KiB address space.
    pub open spec fn wf(&self) -> bool {
        self@.len() == 0x10000
    }
}

impl Default for Memory {
    /// A fresh, zeroed 64 KiB memory.
    fn default() -> (r: Self)
        ensures
            r.wf(),
            r@ == zero_memory(),
    {
        let mut bytes: Vec<u8> = Vec::new();
        while bytes.len() < 0x10000
            invariant
                bytes@.len() <= 0x10000,
                forall|i: int| 0 <= i < bytes@.len() ==> bytes@[i] == 0u8,
            decreases 0x10000 - bytes@.len(),
        {
            bytes.push(0);
        }
        proof {
            assert(bytes@ =~= zero_memory());
        }
        Memory(bytes)
    }
}

impl Memory {
    /// Load a program into the program ROM section of memory and set the
    /// reset vector to the ROM origin.
    pub fn load(&mut self, program: Vec<u8>, mode: Mode)
        requires
            old(self).wf(),
            rom_origin(mode) + program@.len() <= 0x10000,
        ensures
            final(self).wf(),
            final(self)@ == load_image(old(self)@, program@, rom_origin(mode)),
    {
        let origin = mode.program_rom();
        let mut i: usize = 0;
        while i < program.len()
            invariant
                self@.len() == 0x10000,
                i <= program@.len(),
                origin as int == rom_origin(mode),
                origin + program@.len() <= 0x10000,
                forall|j: int|
                    origin <= j < origin + i ==> self@[j] == program@[j - origin],
                forall|j: int|
                    0 <= j < 0x10000 && !(origin <= j < origin + i) ==> self@[j] == old(self)@[j],
            decreases program@.len() - i,
        {
            self.0.set(origin + i, program[i]);
            i = i + 1;
        }
        proof {
            assert(self@ =~= overlay(old(self)@, program@, rom_origin(mode)));
        }
        self.write(RESET, origin as u16);
    }

    /// Read a u8 or u16 from memory.
    pub fn read<T: MemoryValue>(&self, addr: u16) -> (r: T)
        requires
            self.wf(),
        ensures
            r.spec_val() == word_at(self@, addr as int, T::spec_width()),
    {
        T::read_from_memory(self, addr as usize)
    }

    /// Write a u8 or u16 to memory.
    pub fn write<T: MemoryValue>(&mut self, addr: u16, val: T)
        requires
            old(self).wf(),
        ensures
            final(self).wf(),
            final(self)@ == word_write(old(self)@, addr as int, val.spec_val(), T::spec_width()),
    {
        T::write_to_memory(self, addr as usize, val)
    }
}

} // verus!

//! The 6502 core: an 8-bit CPU with a 16-bit address bus, little-endian,
//! driven one instruction at a time through `step`. The core owns its
//! registers and drives a `Memory` collaborator for every byte it touches;
//! each method's contract states its exact effect over the model in `isa`.

use vstd::prelude::*;

use crate::bus::Memory;
use crate::isa::{
    abs_operand, addr16, asl_carry, asl_val, cross_penalty, decode, exec_cycles, fetched,
    flag_set, indirect_high_addr, indirect_target, lsr_carry, lsr_val, rel_target, stack_addr,
    step_mem, step_ok, step_regs, wadd16, wadd8, wsub8, znp, zp_pointer, Regs,
};

verus! {

/// The eight status-register flags, from bit 0 (Carry) to bit 7 (Negative).
/// The Unused bit reads 1: construction sets it and whole-register
/// overwrites preserve it.
#[derive(Clone, Copy, Debug, PartialEq, Eq, Structural)]
pub enum Flag {
    Carry,
    Zero,
    InterruptDisable,
    Decimal,
    Break,
    Unused,
    Overflow,
    Negative,
}

/// The bit of the status register that a flag occupies.
pub open spec fn flag_mask(flag: Flag) -> u8 {
    match flag {
        Flag::Carry => 0x01,
        Flag::Zero => 0x02,
        Flag::InterruptDisable => 0x04,
        Flag::Decimal => 0x08,
        Flag::Break => 0x10,
        Flag::Unused => 0x20,
        Flag::Overflow => 0x40,
        Flag::Negative => 0x80,
    }
}

/// The one fatal failure of the dispatcher: an opcode byte with no entry in
/// the decode table. Execution halts rather than running undefined
/// semantics.
#[derive(Debug, PartialEq, Eq, Structural)]
pub enum StepError {
    IllegalOpcode(u8),
}

/// The 6502 core. The registers are plain fields; `bus` is the memory
/// collaborator every instruction reads and writes through.
pub struct CPU<M: Memory> {
    pub ac: u8,
    pub x: u8,
    pub y: u8,
    /// Program counter; all arithmetic on it wraps modulo 65536.
    pub pc: u16,
    /// Stack pointer into page 0x0100-0x01FF; wraps modulo 256.
    pub sp: u8,
    /// Status register; the Unused bit (0x20) reads 1.
    pub sr: u8,
    pub bus: M,
}

impl<M: Memory> CPU<M> {
    /// The core is well-formed when its backing store is.
    pub open spec fn wf(&self) -> bool {
        self.bus.inv()
    }

    /// The register file as plain values, for contracts.
    pub open spec fn regs(&self) -> Regs {
        Regs { ac: self.ac, x: self.x, y: self.y, pc: self.pc, sp: self.sp, sr: self.sr }
    }

    /// Power-on state: registers clear, the stack pointer at the top of its
    /// page, interrupts disabled and the Unused bit set.
    pub fn new(bus: M) -> (cpu: CPU<M>)
        ensures
            cpu.bus == bus,
            cpu.regs() == (Regs { ac: 0u8, x: 0u8, y: 0u8, pc: 0u16, sp: 0xFFu8, sr: 0x24u8 }),
    {
        CPU { pc: 0u16, sp: 0xFF, ac: 0u8, x: 0u8, y: 0u8, sr: 0x24, bus }
    }

    pub fn get_a(&self) -> (r: u8)
        ensures
            r == self.ac,
    {
        self.ac
    }

    pub fn get_x(&self) -> (r: u8)
        ensures
            r == self.x,
    {
        self.x
    }

    pub fn get_y(&self) -> (r: u8)
        ensures
            r == self.y,
    {
        self.y
    }

    pub fn get_pc(&self) -> (r: u16)
        ensures
            r == self.pc,
    {
        self.pc
    }

    pub fn get_sp(&self) -> (r: u8)
        ensures
            r == self.sp,
    {
        self.sp
    }

    pub fn get_p(&self) -> (r: u8)
        ensures
            r == self.sr,
    {
        self.sr
    }

    pub fn set_a(&mut self, v: u8)
        ensures
            *final(self) == (CPU { ac: v, ..*old(self) }),
    {
        self.ac = v;
    }

    pub fn set_x(&mut self, v: u8)
        ensures
            *final(self) == (CPU { x: v, ..*old(self) }),
    {
        self.x = v;
    }

    pub fn set_y(&mut self, v: u8)
        ensures
            *final(self) == (CPU { y: v, ..*old(self) }),
    {
        self.y = v;
    }

    pub fn set_pc(&mut self, v: u16)
        ensures
            *final(self) == (CPU { pc: v, ..*old(self) }),
    {
        self.pc = v;
    }

    pub fn set_sp(&mut self, v: u8)
        ensures
            *final(self) == (CPU { sp: v, ..*old(self) }),
    {
        self.sp = v;
    }

    /// Overwrite the whole status register. The Unused bit is forced back
    /// to 1: it reads 1 in every reachable state.
    pub fn set_p(&mut self, v: u8)
        ensures
            *final(self) == (CPU { sr: v | 0x20, ..*old(self) }),
    {
        self.sr = v | 0x20;
    }

    /// The mask of a status flag, for the masked get and set below.
    pub fn flag_bit(flag: Flag) -> (m: u8)
        ensures
            m == flag_mask(flag),
    {
        match flag {
            Flag::Carry => 0x01,
            Flag::Zero => 0x02,
            Flag::InterruptDisable => 0x04,
            Flag::Decimal => 0x08,
            Flag::Break => 0x10,
            Flag::Unused => 0x20,
            Flag::Overflow => 0x40,
            Flag::Negative => 0x80,
        }
    }

    pub fn get_flag(&self, flag: Flag) -> (r: bool)
        ensures
            r == (self.sr & flag_mask(flag) != 0),
    {
        (self.sr & Self::flag_bit(flag)) != 0
    }

    pub fn set_flag(&mut self, flag: Flag, value: bool)
        ensures
            *final(self) == (CPU { sr: flag_set(old(self).sr, flag_mask(flag), value), ..*old(self) }),
    {
        let m: u8 = Self::flag_bit(flag);
        if value {
            self.sr = self.sr | m;
        } else {
            self.sr = self.sr & !m;
        }
    }

    /// The combined update applied after every load, transfer and shift:
    /// Zero from `value == 0`, Negative from bit 7 of `value`.
    pub fn set_zero_and_negative_flag(&mut self, value: u8)
        ensures
            *final(self) == (CPU { sr: znp(old(self).sr, value), ..*old(self) }),
    {
        self.set_flag(Flag::Zero, value == 0);
        self.set_flag(Flag::Negative, (value & 0x80) != 0);
    }

    /// Advance the program counter one byte, wrapping modulo 65536.
    pub fn inc_pc(&mut self)
        ensures
            *final(self) == (CPU { pc: wadd16(old(self).pc, 1), ..*old(self) }),
    {
        self.pc = self.pc.wrapping_add(1);
    }

    /// Combine a little-endian byte pair into a 16-bit address.
    pub fn get_address(lsb: u8, msb: u8) -> (r: u16)
        ensures
            r == addr16(lsb, msb),
    {
        ((msb as u16) << 8) | (lsb as u16)
    }

    /// The byte one slot above the stack pointer: the value the next pull
    /// would return. Wraps within the stack page.
    pub fn peek_stack(&self) -> (r: u8)
        requires
            self.wf(),
            M::readable(stack_addr(wadd8(self.sp, 1))),
        ensures
            r == self.bus.mem()[stack_addr(wadd8(self.sp, 1))],
    {
        self.bus.read(0x0100u16 + (self.sp.wrapping_add(1) as u16))
    }

    /// Write `value` at the stack pointer's slot, then decrement the
    /// pointer modulo 256. No bounds check: wraparound silently aliases,
    /// as the hardware does.
    pub fn push_stack(&mut self, value: u8)
        requires
            old(self).wf(),
            M::writable(stack_addr(old(self).sp)),
        ensures
            final(self).wf(),
            final(self).bus.mem() =~= old(self).bus.mem().insert(
                stack_addr(old(self).sp),
                value,
            ),
            final(self).regs() == (Regs { sp: wsub8(old(self).sp, 1), ..old(self).regs() }),
    {
        let address: u16 = 0x0100u16 + (self.sp as u16);
        self.bus.write(address, value);
        self.sp = self.sp.wrapping_sub(1);
    }

    /// Increment the stack pointer modulo 256, then read the slot it now
    /// points at. The inverse of `push_stack`: the pointer always rests one
    /// slot past the last pushed byte.
    pub fn pull_stack(&mut self) -> (r: u8)
        requires
            old(self).wf(),
            M::readable(stack_addr(wadd8(old(self).sp, 1))),
        ensures
            final(self).bus == old(self).bus,
            final(self).regs() == (Regs { sp: wadd8(old(self).sp, 1), ..old(self).regs() }),
            r == old(self).bus.mem()[stack_addr(wadd8(old(self).sp, 1))],
    {
        self.sp = self.sp.wrapping_add(1);
        let val: u8 = self.bus.read(0x0100u16 + (self.sp as u16));
        val
    }

    /// Absolute addressing: consume a little-endian 16-bit address after
    /// the opcode.
    pub fn addr_absolute(&mut self) -> (r: u16)
        requires
            old(self).wf(),
            M::readable(old(self).pc),
            M::readable(wadd16(old(self).pc, 1)),
        ensures
            final(self).bus == old(self).bus,
            final(self).regs() == (Regs { pc: wadd16(old(self).pc, 2), ..old(self).regs() }),
            r == abs_operand(old(self).bus.mem(), old(self).pc),
    {
        let lsb: u8 = self.bus.read(self.pc);
        self.inc_pc();
        let msb: u8 = self.bus.read(self.pc);
        self.inc_pc();
        Self::get_address(lsb, msb)
    }

    /// One extra cycle iff the effective address left the base address's
    /// page: the high bytes differ.
    pub fn cross_page_boundary_cycle_penalty(base_addr: u16, effective_addr: u16) -> (r: u64)
        ensures
            r == cross_penalty(base_addr, effective_addr),
    {
        if (base_addr & 0xFF00) != (effective_addr & 0xFF00) {
            1
        } else {
            0
        }
    }

    /// Absolute,X: the absolute operand plus the X register, wrapping, with
    /// the page-cross penalty.
    pub fn addr_absolute_x(&mut self) -> (r: (u16, u64))
        requires
            old(self).wf(),
            M::readable(old(self).pc),
            M::readable(wadd16(old(self).pc, 1)),
        ensures
            final(self).bus == old(self).bus,
            final(self).regs() == (Regs { pc: wadd16(old(self).pc, 2), ..old(self).regs() }),
            r.0 == wadd16(abs_operand(old(self).bus.mem(), old(self).pc), old(self).x as u16),
            r.1 == cross_penalty(abs_operand(old(self).bus.mem(), old(self).pc), r.0),
    {
        let base_addr: u16 = self.addr_absolute();
        let effective_addr: u16 = base_addr.wrapping_add(self.x as u16);
        (effective_addr, Self::cross_page_boundary_cycle_penalty(base_addr, effective_addr))
    }

    /// Absolute,Y: the absolute operand plus the Y register, wrapping, with
    /// the page-cross penalty.
    pub fn addr_absolute_y(&mut self) -> (r: (u16, u64))
        requires
            old(self).wf(),
            M::readable(old(self).pc),
            M::readable(wadd16(old(self).pc, 1)),
        ensures
            final(self).bus == old(self).bus,
            final(self).regs() == (Regs { pc: wadd16(old(self).pc, 2), ..old(self).regs() }),
            r.0 == wadd16(abs_operand(old(self).bus.mem(), old(self).pc), old(self).y as u16),
            r.1 == cross_penalty(abs_operand(old(self).bus.mem(), old(self).pc), r.0),
    {
        let base_addr: u16 = self.addr_absolute();
        let effective_addr: u16 = base_addr.wrapping_add(self.y as u16);
        (effective_addr, Self::cross_page_boundary_cycle_penalty(base_addr, effective_addr))
    }

    /// Absolute-indirect: read a 16-bit pointer, then load the program
    /// counter from the address it names. Reproduces the hardware quirk:
    /// when the pointer's low byte is 0xFF, the target's high byte is read
    /// from the start of the same page, not from the next one.
    pub fn addr_absolute_indirect(&mut self)
        requires
            old(self).wf(),
            M::readable(old(self).pc),
            M::readable(wadd16(old(self).pc, 1)),
            M::readable(abs_operand(old(self).bus.mem(), old(self).pc)),
            M::readable(indirect_high_addr(abs_operand(old(self).bus.mem(), old(self).pc))),
        ensures
            final(self).bus == old(self).bus,
            final(self).regs() == (Regs {
                pc: indirect_target(
                    old(self).bus.mem(),
                    abs_operand(old(self).bus.mem(), old(self).pc),
                ),
                ..old(self).regs()
            }),
    {
        let base_addr: u16 = self.addr_absolute();
        let lsb: u8 = self.bus.read(base_addr);
        // When the increment would cross a page boundary the carry is lost.
        let msb: u8 = if (base_addr & 0x00FF) == 0x00FF {
            self.bus.read(base_addr & 0xFF00)
        } else {
            self.bus.read(base_addr.wrapping_add(1))
        };
        self.pc = Self::get_address(lsb, msb);
    }

    /// Zero-page addressing: one operand byte, zero-extended to a page-0
    /// address.
    pub fn addr_zero_page(&mut self) -> (r: u16)
        requires
            old(self).wf(),
            M::readable(old(self).pc),
        ensures
            final(self).bus == old(self).bus,
            final(self).regs() == (Regs { pc: wadd16(old(self).pc, 1), ..old(self).regs() }),
            r == old(self).bus.mem()[old(self).pc] as u16,
    {
        let lsb: u8 = self.bus.read(self.pc);
        self.inc_pc();
        proof {
            assert(addr16(lsb, 0x00) == lsb as u16) by (bit_vector);
        }
        Self::get_address(lsb, 0x00)
    }

    /// Zero-page,X: the operand plus X, wrapping within page 0 only. The
    /// sum never carries into another page.
    pub fn addr_zero_page_x(&mut self) -> (r: u16)
        requires
            old(self).wf(),
            M::readable(old(self).pc),
        ensures
            final(self).bus == old(self).bus,
            final(self).regs() == (Regs { pc: wadd16(old(self).pc, 1), ..old(self).regs() }),
            r == wadd8(old(self).bus.mem()[old(self).pc], old(self).x) as u16,
    {
        let lsb: u8 = self.bus.read(self.pc);
        self.inc_pc();
        lsb.wrapping_add(self.x) as u16
    }

    /// Zero-page,Y: the operand plus Y, wrapping within page 0 only.
    pub fn addr_zero_page_y(&mut self) -> (r: u16)
        requires
            old(self).wf(),
            M::readable(old(self).pc),
        ensures
            final(self).bus == old(self).bus,
            final(self).regs() == (Regs { pc: wadd16(old(self).pc, 1), ..old(self).regs() }),
            r == wadd8(old(self).bus.mem()[old(self).pc], old(self).y) as u16,
    {
        let lsb: u8 = self.bus.read(self.pc);
        self.inc_pc();
        lsb.wrapping_add(self.y) as u16
    }

    /// (Zero-page,X) indexed-indirect: X is added to the operand with 8-bit
    /// wrap to pick a page-0 pointer, and the effective address is read
    /// from that pointer, its high byte also wrapping within page 0.
    pub fn addr_zero_page_x_indirect(&mut self) -> (r: u16)
        requires
            old(self).wf(),
            M::readable(old(self).pc),
            M::readable(wadd8(old(self).bus.mem()[old(self).pc], old(self).x) as u16),
            M::readable(wadd8(wadd8(old(self).bus.mem()[old(self).pc], old(self).x), 1) as u16),
        ensures
            final(self).bus == old(self).bus,
            final(self).regs() == (Regs { pc: wadd16(old(self).pc, 1), ..old(self).regs() }),
            r == zp_pointer(
                old(self).bus.mem(),
                wadd8(old(self).bus.mem()[old(self).pc], old(self).x),
            ),
    {
        let zp: u8 = self.bus.read(self.pc);
        self.inc_pc();
        let ptr: u8 = zp.wrapping_add(self.x);
        let lsb: u8 = self.bus.read(ptr as u16);
        let msb: u8 = self.bus.read(ptr.wrapping_add(1) as u16);
        Self::get_address(lsb, msb)
    }

    /// (Zero-page),Y indirect-indexed: read a 16-bit base address from the
    /// page-0 pointer named by the operand, then add Y with the carry
    /// propagating into the high byte; the page-cross penalty is charged as
    /// for absolute,Y.
    pub fn addr_zero_page_y_indirect(&mut self) -> (r: (u16, u64))
        requires
            old(self).wf(),
            M::readable(old(self).pc),
            M::readable(old(self).bus.mem()[old(self).pc] as u16),
            M::readable(wadd8(old(self).bus.mem()[old(self).pc], 1) as u16),
        ensures
            final(self).bus == old(self).bus,
            final(self).regs() == (Regs { pc: wadd16(old(self).pc, 1), ..old(self).regs() }),
            r.0 == wadd16(
                zp_pointer(old(self).bus.mem(), old(self).bus.mem()[old(self).pc]),
                old(self).y as u16,
            ),
            r.1 == cross_penalty(
                zp_pointer(old(self).bus.mem(), old(self).bus.mem()[old(self).pc]),
                r.0,
            ),
    {
        let zp: u8 = self.bus.read(self.pc);
        self.inc_pc();
        let lsb: u8 = self.bus.read(zp as u16);
        let msb: u8 = self.bus.read(zp.wrapping_add(1) as u16);
        let base_addr: u16 = Self::get_address(lsb, msb);
        let effective_addr: u16 = base_addr.wrapping_add(self.y as u16);
        (effective_addr, Self::cross_page_boundary_cycle_penalty(base_addr, effective_addr))
    }

    /// Relative addressing: consume a signed 8-bit offset and add it to the
    /// post-increment program counter, with the page-cross penalty. Used by
    /// branches, which load the returned address into the program counter;
    /// this resolver already does so.
    pub fn addr_relative(&mut self) -> (r: (u16, u64))
        requires
            old(self).wf(),
            M::readable(old(self).pc),
        ensures
            final(self).bus == old(self).bus,
            r.0 == rel_target(wadd16(old(self).pc, 1), old(self).bus.mem()[old(self).pc]),
            r.1 == cross_penalty(wadd16(old(self).pc, 1), r.0),
            final(self).regs() == (Regs { pc: r.0, ..old(self).regs() }),
    {
        let offset: u8 = self.bus.read(self.pc);
        self.inc_pc();
        let base_addr: u16 = self.pc;
        let extended: u16 = if offset < 0x80 {
            offset as u16
        } else {
            offset as u16 + 0xFF00
        };
        let effective_addr: u16 = base_addr.wrapping_add(extended);
        let penalty: u64 = Self::cross_page_boundary_cycle_penalty(base_addr, effective_addr);
        self.pc = effective_addr;
        (effective_addr, penalty)
    }

    /// Arithmetic shift left: the shifted byte and the carry that fell out
    /// of bit 7.
    pub fn asl(value: u8) -> (r: (u8, bool))
        ensures
            r.0 == asl_val(value),
            r.1 == asl_carry(value),
    {
        (value << 1, value & 0x80 != 0)
    }

    /// Execute exactly one instruction: fetch the opcode at the program
    /// counter, decode it against the exhaustive table, execute its
    /// semantics, and return the elapsed cycle count (base cost plus any
    /// page-cross penalty the addressing reported). An opcode with no
    /// table entry halts execution with an illegal-opcode failure and
    /// never falls through to a no-op; every defined opcode succeeds.
    #[verifier::rlimit(60)]
    pub fn step(&mut self) -> (res: Result<u64, StepError>)
        requires
            old(self).wf(),
            step_ok::<M>(old(self).regs(), old(self).bus.mem()),
        ensures
            final(self).wf(),
            final(self).regs() == step_regs(old(self).regs(), old(self).bus.mem()),
            final(self).bus.mem() =~= step_mem(old(self).regs(), old(self).bus.mem()),
            (match decode(old(self).bus.mem()[old(self).pc]) {
                Some(i) => res == Ok::<u64, StepError>(
                    exec_cycles(i, fetched(old(self).regs()), old(self).bus.mem()),
                ),
                None => res == Err::<u64, StepError>(
                    StepError::IllegalOpcode(old(self).bus.mem()[old(self).pc]),
                ),
            }),
    {
        let opcode: u8 = self.bus.read(self.pc);
        self.inc_pc();
        let mut cycles: u64 = 0;

        match opcode {
            // LDA: memory to accumulator
            0xA9 => {
                let value: u8 = self.bus.read(self.pc);
                self.inc_pc();
                self.ac = value;
                self.set_zero_and_negative_flag(value);
                cycles = 2;
            },
            0xAD => {
                let address: u16 = self.addr_absolute();
                let value: u8 = self.bus.read(address);
                self.ac = value;
                self.set_zero_and_negative_flag(value);
                cycles = 4;
            },
            0xBD => {
                let (address, p): (u16, u64) = self.addr_absolute_x();
                let value: u8 = self.bus.read(address);
                self.ac = value;
                self.set_zero_and_negative_flag(value);
                cycles = 4 + p;
            },
            0xB9 => {
                let (address, p): (u16, u64) = self.addr_absolute_y();
                let value: u8 = self.bus.read(address);
                self.ac = value;
                self.set_zero_and_negative_flag(value);
                cycles = 4 + p;
            },
            0xA5 => {
                let address: u16 = self.addr_zero_page();
                let value: u8 = self.bus.read(address);
                self.ac = value;
                self.set_zero_and_negative_flag(value);
                cycles = 3;
            },
            0xB5 => {
                let address: u16 = self.addr_zero_page_x();
                let value: u8 = self.bus.read(address);
                self.ac = value;
                self.set_zero_and_negative_flag(value);
                cycles = 4;
            },
            0xA1 => {
                let address: u16 = self.addr_zero_page_x_indirect();
                let value: u8 = self.bus.read(address);
                self.ac = value;
                self.set_zero_and_negative_flag(value);
                cycles = 6;
            },
            0xB1 => {
                let (address, p): (u16, u64) = self.addr_zero_page_y_indirect();
                let value: u8 = self.bus.read(address);
                self.ac = value;
                self.set_zero_and_negative_flag(value);
                cycles = 5 + p;
            },
            // LDX: memory to X
            0xA2 => {
                let value: u8 = self.bus.read(self.pc);
                self.inc_pc();
                self.x = value;
                self.set_zero_and_negative_flag(value);
                cycles = 2;
            },
            0xAE => {
                let address: u16 = self.addr_absolute();
                let value: u8 = self.bus.read(address);
                self.x = value;
                self.set_zero_and_negative_flag(value);
                cycles = 4;
            },
            0xBE => {
                let (address, p): (u16, u64) = self.addr_absolute_y();
                let value: u8 = self.bus.read(address);
                self.x = value;
                self.set_zero_and_negative_flag(value);
                cycles = 4 + p;
            },
            0xA6 => {
                let address: u16 = self.addr_zero_page();
                let value: u8 = self.bus.read(address);
                self.x = value;
                self.set_zero_and_negative_flag(value);
                cycles = 3;
            },
            0xB6 => {
                let address: u16 = self.addr_zero_page_y();
                let value: u8 = self.bus.read(address);
                self.x = value;
                self.set_zero_and_negative_flag(value);
                cycles = 4;
            },
            // LDY: memory to Y
            0xA0 => {
                let value: u8 = self.bus.read(self.pc);
                self.inc_pc();
                self.y = value;
                self.set_zero_and_negative_flag(value);
                cycles = 2;
            },
            0xAC => {
                let address: u16 = self.addr_absolute();
                let value: u8 = self.bus.read(address);
                self.y = value;
                self.set_zero_and_negative_flag(value);
                cycles = 4;
            },
            0xBC => {
                let (address, p): (u16, u64) = self.addr_absolute_x();
                let value: u8 = self.bus.read(address);
                self.y = value;
                self.set_zero_and_negative_flag(value);
                cycles = 4 + p;
            },
            0xA4 => {
                let address: u16 = self.addr_zero_page();
                let value: u8 = self.bus.read(address);
                self.y = value;
                self.set_zero_and_negative_flag(value);
                cycles = 3;
            },
            0xB4 => {
                let address: u16 = self.addr_zero_page_x();
                let value: u8 = self.bus.read(address);
                self.y = value;
                self.set_zero_and_negative_flag(value);
                cycles = 4;
            },
            // STA: accumulator to memory
            0x8D => {
                let address: u16 = self.addr_absolute();
                let value: u8 = self.ac;
                self.bus.write(address, value);
                cycles = 4;
            },
            0x9D => {
                let (address, _p): (u16, u64) = self.addr_absolute_x();
                let value: u8 = self.ac;
                self.bus.write(address, value);
                cycles = 5;
            },
            0x99 => {
                let (address, _p): (u16, u64) = self.addr_absolute_y();
                let value: u8 = self.ac;
                self.bus.write(address, value);
                cycles = 5;
            },
            0x85 => {
                let address: u16 = self.addr_zero_page();
                let value: u8 = self.ac;
                self.bus.write(address, value);
                cycles = 3;
            },
            0x95 => {
                let address: u16 = self.addr_zero_page_x();
                let value: u8 = self.ac;
                self.bus.write(address, value);
                cycles = 4;
            },
            0x81 => {
                let address: u16 = self.addr_zero_page_x_indirect();
                let value: u8 = self.ac;
                self.bus.write(address, value);
                cycles = 6;
            },
            0x91 => {
                let (address, _p): (u16, u64) = self.addr_zero_page_y_indirect();
                let value: u8 = self.ac;
                self.bus.write(address, value);
                cycles = 6;
            },
            // STX: X to memory
            0x8E => {
                let address: u16 = self.addr_absolute();
                let value: u8 = self.x;
                self.bus.write(address, value);
                cycles = 4;
            },
            0x86 => {
                let address: u16 = self.addr_zero_page();
                let value: u8 = self.x;
                self.bus.write(address, value);
                cycles = 3;
            },
            0x96 => {
                let address: u16 = self.addr_zero_page_y();
                let value: u8 = self.x;
                self.bus.write(address, value);
                cycles = 4;
            },
            // STY: Y to memory
            0x8C => {
                let address: u16 = self.addr_absolute();
                let value: u8 = self.y;
                self.bus.write(address, value);
                cycles = 4;
            },
            0x84 => {
                let address: u16 = self.addr_zero_page();
                let value: u8 = self.y;
                self.bus.write(address, value);
                cycles = 3;
            },
            0x94 => {
                let address: u16 = self.addr_zero_page_x();
                let value: u8 = self.y;
                self.bus.write(address, value);
                cycles = 4;
            },
            // TAX: A to X
            0xAA => {
                let value: u8 = self.ac;
                self.x = value;
                self.set_zero_and_negative_flag(value);
                cycles = 2;
            },
            // TAY: A to Y
            0xA8 => {
                let value: u8 = self.ac;
                self.y = value;
                self.set_zero_and_negative_flag(value);
                cycles = 2;
            },
            // TSX: SP to X
            0xBA => {
                let value: u8 = self.sp;
                self.x = value;
                self.set_zero_and_negative_flag(value);
                cycles = 2;
            },
            // TXA: X to A
            0x8A => {
                let value: u8 = self.x;
                self.ac = value;
                self.set_zero_and_negative_flag(value);
                cycles = 2;
            },
            // TXS: X to SP; no flags
            0x9A => {
                self.sp = self.x;
                cycles = 2;
            },
            // TYA: Y to A
            0x98 => {
                let value: u8 = self.y;
                self.ac = value;
                self.set_zero_and_negative_flag(value);
                cycles = 2;
            },
            // PHA: A to stack
            0x48 => {
                let value: u8 = self.ac;
                self.push_stack(value);
                cycles = 3;
            },
            // PHP: status register to stack
            0x08 => {
                let value: u8 = self.sr;
                self.push_stack(value);
                cycles = 3;
            },
            // PLA: stack to A
            0x68 => {
                let value: u8 = self.pull_stack();
                self.ac = value;
                self.set_zero_and_negative_flag(value);
                cycles = 4;
            },
            // PLP: stack to status register, the Unused bit forced back on
            0x28 => {
                let value: u8 = self.pull_stack();
                self.sr = value | 0x20;
                cycles = 4;
            },
            // ASL: carry from bit 7, zero into bit 0
            0x0A => {
                let value: u8 = self.ac;
                let (new_value, carry_flag): (u8, bool) = Self::asl(value);
                self.ac = new_value;
                self.set_flag(Flag::Carry, carry_flag);
                self.set_zero_and_negative_flag(new_value);
                cycles = 2;
            },
            0x0E => {
                let address: u16 = self.addr_absolute();
                let value: u8 = self.bus.read(address);
                let (new_value, carry_flag): (u8, bool) = Self::asl(value);
                self.bus.write(address, new_value);
                self.set_flag(Flag::Carry, carry_flag);
                self.set_zero_and_negative_flag(new_value);
                cycles = 6;
            },
            0x1E => {
                let (address, _p): (u16, u64) = self.addr_absolute_x();
                let value: u8 = self.bus.read(address);
                let (new_value, carry_flag): (u8, bool) = Self::asl(value);
                self.bus.write(address, new_value);
                self.set_flag(Flag::Carry, carry_flag);
                self.set_zero_and_negative_flag(new_value);
                cycles = 7;
            },
            0x06 => {
                let address: u16 = self.addr_zero_page();
                let value: u8 = self.bus.read(address);
                let (new_value, carry_flag): (u8, bool) = Self::asl(value);
                self.bus.write(address, new_value);
                self.set_flag(Flag::Carry, carry_flag);
                self.set_zero_and_negative_flag(new_value);
                cycles = 5;
            },
            0x16 => {
                let address: u16 = self.addr_zero_page_x();
                let value: u8 = self.bus.read(address);
                let (new_value, carry_flag): (u8, bool) = Self::asl(value);
                self.bus.write(address, new_value);
                self.set_flag(Flag::Carry, carry_flag);
                self.set_zero_and_negative_flag(new_value);
                cycles = 6;
            },
            // LSR: carry from bit 0, zero into bit 7
            0x4A => {
                let value: u8 = self.ac;
                let (new_value, carry_flag): (u8, bool) = Self::lsr(value);
                self.ac = new_value;
                self.set_flag(Flag::Carry, carry_flag);
                self.set_zero_and_negative_flag(new_value);
                cycles = 2;
            },
            0x4E => {
                let address: u16 = self.addr_absolute();
                let value: u8 = self.bus.read(address);
                let (new_value, carry_flag): (u8, bool) = Self::lsr(value);
                self.bus.write(address, new_value);
                self.set_flag(Flag::Carry, carry_flag);
                self.set_zero_and_negative_flag(new_value);
                cycles = 6;
            },
            0x5E => {
                let (address, _p): (u16, u64) = self.addr_absolute_x();
                let value: u8 = self.bus.read(address);
                let (new_value, carry_flag): (u8, bool) = Self::lsr(value);
                self.bus.write(address, new_value);
                self.set_flag(Flag::Carry, carry_flag);
                self.set_zero_and_negative_flag(new_value);
                cycles = 7;
            },
            0x46 => {
                let address: u16 = self.addr_zero_page();
                let value: u8 = self.bus.read(address);
                let (new_value, carry_flag): (u8, bool) = Self::lsr(value);
                self.bus.write(address, new_value);
                self.set_flag(Flag::Carry, carry_flag);
                self.set_zero_and_negative_flag(new_value);
                cycles = 5;
            },
            0x56 => {
                let address: u16 = self.addr_zero_page_x();
                let value: u8 = self.bus.read(address);
                let (new_value, carry_flag): (u8, bool) = Self::lsr(value);
                self.bus.write(address, new_value);
                self.set_flag(Flag::Carry, carry_flag);
                self.set_zero_and_negative_flag(new_value);
                cycles = 6;
            },
            other => {
                return Err(StepError::IllegalOpcode(other));
            },
        }

        Ok(cycles)
    }

    /// Logical shift right: the shifted byte and the carry that fell out of
    /// bit 0.
    pub fn lsr(value: u8) -> (r: (u8, bool))
        ensures
            r.0 == lsr_val(value),
            r.1 == lsr_carry(value),
    {
        (value >> 1, value & 0x01 != 0)
    }
}

} // verus!

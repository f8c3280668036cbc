//! The mathematical model of the 6502 core: the register file as plain
//! values, modular address arithmetic, the thirteen addressing-mode
//! computations, the status-flag update rules, and a decode table mapping
//! every opcode byte to its instruction, addressing mode and base cycle
//! cost. The executable code in `cpu` is verified against these functions.

use vstd::prelude::*;

verus! {

/// The register file of the core: accumulator, the two index registers,
/// program counter, stack pointer and status register, as plain values.
pub struct Regs {
    pub ac: u8,
    pub x: u8,
    pub y: u8,
    pub pc: u16,
    pub sp: u8,
    pub sr: u8,
}

/// 16-bit addition, wrapping modulo 65536.
pub open spec fn wadd16(a: u16, b: u16) -> u16 {
    if a + b > 0xFFFF {
        (a + b - 0x10000) as u16
    } else {
        (a + b) as u16
    }
}

/// 8-bit addition, wrapping modulo 256.
pub open spec fn wadd8(a: u8, b: u8) -> u8 {
    if a + b > 0xFF {
        (a + b - 0x100) as u8
    } else {
        (a + b) as u8
    }
}

/// 8-bit subtraction, wrapping modulo 256.
pub open spec fn wsub8(a: u8, b: u8) -> u8 {
    if a - b < 0 {
        (a - b + 0x100) as u8
    } else {
        (a - b) as u8
    }
}

/// Little-endian combination of two bytes into a 16-bit address.
pub open spec fn addr16(lsb: u8, msb: u8) -> u16 {
    ((msb as u16) << 8) | (lsb as u16)
}

/// The page of an address: its high byte.
pub open spec fn high_byte(a: u16) -> u8 {
    (a >> 8) as u8
}

/// Whether two addresses lie on the same 256-byte page.
pub open spec fn same_page(a: u16, b: u16) -> bool {
    a & 0xFF00 == b & 0xFF00
}

/// The one-cycle penalty charged when an indexed or relative computation
/// leaves the base address's page.
pub open spec fn cross_penalty(base: u16, eff: u16) -> u64 {
    if same_page(base, eff) {
        0
    } else {
        1
    }
}

/// The 16-bit operand following an opcode, read little-endian at `pc`.
pub open spec fn abs_operand(m: Map<u16, u8>, pc: u16) -> u16 {
    addr16(m[pc], m[wadd16(pc, 1)])
}

/// A 16-bit pointer read from page zero: the low byte at `p`, the high byte
/// at `p + 1` wrapped within page zero.
pub open spec fn zp_pointer(m: Map<u16, u8>, p: u8) -> u16 {
    addr16(m[p as u16], m[wadd8(p, 1) as u16])
}

/// Where the high byte of an indirect jump target is read from. When the
/// pointer's low byte is 0xFF the hardware wraps to the start of the same
/// page instead of carrying into the next one.
pub open spec fn indirect_high_addr(base: u16) -> u16 {
    if base & 0x00FF == 0x00FF {
        base & 0xFF00
    } else {
        wadd16(base, 1)
    }
}

/// The target of an absolute-indirect jump through `base`, including the
/// same-page wrap of the high-byte read.
pub open spec fn indirect_target(m: Map<u16, u8>, base: u16) -> u16 {
    addr16(m[base], m[indirect_high_addr(base)])
}

/// A relative branch offset, sign-extended two's-complement to 16 bits.
pub open spec fn sign_extend(off: u8) -> u16 {
    if off < 0x80 {
        off as u16
    } else {
        (off + 0xFF00) as u16
    }
}

/// The target of a relative branch: the offset added to the program counter
/// as it stands after the offset byte was consumed.
pub open spec fn rel_target(pc_after: u16, off: u8) -> u16 {
    wadd16(pc_after, sign_extend(off))
}

/// The address at which the stack pointer's slot lives: the fixed page
/// 0x0100-0x01FF, indexed by the 8-bit pointer.
pub open spec fn stack_addr(sp: u8) -> u16 {
    (0x0100 + sp) as u16
}

/// `p` with the flag bits selected by `mask` forced to `on`.
pub open spec fn flag_set(p: u8, mask: u8, on: bool) -> u8 {
    if on {
        p | mask
    } else {
        p & !mask
    }
}

/// The combined update rule applied after every operation that produces a
/// result byte: Zero tracks `v == 0`, Negative tracks bit 7 of `v`.
pub open spec fn znp(p: u8, v: u8) -> u8 {
    flag_set(flag_set(p, 0x02, v == 0), 0x80, v & 0x80 != 0)
}

/// A left shift: bit 7 falls out into Carry, bit 0 fills with zero.
pub open spec fn asl_val(v: u8) -> u8 {
    v << 1
}

/// The carry produced by a left shift.
pub open spec fn asl_carry(v: u8) -> bool {
    v & 0x80 != 0
}

/// A right shift: bit 0 falls out into Carry, bit 7 fills with zero.
pub open spec fn lsr_val(v: u8) -> u8 {
    v >> 1
}

/// The carry produced by a right shift.
pub open spec fn lsr_carry(v: u8) -> bool {
    v & 0x01 != 0
}

/// The status register after a shift wrote `v_new`: Carry from the bit
/// shifted out, then Zero and Negative from the result.
pub open spec fn shift_flags(p: u8, v_new: u8, carry: bool) -> u8 {
    znp(flag_set(p, 0x01, carry), v_new)
}

/// The register file after the opcode byte was fetched: the program counter
/// has advanced past it, nothing else moved.
pub open spec fn fetched(r: Regs) -> Regs {
    Regs { pc: wadd16(r.pc, 1), ..r }
}

/// The addressing modes an opcode can name.
pub enum Mode {
    Immediate,
    Absolute,
    AbsoluteX,
    AbsoluteY,
    ZeroPage,
    ZeroPageX,
    ZeroPageY,
    ZeroPageXIndirect,
    ZeroPageYIndirect,
    Accumulator,
}

/// An instruction: the operation together with its addressing mode.
pub enum Instr {
    Lda(Mode),
    Ldx(Mode),
    Ldy(Mode),
    Sta(Mode),
    Stx(Mode),
    Sty(Mode),
    Tax,
    Tay,
    Tsx,
    Txa,
    Txs,
    Tya,
    Pha,
    Php,
    Pla,
    Plp,
    Asl(Mode),
    Lsr(Mode),
}

/// The decode table: every opcode byte with defined semantics, and nothing
/// else. A byte outside this table halts the dispatcher.
pub open spec fn decode(op: u8) -> Option<Instr> {
    match op {
        0xA9 => Some(Instr::Lda(Mode::Immediate)),
        0xAD => Some(Instr::Lda(Mode::Absolute)),
        0xBD => Some(Instr::Lda(Mode::AbsoluteX)),
        0xB9 => Some(Instr::Lda(Mode::AbsoluteY)),
        0xA5 => Some(Instr::Lda(Mode::ZeroPage)),
        0xB5 => Some(Instr::Lda(Mode::ZeroPageX)),
        0xA1 => Some(Instr::Lda(Mode::ZeroPageXIndirect)),
        0xB1 => Some(Instr::Lda(Mode::ZeroPageYIndirect)),
        0xA2 => Some(Instr::Ldx(Mode::Immediate)),
        0xAE => Some(Instr::Ldx(Mode::Absolute)),
        0xBE => Some(Instr::Ldx(Mode::AbsoluteY)),
        0xA6 => Some(Instr::Ldx(Mode::ZeroPage)),
        0xB6 => Some(Instr::Ldx(Mode::ZeroPageY)),
        0xA0 => Some(Instr::Ldy(Mode::Immediate)),
        0xAC => Some(Instr::Ldy(Mode::Absolute)),
        0xBC => Some(Instr::Ldy(Mode::AbsoluteX)),
        0xA4 => Some(Instr::Ldy(Mode::ZeroPage)),
        0xB4 => Some(Instr::Ldy(Mode::ZeroPageX)),
        0x8D => Some(Instr::Sta(Mode::Absolute)),
        0x9D => Some(Instr::Sta(Mode::AbsoluteX)),
        0x99 => Some(Instr::Sta(Mode::AbsoluteY)),
        0x85 => Some(Instr::Sta(Mode::ZeroPage)),
        0x95 => Some(Instr::Sta(Mode::ZeroPageX)),
        0x81 => Some(Instr::Sta(Mode::ZeroPageXIndirect)),
        0x91 => Some(Instr::Sta(Mode::ZeroPageYIndirect)),
        0x8E => Some(Instr::Stx(Mode::Absolute)),
        0x86 => Some(Instr::Stx(Mode::ZeroPage)),
        0x96 => Some(Instr::Stx(Mode::ZeroPageY)),
        0x8C => Some(Instr::Sty(Mode::Absolute)),
        0x84 => Some(Instr::Sty(Mode::ZeroPage)),
        0x94 => Some(Instr::Sty(Mode::ZeroPageX)),
        0xAA => Some(Instr::Tax),
        0xA8 => Some(Instr::Tay),
        0xBA => Some(Instr::Tsx),
        0x8A => Some(Instr::Txa),
        0x9A => Some(Instr::Txs),
        0x98 => Some(Instr::Tya),
        0x48 => Some(Instr::Pha),
        0x08 => Some(Instr::Php),
        0x68 => Some(Instr::Pla),
        0x28 => Some(Instr::Plp),
        0x0A => Some(Instr::Asl(Mode::Accumulator)),
        0x0E => Some(Instr::Asl(Mode::Absolute)),
        0x1E => Some(Instr::Asl(Mode::AbsoluteX)),
        0x06 => Some(Instr::Asl(Mode::ZeroPage)),
        0x16 => Some(Instr::Asl(Mode::ZeroPageX)),
        0x4A => Some(Instr::Lsr(Mode::Accumulator)),
        0x4E => Some(Instr::Lsr(Mode::Absolute)),
        0x5E => Some(Instr::Lsr(Mode::AbsoluteX)),
        0x46 => Some(Instr::Lsr(Mode::ZeroPage)),
        0x56 => Some(Instr::Lsr(Mode::ZeroPageX)),
        _ => None,
    }
}

/// How many operand bytes a mode consumes after the opcode.
pub open spec fn operand_len(mode: Mode) -> u16 {
    match mode {
        Mode::Immediate => 1,
        Mode::Absolute => 2,
        Mode::AbsoluteX => 2,
        Mode::AbsoluteY => 2,
        Mode::ZeroPage => 1,
        Mode::ZeroPageX => 1,
        Mode::ZeroPageY => 1,
        Mode::ZeroPageXIndirect => 1,
        Mode::ZeroPageYIndirect => 1,
        Mode::Accumulator => 0,
    }
}

/// The effective address a mode resolves to. `r` is the register file with
/// the program counter at the first operand byte; `m` the memory contents.
pub open spec fn mode_addr(mode: Mode, r: Regs, m: Map<u16, u8>) -> u16 {
    match mode {
        Mode::Immediate => r.pc,
        Mode::Absolute => abs_operand(m, r.pc),
        Mode::AbsoluteX => wadd16(abs_operand(m, r.pc), r.x as u16),
        Mode::AbsoluteY => wadd16(abs_operand(m, r.pc), r.y as u16),
        Mode::ZeroPage => m[r.pc] as u16,
        Mode::ZeroPageX => wadd8(m[r.pc], r.x) as u16,
        Mode::ZeroPageY => wadd8(m[r.pc], r.y) as u16,
        Mode::ZeroPageXIndirect => zp_pointer(m, wadd8(m[r.pc], r.x)),
        Mode::ZeroPageYIndirect => wadd16(zp_pointer(m, m[r.pc]), r.y as u16),
        Mode::Accumulator => 0,
    }
}

/// The page-cross penalty a mode's resolution reports.
pub open spec fn mode_penalty(mode: Mode, r: Regs, m: Map<u16, u8>) -> u64 {
    match mode {
        Mode::AbsoluteX => cross_penalty(abs_operand(m, r.pc), mode_addr(mode, r, m)),
        Mode::AbsoluteY => cross_penalty(abs_operand(m, r.pc), mode_addr(mode, r, m)),
        Mode::ZeroPageYIndirect => cross_penalty(zp_pointer(m, m[r.pc]), mode_addr(mode, r, m)),
        _ => 0,
    }
}

/// Every address a mode's resolution itself reads (operand and pointer
/// bytes, not the final data access) is serviceable.
pub open spec fn mode_reads_ok<M: crate::bus::Memory>(mode: Mode, r: Regs, m: Map<u16, u8>) -> bool {
    match mode {
        Mode::Immediate => true,
        Mode::Accumulator => true,
        Mode::Absolute => M::readable(r.pc) && M::readable(wadd16(r.pc, 1)),
        Mode::AbsoluteX => M::readable(r.pc) && M::readable(wadd16(r.pc, 1)),
        Mode::AbsoluteY => M::readable(r.pc) && M::readable(wadd16(r.pc, 1)),
        Mode::ZeroPage => M::readable(r.pc),
        Mode::ZeroPageX => M::readable(r.pc),
        Mode::ZeroPageY => M::readable(r.pc),
        Mode::ZeroPageXIndirect => M::readable(r.pc) && M::readable(
            wadd8(m[r.pc], r.x) as u16,
        ) && M::readable(wadd8(wadd8(m[r.pc], r.x), 1) as u16),
        Mode::ZeroPageYIndirect => M::readable(r.pc) && M::readable(m[r.pc] as u16)
            && M::readable(wadd8(m[r.pc], 1) as u16),
    }
}

/// Every memory access an instruction makes is serviceable. `r` is the
/// register file after the opcode fetch.
pub open spec fn instr_ok<M: crate::bus::Memory>(i: Instr, r: Regs, m: Map<u16, u8>) -> bool {
    match i {
        Instr::Lda(mo) => mode_reads_ok::<M>(mo, r, m) && M::readable(mode_addr(mo, r, m)),
        Instr::Ldx(mo) => mode_reads_ok::<M>(mo, r, m) && M::readable(mode_addr(mo, r, m)),
        Instr::Ldy(mo) => mode_reads_ok::<M>(mo, r, m) && M::readable(mode_addr(mo, r, m)),
        Instr::Sta(mo) => mode_reads_ok::<M>(mo, r, m) && M::writable(mode_addr(mo, r, m)),
        Instr::Stx(mo) => mode_reads_ok::<M>(mo, r, m) && M::writable(mode_addr(mo, r, m)),
        Instr::Sty(mo) => mode_reads_ok::<M>(mo, r, m) && M::writable(mode_addr(mo, r, m)),
        Instr::Tax => true,
        Instr::Tay => true,
        Instr::Tsx => true,
        Instr::Txa => true,
        Instr::Txs => true,
        Instr::Tya => true,
        Instr::Pha => M::writable(stack_addr(r.sp)),
        Instr::Php => M::writable(stack_addr(r.sp)),
        Instr::Pla => M::readable(stack_addr(wadd8(r.sp, 1))),
        Instr::Plp => M::readable(stack_addr(wadd8(r.sp, 1))),
        Instr::Asl(mo) => match mo {
            Mode::Accumulator => true,
            _ => mode_reads_ok::<M>(mo, r, m) && M::readable(mode_addr(mo, r, m)) && M::writable(
                mode_addr(mo, r, m),
            ),
        },
        Instr::Lsr(mo) => match mo {
            Mode::Accumulator => true,
            _ => mode_reads_ok::<M>(mo, r, m) && M::readable(mode_addr(mo, r, m)) && M::writable(
                mode_addr(mo, r, m),
            ),
        },
    }
}

/// The register file after an instruction executed. `r` is the register
/// file after the opcode fetch; `m` the memory contents before execution.
pub open spec fn exec_regs(i: Instr, r: Regs, m: Map<u16, u8>) -> Regs {
    match i {
        Instr::Lda(mo) => {
            let v = m[mode_addr(mo, r, m)];
            Regs { ac: v, sr: znp(r.sr, v), pc: wadd16(r.pc, operand_len(mo)), ..r }
        },
        Instr::Ldx(mo) => {
            let v = m[mode_addr(mo, r, m)];
            Regs { x: v, sr: znp(r.sr, v), pc: wadd16(r.pc, operand_len(mo)), ..r }
        },
        Instr::Ldy(mo) => {
            let v = m[mode_addr(mo, r, m)];
            Regs { y: v, sr: znp(r.sr, v), pc: wadd16(r.pc, operand_len(mo)), ..r }
        },
        Instr::Sta(mo) => Regs { pc: wadd16(r.pc, operand_len(mo)), ..r },
        Instr::Stx(mo) => Regs { pc: wadd16(r.pc, operand_len(mo)), ..r },
        Instr::Sty(mo) => Regs { pc: wadd16(r.pc, operand_len(mo)), ..r },
        Instr::Tax => Regs { x: r.ac, sr: znp(r.sr, r.ac), ..r },
        Instr::Tay => Regs { y: r.ac, sr: znp(r.sr, r.ac), ..r },
        Instr::Tsx => Regs { x: r.sp, sr: znp(r.sr, r.sp), ..r },
        Instr::Txa => Regs { ac: r.x, sr: znp(r.sr, r.x), ..r },
        Instr::Txs => Regs { sp: r.x, ..r },
        Instr::Tya => Regs { ac: r.y, sr: znp(r.sr, r.y), ..r },
        Instr::Pha => Regs { sp: wsub8(r.sp, 1), ..r },
        Instr::Php => Regs { sp: wsub8(r.sp, 1), ..r },
        Instr::Pla => {
            let v = m[stack_addr(wadd8(r.sp, 1))];
            Regs { ac: v, sr: znp(r.sr, v), sp: wadd8(r.sp, 1), ..r }
        },
        Instr::Plp => Regs {
            sr: m[stack_addr(wadd8(r.sp, 1))] | 0x20,
            sp: wadd8(r.sp, 1),
            ..r
        },
        Instr::Asl(mo) => match mo {
            Mode::Accumulator => Regs {
                ac: asl_val(r.ac),
                sr: shift_flags(r.sr, asl_val(r.ac), asl_carry(r.ac)),
                ..r
            },
            _ => {
                let v = m[mode_addr(mo, r, m)];
                Regs {
                    sr: shift_flags(r.sr, asl_val(v), asl_carry(v)),
                    pc: wadd16(r.pc, operand_len(mo)),
                    ..r
                }
            },
        },
        Instr::Lsr(mo) => match mo {
            Mode::Accumulator => Regs {
                ac: lsr_val(r.ac),
                sr: shift_flags(r.sr, lsr_val(r.ac), lsr_carry(r.ac)),
                ..r
            },
            _ => {
                let v = m[mode_addr(mo, r, m)];
                Regs {
                    sr: shift_flags(r.sr, lsr_val(v), lsr_carry(v)),
                    pc: wadd16(r.pc, operand_len(mo)),
                    ..r
                }
            },
        },
    }
}

/// The memory contents after an instruction executed.
pub open spec fn exec_mem(i: Instr, r: Regs, m: Map<u16, u8>) -> Map<u16, u8> {
    match i {
        Instr::Sta(mo) => m.insert(mode_addr(mo, r, m), r.ac),
        Instr::Stx(mo) => m.insert(mode_addr(mo, r, m), r.x),
        Instr::Sty(mo) => m.insert(mode_addr(mo, r, m), r.y),
        Instr::Pha => m.insert(stack_addr(r.sp), r.ac),
        Instr::Php => m.insert(stack_addr(r.sp), r.sr),
        Instr::Asl(mo) => match mo {
            Mode::Accumulator => m,
            _ => m.insert(mode_addr(mo, r, m), asl_val(m[mode_addr(mo, r, m)])),
        },
        Instr::Lsr(mo) => match mo {
            Mode::Accumulator => m,
            _ => m.insert(mode_addr(mo, r, m), lsr_val(m[mode_addr(mo, r, m)])),
        },
        _ => m,
    }
}

/// The base cycle cost of an instruction, per the hardware reference timing
/// table. Page-cross penalties come on top for the indexed loads.
pub open spec fn base_cycles(i: Instr) -> u64 {
    match i {
        Instr::Lda(mo) => load_cycles(mo),
        Instr::Ldx(mo) => load_cycles(mo),
        Instr::Ldy(mo) => load_cycles(mo),
        Instr::Sta(mo) => store_cycles(mo),
        Instr::Stx(mo) => store_cycles(mo),
        Instr::Sty(mo) => store_cycles(mo),
        Instr::Tax => 2,
        Instr::Tay => 2,
        Instr::Tsx => 2,
        Instr::Txa => 2,
        Instr::Txs => 2,
        Instr::Tya => 2,
        Instr::Pha => 3,
        Instr::Php => 3,
        Instr::Pla => 4,
        Instr::Plp => 4,
        Instr::Asl(mo) => shift_cycles(mo),
        Instr::Lsr(mo) => shift_cycles(mo),
    }
}

/// Base cycles of the load family by mode.
pub open spec fn load_cycles(mode: Mode) -> u64 {
    match mode {
        Mode::Immediate => 2,
        Mode::ZeroPage => 3,
        Mode::ZeroPageX => 4,
        Mode::ZeroPageY => 4,
        Mode::Absolute => 4,
        Mode::AbsoluteX => 4,
        Mode::AbsoluteY => 4,
        Mode::ZeroPageXIndirect => 6,
        Mode::ZeroPageYIndirect => 5,
        Mode::Accumulator => 0,
    }
}

/// Base cycles of the store family by mode. The indexed variants always
/// pay the extra cycle, so no separate penalty is charged.
pub open spec fn store_cycles(mode: Mode) -> u64 {
    match mode {
        Mode::ZeroPage => 3,
        Mode::ZeroPageX => 4,
        Mode::ZeroPageY => 4,
        Mode::Absolute => 4,
        Mode::AbsoluteX => 5,
        Mode::AbsoluteY => 5,
        Mode::ZeroPageXIndirect => 6,
        Mode::ZeroPageYIndirect => 6,
        _ => 0,
    }
}

/// Base cycles of the shift family by mode. Read-modify-write forms pay
/// their indexing cost unconditionally.
pub open spec fn shift_cycles(mode: Mode) -> u64 {
    match mode {
        Mode::Accumulator => 2,
        Mode::ZeroPage => 5,
        Mode::ZeroPageX => 6,
        Mode::Absolute => 6,
        Mode::AbsoluteX => 7,
        _ => 0,
    }
}

/// The cycles an instruction elapses: its base cost, plus the page-cross
/// penalty for the loads whose timing depends on it.
pub open spec fn exec_cycles(i: Instr, r: Regs, m: Map<u16, u8>) -> u64 {
    match i {
        Instr::Lda(mo) => (load_cycles(mo) + mode_penalty(mo, r, m)) as u64,
        Instr::Ldx(mo) => (load_cycles(mo) + mode_penalty(mo, r, m)) as u64,
        Instr::Ldy(mo) => (load_cycles(mo) + mode_penalty(mo, r, m)) as u64,
        _ => base_cycles(i),
    }
}

/// Every access one `step` makes is serviceable: the opcode fetch, and,
/// for a defined opcode, each access its instruction makes. `r` is the
/// register file before the fetch.
pub open spec fn step_ok<M: crate::bus::Memory>(r: Regs, m: Map<u16, u8>) -> bool {
    &&& M::readable(r.pc)
    &&& match decode(m[r.pc]) {
        Some(i) => instr_ok::<M>(i, fetched(r), m),
        None => true,
    }
}

/// The register file after one `step`: the fetched instruction's effect,
/// or, for an undefined opcode, only the program counter advanced past the
/// fetch.
pub open spec fn step_regs(r: Regs, m: Map<u16, u8>) -> Regs {
    match decode(m[r.pc]) {
        Some(i) => exec_regs(i, fetched(r), m),
        None => fetched(r),
    }
}

/// The memory contents after one `step`.
pub open spec fn step_mem(r: Regs, m: Map<u16, u8>) -> Map<u16, u8> {
    match decode(m[r.pc]) {
        Some(i) => exec_mem(i, fetched(r), m),
        None => m,
    }
}

} // verus!

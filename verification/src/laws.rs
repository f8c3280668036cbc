//! The general properties of the core, proved once and for all inputs:
//! the page-cross penalty rule of indexed addressing, the same-page wrap
//! of the indirect high-byte read, the confinement of zero-page indexing
//! to page zero, and the stack push/pull round trip.

use vstd::prelude::*;

use crate::isa::{
    addr16, cross_penalty, high_byte, indirect_high_addr, indirect_target, stack_addr, wadd16,
    wadd8, wsub8,
};

verus! {

/// For every 16-bit base and 8-bit index, absolute-indexed addressing
/// resolves to (base + index) mod 65536 and charges its one-cycle penalty
/// exactly when the high byte of the effective address differs from the
/// high byte of the base.
pub proof fn lemma_indexed_page_cross(base: u16, index: u8)
    ensures
        wadd16(base, index as u16) == ((base + index) % 0x10000) as u16,
        (cross_penalty(base, wadd16(base, index as u16)) == 1) <==> (high_byte(base) != high_byte(
            wadd16(base, index as u16),
        )),
        (cross_penalty(base, wadd16(base, index as u16)) == 0) <==> (high_byte(base) == high_byte(
            wadd16(base, index as u16),
        )),
{
    let eff = wadd16(base, index as u16);
    assert((base & 0xFF00 == eff & 0xFF00) <==> (((base >> 8) as u8) == ((eff >> 8) as u8)))
        by (bit_vector);
}

/// For every pointer whose low byte is 0xFF, the indirect target's high
/// byte is read from the start of the pointer's own page, base & 0xFF00,
/// and never from base + 1.
pub proof fn lemma_indirect_page_wrap(m: Map<u16, u8>, base: u16)
    requires
        base & 0x00FF == 0x00FF,
    ensures
        indirect_high_addr(base) == base & 0xFF00,
        indirect_high_addr(base) != wadd16(base, 1),
        indirect_target(m, base) == addr16(m[base], m[base & 0xFF00]),
{
    let t = wadd16(base, 1);
    if base == 0xFFFF {
        assert(0xFFFFu16 & 0xFF00u16 == 0xFF00u16) by (bit_vector);
    } else {
        assert((base & 0x00FF == 0x00FF && t == base + 1) ==> base & 0xFF00 != t)
            by (bit_vector);
    }
}

/// Zero-page indexed addressing never leaves page zero: the effective
/// address is (base + index) mod 256, and its page is 0.
pub proof fn lemma_zero_page_indexed_wraps(base: u8, index: u8)
    ensures
        wadd8(base, index) == ((base + index) % 0x100) as u8,
        high_byte(wadd8(base, index) as u16) == 0,
{
    let e = wadd8(base, index);
    assert(((e as u16) >> 8) as u8 == 0) by (bit_vector);
}

/// Stack round trip: pushing a byte and pulling straight after returns
/// that byte and restores the stack pointer. Push writes the pointer's
/// slot and decrements the pointer modulo 256; pull increments first and
/// reads the slot it lands on, which is the slot just written.
pub proof fn lemma_stack_round_trip(m: Map<u16, u8>, sp: u8, v: u8)
    ensures
        wadd8(wsub8(sp, 1), 1) == sp,
        m.insert(stack_addr(sp), v)[stack_addr(wadd8(wsub8(sp, 1), 1))] == v,
{
}

} // verus!

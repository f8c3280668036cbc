//! The memory capability the core drives, and two backing stores for it: the
//! console bus with its partial address decoding, and a flat 64 KB store
//! that services the whole address space.

use vstd::prelude::*;

verus! {

/// A byte-addressed store over the 16-bit address space. Which addresses a
/// store can service is its own concern: `readable` and `writable` name the
/// mapped ranges, and the core asks for exactly the accesses an instruction
/// makes. `mem` is the store's contents at every readable address; a write
/// updates that map at the written address and nowhere else.
pub trait Memory: Sized {
    /// Well-formedness of the backing store.
    spec fn inv(&self) -> bool;

    /// The bytes the store holds.
    spec fn mem(&self) -> Map<u16, u8>;

    /// The addresses a read can service.
    spec fn readable(address: u16) -> bool;

    /// The addresses a write can service.
    spec fn writable(address: u16) -> bool;

    fn read(&self, address: u16) -> (value: u8)
        requires
            self.inv(),
            Self::readable(address),
        ensures
            value == self.mem()[address],
    ;

    fn write(&mut self, address: u16, value: u8)
        requires
            old(self).inv(),
            Self::writable(address),
        ensures
            final(self).inv(),
            final(self).mem() =~= old(self).mem().insert(address, value),
    ;
}

/// A flat backing store covering the whole 64 KB address space, every
/// address readable and writable. Hosts that map no peripherals, and test
/// harnesses, drive the core over one of these.
pub struct FlatRam {
    pub cells: Vec<u8>,
}

impl FlatRam {
    /// A fresh store, all 65536 bytes zero.
    pub fn new() -> (r: FlatRam)
        ensures
            r.inv(),
            forall|a: u16| r.mem()[a] == 0u8,
    {
        let mut cells: Vec<u8> = Vec::new();
        let mut i: usize = 0;
        while i < 0x10000
            invariant
                i <= 0x10000,
                cells@.len() == i,
                forall|k: int| 0 <= k < i ==> cells@[k] == 0u8,
            decreases 0x10000 - i,
        {
            cells.push(0u8);
            i = i + 1;
        }
        FlatRam { cells }
    }
}

impl Memory for FlatRam {
    open spec fn inv(&self) -> bool {
        self.cells@.len() == 0x10000
    }

    open spec fn mem(&self) -> Map<u16, u8> {
        Map::new(|a: u16| true, |a: u16| self.cells@[a as int])
    }

    open spec fn readable(address: u16) -> bool {
        true
    }

    open spec fn writable(address: u16) -> bool {
        true
    }

    fn read(&self, address: u16) -> (value: u8) {
        self.cells[address as usize]
    }

    fn write(&mut self, address: u16, value: u8) {
        self.cells.set(address as usize, value);
        proof {
            assert forall|a: u16|
                self.mem()[a] == old(self).mem().insert(address, value)[a] by {
            }
            assert(self.mem() =~= old(self).mem().insert(address, value));
        }
    }
}

/// The console bus: 2 KB of work RAM decoded at 0x0000-0x07FF, and a
/// seven-byte window of picture-unit registers at 0x2000-0x2007. Reads of
/// the register window mirror its first two bytes; the window is not
/// writable through the `Memory` contract, since the registers' write
/// behaviour belongs to the picture unit, not to this core. Every other
/// address signals a missing hardware mapping and is left unserviceable.
pub struct Bus {
    pub ram: Vec<u8>,
    pub ppu: Vec<u8>,
}

impl Bus {
    /// A bus with its RAM and register window zeroed.
    pub fn new() -> (r: Bus)
        ensures
            r.inv(),
            r.ram@.len() == 0x800,
            r.ppu@.len() == 7,
            forall|a: u16| <Bus as Memory>::readable(a) ==> r.mem()[a] == 0u8,
    {
        let mut ram: Vec<u8> = Vec::new();
        let mut i: usize = 0;
        while i < 0x800
            invariant
                i <= 0x800,
                ram@.len() == i,
                forall|k: int| 0 <= k < i ==> ram@[k] == 0u8,
            decreases 0x800 - i,
        {
            ram.push(0u8);
            i = i + 1;
        }
        let mut ppu: Vec<u8> = Vec::new();
        let mut j: usize = 0;
        while j < 7
            invariant
                j <= 7,
                ppu@.len() == j,
                forall|k: int| 0 <= k < j ==> ppu@[k] == 0u8,
            decreases 7 - j,
        {
            ppu.push(0u8);
            j = j + 1;
        }
        let r = Bus { ram, ppu };
        proof {
            assert forall|a: u16| <Bus as Memory>::readable(a) implies r.mem()[a] == 0u8 by {
                assert((a & 0x0001) < 2) by (bit_vector);
            }
        }
        r
    }
}

impl Memory for Bus {
    open spec fn inv(&self) -> bool {
        self.ram@.len() == 0x800 && self.ppu@.len() == 7
    }

    open spec fn mem(&self) -> Map<u16, u8> {
        Map::new(
            |a: u16| a < 0x0800 || (0x2000 <= a && a <= 0x2007),
            |a: u16|
                if a < 0x0800 {
                    self.ram@[a as int]
                } else {
                    self.ppu@[(a & 0x0001) as int]
                },
        )
    }

    open spec fn readable(address: u16) -> bool {
        address < 0x0800 || (0x2000 <= address && address <= 0x2007)
    }

    open spec fn writable(address: u16) -> bool {
        address < 0x0800
    }

    fn read(&self, address: u16) -> (value: u8) {
        if address < 0x0800 {
            proof {
                assert(address < 0x0800 ==> (address & 0x07FF) == address) by (bit_vector);
            }
            self.ram[(address & 0x07FF) as usize]
        } else {
            proof {
                assert((address & 0x0001) < 2) by (bit_vector);
            }
            self.ppu[(address & 0x0001) as usize]
        }
    }

    fn write(&mut self, address: u16, value: u8) {
        proof {
            assert(address < 0x0800 ==> (address & 0x07FF) == address) by (bit_vector);
        }
        self.ram.set((address & 0x07FF) as usize, value);
        proof {
            let m0 = old(self).mem().insert(address, value);
            assert forall|a: u16| self.mem().dom().contains(a) implies #[trigger] self.mem()[a]
                == m0[a] by {
            }
            assert forall|a: u16|
                self.mem().dom().contains(a) <==> #[trigger] m0.dom().contains(a) by {
            }
            assert(self.mem().dom() =~= m0.dom());
            assert(self.mem() =~= m0);
        }
    }
}

} // verus!

use vstd::prelude::*;

verus! {

/// Number of addressable bytes: every `u16` names one.
pub const MEMORY_SIZE: usize = 0x10000;

/// The address that follows `addr`, wrapping from the top of the space to 0.
pub open spec fn next_addr(addr: u16) -> u16 {
    if addr == 0xFFFF {
        0
    } else {
        (addr + 1) as u16
    }
}

/// The byte at `addr` of a memory image.
pub open spec fn byte_at(mem: Seq<u8>, addr: u16) -> u8 {
    mem[addr as int]
}

/// Little-endian 16-bit value: low byte at `addr`, high byte at the next address.
pub open spec fn word_at(mem: Seq<u8>, addr: u16) -> u16 {
    (byte_at(mem, addr) as int + 256 * byte_at(mem, next_addr(addr)) as int) as u16
}

/// The low byte of a 16-bit value.
pub open spec fn low_byte(value: u16) -> u8 {
    (value % 256) as u8
}

/// The high byte of a 16-bit value.
pub open spec fn high_byte(value: u16) -> u8 {
    (value / 256) as u8
}

/// A memory image after storing `value` little-endian at `addr`.
pub open spec fn with_word(mem: Seq<u8>, addr: u16, value: u16) -> Seq<u8> {
    mem.update(addr as int, low_byte(value)).update(next_addr(addr) as int, high_byte(value))
}

/// A memory image after copying `bytes` verbatim to consecutive addresses from `origin`.
pub open spec fn with_bytes(mem: Seq<u8>, origin: int, bytes: Seq<u8>) -> Seq<u8> {
    Seq::new(
        mem.len(),
        |i: int|
            if origin <= i < origin + bytes.len() {
                bytes[i - origin]
            } else {
                mem[i]
            },
    )
}

/// A full address space of bytes; every address is always readable and writable.
pub struct Memory {
    bytes: Vec<u8>,
}

impl View for Memory {
    type V = Seq<u8>;

    closed spec fn view(&self) -> Seq<u8> {
        self.bytes@
    }
}

impl Memory {
    /// Every `u16` address is backed by a byte.
    pub open spec fn wf(&self) -> bool {
        self@.len() == MEMORY_SIZE
    }

    /// A zero-filled address space.
    pub fn new() -> (m: Memory)
        ensures
            m.wf(),
            m@ == Seq::new(MEMORY_SIZE as nat, |_i: int| 0u8),
    {
        let mut bytes: Vec<u8> = Vec::new();
        let mut i: usize = 0;
        while i < MEMORY_SIZE
            invariant
                i <= MEMORY_SIZE,
                bytes@ == Seq::new(i as nat, |_i: int| 0u8),
            decreases MEMORY_SIZE - i,
        {
            bytes.push(0);
            i = i + 1;
        }
        Memory { bytes }
    }

    /// The byte last written at `addr` (0 if never written).
    pub fn read(&self, addr: u16) -> (r: u8)
        requires
            self.wf(),
        ensures
            r == byte_at(self@, addr),
    {
        self.bytes[addr as usize]
    }

    /// Stores `value` at `addr`, leaving every other address as it was.
    pub fn write(&mut self, addr: u16, value: u8)
        requires
            old(self).wf(),
        ensures
            final(self).wf(),
            final(self)@ == old(self)@.update(addr as int, value),
    {
        self.bytes.set(addr as usize, value);
    }

    /// The little-endian 16-bit value at `addr` and the next address (wrapping).
    pub fn read16(&self, addr: u16) -> (r: u16)
        requires
            self.wf(),
        ensures
            r == word_at(self@, addr),
    {
        let lo = self.read(addr) as u16;
        let hi = self.read(next_address(addr)) as u16;
        hi * 256 + lo
    }

    /// Stores `value` little-endian: low byte at `addr`, high byte at the next address.
    pub fn write16(&mut self, addr: u16, value: u16)
        requires
            old(self).wf(),
        ensures
            final(self).wf(),
            final(self)@ == with_word(old(self)@, addr, value),
    {
        let lo = (value % 256) as u8;
        let hi = (value / 256) as u8;
        self.write(addr, lo);
        self.write(next_address(addr), hi);
    }

    /// Copies `bytes` verbatim to consecutive addresses starting at `origin`.
    pub fn write_bytes(&mut self, origin: u16, bytes: &Vec<u8>)
        requires
            old(self).wf(),
            origin as int + bytes@.len() <= MEMORY_SIZE,
        ensures
            final(self).wf(),
            final(self)@ == with_bytes(old(self)@, origin as int, bytes@),
    {
        let ghost start = self@;
        let mut i: usize = 0;
        while i < bytes.len()
            invariant
                self.wf(),
                i <= bytes@.len(),
                origin as int + bytes@.len() <= MEMORY_SIZE,
                self@ == with_bytes(start, origin as int, bytes@.subrange(0, i as int)),
            decreases bytes@.len() - i,
        {
            let addr = origin as usize + i;
            self.bytes.set(addr, bytes[i]);
            i = i + 1;
            assert(self@ =~= with_bytes(start, origin as int, bytes@.subrange(0, i as int)));
        }
        assert(bytes@.subrange(0, bytes@.len() as int) =~= bytes@);
    }
}

/// Executable form of `next_addr`.
pub fn next_address(addr: u16) -> (r: u16)
    ensures
        r == next_addr(addr),
{
    if addr == 0xFFFF {
        0
    } else {
        addr + 1
    }
}

/// Storing a 16-bit value and reading it back at the same address gives the value.
pub proof fn lemma_word_round_trip(mem: Seq<u8>, addr: u16, value: u16)
    requires
        mem.len() == MEMORY_SIZE,
    ensures
        word_at(with_word(mem, addr, value), addr) == value,
{
    assert(next_addr(addr) != addr);
}

} // verus!

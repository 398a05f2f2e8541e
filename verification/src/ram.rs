//! Fixed-size byte storage with local addressing.

use vstd::prelude::*;

verus! {

/// An `N`-byte block of zero-initialised memory, addressed `0..N-1`.
///
/// Reads and writes are unchecked within that range: the caller (the bus)
/// guarantees range membership after rebasing an absolute address.
pub struct Ram<const N: usize> {
    bytes: Vec<u8>,
}

impl<const N: usize> View for Ram<N> {
    type V = Seq<u8>;

    closed spec fn view(&self) -> Seq<u8> {
        self.bytes@
    }
}

impl<const N: usize> Ram<N> {
    /// The stored block always holds exactly `N` bytes.
    pub open spec fn wf(self) -> bool {
        self@.len() == N
    }

    pub fn new() -> (ram: Ram<N>)
        ensures
            ram.wf(),
            ram@ == Seq::new(N as nat, |i: int| 0u8),
    {
        let mut bytes: Vec<u8> = Vec::new();
        let mut i: usize = 0;
        while i < N
            invariant
                i <= N,
                bytes@.len() == i,
                forall|j: int| 0 <= j < i ==> bytes@[j] == 0u8,
            decreases N - i,
        {
            bytes.push(0);
            i = i + 1;
        }
        let ram = Ram { bytes };
        proof {
            assert(ram@ =~= Seq::new(N as nat, |i: int| 0u8));
        }
        ram
    }

    /// The number of bytes stored: `N` whenever the block is well formed.
    pub fn len(&self) -> (length: usize)
        ensures
            length == self@.len(),
    {
        self.bytes.len()
    }

    pub fn read_byte(&self, address: u16) -> (byte: u8)
        requires
            self.wf(),
            (address as int) < N,
        ensures
            byte == self@[address as int],
    {
        self.bytes[address as usize]
    }

    pub fn write_byte(&mut self, address: u16, value: u8)
        requires
            old(self).wf(),
            (address as int) < N,
        ensures
            final(self).wf(),
            final(self)@ == old(self)@.update(address as int, value),
    {
        self.bytes[address as usize] = value;
    }
}

impl<const N: usize> Default for Ram<N> {
    fn default() -> (ram: Ram<N>)
        ensures
            ram.wf(),
            ram@ == Seq::new(N as nat, |i: int| 0u8),
    {
        Ram::new()
    }
}

} // verus!

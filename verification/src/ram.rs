use vstd::prelude::*;

use crate::region::MemoryRegion;

verus! {

/// A block of `N` bytes of RAM, addressed from 0.
pub struct Ram<const N: usize> {
    pub bytes: [u8; N],
}

impl<const N: usize> Ram<N> {
    pub fn new() -> (r: Self)
        ensures
            r.bytes@ == Seq::new(N as nat, |i: int| 0u8),
    {
        let r = Self { bytes: [0u8; N] };
        assert(r.bytes@ =~= Seq::new(N as nat, |i: int| 0u8));
        r
    }

}

impl<const N: usize> MemoryRegion for Ram<N> {
    open spec fn maps(address: u16) -> bool {
        address < N
    }

    open spec fn inv(&self) -> bool {
        true
    }

    /// The byte at `address`.
    fn read(&self, address: u16) -> (r: u8)
        ensures
            r == self.bytes@[address as int],
    {
        self.bytes[address as usize]
    }

    /// Store `value` at `address`.
    fn write(&mut self, address: u16, value: u8)
        ensures
            final(self).bytes@ == old(self).bytes@.update(address as int, value),
            *final(self) == (Ram::<N> { bytes: vstd::array::spec_array_update(old(self).bytes, address as int, value) }),
    {
        self.bytes[address as usize] = value;
    }
}

} // verus!

//! A plain region: a run of bytes at a base address, one cycle per transfer.

use crate::access::MemoryAccess;
use crate::bus::{Addr, Bus};
use vstd::prelude::*;

verus! {

/// Bytes held in memory from `base` upwards. Every transfer costs one cycle,
/// whatever its width and whether or not it continues a burst.
pub struct Ram {
    /// The address of the first byte.
    pub base: Addr,
    /// The bytes, lowest address first.
    pub bytes: Vec<u8>,
}

impl Bus for Ram {
    open spec fn storage(&self) -> Map<int, u8> {
        Map::new(
            |a: int| self.base <= a < self.base + self.bytes@.len(),
            |a: int| self.bytes@[a - self.base],
        )
    }

    open spec fn cycle_cost(&self, addr: Addr, access: MemoryAccess) -> usize {
        1
    }

    fn get_bytes(&self, addr: Addr, len: usize) -> (view: &[u8]) {
        let all = self.bytes.as_slice();
        if len == 0 {
            let (head, _) = all.split_at(0);
            head
        } else {
            assert(self.storage().dom().contains(addr as int));
            assert(self.storage().dom().contains(addr + len - 1));
            let start = (addr - self.base) as usize;
            let (_, rest) = all.split_at(start);
            let (view, _) = rest.split_at(len);
            view
        }
    }

    fn get_bytes_mut(&mut self, addr: Addr, len: usize) -> (view: &mut [u8]) {
        let all = self.bytes.as_mut_slice();
        if len == 0 {
            let (head, _) = all.split_at_mut(0);
            head
        } else {
            assert(old(self).storage().dom().contains(addr as int));
            assert(old(self).storage().dom().contains(addr + len - 1));
            let start = (addr - self.base) as usize;
            let (_, rest) = all.split_at_mut(start);
            let (view, _) = rest.split_at_mut(len);
            view
        }
    }

    fn get_cycles(&self, addr: Addr, access: MemoryAccess) -> (cycles: usize) {
        1
    }
}

} // verus!

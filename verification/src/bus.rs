//! The capability that every memory region offers to the core.

use crate::access::MemoryAccess;
use crate::endian::{
    le_bytes_u16, le_bytes_u32, le_u16, le_u32, lemma_le_u16_round_trip,
    lemma_le_u32_round_trip, put_u16, put_u32, put_u8, read_u16_le, read_u32_le, WriteError,
};
use vstd::prelude::*;

verus! {

/// A byte location in the unified address space.
pub type Addr = u32;

/// Whether `storage` holds every byte of `[addr, addr + len)`.
pub open spec fn covers(storage: Map<int, u8>, addr: Addr, len: nat) -> bool {
    forall|a: int| addr <= a < addr + len ==> #[trigger] storage.dom().contains(a)
}

/// The `len` bytes that `storage` holds from `addr` on, lowest address first.
pub open spec fn span(storage: Map<int, u8>, addr: Addr, len: nat) -> Seq<u8> {
    Seq::new(len, |i: int| storage[addr + i])
}

/// `storage` with `bytes` laid over it from `addr` on; every other address
/// keeps its byte.
pub open spec fn patch(storage: Map<int, u8>, addr: Addr, bytes: Seq<u8>) -> Map<int, u8> {
    Map::new(
        |a: int| storage.dom().contains(a),
        |a: int|
            if addr <= a < addr + bytes.len() {
                bytes[a - addr]
            } else {
                storage[a]
            },
    )
}

/// What a memory region offers: two views into the bytes it owns and the
/// cost of a transfer. The six typed transfers are built on the views and
/// are the same for every region.
///
/// A transfer that reaches outside the region's bytes is a fault of
/// whoever routed the address here; callers rule it out beforehand.
pub trait Bus {
    /// The bytes that the region owns, by address.
    spec fn storage(&self) -> Map<int, u8>;

    /// The number of bus cycles that a transfer costs on this region.
    spec fn cycle_cost(&self, addr: Addr, access: MemoryAccess) -> usize;

    /// The word at `addr`, its least significant byte at the lowest address.
    /// `addr` need not be aligned.
    fn read_32(&self, addr: Addr) -> (value: u32)
        requires
            covers(self.storage(), addr, 4),
        ensures
            value == le_u32(span(self.storage(), addr, 4)),
    {
        read_u32_le(self.get_bytes(addr, 4)).unwrap()
    }

    /// The half-word at `addr`, its least significant byte at the lower
    /// address. `addr` need not be aligned.
    fn read_16(&self, addr: Addr) -> (value: u16)
        requires
            covers(self.storage(), addr, 2),
        ensures
            value == le_u16(span(self.storage(), addr, 2)),
    {
        read_u16_le(self.get_bytes(addr, 2)).unwrap()
    }

    /// The byte at `addr`.
    fn read_8(&self, addr: Addr) -> (value: u8)
        requires
            covers(self.storage(), addr, 1),
        ensures
            value == self.storage()[addr as int],
    {
        self.get_bytes(addr, 1)[0]
    }

    /// Stores `value` at `addr`, least significant byte first. `addr` need
    /// not be aligned. A region that honours `get_bytes_mut` never makes
    /// this fail.
    fn write_32(&mut self, addr: Addr, value: u32) -> (r: Result<(), WriteError>)
        requires
            covers(old(self).storage(), addr, 4),
        ensures
            r is Ok,
            final(self).storage() == patch(old(self).storage(), addr, le_bytes_u32(value)),
            forall|a: Addr, access: MemoryAccess|
                final(self).cycle_cost(a, access) == old(self).cycle_cost(a, access),
    {
        put_u32(self.get_bytes_mut(addr, 4), value)
    }

    /// Stores `value` at `addr`, least significant byte first. `addr` need
    /// not be aligned. A region that honours `get_bytes_mut` never makes
    /// this fail.
    fn write_16(&mut self, addr: Addr, value: u16) -> (r: Result<(), WriteError>)
        requires
            covers(old(self).storage(), addr, 2),
        ensures
            r is Ok,
            final(self).storage() == patch(old(self).storage(), addr, le_bytes_u16(value)),
            forall|a: Addr, access: MemoryAccess|
                final(self).cycle_cost(a, access) == old(self).cycle_cost(a, access),
    {
        put_u16(self.get_bytes_mut(addr, 2), value)
    }

    /// Stores `value` at `addr`. A region that honours `get_bytes_mut` never
    /// makes this fail.
    fn write_8(&mut self, addr: Addr, value: u8) -> (r: Result<(), WriteError>)
        requires
            covers(old(self).storage(), addr, 1),
        ensures
            r is Ok,
            final(self).storage() == patch(old(self).storage(), addr, seq![value]),
            forall|a: Addr, access: MemoryAccess|
                final(self).cycle_cost(a, access) == old(self).cycle_cost(a, access),
    {
        put_u8(self.get_bytes_mut(addr, 1), value)
    }

    /// A read-only view of the `len` bytes from `addr` on.
    fn get_bytes(&self, addr: Addr, len: usize) -> (view: &[u8])
        requires
            covers(self.storage(), addr, len as nat),
        ensures
            view@.len() == len,
            view@ == span(self.storage(), addr, len as nat),
    ;

    /// An exclusive view of the `len` bytes from `addr` on. What is written
    /// through the view is what the region then holds there, and nothing
    /// else about the region changes.
    fn get_bytes_mut(&mut self, addr: Addr, len: usize) -> (view: &mut [u8])
        requires
            covers(old(self).storage(), addr, len as nat),
        ensures
            view@.len() == len,
            view@ == span(old(self).storage(), addr, len as nat),
            final(view)@.len() == len ==> final(self).storage() == patch(
                old(self).storage(),
                addr,
                final(view)@,
            ),
            forall|a: Addr, access: MemoryAccess|
                final(self).cycle_cost(a, access) == old(self).cycle_cost(a, access),
    ;

    /// The number of bus cycles that the transfer `access` at `addr` costs.
    fn get_cycles(&self, addr: Addr, access: MemoryAccess) -> (cycles: usize)
        ensures
            cycles == self.cycle_cost(addr, access),
    ;
}

/// A byte stored at an address the region owns is the byte then found there.
pub proof fn lemma_write_8_then_read_8(storage: Map<int, u8>, addr: Addr, value: u8)
    requires
        covers(storage, addr, 1),
    ensures
        patch(storage, addr, seq![value])[addr as int] == value,
{
    assert(storage.dom().contains(addr as int));
}

/// A half-word stored in two bytes the region owns is the half-word then
/// read from the same address.
pub proof fn lemma_write_16_then_read_16(storage: Map<int, u8>, addr: Addr, value: u16)
    requires
        covers(storage, addr, 2),
    ensures
        le_u16(span(patch(storage, addr, le_bytes_u16(value)), addr, 2)) == value,
{
    let bytes = le_bytes_u16(value);
    assert(storage.dom().contains(addr + 0));
    assert(storage.dom().contains(addr + 1));
    assert(span(patch(storage, addr, bytes), addr, 2) =~= bytes);
    lemma_le_u16_round_trip(value);
}

/// A word stored in four bytes the region owns is the word then read from
/// the same address.
pub proof fn lemma_write_32_then_read_32(storage: Map<int, u8>, addr: Addr, value: u32)
    requires
        covers(storage, addr, 4),
    ensures
        le_u32(span(patch(storage, addr, le_bytes_u32(value)), addr, 4)) == value,
{
    let bytes = le_bytes_u32(value);
    assert(storage.dom().contains(addr + 0));
    assert(storage.dom().contains(addr + 1));
    assert(storage.dom().contains(addr + 2));
    assert(storage.dom().contains(addr + 3));
    assert(span(patch(storage, addr, bytes), addr, 4) =~= bytes);
    lemma_le_u32_round_trip(value);
}

/// After a word is stored, its least significant byte sits at the lowest
/// address and its most significant byte at the highest.
pub proof fn lemma_write_32_byte_order(storage: Map<int, u8>, addr: Addr, value: u32)
    requires
        covers(storage, addr, 4),
    ensures
        patch(storage, addr, le_bytes_u32(value))[addr + 0] == (value & 0xff) as u8,
        patch(storage, addr, le_bytes_u32(value))[addr + 1] == ((value >> 8) & 0xff) as u8,
        patch(storage, addr, le_bytes_u32(value))[addr + 2] == ((value >> 16) & 0xff) as u8,
        patch(storage, addr, le_bytes_u32(value))[addr + 3] == ((value >> 24) & 0xff) as u8,
{
    assert(storage.dom().contains(addr + 0));
    assert(storage.dom().contains(addr + 1));
    assert(storage.dom().contains(addr + 2));
    assert(storage.dom().contains(addr + 3));
    assert(value % 256 == value & 0xff) by (bit_vector);
    assert(value / 256 % 256 == (value >> 8) & 0xff) by (bit_vector);
    assert(value / 65536 % 256 == (value >> 16) & 0xff) by (bit_vector);
    assert(value / 16777216 == (value >> 24) & 0xff) by (bit_vector);
}

/// After a half-word is stored, its low byte sits at the lower address and
/// its high byte at the higher.
pub proof fn lemma_write_16_byte_order(storage: Map<int, u8>, addr: Addr, value: u16)
    requires
        covers(storage, addr, 2),
    ensures
        patch(storage, addr, le_bytes_u16(value))[addr + 0] == (value & 0xff) as u8,
        patch(storage, addr, le_bytes_u16(value))[addr + 1] == ((value >> 8) & 0xff) as u8,
{
    assert(storage.dom().contains(addr + 0));
    assert(storage.dom().contains(addr + 1));
    assert(value % 256 == value & 0xff) by (bit_vector);
    assert(value / 256 == (value >> 8) & 0xff) by (bit_vector);
}

} // verus!

//! The uniform access contract between a CPU core and the memory regions
//! behind its bus: typed little-endian transfers and a per-transfer cost.

pub mod access;
pub mod bus;
pub mod endian;
pub mod ram;

pub use access::{MemoryAccess, MemoryAccessType, MemoryAccessWidth};
pub use bus::{Addr, Bus};
pub use endian::WriteError;
pub use ram::Ram;

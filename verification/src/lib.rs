//! A concurrent key/value container.
//!
//! One associative store sits behind one verified reader-writer lock.
//! `insert`, `get` and `remove` each acquire the lock for the duration of a
//! single call; `entry` hands out a lock-holding state machine
//! ([`Entry`]) for atomic check-then-act sequences, and a terminal entry
//! operation narrows the exclusive access down to one value slot
//! ([`MappedWriteGuard`]) until the caller releases it.

pub mod entry;
pub mod laws;
pub mod map;

pub use entry::Entry;
pub use entry::MappedWriteGuard;
pub use entry::OccupiedEntry;
pub use entry::VacantEntry;
pub use map::CarbonMap;

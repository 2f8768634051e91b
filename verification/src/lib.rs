//! Ownership and lineage of kitties: identifier allocation, genome
//! derivation, breeding and transfer, as transitions over an explicit ledger.

pub mod allocator;
pub mod laws;
pub mod pallet;
pub mod randomness;
pub mod rules;
pub mod state;
pub mod types;

pub use allocator::IdAllocator;
pub use pallet::Pallet;
pub use types::{AccountId, AllocationExhausted, Error, Event, Kitty, KittyId};

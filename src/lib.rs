//! Per-account record store: each signed account may register, move and
//! remove one record of coordinates stamped with the block height of its
//! last change, and every change is announced by an event.
pub mod coord_store;
pub mod laws;
pub mod pallet;
pub mod record;
pub mod types;

pub use coord_store::{CoordEntry, CoordEvent, CoordStore, Coordinates};
pub use pallet::Pallet;
pub use record::{add_record, remove_record, update_record};
pub use types::{AccountId, BlockNumber, DispatchError, DispatchResult, Error, Event, Origin, UserState, ensure_signed};
